# codewhale

Harness postures, route budgets and the send path of a coding agent's terminal UI, as a
library whose functions carry contracts proved by Verus.

- `src/` is the library.
  - `harness`, `provider`, `wildcard`: which posture a provider/model route gets.
  - `route_budget`: context windows, output reservations and compaction thresholds.
  - `dispatch`, `preparation`, `preparation_laws`: preparing a message for the engine, as a
    machine that tells its host what to do next, and what holds of every run of it.
  - `dispatch_coordinator`: the bounded queue in front of the preparation.
  - `paused_plan`, `pending_dispatch`, `app_state`: what a send does to the application.
  - `send_latency`: timing of a send.
  - `harness_status`: the status command.
  - `text`, `workspace`: text and paths.
- `app/` is the host side: configuration files, the environment, floating-point percentages,
  the log, and the task that runs the preparation.
- `tests/` runs the library with its real dependencies.
