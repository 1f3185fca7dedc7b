//! What a run of a preparation asks of the host and sends to the engine, in terms of the
//! request that it was started for and of what the host has reported.
use vstd::prelude::*;

use crate::budget_laws::counts;
use crate::dispatch::{
    ApiProvider, AutoRouteSelection, CompactionConfig, ContentBlock, DispatchContextSnapshot,
    DispatchEvent, DispatchRequest, PreparedDispatch, ReasoningEffort, ResolvedRoute,
    UserInputProvenance,
};
use crate::paused_plan::PausedCommandPlan;
use crate::preparation::{
    first_step, full_content, leads_to, turn_goal, with_display, MessageSubmitOutcome, PrepAction,
    PrepEvent, Preparation, Step, Turn,
};
use crate::preparation_laws::{
    is_content_of, is_run, keeps_to, law_run_keeps_to_its_request, lemma_keeping_stays,
    lemma_reports_stay, reported, request_after, text_after,
};
use crate::route_budget::output_reservation;
use crate::text::white_space;

verus! {

/// The context window of a route: the one that it reports, where that counts, else the one of
/// the capability table.
pub open spec fn window_of(route: ResolvedRoute) -> int {
    if counts(route.limits.context_tokens) {
        route.limits.context_tokens->0 as int
    } else {
        route.facts.capability_window as int
    }
}

/// The output that a route reserves in its window.
pub open spec fn reserved_of(route: ResolvedRoute) -> int {
    output_reservation(route.facts, window_of(route) as u32, Some(route.limits)) as int
}

/// The room that a route leaves for input, beside the reserved output and 1,024 tokens.
pub open spec fn room_of(route: ResolvedRoute) -> int {
    let room = window_of(route) - reserved_of(route) - 1_024;
    if room < 0 {
        0
    } else {
        room
    }
}

/// Where hooks are configured, they have run and have not blocked the message.
pub open spec fn hooks_let_pass(request: DispatchRequest, events: Seq<PrepEvent>, n: int) -> bool {
    request.context.has_submit_hooks ==> exists|outcome: MessageSubmitOutcome| #[trigger]
        reported(events, n, PrepEvent::HooksRan { outcome }) && !(outcome is Blocked)
}

/// Where the message comes with a plugin authority, that is one of this workspace, and has
/// been verified.
pub open spec fn authority_holds(request: DispatchRequest, events: Seq<PrepEvent>, n: int) -> bool {
    request.message.skill_provenance matches Some(authority) ==> {
        &&& authority.workspace@ == request.context.workspace@
        &&& exists|verdict: Result<(), String>| #[trigger]
            reported(events, n, PrepEvent::AuthorityChecked { verdict }) && verdict is Ok
    }
}

/// The route has been resolved, and has passed the client preflight where that is required.
pub open spec fn route_is_cleared(
    request: DispatchRequest,
    events: Seq<PrepEvent>,
    n: int,
    route: ResolvedRoute,
) -> bool {
    if request.context.client_preflight_required {
        reported(events, n, PrepEvent::PreflightDone { route: Ok(route) })
    } else {
        reported(events, n, PrepEvent::RouteResolved { route: Ok(route) })
    }
}

/// The compaction of a turn: on as the user has set it, else as the route has it by default;
/// for the model and the window of the route; and at the measured trigger, but not above the
/// room for input. A route without a window takes the default threshold.
pub open spec fn compaction_fits(
    context: DispatchContextSnapshot,
    events: Seq<PrepEvent>,
    n: int,
    route: ResolvedRoute,
    compaction: CompactionConfig,
) -> bool {
    &&& context.auto_compact_user_configured ==> compaction.enabled == context.auto_compact
    &&& !context.auto_compact_user_configured && route.limits.context_tokens is Some ==> (
    compaction.enabled <==> window_of(route) <= context.budget_defaults.auto_compact_max_window)
    &&& !context.auto_compact_user_configured && route.limits.context_tokens is None
        ==> compaction.enabled == route.facts.auto_compact_default
    &&& compaction.model == route.model
    &&& compaction.effective_context_window matches Some(window) && window == window_of(route)
    &&& window_of(route) == 0 ==> compaction.token_threshold
        == context.budget_defaults.compaction_token_threshold
    &&& window_of(route) > 0 ==> exists|tokens: u64| #[trigger]
        reported(events, n, PrepEvent::TriggerMeasured { tokens }) && is_lesser(
            compaction.token_threshold as int,
            tokens as int,
            room_of(route),
        )
}

/// `least` is the lesser one of `a` and `b`.
pub open spec fn is_lesser(least: int, a: int, b: int) -> bool {
    least <= a && least <= b && (least == a || least == b)
}

/// The effort that was selected for a message: none where the user has set one; else that of
/// the route selection, or, where that has none, the one that the host has reported.
pub open spec fn effort_fits(
    context: DispatchContextSnapshot,
    events: Seq<PrepEvent>,
    n: int,
    auto_selection: Option<AutoRouteSelection>,
    selected: Option<ReasoningEffort>,
) -> bool {
    if !context.auto_model && context.reasoning_effort != ReasoningEffort::Auto {
        selected is None
    } else if auto_selection is Some && auto_selection->0.reasoning_effort is Some {
        selected == auto_selection->0.reasoning_effort
    } else {
        selected matches Some(effort) && reported(
            events,
            n,
            PrepEvent::ReasoningSelected { effort },
        )
    }
}

/// A turn whose route is cleared and whose compaction fits.
pub open spec fn turn_fits(
    now: DispatchRequest,
    events: Seq<PrepEvent>,
    n: int,
    turn: Turn,
) -> bool {
    &&& route_is_cleared(now, events, n, turn.route)
    &&& compaction_fits(now.context, events, n, turn.route, turn.compaction)
}

/// What is committed fits a route that is cleared: its identity and name are shown, its
/// compaction is taken.
pub open spec fn commit_fits(
    now: DispatchRequest,
    events: Seq<PrepEvent>,
    n: int,
    route: ResolvedRoute,
    prepared: PreparedDispatch,
) -> bool {
    &&& route_is_cleared(now, events, n, route)
    &&& compaction_fits(now.context, events, n, route, prepared.turn_compaction)
    &&& prepared.effective_provider_identity == route.identity_key
    &&& prepared.effective_provider == ApiProvider::Custom ==> prepared.effective_provider_label
        == route.identity_key
    &&& prepared.effective_provider != ApiProvider::Custom ==> prepared.effective_provider_label
        == route.provider_display_name
    &&& effort_fits(
        now.context,
        events,
        n,
        prepared.auto_selection,
        prepared.selected_reasoning_effort,
    )
}

/// What a preparation has made sure of when it is in `state` after `n` events.
pub open spec fn made_sure(
    now: DispatchRequest,
    events: Seq<PrepEvent>,
    n: int,
    state: Preparation,
) -> bool {
    match state {
        Preparation::Hooks { .. } => true,
        Preparation::References { .. } => hooks_let_pass(now, events, n),
        Preparation::Authority { .. } => {
            &&& hooks_let_pass(now, events, n)
            &&& now.message.skill_provenance matches Some(authority)
            &&& authority.workspace@ == now.context.workspace@
        },
        Preparation::Mentions { .. } => hooks_let_pass(now, events, n) && authority_holds(
            now,
            events,
            n,
        ),
        Preparation::AutoRoute { .. } => hooks_let_pass(now, events, n) && authority_holds(
            now,
            events,
            n,
        ),
        Preparation::Route { .. } => hooks_let_pass(now, events, n) && authority_holds(
            now,
            events,
            n,
        ),
        Preparation::Preflight { .. } => {
            &&& hooks_let_pass(now, events, n)
            &&& authority_holds(now, events, n)
            &&& now.context.client_preflight_required
        },
        Preparation::Trigger { route, .. } => {
            &&& hooks_let_pass(now, events, n)
            &&& authority_holds(now, events, n)
            &&& route_is_cleared(now, events, n, route)
            &&& window_of(route) > 0
        },
        Preparation::Prompt { turn } => {
            &&& hooks_let_pass(now, events, n)
            &&& authority_holds(now, events, n)
            &&& turn_fits(now, events, n, turn)
        },
        Preparation::Reasoning { turn, .. } => {
            &&& hooks_let_pass(now, events, n)
            &&& authority_holds(now, events, n)
            &&& turn_fits(now, events, n, turn)
            &&& now.context.auto_model || now.context.reasoning_effort == ReasoningEffort::Auto
            &&& turn.draft.auto_selection matches Some(chosen) ==> chosen.reasoning_effort is None
        },
        Preparation::Effort { turn, selected, .. } => {
            &&& hooks_let_pass(now, events, n)
            &&& authority_holds(now, events, n)
            &&& turn_fits(now, events, n, turn)
            &&& effort_fits(now.context, events, n, turn.draft.auto_selection, selected)
        },
        Preparation::Engine { prepared } => {
            &&& hooks_let_pass(now, events, n)
            &&& authority_holds(now, events, n)
            &&& exists|route: ResolvedRoute| #[trigger]
                commit_fits(now, events, n, route, prepared)
        },
        Preparation::Finished => true,
    }
}

proof fn lemma_hooks_stay(now: DispatchRequest, events: Seq<PrepEvent>, n: int)
    requires
        0 < n <= events.len(),
    ensures
        hooks_let_pass(now, events, n - 1) ==> hooks_let_pass(now, events, n),
{
    lemma_reports_stay(events, n);
    if hooks_let_pass(now, events, n - 1) && now.context.has_submit_hooks {
        let outcome = choose|outcome: MessageSubmitOutcome| #[trigger]
            reported(events, n - 1, PrepEvent::HooksRan { outcome }) && !(outcome is Blocked);
        assert(reported(events, n, PrepEvent::HooksRan { outcome }));
    }
}

proof fn lemma_authority_stays(now: DispatchRequest, events: Seq<PrepEvent>, n: int)
    requires
        0 < n <= events.len(),
    ensures
        authority_holds(now, events, n - 1) ==> authority_holds(now, events, n),
{
    lemma_reports_stay(events, n);
    if authority_holds(now, events, n - 1) && now.message.skill_provenance is Some {
        let verdict = choose|verdict: Result<(), String>| #[trigger]
            reported(events, n - 1, PrepEvent::AuthorityChecked { verdict }) && verdict is Ok;
        assert(reported(events, n, PrepEvent::AuthorityChecked { verdict }));
    }
}

proof fn lemma_compaction_stays(
    context: DispatchContextSnapshot,
    events: Seq<PrepEvent>,
    n: int,
    route: ResolvedRoute,
    compaction: CompactionConfig,
)
    requires
        0 < n <= events.len(),
        compaction_fits(context, events, n - 1, route, compaction),
    ensures
        compaction_fits(context, events, n, route, compaction),
{
    lemma_reports_stay(events, n);
    if window_of(route) > 0 {
        let tokens = choose|tokens: u64| #[trigger]
            reported(events, n - 1, PrepEvent::TriggerMeasured { tokens }) && is_lesser(
                compaction.token_threshold as int,
                tokens as int,
                room_of(route),
            );
        assert(reported(events, n, PrepEvent::TriggerMeasured { tokens }));
    }
}

proof fn lemma_sureness_stays(
    now: DispatchRequest,
    events: Seq<PrepEvent>,
    n: int,
    state: Preparation,
)
    requires
        0 < n <= events.len(),
        made_sure(now, events, n - 1, state),
    ensures
        made_sure(now, events, n, state),
{
    lemma_reports_stay(events, n);
    lemma_hooks_stay(now, events, n);
    lemma_authority_stays(now, events, n);
    match state {
        Preparation::Prompt { turn } => {
            lemma_compaction_stays(now.context, events, n, turn.route, turn.compaction);
        },
        Preparation::Reasoning { turn, .. } => {
            lemma_compaction_stays(now.context, events, n, turn.route, turn.compaction);
        },
        Preparation::Effort { turn, .. } => {
            lemma_compaction_stays(now.context, events, n, turn.route, turn.compaction);
        },
        Preparation::Engine { prepared } => {
            let route = choose|route: ResolvedRoute| #[trigger]
                commit_fits(now, events, n - 1, route, prepared);
            lemma_compaction_stays(now.context, events, n, route, prepared.turn_compaction);
            assert(commit_fits(now, events, n, route, prepared));
        },
        _ => {},
    }
}

/// The turn that follows a cleared route has a compaction that fits.
proof fn lemma_turn_fits(
    now: DispatchRequest,
    events: Seq<PrepEvent>,
    n: int,
    state: Preparation,
    event: PrepEvent,
    step: Step,
)
    requires
        keeps_to(now, events, n, state),
        made_sure(now, events, n, state),
        reported(events, n, event),
        leads_to(state, event, step),
        state is Route || state is Preflight || state is Trigger,
    ensures
        made_sure(now, events, n, step.state),
{
    match (state, event) {
        (Preparation::Trigger { route, .. }, PrepEvent::TriggerMeasured { tokens }) => {
            assert(reported(events, n, PrepEvent::TriggerMeasured { tokens }));
            if let Preparation::Prompt { turn } = step.state {
                assert(is_lesser(
                    turn.compaction.token_threshold as int,
                    tokens as int,
                    room_of(route),
                ));
            }
        },
        _ => {},
    }
}

proof fn lemma_step_makes_sure(
    now: DispatchRequest,
    events: Seq<PrepEvent>,
    n: int,
    state: Preparation,
    event: PrepEvent,
    step: Step,
)
    requires
        keeps_to(now, events, n, state),
        made_sure(now, events, n, state),
        reported(events, n, event),
        leads_to(state, event, step),
    ensures
        match (state, event) {
            (
                Preparation::Hooks { .. },
                PrepEvent::HooksRan { outcome: MessageSubmitOutcome::Replaced { text } },
            ) => made_sure(with_display(now, text), events, n, step.state),
            _ => made_sure(now, events, n, step.state),
        },
{
    match (state, event) {
        (Preparation::Hooks { .. }, PrepEvent::HooksRan { outcome }) => {
            assert(reported(events, n, PrepEvent::HooksRan { outcome }));
        },
        (Preparation::Authority { .. }, PrepEvent::AuthorityChecked { verdict }) => {
            assert(reported(events, n, PrepEvent::AuthorityChecked { verdict }));
        },
        (Preparation::Route { .. }, _) => {
            lemma_turn_fits(now, events, n, state, event, step);
        },
        (Preparation::Preflight { .. }, _) => {
            lemma_turn_fits(now, events, n, state, event, step);
        },
        (Preparation::Trigger { .. }, _) => {
            lemma_turn_fits(now, events, n, state, event, step);
        },
        (Preparation::Effort { turn, .. }, PrepEvent::EffortNamed { .. }) => {
            if let Preparation::Engine { prepared } = step.state {
                assert(commit_fits(now, events, n, turn.route, prepared));
            }
        },
        _ => {},
    }
}

/// Law: whatever the host reports, in whatever order, nothing goes on before the hooks have
/// let the message pass, its plugin authority has been verified, and its route has been
/// resolved and, where that is required, has passed the preflight; and the compaction and
/// the effort of a turn are those that the session, the route and the host ask for.
pub proof fn law_run_makes_sure(
    request: DispatchRequest,
    events: Seq<PrepEvent>,
    states: Seq<Preparation>,
    actions: Seq<PrepAction>,
    n: int,
)
    requires
        is_run(request, events, states, actions),
        0 <= n <= events.len(),
    ensures
        made_sure(request_after(request, events, states, n), events, n, states[n]),
    decreases n,
{
    if n > 0 {
        law_run_makes_sure(request, events, states, actions, n - 1);
        law_run_keeps_to_its_request(request, events, states, actions, n - 1);
        let now = request_after(request, events, states, n - 1);
        let step = Step { state: states[n], action: actions[n - 1] };
        assert(leads_to(states[n - 1], events[n - 1], step));
        lemma_reports_stay(events, n);
        lemma_keeping_stays(now, events, n, states[n - 1]);
        lemma_sureness_stays(now, events, n, states[n - 1]);
        lemma_step_makes_sure(now, events, n, states[n - 1], events[n - 1], step);
    }
}

/// Law: where hooks are configured, they run before anything else, and hear the mode, the
/// model, the session, the tokens and the message of the request; where none are, the
/// references of the message are collected at once. Hooks run at no later point.
pub proof fn law_hooks_run_first(
    request: DispatchRequest,
    events: Seq<PrepEvent>,
    states: Seq<Preparation>,
    actions: Seq<PrepAction>,
    n: int,
)
    requires
        is_run(request, events, states, actions),
        0 <= n < events.len(),
    ensures
        request.context.has_submit_hooks ==> {
            &&& first_step(request).action matches PrepAction::RunSubmitHooks { context }
            &&& context.mode == request.context.hook_mode_label
            &&& context.model == request.context.model
            &&& context.session_id == request.context.hook_session_id
            &&& context.tokens == request.context.hook_tokens
            &&& context.message == request.message.display
        },
        !request.context.has_submit_hooks ==> first_step(request).action
            == (PrepAction::CollectReferences { display: request.message.display }),
        !(actions[n] is RunSubmitHooks),
{
    assert(leads_to(
        states[n],
        events[n],
        Step { state: states[n + 1], action: actions[n] },
    ));
}

/// Law: the references that are collected, the mentions that are expanded and the effort that
/// is selected are those of the message's text, as a hook may have replaced it by then.
pub proof fn law_host_is_asked_about_the_text(
    request: DispatchRequest,
    events: Seq<PrepEvent>,
    states: Seq<Preparation>,
    actions: Seq<PrepAction>,
    n: int,
)
    requires
        is_run(request, events, states, actions),
        0 <= n < events.len(),
    ensures
        actions[n] matches PrepAction::CollectReferences { display } ==> display == text_after(
            request,
            events,
            states,
            n + 1,
        ),
        actions[n] matches PrepAction::ExpandMentions { display } ==> display == text_after(
            request,
            events,
            states,
            n + 1,
        ),
        actions[n] matches PrepAction::SelectReasoning { display } ==> display == text_after(
            request,
            events,
            states,
            n + 1,
        ),
{
    law_run_keeps_to_its_request(request, events, states, actions, n + 1);
    assert(leads_to(
        states[n],
        events[n],
        Step { state: states[n + 1], action: actions[n] },
    ));
}

/// Law: an authority is verified exactly where the message comes with one of this workspace,
/// and it is that one; and the mentions of a message are expanded only once its hooks have
/// let it pass and its authority, if it has one, holds.
pub proof fn law_authority_is_verified(
    request: DispatchRequest,
    events: Seq<PrepEvent>,
    states: Seq<Preparation>,
    actions: Seq<PrepAction>,
    n: int,
)
    requires
        is_run(request, events, states, actions),
        0 <= n < events.len(),
    ensures
        actions[n] matches PrepAction::VerifyAuthority { id } ==> {
            &&& request.message.skill_provenance matches Some(authority)
            &&& authority.id == id
            &&& authority.workspace@ == request.context.workspace@
        },
        actions[n] is ExpandMentions ==> hooks_let_pass(request, events, n + 1)
            && authority_holds(request, events, n + 1),
        states[n] is References && events[n] is ReferencesCollected ==> match
            request.message.skill_provenance {
            Some(authority) => if authority.workspace@ == request.context.workspace@ {
                actions[n] == (PrepAction::VerifyAuthority { id: authority.id })
            } else {
                actions[n] is Finish
            },
            None => actions[n] is ExpandMentions,
        },
{
    law_run_makes_sure(request, events, states, actions, n + 1);
    law_run_keeps_to_its_request(request, events, states, actions, n);
    law_run_keeps_to_its_request(request, events, states, actions, n + 1);
    assert(leads_to(
        states[n],
        events[n],
        Step { state: states[n + 1], action: actions[n] },
    ));
}

/// Law: the content of a message is the user's request, behind the skill's instruction where
/// the message invokes a skill, and in front of the note of a paused command that is resumed
/// or let go.
pub proof fn law_content_is_put_together(request: DispatchRequest, user_request: Seq<char>)
    ensures
        ({
            let content = full_content(request, user_request);
            let note = match request.context.paused_plan {
                PausedCommandPlan::Resume { note, .. } => note@,
                PausedCommandPlan::Detach { note } => note@,
                PausedCommandPlan::ClearWithoutQuarry => Seq::empty(),
                PausedCommandPlan::NoPlan => Seq::empty(),
            };
            let tail = user_request + note;
            &&& content.len() >= tail.len()
            &&& content.skip(content.len() - tail.len()) == tail
            &&& request.message.skill_instruction is None ==> content == tail
            &&& request.message.skill_instruction matches Some(instruction)
                ==> content.take(content.len() - tail.len()) == instruction@
                + "\n\n---\n\nUser request: "@
        }),
{
    let content = full_content(request, user_request);
    let note = match request.context.paused_plan {
        PausedCommandPlan::Resume { note, .. } => note@,
        PausedCommandPlan::Detach { note } => note@,
        PausedCommandPlan::ClearWithoutQuarry => Seq::empty(),
        PausedCommandPlan::NoPlan => Seq::empty(),
    };
    let tail = user_request + note;
    let head = match request.message.skill_instruction {
        Some(instruction) => instruction@ + "\n\n---\n\nUser request: "@,
        None => Seq::empty(),
    };
    assert(content =~= head + tail);
    assert(content.skip(content.len() - tail.len()) =~= tail);
    assert(content.take(content.len() - tail.len()) =~= head);
}

/// Law: the goal of a turn is the one that is resumed, else the running one.
pub proof fn law_goal_is_resumed_or_running(context: DispatchContextSnapshot)
    ensures
        context.paused_plan matches PausedCommandPlan::Resume { quarry, .. } ==> turn_goal(context)
            == Some(quarry),
        !(context.paused_plan is Resume) ==> turn_goal(context) == context.hunt_quarry,
{
}

/// Law: a route is selected only where the model is chosen automatically. The selection goes
/// by the content of the message, or by its text where the content is all white space, and by
/// the session's mode, effort and provider.
pub proof fn law_selection_goes_by_the_content(
    request: DispatchRequest,
    events: Seq<PrepEvent>,
    states: Seq<Preparation>,
    actions: Seq<PrepAction>,
    n: int,
)
    requires
        is_run(request, events, states, actions),
        0 <= n < events.len(),
    ensures
        actions[n] matches PrepAction::ResolveAutoRoute { query } ==> {
            &&& request.context.auto_model
            &&& query.mode == request.context.mode
            &&& query.effort == request.context.reasoning_effort
            &&& query.provider == request.context.api_provider
            &&& states[n + 1] matches Preparation::AutoRoute { content, .. }
            &&& is_content_of(
                request_after(request, events, states, n + 1),
                events,
                n + 1,
                content,
            )
            &&& (exists|i: int| 0 <= i < content@.len() && !white_space(#[trigger] content@[i]))
                ==> query.latest_request == content
            &&& (forall|i: int| 0 <= i < content@.len() ==> white_space(#[trigger] content@[i]))
                ==> query.latest_request == text_after(request, events, states, n + 1)
        },
        states[n] is Mentions && events[n] is MentionsExpanded ==> (actions[n] is ResolveAutoRoute
            <==> request.context.auto_model),
{
    law_run_keeps_to_its_request(request, events, states, actions, n);
    law_run_keeps_to_its_request(request, events, states, actions, n + 1);
    assert(leads_to(
        states[n],
        events[n],
        Step { state: states[n + 1], action: actions[n] },
    ));
}

/// Law: the route that is resolved is that of the provider and the model that the host has
/// selected, where the model is chosen automatically, else that of the session's provider and
/// model. It is that of the session's own identity exactly where that is of this provider.
pub proof fn law_route_is_resolved_for_the_choice(
    request: DispatchRequest,
    events: Seq<PrepEvent>,
    states: Seq<Preparation>,
    actions: Seq<PrepAction>,
    n: int,
)
    requires
        is_run(request, events, states, actions),
        0 <= n < events.len(),
    ensures
        actions[n] matches PrepAction::ResolveRoute { by_identity, provider, model } ==> {
            &&& by_identity <==> provider == request.context.route_provider
            &&& !request.context.auto_model ==> provider == request.context.api_provider && model
                == request.context.model
            &&& request.context.auto_model ==> exists|chosen: AutoRouteSelection| #[trigger]
                reported(events, n + 1, PrepEvent::AutoRouteResolved { selection: Ok(chosen) })
                    && provider == chosen.provider && model == chosen.model
        },
        states[n] is AutoRoute ==> (events[n] matches PrepEvent::AutoRouteResolved {
            selection: Ok(chosen),
        } ==> (actions[n] matches PrepAction::ResolveRoute { provider, model, .. } && provider
            == chosen.provider && model == chosen.model)),
{
    law_run_keeps_to_its_request(request, events, states, actions, n);
    law_run_keeps_to_its_request(request, events, states, actions, n + 1);
    assert(leads_to(
        states[n],
        events[n],
        Step { state: states[n + 1], action: actions[n] },
    ));
}

/// Law: a preflight runs exactly where it is required, once the route has been resolved, and
/// for that route.
pub proof fn law_preflight_runs_where_required(
    request: DispatchRequest,
    events: Seq<PrepEvent>,
    states: Seq<Preparation>,
    actions: Seq<PrepAction>,
    n: int,
)
    requires
        is_run(request, events, states, actions),
        0 <= n < events.len(),
    ensures
        actions[n] matches PrepAction::PreflightRoute { route } ==> {
            &&& request.context.client_preflight_required
            &&& events[n] matches PrepEvent::RouteResolved { route: Ok(resolved) }
            &&& resolved.id == route
        },
        states[n] is Route ==> (events[n] matches PrepEvent::RouteResolved { route } ==> (route is Ok
            && request.context.client_preflight_required ==> actions[n] is PreflightRoute)),
{
    law_run_keeps_to_its_request(request, events, states, actions, n);
    assert(leads_to(
        states[n],
        events[n],
        Step { state: states[n + 1], action: actions[n] },
    ));
}

/// Law: a trigger is measured for the window of the route that has just been cleared, with
/// nothing put in and with its output reserved.
pub proof fn law_trigger_is_measured_for_the_route(
    request: DispatchRequest,
    events: Seq<PrepEvent>,
    states: Seq<Preparation>,
    actions: Seq<PrepAction>,
    n: int,
)
    requires
        is_run(request, events, states, actions),
        0 <= n < events.len(),
    ensures
        actions[n] matches PrepAction::MeasureTrigger { budget } ==> {
            &&& states[n + 1] matches Preparation::Trigger { route, .. }
            &&& route_is_cleared(request, events, n + 1, route)
            &&& window_of(route) > 0
            &&& budget.window_tokens == window_of(route)
            &&& budget.input_tokens == 0
            &&& budget.output_tokens == reserved_of(route)
        },
{
    law_run_makes_sure(request, events, states, actions, n + 1);
    assert(leads_to(
        states[n],
        events[n],
        Step { state: states[n + 1], action: actions[n] },
    ));
}

/// Law: the system prompt is built from the session: its model, window, language, display
/// settings and skills; with user memory where that is on and is not served elsewhere; and
/// with the goal that is resumed, else the running one.
pub proof fn law_prompt_is_built_from_the_session(
    request: DispatchRequest,
    events: Seq<PrepEvent>,
    states: Seq<Preparation>,
    actions: Seq<PrepAction>,
    n: int,
)
    requires
        is_run(request, events, states, actions),
        0 <= n < events.len(),
    ensures
        actions[n] matches PrepAction::BuildPrompt { request: prompt } ==> {
            let context = request.context;
            &&& prompt.user_memory <==> (context.memory_enabled && !context.moraine_fallback)
            &&& context.paused_plan matches PausedCommandPlan::Resume { quarry, .. }
                ==> prompt.goal_objective == Some(quarry)
            &&& !(context.paused_plan is Resume) ==> prompt.goal_objective == context.hunt_quarry
            &&& prompt.project_context_pack_enabled == context.project_context_pack_enabled
            &&& prompt.locale_tag == context.locale_tag
            &&& prompt.translation_enabled == context.translation_enabled
            &&& prompt.model_id == context.model
            &&& prompt.show_thinking == context.show_thinking
            &&& prompt.verbosity == context.verbosity
            &&& prompt.skills_scan_codewhale_only == context.skills_scan_codewhale_only
            &&& prompt.context_window_override matches Some(window) && (window as int) == (
            match context.active_route_limits {
                Some(limits) => if counts(limits.context_tokens) {
                    limits.context_tokens->0 as int
                } else {
                    context.capability_window as int
                },
                None => context.capability_window as int,
            })
        },
{
    law_run_keeps_to_its_request(request, events, states, actions, n + 1);
    assert(leads_to(
        states[n],
        events[n],
        Step { state: states[n + 1], action: actions[n] },
    ));
}

/// Law: an effort is selected for a message only where it is chosen automatically and the
/// route selection names none.
pub proof fn law_effort_is_selected_where_none_is_set(
    request: DispatchRequest,
    events: Seq<PrepEvent>,
    states: Seq<Preparation>,
    actions: Seq<PrepAction>,
    n: int,
)
    requires
        is_run(request, events, states, actions),
        0 <= n < events.len(),
    ensures
        actions[n] is SelectReasoning ==> {
            &&& request.context.auto_model || request.context.reasoning_effort
                == ReasoningEffort::Auto
            &&& states[n + 1] matches Preparation::Reasoning { turn, .. }
            &&& turn.draft.auto_selection matches Some(chosen) ==> chosen.reasoning_effort is None
        },
{
    law_run_makes_sure(request, events, states, actions, n + 1);
    assert(leads_to(
        states[n],
        events[n],
        Step { state: states[n + 1], action: actions[n] },
    ));
}

/// Law: the effort that a turn is sent with is the one that the user has set. Where it is
/// chosen automatically, it is the one of the route selection, else the one that the host has
/// selected. It is named for the provider that the turn goes to, at the base URL and for the
/// model of its route.
pub proof fn law_effort_is_the_one_that_was_set_or_chosen(
    request: DispatchRequest,
    events: Seq<PrepEvent>,
    states: Seq<Preparation>,
    actions: Seq<PrepAction>,
    n: int,
)
    requires
        is_run(request, events, states, actions),
        0 <= n < events.len(),
    ensures
        actions[n] matches PrepAction::NameEffort { effort, provider, base_url, model } ==> {
            let automatic = request.context.auto_model || request.context.reasoning_effort
                == ReasoningEffort::Auto;
            &&& !automatic ==> effort == request.context.reasoning_effort
            &&& automatic ==> (exists|chosen: AutoRouteSelection| #[trigger]
                reported(events, n + 1, PrepEvent::AutoRouteResolved { selection: Ok(chosen) })
                    && chosen.reasoning_effort == Some(effort)) || reported(
                events,
                n + 1,
                PrepEvent::ReasoningSelected { effort },
            )
            &&& states[n + 1] matches Preparation::Effort { turn, .. }
            &&& automatic ==> (turn.draft.auto_selection matches Some(chosen) ==> (
            chosen.reasoning_effort is Some ==> chosen.reasoning_effort == Some(effort)))
            &&& route_is_cleared(request, events, n + 1, turn.route)
            &&& base_url == turn.route.base_url
            &&& model == turn.route.model
            &&& !request.context.auto_model ==> provider == request.context.api_provider
            &&& request.context.auto_model ==> exists|chosen: AutoRouteSelection| #[trigger]
                reported(events, n + 1, PrepEvent::AutoRouteResolved { selection: Ok(chosen) })
                    && provider == chosen.provider
        },
{
    law_run_keeps_to_its_request(request, events, states, actions, n + 1);
    law_run_makes_sure(request, events, states, actions, n + 1);
    assert(leads_to(
        states[n],
        events[n],
        Step { state: states[n + 1], action: actions[n] },
    ));
}

/// Law: the engine runs a turn with the settings of the session that the message was queued
/// in: its mode, what it allows, trusts and approves, what it shows, its goal with the budget
/// and status of it, its tools and its verbosity. No tools are added, and the message counts
/// as the user's.
pub proof fn law_engine_gets_the_settings_of_the_session(
    request: DispatchRequest,
    events: Seq<PrepEvent>,
    states: Seq<Preparation>,
    actions: Seq<PrepAction>,
    n: int,
)
    requires
        is_run(request, events, states, actions),
        0 <= n < events.len(),
    ensures
        actions[n] matches PrepAction::SendToEngine { message } ==> {
            let context = request.context;
            &&& message.mode == context.mode
            &&& message.allow_shell == context.allow_shell
            &&& message.trust_mode == context.trust_mode
            &&& message.auto_approve == context.auto_approve
            &&& message.approval_mode == context.approval_mode
            &&& message.translation_enabled == context.translation_enabled
            &&& message.show_thinking == context.show_thinking
            &&& message.goal_token_budget == context.hunt_token_budget
            &&& message.goal_status == context.hunt_goal_status
            &&& message.allowed_tools == context.active_allowed_tools
            &&& message.verbosity == context.verbosity
            &&& message.auto_model == context.auto_model
            &&& message.reasoning_effort_auto <==> (context.auto_model
                || context.reasoning_effort == ReasoningEffort::Auto)
            &&& context.paused_plan matches PausedCommandPlan::Resume { quarry, .. }
                ==> message.goal_objective == Some(quarry)
            &&& !(context.paused_plan is Resume) ==> message.goal_objective == context.hunt_quarry
            &&& message.dynamic_tools@.len() == 0
            &&& message.provenance == UserInputProvenance::ExternalUser
        },
{
    law_run_keeps_to_its_request(request, events, states, actions, n);
    assert(leads_to(
        states[n],
        events[n],
        Step { state: states[n + 1], action: actions[n] },
    ));
}

/// Law: the engine is sent the content of the message, on a route that is cleared, with the
/// compaction that fits it, and with the name of the effort that the host has just reported;
/// and nothing is sent before the hooks have let the message pass and its authority holds.
pub proof fn law_engine_gets_the_message(
    request: DispatchRequest,
    events: Seq<PrepEvent>,
    states: Seq<Preparation>,
    actions: Seq<PrepAction>,
    n: int,
)
    requires
        is_run(request, events, states, actions),
        0 <= n < events.len(),
    ensures
        actions[n] matches PrepAction::SendToEngine { message } ==> {
            &&& hooks_let_pass(request, events, n)
            &&& authority_holds(request, events, n)
            &&& is_content_of(
                request_after(request, events, states, n),
                events,
                n,
                message.content,
            )
            &&& states[n] matches Preparation::Effort { turn, .. }
            &&& route_is_cleared(request, events, n, turn.route)
            &&& message.route == turn.route.id
            &&& compaction_fits(request.context, events, n, turn.route, message.compaction)
            &&& events[n] == (PrepEvent::EffortNamed { value: message.reasoning_effort })
        },
{
    law_run_keeps_to_its_request(request, events, states, actions, n);
    law_run_makes_sure(request, events, states, actions, n);
    assert(leads_to(
        states[n],
        events[n],
        Step { state: states[n + 1], action: actions[n] },
    ));
}

/// Law: what is kept while the engine is asked is one user message with the content that the
/// engine was sent, the prompt and the references that the host has reported, and the route,
/// the compaction and the effort that the engine was sent.
pub proof fn law_commit_is_what_was_sent(
    request: DispatchRequest,
    events: Seq<PrepEvent>,
    states: Seq<Preparation>,
    actions: Seq<PrepAction>,
    n: int,
)
    requires
        is_run(request, events, states, actions),
        0 <= n < events.len(),
    ensures
        actions[n] matches PrepAction::SendToEngine { message } ==> {
            &&& states[n] matches Preparation::Effort { turn, prompt, selected }
            &&& states[n + 1] matches Preparation::Engine { prepared }
            &&& prepared.next_api_message.role@ == "user"@
            &&& prepared.next_api_message.content@ == seq![
                ContentBlock::Text { text: message.content, cache_control: None },
            ]
            &&& prepared.next_system_prompt == prompt
            &&& prepared.references == turn.draft.references
            &&& prepared.turn_compaction == message.compaction
            &&& prepared.selected_reasoning_effort == selected
            &&& prepared.auto_selection == turn.draft.auto_selection
            &&& prepared.effective_provider_identity == turn.route.identity_key
            &&& prepared.effective_provider_label == (if prepared.effective_provider
                == ApiProvider::Custom {
                turn.route.identity_key
            } else {
                turn.route.provider_display_name
            })
            &&& prepared.paused_plan == request.context.paused_plan
            &&& prepared.auto_model == request.context.auto_model
            &&& prepared.dispatch_id == request.dispatch_id
            &&& prepared.generation == request.generation
            &&& prepared.message.display == text_after(request, events, states, n)
            &&& prepared.message.skill_instruction == request.message.skill_instruction
            &&& prepared.message.skill_provenance == request.message.skill_provenance
        },
{
    law_run_keeps_to_its_request(request, events, states, actions, n);
    assert(leads_to(
        states[n],
        events[n],
        Step { state: states[n + 1], action: actions[n] },
    ));
}

/// Law: a send that is accepted was let pass by its hooks and holds its authority; what is
/// committed fits a route that was cleared, and goes to the provider and model that were
/// selected, where the model is chosen automatically, else to those of the session.
pub proof fn law_accepted_send_was_cleared(
    request: DispatchRequest,
    events: Seq<PrepEvent>,
    states: Seq<Preparation>,
    actions: Seq<PrepAction>,
    n: int,
)
    requires
        is_run(request, events, states, actions),
        0 <= n < events.len(),
    ensures
        actions[n] matches PrepAction::Finish { event: DispatchEvent::Accepted(prepared) } ==> {
            &&& hooks_let_pass(request, events, n)
            &&& authority_holds(request, events, n)
            &&& exists|route: ResolvedRoute| #[trigger]
                commit_fits(
                    request_after(request, events, states, n),
                    events,
                    n,
                    route,
                    prepared,
                )
            &&& !request.context.auto_model ==> prepared.auto_selection is None
                && prepared.effective_provider == request.context.api_provider
                && prepared.effective_model == request.context.model
            &&& request.context.auto_model ==> {
                &&& prepared.auto_selection matches Some(chosen)
                &&& reported(events, n, PrepEvent::AutoRouteResolved { selection: Ok(chosen) })
                &&& prepared.effective_provider == chosen.provider
                &&& prepared.effective_model == chosen.model
            }
        },
{
    law_run_keeps_to_its_request(request, events, states, actions, n);
    law_run_makes_sure(request, events, states, actions, n);
    assert(leads_to(
        states[n],
        events[n],
        Step { state: states[n + 1], action: actions[n] },
    ));
}

/// Law: a send ends as the engine answers: accepted with what was kept where the engine takes
/// it, and else handed back with the engine's error.
pub proof fn law_engine_decides_the_end(
    prepared: PreparedDispatch,
    answer: Result<(), String>,
    step: Step,
)
    requires
        leads_to(
            Preparation::Engine { prepared },
            PrepEvent::EngineAnswered { answer },
            step,
        ),
    ensures
        answer is Ok ==> step.action == (PrepAction::Finish {
            event: DispatchEvent::Accepted(prepared),
        }),
        answer matches Err(reason) ==> (step.action matches PrepAction::Finish {
            event: DispatchEvent::Rejected { error, original, .. },
        } && error == reason && original == prepared.message),
{
}

/// What the user is told where an event refuses the message that a preparation holds; `None`
/// where it does not refuse it.
pub open spec fn refusal(state: Preparation, event: PrepEvent) -> Option<Seq<char>> {
    match (state, event) {
        (
            Preparation::Hooks { .. },
            PrepEvent::HooksRan { outcome: MessageSubmitOutcome::Blocked { reason } },
        ) => Some(reason@),
        (Preparation::References { request }, PrepEvent::ReferencesCollected { .. }) => match
            request.message.skill_provenance {
            Some(authority) => if authority.workspace@ == request.context.workspace@ {
                None
            } else {
                Some("Queued plugin skill belongs to a different workspace and was denied"@)
            },
            None => None,
        },
        (Preparation::Authority { .. }, PrepEvent::AuthorityChecked { verdict: Err(error) }) => {
            Some(error@)
        },
        (
            Preparation::AutoRoute { .. },
            PrepEvent::AutoRouteResolved { selection: Err(error) },
        ) => Some("Auto model route unavailable: "@ + error@),
        (Preparation::Route { .. }, PrepEvent::RouteResolved { route: Err(error) }) => Some(error@),
        (Preparation::Preflight { .. }, PrepEvent::PreflightDone { route: Err(error) }) => {
            Some(error@)
        },
        (Preparation::Engine { .. }, PrepEvent::EngineAnswered { answer: Err(error) }) => {
            Some(error@)
        },
        _ => None,
    }
}

/// Law: a message is handed back exactly where something refuses it, and with the words of
/// what did.
pub proof fn law_refusals_are_told(state: Preparation, event: PrepEvent, step: Step)
    requires
        leads_to(state, event, step),
    ensures
        refusal(state, event) is Some <==> (step.action matches PrepAction::Finish { event: end }
            && end is Rejected),
        step.action matches PrepAction::Finish {
            event: DispatchEvent::Rejected { error, .. },
        } ==> Some(error@) == refusal(state, event),
{
}

} // verus!
