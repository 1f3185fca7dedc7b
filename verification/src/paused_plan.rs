//! What happens to a paused command when the user sends a message.
use vstd::prelude::*;

use crate::app_state::{App, EngineHandle, Hunt};

verus! {

/// Plan for a paused command; applied only after the engine has accepted the message.
#[derive(Debug, Clone, PartialEq, Eq)]
pub enum PausedCommandPlan {
    /// Nothing is paused.
    NoPlan,
    /// A command without a goal is paused: forget it.
    ClearWithoutQuarry,
    /// Go on with the paused goal.
    Resume { quarry: String, note: String },
    /// Let the paused goal go.
    Detach { note: String },
}

impl PausedCommandPlan {
    /// The text that the plan adds to the message.
    pub open spec fn note_text(self) -> Option<Seq<char>> {
        match self {
            PausedCommandPlan::Resume { note, .. } => Some(note@),
            PausedCommandPlan::Detach { note } => Some(note@),
            PausedCommandPlan::NoPlan => None,
            PausedCommandPlan::ClearWithoutQuarry => None,
        }
    }

    /// The goal that the plan goes on with.
    pub open spec fn objective(self) -> Option<String> {
        match self {
            PausedCommandPlan::Resume { quarry, .. } => Some(quarry),
            _ => None,
        }
    }

    /// The state of the application after the plan.
    pub open spec fn applied(self, app: App) -> App {
        match self {
            PausedCommandPlan::NoPlan => app,
            PausedCommandPlan::ClearWithoutQuarry => App { paused: false, pausable: false, ..app },
            PausedCommandPlan::Resume { quarry, .. } => App {
                paused: false,
                pausable: true,
                paused_quarry: None,
                hunt: Hunt { quarry: Some(quarry), ..app.hunt },
                ..app
            },
            PausedCommandPlan::Detach { .. } => App {
                paused: false,
                hunt: Hunt {
                    quarry: None,
                    tokens_used: 0,
                    time_used_seconds: 0,
                    continuation_count: 0,
                },
                ..app
            },
        }
    }

    /// The note that goes into the message, where the plan has one.
    pub fn note(&self) -> (note: Option<&str>)
        ensures
            (match note {
                Some(n) => Some(n@),
                None => None,
            }) == self.note_text(),
    {
        match self {
            PausedCommandPlan::Resume { note, .. } => Some(note.as_str()),
            PausedCommandPlan::Detach { note } => Some(note.as_str()),
            PausedCommandPlan::NoPlan => None,
            PausedCommandPlan::ClearWithoutQuarry => None,
        }
    }

    /// The goal that the turn goes on with, where the plan has one.
    pub fn goal_objective(&self) -> (objective: Option<String>)
        ensures
            objective == self.objective(),
    {
        match self {
            PausedCommandPlan::Resume { quarry, .. } => Some(quarry.clone()),
            PausedCommandPlan::Detach { .. } => None,
            PausedCommandPlan::ClearWithoutQuarry => None,
            PausedCommandPlan::NoPlan => None,
        }
    }

    /// Carries the plan out: the engine runs again, and the application's record of what is
    /// paused follows the plan.
    pub fn apply(self, app: &mut App, engine_handle: &mut EngineHandle)
        ensures
            *final(app) == self.applied(*old(app)),
            *final(engine_handle) == (EngineHandle { paused: false }),
    {
        engine_handle.set_paused(false);
        match self {
            PausedCommandPlan::NoPlan => {},
            PausedCommandPlan::ClearWithoutQuarry => {
                app.paused = false;
                app.pausable = false;
            },
            PausedCommandPlan::Resume { quarry, .. } => {
                app.paused = false;
                app.paused_quarry = None;
                app.hunt.quarry = Some(quarry);
                app.pausable = true;
            },
            PausedCommandPlan::Detach { .. } => {
                app.paused = false;
                app.hunt.quarry = None;
                app.hunt.tokens_used = 0;
                app.hunt.time_used_seconds = 0;
                app.hunt.continuation_count = 0;
            },
        }
    }
}

/// Law: every plan other than `NoPlan` leaves nothing paused.
pub proof fn law_applied_plan_unpauses(plan: PausedCommandPlan, app: App)
    ensures
        !(plan is NoPlan) ==> !plan.applied(app).paused,
        plan is NoPlan ==> plan.applied(app) == app,
{
}

/// Law: the goal that runs after a plan is the one that the plan names, where it names one;
/// only `Detach` takes a goal away.
pub proof fn law_objective_is_the_running_goal(plan: PausedCommandPlan, app: App)
    ensures
        plan.objective() is Some ==> plan.applied(app).hunt.quarry == plan.objective(),
        plan.objective() is None && !(plan is Detach) ==> plan.applied(app).hunt == app.hunt,
        plan is Detach ==> plan.applied(app).hunt.quarry is None,
{
}

/// Law: a plan touches nothing but the pause marks and the goal.
pub proof fn law_plan_keeps_the_rest(plan: PausedCommandPlan, app: App)
    ensures
        plan.applied(app).workspace == app.workspace,
        plan.applied(app).harness_profiles == app.harness_profiles,
        plan.applied(app).active_harness_resolution == app.active_harness_resolution,
        plan.applied(app).active_provider_route == app.active_provider_route,
        plan.applied(app).model_display_label == app.model_display_label,
        plan.applied(app).repo_law == app.repo_law,
{
}

/// Law: applying a plan twice is the same as applying it once.
pub proof fn law_plan_is_idempotent(plan: PausedCommandPlan, app: App)
    ensures
        plan.applied(plan.applied(app)) == plan.applied(app),
{
}

/// Law: a resumed goal is the running one, with what it has used so far; nothing waits to be
/// resumed any more, and the command can be paused again.
pub proof fn law_resume_goes_on(quarry: String, note: String, app: App)
    ensures
        ({
            let plan = PausedCommandPlan::Resume { quarry, note };
            let after = plan.applied(app);
            &&& after.hunt.quarry == Some(quarry)
            &&& after.hunt.tokens_used == app.hunt.tokens_used
            &&& after.hunt.time_used_seconds == app.hunt.time_used_seconds
            &&& after.hunt.continuation_count == app.hunt.continuation_count
            &&& after.paused_quarry is None
            &&& !after.paused
            &&& after.pausable
            &&& plan.objective() == Some(quarry)
            &&& plan.note_text() == Some(note@)
        }),
{
}

/// Law: a goal that is let go leaves no goal and no use behind; what waits to be resumed and
/// whether the command can be paused stay as they are.
pub proof fn law_detach_starts_afresh(note: String, app: App)
    ensures
        ({
            let plan = PausedCommandPlan::Detach { note };
            let after = plan.applied(app);
            &&& after.hunt.quarry is None
            &&& after.hunt.tokens_used == 0
            &&& after.hunt.time_used_seconds == 0
            &&& after.hunt.continuation_count == 0
            &&& after.paused_quarry == app.paused_quarry
            &&& !after.paused
            &&& after.pausable == app.pausable
            &&& plan.objective() is None
            &&& plan.note_text() == Some(note@)
        }),
{
}

/// Law: a paused command without a goal is forgotten: the marks go, and the goals stay.
pub proof fn law_clearing_takes_the_marks_only(app: App)
    ensures
        ({
            let plan = PausedCommandPlan::ClearWithoutQuarry;
            let after = plan.applied(app);
            &&& !after.paused
            &&& !after.pausable
            &&& after.paused_quarry == app.paused_quarry
            &&& after.hunt == app.hunt
            &&& plan.objective() is None
            &&& plan.note_text() is None
        }),
{
}

/// Law: where nothing is paused, nothing is said, sought or changed.
pub proof fn law_no_plan_says_nothing(app: App)
    ensures
        PausedCommandPlan::NoPlan.objective() is None,
        PausedCommandPlan::NoPlan.note_text() is None,
        PausedCommandPlan::NoPlan.applied(app) == app,
{
}

} // verus!
