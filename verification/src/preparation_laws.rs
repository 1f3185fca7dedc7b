//! What holds of every preparation, whatever the host reports.
use vstd::prelude::*;

use crate::dispatch::{
    AutoRouteSelection, ContentBlock, DispatchEvent, DispatchRequest, PreparedDispatch,
    QueuedMessage, ResolvedRoute, SendMessage,
};
use crate::preparation::{
    auto_controls_reasoning, awaits, drafted, first_step, full_content, is_user_message, leads_to,
    route_budget, turn_goal, with_display, Draft, MessageSubmitOutcome, PrepAction, PrepEvent,
    Preparation, Step, Turn,
};

verus! {

/// A send, by its id and generation, and its message.
pub struct Held {
    pub ident: (String, u64),
    pub message: QueuedMessage,
}

/// The send that a preparation belongs to, and the message that it holds; `None` once it
/// has ended.
pub open spec fn held(state: Preparation) -> Option<Held> {
    match state {
        Preparation::Hooks { request } => Some(held_by(request)),
        Preparation::References { request } => Some(held_by(request)),
        Preparation::Authority { request, .. } => Some(held_by(request)),
        Preparation::Mentions { request, .. } => Some(held_by(request)),
        Preparation::AutoRoute { request, .. } => Some(held_by(request)),
        Preparation::Route { draft } => Some(held_by(draft.request)),
        Preparation::Preflight { draft, .. } => Some(held_by(draft.request)),
        Preparation::Trigger { draft, .. } => Some(held_by(draft.request)),
        Preparation::Prompt { turn } => Some(held_by(turn.draft.request)),
        Preparation::Reasoning { turn, .. } => Some(held_by(turn.draft.request)),
        Preparation::Effort { turn, .. } => Some(held_by(turn.draft.request)),
        Preparation::Engine { prepared } => Some(
            Held {
                ident: (prepared.dispatch_id, prepared.generation),
                message: prepared.message,
            },
        ),
        Preparation::Finished => None,
    }
}

/// The id and generation of a request, and its message.
pub open spec fn held_by(request: DispatchRequest) -> Held {
    Held { ident: (request.dispatch_id, request.generation), message: request.message }
}

/// How far a preparation has come.
pub open spec fn rank(state: Preparation) -> int {
    match state {
        Preparation::Hooks { .. } => 0,
        Preparation::References { .. } => 1,
        Preparation::Authority { .. } => 2,
        Preparation::Mentions { .. } => 3,
        Preparation::AutoRoute { .. } => 4,
        Preparation::Route { .. } => 5,
        Preparation::Preflight { .. } => 6,
        Preparation::Trigger { .. } => 7,
        Preparation::Prompt { .. } => 8,
        Preparation::Reasoning { .. } => 9,
        Preparation::Effort { .. } => 10,
        Preparation::Engine { .. } => 11,
        Preparation::Finished => 12,
    }
}

/// Whether an action asks the host for what a preparation in `state` waits for.
pub open spec fn asks_for(action: PrepAction, state: Preparation) -> bool {
    match state {
        Preparation::Hooks { .. } => action is RunSubmitHooks,
        Preparation::References { .. } => action is CollectReferences,
        Preparation::Authority { .. } => action is VerifyAuthority,
        Preparation::Mentions { .. } => action is ExpandMentions,
        Preparation::AutoRoute { .. } => action is ResolveAutoRoute,
        Preparation::Route { .. } => action is ResolveRoute,
        Preparation::Preflight { .. } => action is PreflightRoute,
        Preparation::Trigger { .. } => action is MeasureTrigger,
        Preparation::Prompt { .. } => action is BuildPrompt,
        Preparation::Reasoning { .. } => action is SelectReasoning,
        Preparation::Effort { .. } => action is NameEffort,
        Preparation::Engine { .. } => action is SendToEngine,
        Preparation::Finished => action is Finish,
    }
}

/// Law: a preparation is never stuck. Every event that is waited for takes it further, and
/// tells the host to do what is waited for next, or to report the end; it ends after twelve
/// such events at most. Every other event changes nothing.
pub proof fn law_awaited_events_make_progress(state: Preparation, event: PrepEvent, step: Step)
    requires
        leads_to(state, event, step),
    ensures
        0 <= rank(state) <= 12,
        awaits(state, event) ==> rank(step.state) > rank(state) && asks_for(
            step.action,
            step.state,
        ),
        !awaits(state, event) ==> step == (Step { state, action: PrepAction::Ignored }),
        state is Finished ==> !awaits(state, event),
{
}

/// Law: the first step, too, asks the host for what is waited for.
pub proof fn law_first_step_asks(request: DispatchRequest)
    ensures
        asks_for(first_step(request).action, first_step(request).state),
        held(first_step(request).state) == Some(held_by(request)),
{
}

/// Law: no step loses or mixes up a send. The id, the generation and the message stay, and
/// the end reports them; only a hook that replaces the text changes the message, and it
/// changes nothing but the text.
pub proof fn law_step_keeps_the_message(state: Preparation, event: PrepEvent, step: Step)
    requires
        leads_to(state, event, step),
        !(state is Finished),
    ensures
        held(state) is Some,
        step.action is Finish <==> step.state is Finished,
        step.action matches PrepAction::Finish { event: end } ==> end.ident() == held(state)->0.ident
            && end.message() == held(state)->0.message,
        !(step.state is Finished) ==> held(step.state) is Some && held(step.state)->0.ident == held(
            state,
        )->0.ident,
        !(step.state is Finished) ==> held(step.state)->0.message == (match event {
            PrepEvent::HooksRan { outcome: MessageSubmitOutcome::Replaced { text } } => if awaits(
                state,
                event,
            ) {
                QueuedMessage { display: text, ..held(state)->0.message }
            } else {
                held(state)->0.message
            },
            _ => held(state)->0.message,
        }),
{
}

/// Law: a send is reported as accepted only when the engine has accepted it, and with what
/// was kept while the engine was asked.
pub proof fn law_only_the_engine_accepts(state: Preparation, event: PrepEvent, step: Step)
    requires
        leads_to(state, event, step),
    ensures
        step.action matches PrepAction::Finish { event: DispatchEvent::Accepted(prepared) } ==> {
            &&& state == (Preparation::Engine { prepared })
            &&& event matches PrepEvent::EngineAnswered { answer }
            &&& answer is Ok
        },
{
}

/// Whether a hook blocks the message that a preparation waits for the hooks with.
pub open spec fn is_hook_block(state: Preparation, event: PrepEvent) -> bool {
    &&& awaits(state, event)
    &&& event matches PrepEvent::HooksRan { outcome }
    &&& outcome is Blocked
}

/// Law: a rejected message goes back into the composer, unless a hook blocked it; and a
/// message that a hook blocks is rejected.
pub proof fn law_rejection_restores_the_composer(state: Preparation, event: PrepEvent, step: Step)
    requires
        leads_to(state, event, step),
    ensures
        step.action matches PrepAction::Finish {
            event: DispatchEvent::Rejected { restore_composer, .. },
        } ==> (restore_composer <==> !is_hook_block(state, event)),
        is_hook_block(state, event) ==> (step.action matches PrepAction::Finish { event: end }
            && end is Rejected),
{
}

/// `prepared` commits what `message` asks the engine to run: the same text as its user
/// message, the same compaction settings, the same choice of model.
pub open spec fn commits(prepared: PreparedDispatch, message: SendMessage) -> bool {
    &&& prepared.next_api_message.content@ == seq![
        ContentBlock::Text { text: message.content, cache_control: None },
    ]
    &&& prepared.turn_compaction == message.compaction
    &&& prepared.auto_model == message.auto_model
}

/// Law: what is kept while the engine is asked is what the engine was asked to run. The
/// engine is asked at no other point.
pub proof fn law_engine_hears_what_is_committed(state: Preparation, event: PrepEvent, step: Step)
    requires
        leads_to(state, event, step),
    ensures
        step.action matches PrepAction::SendToEngine { message } ==> {
            &&& state is Effort
            &&& step.state matches Preparation::Engine { prepared }
            &&& commits(prepared, message)
        },
        step.state is Engine && !(state is Engine) ==> step.action is SendToEngine,
{
}

/// A run of a preparation: the events that the host reported, the states between them, and
/// the actions that they led to.
pub open spec fn is_run(
    request: DispatchRequest,
    events: Seq<PrepEvent>,
    states: Seq<Preparation>,
    actions: Seq<PrepAction>,
) -> bool {
    &&& states.len() == events.len() + 1
    &&& actions.len() == events.len()
    &&& states[0] == first_step(request).state
    &&& forall|i: int|
        0 <= i < events.len() ==> leads_to(
            states[i],
            #[trigger] events[i],
            Step { state: states[i + 1], action: actions[i] },
        )
}

/// The text of the message after the first `n` events of a run: what a hook replaced it by,
/// else that of the request.
pub open spec fn text_after(
    request: DispatchRequest,
    events: Seq<PrepEvent>,
    states: Seq<Preparation>,
    n: int,
) -> String
    decreases n,
{
    if n <= 0 {
        request.message.display
    } else {
        match (states[n - 1], events[n - 1]) {
            (
                Preparation::Hooks { .. },
                PrepEvent::HooksRan { outcome: MessageSubmitOutcome::Replaced { text } },
            ) => text,
            _ => text_after(request, events, states, n - 1),
        }
    }
}

/// Whether `event` is among the first `n` events of a run.
pub open spec fn reported(events: Seq<PrepEvent>, n: int, event: PrepEvent) -> bool {
    exists|i: int| 0 <= i < n && #[trigger] events[i] == event
}

/// `content` is the full content of the message of `now`, with its file mentions expanded as
/// the host has reported in the first `n` events.
pub open spec fn is_content_of(
    now: DispatchRequest,
    events: Seq<PrepEvent>,
    n: int,
    content: String,
) -> bool {
    exists|user_request: String| #[trigger]
        reported(events, n, PrepEvent::MentionsExpanded { user_request }) && content@
            == full_content(now, user_request@)
}

/// The threshold of a turn does not exceed the room that its route leaves for input, where
/// the route has a window.
pub open spec fn fits_the_room(turn: Turn) -> bool {
    route_budget(turn.route) matches Some(budget) ==> turn.compaction.token_threshold
        <= budget.ceiling()
}

/// A route was selected exactly where the model is chosen automatically, and as the host has
/// reported.
pub open spec fn selected_for(
    now: DispatchRequest,
    events: Seq<PrepEvent>,
    n: int,
    auto_selection: Option<AutoRouteSelection>,
) -> bool {
    match auto_selection {
        Some(chosen) => now.context.auto_model && reported(
            events,
            n,
            PrepEvent::AutoRouteResolved { selection: Ok(chosen) },
        ),
        None => !now.context.auto_model,
    }
}

/// `draft` is a draft of the request `now`: its references, content and selection are those
/// that the host has reported, and its provider and model those of the selection, else of
/// the snapshot.
pub open spec fn is_draft_of(
    now: DispatchRequest,
    events: Seq<PrepEvent>,
    n: int,
    draft: Draft,
) -> bool {
    &&& draft == drafted(now, draft.references, draft.content, draft.auto_selection)
    &&& reported(events, n, PrepEvent::ReferencesCollected { references: draft.references })
    &&& is_content_of(now, events, n, draft.content)
    &&& selected_for(now, events, n, draft.auto_selection)
}

/// `turn` is a turn of the request `now`, on a route that the host has reported, with the
/// goal of the snapshot and a threshold that fits.
pub open spec fn is_turn_of(
    now: DispatchRequest,
    events: Seq<PrepEvent>,
    n: int,
    turn: Turn,
) -> bool {
    &&& is_draft_of(now, events, n, turn.draft)
    &&& reported(events, n, PrepEvent::RouteResolved { route: Ok(turn.route) }) || reported(
        events,
        n,
        PrepEvent::PreflightDone { route: Ok(turn.route) },
    )
    &&& turn.goal_objective == turn_goal(now.context)
    &&& fits_the_room(turn)
}

/// `prepared` commits the request `now`: what is sent, where to and with what settings are
/// as the request, its snapshot and the reports of the host have it.
pub open spec fn is_commit_of(
    now: DispatchRequest,
    events: Seq<PrepEvent>,
    n: int,
    prepared: PreparedDispatch,
) -> bool {
    &&& prepared.dispatch_id == now.dispatch_id
    &&& prepared.generation == now.generation
    &&& prepared.message == now.message
    &&& reported(events, n, PrepEvent::ReferencesCollected { references: prepared.references })
    &&& reported(events, n, PrepEvent::PromptBuilt { prompt: prepared.next_system_prompt })
    &&& exists|content: String| #[trigger]
        is_user_message(prepared.next_api_message, content) && is_content_of(
            now,
            events,
            n,
            content,
        )
    &&& prepared.paused_plan == now.context.paused_plan
    &&& prepared.auto_model == now.context.auto_model
    &&& selected_for(now, events, n, prepared.auto_selection)
    &&& prepared.effective_provider == (match prepared.auto_selection {
        Some(chosen) => chosen.provider,
        None => now.context.api_provider,
    })
    &&& prepared.effective_model == (match prepared.auto_selection {
        Some(chosen) => chosen.model,
        None => now.context.model,
    })
    &&& prepared.selected_reasoning_effort is Some <==> auto_controls_reasoning(now.context)
}

/// What a preparation has kept to when it is in `state` after `n` events. `now` is the
/// request with the text that its message has by then.
pub open spec fn keeps_to(
    now: DispatchRequest,
    events: Seq<PrepEvent>,
    n: int,
    state: Preparation,
) -> bool {
    match state {
        Preparation::Hooks { request } => request == now,
        Preparation::References { request } => request == now,
        Preparation::Authority { request, references } => request == now && reported(
            events,
            n,
            PrepEvent::ReferencesCollected { references },
        ),
        Preparation::Mentions { request, references } => request == now && reported(
            events,
            n,
            PrepEvent::ReferencesCollected { references },
        ),
        Preparation::AutoRoute { request, references, content } => {
            &&& request == now
            &&& reported(events, n, PrepEvent::ReferencesCollected { references })
            &&& is_content_of(now, events, n, content)
            &&& now.context.auto_model
        },
        Preparation::Route { draft } => is_draft_of(now, events, n, draft),
        Preparation::Preflight { draft, route } => is_draft_of(now, events, n, draft) && reported(
            events,
            n,
            PrepEvent::RouteResolved { route: Ok(route) },
        ),
        Preparation::Trigger { draft, route } => {
            &&& is_draft_of(now, events, n, draft)
            &&& reported(events, n, PrepEvent::RouteResolved { route: Ok(route) }) || reported(
                events,
                n,
                PrepEvent::PreflightDone { route: Ok(route) },
            )
        },
        Preparation::Prompt { turn } => is_turn_of(now, events, n, turn),
        Preparation::Reasoning { turn, prompt } => {
            &&& is_turn_of(now, events, n, turn)
            &&& reported(events, n, PrepEvent::PromptBuilt { prompt })
            &&& auto_controls_reasoning(now.context)
        },
        Preparation::Effort { turn, prompt, selected } => {
            &&& is_turn_of(now, events, n, turn)
            &&& reported(events, n, PrepEvent::PromptBuilt { prompt })
            &&& selected is Some <==> auto_controls_reasoning(now.context)
        },
        Preparation::Engine { prepared } => is_commit_of(now, events, n, prepared),
        Preparation::Finished => true,
    }
}

/// The request of a run with the text that its message has after `n` events.
pub open spec fn request_after(
    request: DispatchRequest,
    events: Seq<PrepEvent>,
    states: Seq<Preparation>,
    n: int,
) -> DispatchRequest {
    with_display(request, text_after(request, events, states, n))
}

pub proof fn lemma_reports_stay(events: Seq<PrepEvent>, n: int)
    requires
        0 < n <= events.len(),
    ensures
        reported(events, n, events[n - 1]),
        forall|event: PrepEvent| #[trigger]
            reported(events, n - 1, event) ==> reported(events, n, event),
{
    assert forall|event: PrepEvent| #[trigger] reported(events, n - 1, event) implies reported(
        events,
        n,
        event,
    ) by {
        let i = choose|i: int| 0 <= i < n - 1 && #[trigger] events[i] == event;
        assert(events[i] == event);
    }
}

proof fn lemma_content_stays(now: DispatchRequest, events: Seq<PrepEvent>, n: int)
    requires
        0 < n <= events.len(),
    ensures
        forall|content: String| #[trigger]
            is_content_of(now, events, n - 1, content) ==> is_content_of(now, events, n, content),
{
    lemma_reports_stay(events, n);
    assert forall|content: String| #[trigger]
        is_content_of(now, events, n - 1, content) implies is_content_of(
        now,
        events,
        n,
        content,
    ) by {
        let user_request = choose|user_request: String| #[trigger]
            reported(events, n - 1, PrepEvent::MentionsExpanded { user_request }) && content@
                == full_content(now, user_request@);
        assert(reported(events, n, PrepEvent::MentionsExpanded { user_request }));
    }
}

/// One more event changes nothing of what a preparation in the same state has kept to.
pub proof fn lemma_keeping_stays(
    now: DispatchRequest,
    events: Seq<PrepEvent>,
    n: int,
    state: Preparation,
)
    requires
        0 < n <= events.len(),
        keeps_to(now, events, n - 1, state),
    ensures
        keeps_to(now, events, n, state),
{
    lemma_reports_stay(events, n);
    lemma_content_stays(now, events, n);
    match state {
        Preparation::Engine { prepared } => {
            let content = choose|content: String| #[trigger]
                is_user_message(prepared.next_api_message, content) && is_content_of(
                    now,
                    events,
                    n - 1,
                    content,
                );
            assert(is_user_message(prepared.next_api_message, content));
            assert(is_content_of(now, events, n, content));
        },
        _ => {},
    }
}

/// An event takes a preparation to a state in which it still keeps to its request.
proof fn lemma_step_keeps_to(
    now: DispatchRequest,
    events: Seq<PrepEvent>,
    n: int,
    state: Preparation,
    event: PrepEvent,
    step: Step,
)
    requires
        keeps_to(now, events, n, state),
        reported(events, n, event),
        leads_to(state, event, step),
    ensures
        match (state, event) {
            (
                Preparation::Hooks { .. },
                PrepEvent::HooksRan { outcome: MessageSubmitOutcome::Replaced { text } },
            ) => keeps_to(with_display(now, text), events, n, step.state),
            _ => keeps_to(now, events, n, step.state),
        },
{
    match (state, event) {
        (Preparation::Mentions { .. }, PrepEvent::MentionsExpanded { user_request }) => {
            assert(reported(events, n, PrepEvent::MentionsExpanded { user_request }));
        },
        (Preparation::Effort { turn, .. }, PrepEvent::EffortNamed { .. }) => {
            if let Preparation::Engine { prepared } = step.state {
                assert(is_user_message(prepared.next_api_message, turn.draft.content));
            }
        },
        _ => {},
    }
}

/// Law: whatever the host reports, in whatever order, a preparation keeps to the request
/// that it was started for: its id, its generation, its context and its message, with the
/// text that a hook replaced it by, if one did. What it holds besides is what the host has
/// reported, put together as the request asks.
pub proof fn law_run_keeps_to_its_request(
    request: DispatchRequest,
    events: Seq<PrepEvent>,
    states: Seq<Preparation>,
    actions: Seq<PrepAction>,
    n: int,
)
    requires
        is_run(request, events, states, actions),
        0 <= n <= events.len(),
    ensures
        keeps_to(request_after(request, events, states, n), events, n, states[n]),
        held(states[n]) matches Some(kept) ==> kept == held_by(
            request_after(request, events, states, n),
        ),
    decreases n,
{
    if n > 0 {
        law_run_keeps_to_its_request(request, events, states, actions, n - 1);
        let now = request_after(request, events, states, n - 1);
        let step = Step { state: states[n], action: actions[n - 1] };
        assert(leads_to(states[n - 1], events[n - 1], step));
        lemma_reports_stay(events, n);
        lemma_keeping_stays(now, events, n, states[n - 1]);
        lemma_step_keeps_to(now, events, n, states[n - 1], events[n - 1], step);
        if !(states[n - 1] is Finished) {
            law_step_keeps_the_message(states[n - 1], events[n - 1], step);
        } else {
            law_awaited_events_make_progress(states[n - 1], events[n - 1], step);
        }
    }
}

proof fn lemma_rank_grows(
    request: DispatchRequest,
    events: Seq<PrepEvent>,
    states: Seq<Preparation>,
    actions: Seq<PrepAction>,
    from: int,
    to: int,
)
    requires
        is_run(request, events, states, actions),
        0 <= from <= to <= events.len(),
    ensures
        rank(states[from]) <= rank(states[to]),
    decreases to - from,
{
    if from < to {
        let step = Step { state: states[from + 1], action: actions[from] };
        assert(leads_to(states[from], events[from], step));
        law_awaited_events_make_progress(states[from], events[from], step);
        lemma_rank_grows(request, events, states, actions, from + 1, to);
    }
}

/// Law: the text that a hook replaces takes effect, for the rest of the run.
pub proof fn law_replaced_text_takes_effect(
    request: DispatchRequest,
    events: Seq<PrepEvent>,
    states: Seq<Preparation>,
    actions: Seq<PrepAction>,
    i: int,
    n: int,
    text: String,
)
    requires
        is_run(request, events, states, actions),
        0 <= i < n <= events.len(),
        states[i] is Hooks,
        events[i] == (PrepEvent::HooksRan { outcome: MessageSubmitOutcome::Replaced { text } }),
    ensures
        text_after(request, events, states, n) == text,
    decreases n,
{
    if i < n - 1 {
        law_replaced_text_takes_effect(request, events, states, actions, i, n - 1, text);
        let step = Step { state: states[i + 1], action: actions[i] };
        assert(leads_to(states[i], events[i], step));
        law_awaited_events_make_progress(states[i], events[i], step);
        lemma_rank_grows(request, events, states, actions, i + 1, n - 1);
    }
}

/// Law: whatever the host reports, in whatever order, the end that a preparation reports
/// carries the id and the generation of the request that it was started for, and its
/// message, with the text that a hook replaced it by, if one did.
pub proof fn law_run_reports_its_request(
    request: DispatchRequest,
    events: Seq<PrepEvent>,
    states: Seq<Preparation>,
    actions: Seq<PrepAction>,
    n: int,
)
    requires
        is_run(request, events, states, actions),
        0 <= n < events.len(),
    ensures
        actions[n] matches PrepAction::Finish { event: end } ==> {
            &&& end.ident() == (request.dispatch_id, request.generation)
            &&& end.message() == request_after(request, events, states, n).message
        },
{
    law_run_keeps_to_its_request(request, events, states, actions, n);
    let step = Step { state: states[n + 1], action: actions[n] };
    assert(leads_to(states[n], events[n], step));
    law_awaited_events_make_progress(states[n], events[n], step);
    if !(states[n] is Finished) {
        law_step_keeps_the_message(states[n], events[n], step);
    }
}

/// Law: a send that is accepted commits its request: the content of its message, with the
/// mentions expanded; the provider and the model of the route selection, which it has
/// exactly where the model is chosen automatically, else those of the snapshot; a selected
/// reasoning effort exactly where the effort is chosen automatically; and the paused plan.
pub proof fn law_accepted_send_commits_its_request(
    request: DispatchRequest,
    events: Seq<PrepEvent>,
    states: Seq<Preparation>,
    actions: Seq<PrepAction>,
    n: int,
)
    requires
        is_run(request, events, states, actions),
        0 <= n < events.len(),
    ensures
        actions[n] matches PrepAction::Finish { event: DispatchEvent::Accepted(prepared) }
            ==> is_commit_of(request_after(request, events, states, n), events, n, prepared),
{
    law_run_keeps_to_its_request(request, events, states, actions, n);
    let step = Step { state: states[n + 1], action: actions[n] };
    assert(leads_to(states[n], events[n], step));
    law_only_the_engine_accepts(states[n], events[n], step);
}

/// Law: the engine is asked to run a turn of the request: its content, with the mentions
/// expanded, on a route that the host has reported, with the goal of the snapshot, and with
/// a compaction threshold that does not exceed the room that the route leaves for input.
pub proof fn law_engine_is_asked_to_run_the_request(
    request: DispatchRequest,
    events: Seq<PrepEvent>,
    states: Seq<Preparation>,
    actions: Seq<PrepAction>,
    n: int,
)
    requires
        is_run(request, events, states, actions),
        0 <= n < events.len(),
    ensures
        actions[n] matches PrepAction::SendToEngine { message } ==> {
            &&& states[n] matches Preparation::Effort { turn, .. }
            &&& is_turn_of(request_after(request, events, states, n), events, n, turn)
            &&& message.content == turn.draft.content
            &&& message.route == turn.route.id
            &&& message.goal_objective == turn_goal(request.context)
            &&& message.compaction == turn.compaction
        },
{
    law_run_keeps_to_its_request(request, events, states, actions, n);
    let step = Step { state: states[n + 1], action: actions[n] };
    assert(leads_to(states[n], events[n], step));
    law_engine_hears_what_is_committed(states[n], events[n], step);
}

/// Law: the engine is asked once at most.
pub proof fn law_engine_is_asked_once(
    request: DispatchRequest,
    events: Seq<PrepEvent>,
    states: Seq<Preparation>,
    actions: Seq<PrepAction>,
    j: int,
    k: int,
)
    requires
        is_run(request, events, states, actions),
        0 <= j < events.len(),
        0 <= k < events.len(),
        actions[j] is SendToEngine,
        actions[k] is SendToEngine,
    ensures
        j == k,
{
    let at_j = Step { state: states[j + 1], action: actions[j] };
    let at_k = Step { state: states[k + 1], action: actions[k] };
    assert(leads_to(states[j], events[j], at_j));
    assert(leads_to(states[k], events[k], at_k));
    law_engine_hears_what_is_committed(states[j], events[j], at_j);
    law_engine_hears_what_is_committed(states[k], events[k], at_k);
    if j < k {
        lemma_rank_grows(request, events, states, actions, j + 1, k);
    } else if k < j {
        lemma_rank_grows(request, events, states, actions, k + 1, j);
    }
}

/// Law: whatever trigger the host has measured, the threshold of the turn does not exceed
/// the room that the route leaves for input.
pub proof fn law_measured_trigger_fits_the_room(
    draft: Draft,
    route: ResolvedRoute,
    tokens: u64,
    step: Step,
)
    requires
        leads_to(
            Preparation::Trigger { draft, route },
            PrepEvent::TriggerMeasured { tokens },
            step,
        ),
    ensures
        step.state matches Preparation::Prompt { turn } && turn.route == route && (route_budget(
            route,
        ) matches Some(budget) ==> turn.compaction.token_threshold <= budget.ceiling()),
{
}

proof fn lemma_finished_stays(
    request: DispatchRequest,
    events: Seq<PrepEvent>,
    states: Seq<Preparation>,
    actions: Seq<PrepAction>,
    from: int,
    to: int,
)
    requires
        is_run(request, events, states, actions),
        0 <= from <= to <= events.len(),
        states[from] is Finished,
    ensures
        states[to] is Finished,
    decreases to - from,
{
    if from < to {
        let step = Step { state: states[from + 1], action: actions[from] };
        assert(leads_to(states[from], events[from], step));
        law_awaited_events_make_progress(states[from], events[from], step);
        lemma_finished_stays(request, events, states, actions, from + 1, to);
    }
}

/// Law: a preparation reports its end once, and asks nothing more of the host after it. So
/// a message that a hook blocked, or whose plugin skill or route was refused, never reaches
/// the engine.
pub proof fn law_run_ends_once(
    request: DispatchRequest,
    events: Seq<PrepEvent>,
    states: Seq<Preparation>,
    actions: Seq<PrepAction>,
    first: int,
    second: int,
)
    requires
        is_run(request, events, states, actions),
        0 <= first < second < events.len(),
        actions[first] is Finish,
    ensures
        actions[second] is Ignored,
{
    let step = Step { state: states[first + 1], action: actions[first] };
    assert(leads_to(states[first], events[first], step));
    law_awaited_events_make_progress(states[first], events[first], step);
    law_step_keeps_the_message(states[first], events[first], step);
    lemma_finished_stays(request, events, states, actions, first + 1, second);
    let last = Step { state: states[second + 1], action: actions[second] };
    assert(leads_to(states[second], events[second], last));
    law_awaited_events_make_progress(states[second], events[second], last);
}

proof fn lemma_engine_was_asked(
    request: DispatchRequest,
    events: Seq<PrepEvent>,
    states: Seq<Preparation>,
    actions: Seq<PrepAction>,
    n: int,
    prepared: PreparedDispatch,
) -> (j: int)
    requires
        is_run(request, events, states, actions),
        0 <= n <= events.len(),
        states[n] == (Preparation::Engine { prepared }),
    ensures
        0 <= j < n,
        actions[j] matches PrepAction::SendToEngine { message } && commits(prepared, message),
    decreases n,
{
    if n == 0 {
        law_first_step_asks(request);
        0
    } else {
        let step = Step { state: states[n], action: actions[n - 1] };
        assert(leads_to(states[n - 1], events[n - 1], step));
        law_engine_hears_what_is_committed(states[n - 1], events[n - 1], step);
        law_awaited_events_make_progress(states[n - 1], events[n - 1], step);
        if states[n - 1] is Engine {
            lemma_engine_was_asked(request, events, states, actions, n - 1, prepared)
        } else {
            n - 1
        }
    }
}

/// Law: a send that is reported as accepted was handed to the engine before, as it is
/// committed.
pub proof fn law_accepted_send_was_handed_over(
    request: DispatchRequest,
    events: Seq<PrepEvent>,
    states: Seq<Preparation>,
    actions: Seq<PrepAction>,
    n: int,
    prepared: PreparedDispatch,
) -> (j: int)
    requires
        is_run(request, events, states, actions),
        0 <= n < events.len(),
        actions[n] == (PrepAction::Finish { event: DispatchEvent::Accepted(prepared) }),
    ensures
        0 <= j < n,
        actions[j] matches PrepAction::SendToEngine { message } && commits(prepared, message),
{
    let step = Step { state: states[n + 1], action: actions[n] };
    assert(leads_to(states[n], events[n], step));
    law_only_the_engine_accepts(states[n], events[n], step);
    lemma_engine_was_asked(request, events, states, actions, n, prepared)
}

/// Whether an event is an answer to what an action asks of the host.
pub open spec fn answers(event: PrepEvent, action: PrepAction) -> bool {
    match event {
        PrepEvent::HooksRan { .. } => action is RunSubmitHooks,
        PrepEvent::ReferencesCollected { .. } => action is CollectReferences,
        PrepEvent::AuthorityChecked { .. } => action is VerifyAuthority,
        PrepEvent::MentionsExpanded { .. } => action is ExpandMentions,
        PrepEvent::AutoRouteResolved { .. } => action is ResolveAutoRoute,
        PrepEvent::RouteResolved { .. } => action is ResolveRoute,
        PrepEvent::PreflightDone { .. } => action is PreflightRoute,
        PrepEvent::TriggerMeasured { .. } => action is MeasureTrigger,
        PrepEvent::PromptBuilt { .. } => action is BuildPrompt,
        PrepEvent::ReasoningSelected { .. } => action is SelectReasoning,
        PrepEvent::EffortNamed { .. } => action is NameEffort,
        PrepEvent::EngineAnswered { .. } => action is SendToEngine,
    }
}

/// Law: an answer to what the host was asked for takes a preparation on, and nothing else
/// does. So a host that answers each action brings every preparation to its end.
pub proof fn law_answers_take_a_preparation_on(
    request: DispatchRequest,
    events: Seq<PrepEvent>,
    states: Seq<Preparation>,
    actions: Seq<PrepAction>,
    n: int,
)
    requires
        is_run(request, events, states, actions),
        0 <= n < events.len(),
    ensures
        rank(states[0]) < 12,
        answers(events[0], first_step(request).action) <==> rank(states[1]) > rank(states[0]),
        n + 1 < events.len() && !(actions[n] is Ignored) ==> (answers(events[n + 1], actions[n])
            <==> rank(states[n + 2]) > rank(states[n + 1])),
        !(actions[n] is Ignored) <==> rank(states[n + 1]) > rank(states[n]),
{
    law_first_step_asks(request);
    let first = Step { state: states[1], action: actions[0] };
    assert(leads_to(states[0], events[0], first));
    law_awaited_events_make_progress(states[0], events[0], first);
    let step = Step { state: states[n + 1], action: actions[n] };
    assert(leads_to(states[n], events[n], step));
    law_awaited_events_make_progress(states[n], events[n], step);
    if n + 1 < events.len() {
        let next = Step { state: states[n + 2], action: actions[n + 1] };
        assert(leads_to(states[n + 1], events[n + 1], next));
        law_awaited_events_make_progress(states[n + 1], events[n + 1], next);
    }
}

} // verus!
