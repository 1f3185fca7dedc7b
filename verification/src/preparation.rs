//! Preparing a message for the engine, as a machine that tells its host what to do next.
//!
//! Hooks, file mentions, route resolution and the engine itself live in the host. The
//! machine decides what is asked of them, in what order, and what their answers lead to.
use vstd::prelude::*;

use crate::dispatch::{
    copy_text, ApiProvider, AppMode, AutoRouteSelection, CompactionConfig, ContentBlock,
    ContextReference, DispatchContextSnapshot, DispatchEvent, DispatchRequest, Message,
    PreparedDispatch, QueuedMessage, ReasoningEffort, ResolvedRoute, SendMessage, SystemPrompt,
    UserInputProvenance,
};
use crate::route_budget::{
    auto_compact, auto_compact_default_for_route, compaction_budget_for_route,
    compaction_threshold_from_trigger, known_route_limits, reserved_budget,
    route_context_window_tokens, threshold, window_tokens, ContextBudget, RouteLimits,
};
use crate::text::{blank, is_blank};

verus! {

/// What hooks made of a submitted message.
#[derive(Debug, Clone)]
pub enum MessageSubmitOutcome {
    Unchanged,
    Replaced { text: String },
    Blocked { reason: String },
}

/// What hooks are told of a submitted message; the host adds the workspace.
#[derive(Debug, Clone)]
pub struct HookContext {
    pub mode: String,
    pub model: String,
    pub session_id: String,
    pub tokens: u32,
    pub message: String,
}

/// What an automatic route selection goes by; the host adds its configuration and the
/// recent conversation. The session's model setting is "auto".
#[derive(Debug, Clone)]
pub struct AutoRouteQuery {
    pub latest_request: String,
    pub mode: AppMode,
    pub effort: ReasoningEffort,
    pub provider: ApiProvider,
}

/// What a system prompt is built from; the host adds the workspace, the skills, the
/// configured instructions and the plugins.
#[derive(Debug, Clone)]
pub struct SystemPromptRequest {
    pub user_memory: bool,
    pub goal_objective: Option<String>,
    pub project_context_pack_enabled: bool,
    pub locale_tag: String,
    pub translation_enabled: bool,
    pub model_id: String,
    pub context_window_override: Option<u32>,
    pub show_thinking: bool,
    pub verbosity: Option<String>,
    pub skills_scan_codewhale_only: bool,
}

/// A message with its content and the route that it is to take.
#[derive(Debug)]
pub struct Draft {
    pub request: DispatchRequest,
    pub references: Vec<ContextReference>,
    pub content: String,
    pub auto_selection: Option<AutoRouteSelection>,
    pub effective_provider: ApiProvider,
    pub effective_model: String,
}

/// A draft on a resolved route, with the settings of its turn.
#[derive(Debug)]
pub struct Turn {
    pub draft: Draft,
    pub route: ResolvedRoute,
    pub compaction: CompactionConfig,
    pub goal_objective: Option<String>,
}

/// Where a preparation stands: what it waits for, and what it holds.
#[derive(Debug)]
pub enum Preparation {
    /// Waits for the hooks.
    Hooks { request: DispatchRequest },
    /// Waits for the references of the message.
    References { request: DispatchRequest },
    /// Waits for the verdict on the plugin authority.
    Authority { request: DispatchRequest, references: Vec<ContextReference> },
    /// Waits for the message with its file mentions expanded.
    Mentions { request: DispatchRequest, references: Vec<ContextReference> },
    /// Waits for an automatic route selection.
    AutoRoute { request: DispatchRequest, references: Vec<ContextReference>, content: String },
    /// Waits for a resolved route.
    Route { draft: Draft },
    /// Waits for the client preflight of the route.
    Preflight { draft: Draft, route: ResolvedRoute },
    /// Waits for the compaction trigger of the route's budget.
    Trigger { draft: Draft, route: ResolvedRoute },
    /// Waits for the system prompt.
    Prompt { turn: Turn },
    /// Waits for a reasoning effort to be selected.
    Reasoning { turn: Turn, prompt: SystemPrompt },
    /// Waits for the engine's name of the reasoning effort.
    Effort { turn: Turn, prompt: SystemPrompt, selected: Option<ReasoningEffort> },
    /// Waits for the engine to accept the message.
    Engine { prepared: PreparedDispatch },
    /// Has ended.
    Finished,
}

/// What the host reports.
#[derive(Debug)]
pub enum PrepEvent {
    HooksRan { outcome: MessageSubmitOutcome },
    ReferencesCollected { references: Vec<ContextReference> },
    AuthorityChecked { verdict: Result<(), String> },
    MentionsExpanded { user_request: String },
    AutoRouteResolved { selection: Result<AutoRouteSelection, String> },
    RouteResolved { route: Result<ResolvedRoute, String> },
    PreflightDone { route: Result<ResolvedRoute, String> },
    TriggerMeasured { tokens: u64 },
    PromptBuilt { prompt: SystemPrompt },
    ReasoningSelected { effort: ReasoningEffort },
    EffortNamed { value: Option<String> },
    EngineAnswered { answer: Result<(), String> },
}

/// What the host is to do next.
#[derive(Debug)]
pub enum PrepAction {
    /// Run the hooks for submitted messages.
    RunSubmitHooks { context: HookContext },
    /// Collect the references of a text, in the snapshot's workspace and directory.
    CollectReferences { display: String },
    /// Verify the plugin authority with this number.
    VerifyAuthority { id: u64 },
    /// Expand the file mentions of a text, in the snapshot's workspace and directory.
    ExpandMentions { display: String },
    /// Select a route for the message.
    ResolveAutoRoute { query: AutoRouteQuery },
    /// Resolve the route of a provider and model: that of the session's own identity, where
    /// `by_identity` says so.
    ResolveRoute { by_identity: bool, provider: ApiProvider, model: String },
    /// Run the client preflight of the route with this number.
    PreflightRoute { route: u64 },
    /// Measure the compaction trigger of a budget, at the configured percentage.
    MeasureTrigger { budget: ContextBudget },
    /// Build the system prompt.
    BuildPrompt { request: SystemPromptRequest },
    /// Select a reasoning effort for a text.
    SelectReasoning { display: String },
    /// Look up what a provider calls a reasoning effort at a base URL and for a model.
    NameEffort {
        effort: ReasoningEffort,
        provider: ApiProvider,
        base_url: String,
        model: String,
    },
    /// Hand the message to the engine.
    SendToEngine { message: SendMessage },
    /// Report how the send has ended.
    Finish { event: DispatchEvent },
    /// The event was not waited for: nothing is to be done.
    Ignored,
}

/// A preparation with what the host is to do next.
#[derive(Debug)]
pub struct Step {
    pub state: Preparation,
    pub action: PrepAction,
}

/// The step ends the preparation, and hands the message of `request` back with an error;
/// `restore` tells whether the message goes back into the composer.
pub open spec fn is_rejection(
    step: Step,
    request: DispatchRequest,
    error: Seq<char>,
    restore: bool,
) -> bool {
    &&& step.state is Finished
    &&& step.action matches PrepAction::Finish { event: DispatchEvent::Rejected {
        dispatch_id,
        generation,
        original,
        error: text,
        restore_composer,
    } }
    &&& dispatch_id == request.dispatch_id
    &&& generation == request.generation
    &&& original == request.message
    &&& text@ == error
    &&& restore_composer == restore
}

fn reject(request: DispatchRequest, error: String, restore_composer: bool) -> (step: Step)
    ensures
        is_rejection(step, request, error@, restore_composer),
{
    Step {
        state: Preparation::Finished,
        action: PrepAction::Finish {
            event: DispatchEvent::Rejected {
                dispatch_id: request.dispatch_id,
                generation: request.generation,
                original: request.message,
                error,
                restore_composer,
            },
        },
    }
}

/// The step that asks for the references of the message.
pub open spec fn references_step(request: DispatchRequest) -> Step {
    Step {
        state: Preparation::References { request },
        action: PrepAction::CollectReferences { display: request.message.display },
    }
}

fn ask_references(request: DispatchRequest) -> (step: Step)
    ensures
        step == references_step(request),
{
    let display: String = request.message.display.clone();
    Step {
        state: Preparation::References { request },
        action: PrepAction::CollectReferences { display },
    }
}

/// What the hooks are told.
pub open spec fn hook_context(request: DispatchRequest) -> HookContext {
    HookContext {
        mode: request.context.hook_mode_label,
        model: request.context.model,
        session_id: request.context.hook_session_id,
        tokens: request.context.hook_tokens,
        message: request.message.display,
    }
}

/// The first step of a preparation.
pub open spec fn first_step(request: DispatchRequest) -> Step {
    if request.context.has_submit_hooks {
        Step {
            state: Preparation::Hooks { request },
            action: PrepAction::RunSubmitHooks { context: hook_context(request) },
        }
    } else {
        references_step(request)
    }
}

/// Starts to prepare a message: hooks come first, where any are configured.
pub fn begin(request: DispatchRequest) -> (step: Step)
    ensures
        step == first_step(request),
{
    if request.context.has_submit_hooks {
        let context = HookContext {
            mode: request.context.hook_mode_label.clone(),
            model: request.context.model.clone(),
            session_id: request.context.hook_session_id.clone(),
            tokens: request.context.hook_tokens,
            message: request.message.display.clone(),
        };
        Step {
            state: Preparation::Hooks { request },
            action: PrepAction::RunSubmitHooks { context },
        }
    } else {
        ask_references(request)
    }
}

/// The request with the message's text replaced.
pub open spec fn with_display(request: DispatchRequest, text: String) -> DispatchRequest {
    DispatchRequest { message: QueuedMessage { display: text, ..request.message }, ..request }
}

/// What follows the hooks. The reason of a block has been shown to the user, so that nothing
/// is restored.
pub open spec fn after_hooks(
    request: DispatchRequest,
    outcome: MessageSubmitOutcome,
    step: Step,
) -> bool {
    match outcome {
        MessageSubmitOutcome::Unchanged => step == references_step(request),
        MessageSubmitOutcome::Replaced { text } => step == references_step(
            with_display(request, text),
        ),
        MessageSubmitOutcome::Blocked { reason } => is_rejection(step, request, reason@, false),
    }
}

/// Goes on after the hooks: they may replace the text, or block the message.
pub fn on_hooks(request: DispatchRequest, outcome: MessageSubmitOutcome) -> (step: Step)
    ensures
        after_hooks(request, outcome, step),
{
    match outcome {
        MessageSubmitOutcome::Unchanged => ask_references(request),
        MessageSubmitOutcome::Replaced { text } => {
            let mut changed = request;
            changed.message.display = text;
            ask_references(changed)
        },
        MessageSubmitOutcome::Blocked { reason } => reject(request, reason, false),
    }
}

/// The step that asks for the message with its file mentions expanded.
pub open spec fn mentions_step(
    request: DispatchRequest,
    references: Vec<ContextReference>,
) -> Step {
    Step {
        state: Preparation::Mentions { request, references },
        action: PrepAction::ExpandMentions { display: request.message.display },
    }
}

fn ask_mentions(request: DispatchRequest, references: Vec<ContextReference>) -> (step: Step)
    ensures
        step == mentions_step(request, references),
{
    let display: String = request.message.display.clone();
    Step {
        state: Preparation::Mentions { request, references },
        action: PrepAction::ExpandMentions { display },
    }
}

/// What follows the references: a plugin skill of another workspace is denied, one of this
/// workspace is verified, and a message without one goes on.
pub open spec fn after_references(
    request: DispatchRequest,
    references: Vec<ContextReference>,
    step: Step,
) -> bool {
    match request.message.skill_provenance {
        Some(authority) => if authority.workspace@ != request.context.workspace@ {
            is_rejection(
                step,
                request,
                "Queued plugin skill belongs to a different workspace and was denied"@,
                true,
            )
        } else {
            step == (Step {
                state: Preparation::Authority { request, references },
                action: PrepAction::VerifyAuthority { id: authority.id },
            })
        },
        None => step == mentions_step(request, references),
    }
}

/// Goes on with the references of the message.
pub fn on_references(request: DispatchRequest, references: Vec<ContextReference>) -> (step: Step)
    ensures
        after_references(request, references, step),
{
    if let Some(authority) = &request.message.skill_provenance {
        if !authority.workspace.same_as(&request.context.workspace) {
            return reject(
                request,
                "Queued plugin skill belongs to a different workspace and was denied".to_string(),
                true,
            );
        }
        let id: u64 = authority.id;
        return Step {
            state: Preparation::Authority { request, references },
            action: PrepAction::VerifyAuthority { id },
        };
    }
    ask_mentions(request, references)
}

/// What follows the verdict on the plugin authority.
pub open spec fn after_authority(
    request: DispatchRequest,
    references: Vec<ContextReference>,
    verdict: Result<(), String>,
    step: Step,
) -> bool {
    match verdict {
        Ok(_) => step == mentions_step(request, references),
        Err(error) => is_rejection(step, request, error@, true),
    }
}

/// Goes on with the verdict on the plugin authority.
pub fn on_authority(
    request: DispatchRequest,
    references: Vec<ContextReference>,
    verdict: Result<(), String>,
) -> (step: Step)
    ensures
        after_authority(request, references, verdict, step),
{
    match verdict {
        Ok(_) => ask_mentions(request, references),
        Err(error) => reject(request, error, true),
    }
}

/// The content of a message: the user's request, behind the skill instruction if there is
/// one.
pub open spec fn content_text(message: QueuedMessage, user_request: Seq<char>) -> Seq<char> {
    match message.skill_instruction {
        Some(instruction) => instruction@ + "\n\n---\n\nUser request: "@ + user_request,
        None => user_request,
    }
}

/// The content of a message whose file mentions have been expanded to `user_request`.
pub fn queued_message_content(message: &QueuedMessage, user_request: String) -> (content: String)
    ensures
        content@ == content_text(*message, user_request@),
{
    match &message.skill_instruction {
        Some(instruction) => {
            let mut content: String = instruction.clone();
            content.append("\n\n---\n\nUser request: ");
            content.append(user_request.as_str());
            content
        },
        None => user_request,
    }
}

/// The content that is sent: that of the message, with the note of the paused plan behind it.
pub open spec fn full_content(request: DispatchRequest, user_request: Seq<char>) -> Seq<char> {
    content_text(request.message, user_request) + match request.context.paused_plan.note_text() {
        Some(note) => note,
        None => Seq::empty(),
    }
}

/// A draft whose effective provider and model are those of the selection, where the model
/// is chosen automatically, and else those of the snapshot.
pub open spec fn drafted(
    request: DispatchRequest,
    references: Vec<ContextReference>,
    content: String,
    auto_selection: Option<AutoRouteSelection>,
) -> Draft {
    Draft {
        request,
        references,
        content,
        auto_selection,
        effective_provider: match auto_selection {
            Some(selection) => selection.provider,
            None => request.context.api_provider,
        },
        effective_model: match auto_selection {
            Some(selection) => selection.model,
            None => request.context.model,
        },
    }
}

/// The step that asks for the route of a draft.
pub open spec fn route_step(draft: Draft) -> Step {
    Step {
        state: Preparation::Route { draft },
        action: PrepAction::ResolveRoute {
            by_identity: draft.effective_provider == draft.request.context.route_provider,
            provider: draft.effective_provider,
            model: draft.effective_model,
        },
    }
}

fn ask_route(
    request: DispatchRequest,
    references: Vec<ContextReference>,
    content: String,
    auto_selection: Option<AutoRouteSelection>,
) -> (step: Step)
    ensures
        step == route_step(drafted(request, references, content, auto_selection)),
{
    let effective_provider: ApiProvider = match &auto_selection {
        Some(selection) => selection.provider,
        None => request.context.api_provider,
    };
    let effective_model: String = match &auto_selection {
        Some(selection) => selection.model.clone(),
        None => request.context.model.clone(),
    };
    let by_identity: bool = effective_provider == request.context.route_provider;
    let model: String = effective_model.clone();
    let draft = Draft {
        request,
        references,
        content,
        auto_selection,
        effective_provider,
        effective_model,
    };
    Step {
        state: Preparation::Route { draft },
        action: PrepAction::ResolveRoute { by_identity, provider: effective_provider, model },
    }
}

/// What follows the expanded message: the content is complete, and a route is selected or
/// resolved. A selection goes by the content, or by the message where that is blank.
pub open spec fn after_mentions(
    request: DispatchRequest,
    references: Vec<ContextReference>,
    user_request: Seq<char>,
    step: Step,
) -> bool {
    if request.context.auto_model {
        &&& step.state matches Preparation::AutoRoute { request: r, references: refs, content }
        &&& r == request
        &&& refs == references
        &&& content@ == full_content(request, user_request)
        &&& step.action == (PrepAction::ResolveAutoRoute {
            query: AutoRouteQuery {
                latest_request: if blank(content@) {
                    request.message.display
                } else {
                    content
                },
                mode: request.context.mode,
                effort: request.context.reasoning_effort,
                provider: request.context.api_provider,
            },
        })
    } else {
        &&& step.state matches Preparation::Route { draft }
        &&& draft.content@ == full_content(request, user_request)
        &&& step == route_step(drafted(request, references, draft.content, None))
    }
}

/// Goes on with the message whose file mentions have been expanded.
pub fn on_mentions(
    request: DispatchRequest,
    references: Vec<ContextReference>,
    user_request: String,
) -> (step: Step)
    ensures
        after_mentions(request, references, user_request@, step),
{
    let mut content: String = queued_message_content(&request.message, user_request);
    if let Some(note) = request.context.paused_plan.note() {
        content.append(note);
    }
    proof {
        assert(content@ =~= full_content(request, user_request@));
    }
    if request.context.auto_model {
        let latest_request: String = if is_blank(content.as_str()) {
            request.message.display.clone()
        } else {
            content.clone()
        };
        let query = AutoRouteQuery {
            latest_request,
            mode: request.context.mode,
            effort: request.context.reasoning_effort,
            provider: request.context.api_provider,
        };
        Step {
            state: Preparation::AutoRoute { request, references, content },
            action: PrepAction::ResolveAutoRoute { query },
        }
    } else {
        ask_route(request, references, content, None)
    }
}

/// What follows an automatic route selection.
pub open spec fn after_auto_route(
    request: DispatchRequest,
    references: Vec<ContextReference>,
    content: String,
    selection: Result<AutoRouteSelection, String>,
    step: Step,
) -> bool {
    match selection {
        Ok(chosen) => step == route_step(drafted(request, references, content, Some(chosen))),
        Err(error) => is_rejection(
            step,
            request,
            "Auto model route unavailable: "@ + error@,
            true,
        ),
    }
}

/// Goes on with an automatic route selection.
pub fn on_auto_route(
    request: DispatchRequest,
    references: Vec<ContextReference>,
    content: String,
    selection: Result<AutoRouteSelection, String>,
) -> (step: Step)
    ensures
        after_auto_route(request, references, content, selection, step),
{
    match selection {
        Ok(chosen) => ask_route(request, references, content, Some(chosen)),
        Err(error) => {
            let mut text: String = "Auto model route unavailable: ".to_string();
            text.append(error.as_str());
            reject(request, text, true)
        },
    }
}

/// The limits of a route that count: those that came from a concrete offering.
pub open spec fn kept_limits(route: ResolvedRoute) -> Option<RouteLimits> {
    if route.limits.known() {
        Some(route.limits)
    } else {
        None
    }
}

/// The context window of a route.
pub open spec fn route_window(route: ResolvedRoute) -> u32 {
    window_tokens(route.facts.capability_window, kept_limits(route))
}

/// The budget that the compaction trigger of a route is measured for, where the route has a
/// window.
pub open spec fn route_budget(route: ResolvedRoute) -> Option<ContextBudget> {
    if route_window(route) == 0 {
        None
    } else {
        Some(reserved_budget(route.facts, route_window(route), kept_limits(route)))
    }
}

/// Compaction for a turn on a route, where `trigger` was measured for the route's budget.
/// The user's own setting decides whether it is on, else the default of the route. The
/// threshold never exceeds the room that the budget leaves for input.
pub open spec fn turn_compaction(
    context: DispatchContextSnapshot,
    route: ResolvedRoute,
    trigger: u64,
) -> CompactionConfig {
    CompactionConfig {
        enabled: if context.auto_compact_user_configured {
            context.auto_compact
        } else {
            auto_compact(route.facts, context.budget_defaults, kept_limits(route))
        },
        token_threshold: threshold(
            route_budget(route),
            trigger,
            context.budget_defaults.compaction_token_threshold,
        ),
        model: route.model,
        effective_context_window: Some(route_window(route)),
    }
}

/// Compaction for a turn on a route.
pub fn compaction_for_snapshot(
    context: &DispatchContextSnapshot,
    route: &ResolvedRoute,
    trigger: u64,
) -> (compaction: CompactionConfig)
    ensures
        compaction == turn_compaction(*context, *route, trigger),
{
    let limits: Option<RouteLimits> = known_route_limits(route.limits);
    CompactionConfig {
        enabled: if context.auto_compact_user_configured {
            context.auto_compact
        } else {
            auto_compact_default_for_route(&route.facts, &context.budget_defaults, limits)
        },
        token_threshold: compaction_threshold_from_trigger(
            compaction_budget_for_route(&route.facts, limits),
            trigger,
            &context.budget_defaults,
        ),
        model: route.model.clone(),
        effective_context_window: Some(
            route_context_window_tokens(route.facts.capability_window, limits),
        ),
    }
}

/// The goal of a turn: that of the paused plan, else the running one.
pub open spec fn turn_goal(context: DispatchContextSnapshot) -> Option<String> {
    match context.paused_plan.objective() {
        Some(goal) => Some(goal),
        None => context.hunt_quarry,
    }
}

/// What the system prompt of a turn is built from.
pub open spec fn prompt_request(
    context: DispatchContextSnapshot,
    goal_objective: Option<String>,
) -> SystemPromptRequest {
    SystemPromptRequest {
        user_memory: context.memory_enabled && !context.moraine_fallback,
        goal_objective,
        project_context_pack_enabled: context.project_context_pack_enabled,
        locale_tag: context.locale_tag,
        translation_enabled: context.translation_enabled,
        model_id: context.model,
        context_window_override: Some(
            window_tokens(context.capability_window, context.active_route_limits),
        ),
        show_thinking: context.show_thinking,
        verbosity: context.verbosity,
        skills_scan_codewhale_only: context.skills_scan_codewhale_only,
    }
}

/// What the system prompt of a turn is built from.
pub fn build_system_prompt(
    context: &DispatchContextSnapshot,
    goal_objective: &Option<String>,
) -> (request: SystemPromptRequest)
    ensures
        request == prompt_request(*context, *goal_objective),
{
    SystemPromptRequest {
        user_memory: context.memory_enabled && !context.moraine_fallback,
        goal_objective: copy_text(goal_objective),
        project_context_pack_enabled: context.project_context_pack_enabled,
        locale_tag: context.locale_tag.clone(),
        translation_enabled: context.translation_enabled,
        model_id: context.model.clone(),
        context_window_override: Some(
            route_context_window_tokens(context.capability_window, context.active_route_limits),
        ),
        show_thinking: context.show_thinking,
        verbosity: copy_text(&context.verbosity),
        skills_scan_codewhale_only: context.skills_scan_codewhale_only,
    }
}

/// The turn of a draft on a route.
pub open spec fn turn_of(draft: Draft, route: ResolvedRoute, trigger: u64) -> Turn {
    Turn {
        draft,
        route,
        compaction: turn_compaction(draft.request.context, route, trigger),
        goal_objective: turn_goal(draft.request.context),
    }
}

/// The step that asks for the system prompt of a turn.
pub open spec fn prompt_step(turn: Turn) -> Step {
    Step {
        state: Preparation::Prompt { turn },
        action: PrepAction::BuildPrompt {
            request: prompt_request(turn.draft.request.context, turn.goal_objective),
        },
    }
}

fn ask_prompt(draft: Draft, route: ResolvedRoute, trigger: u64) -> (step: Step)
    ensures
        step == prompt_step(turn_of(draft, route, trigger)),
{
    let compaction: CompactionConfig = compaction_for_snapshot(
        &draft.request.context,
        &route,
        trigger,
    );
    let goal_objective: Option<String> = match draft.request.context.paused_plan.goal_objective() {
        Some(goal) => Some(goal),
        None => copy_text(&draft.request.context.hunt_quarry),
    };
    let request: SystemPromptRequest = build_system_prompt(
        &draft.request.context,
        &goal_objective,
    );
    let turn = Turn { draft, route, compaction, goal_objective };
    Step { state: Preparation::Prompt { turn }, action: PrepAction::BuildPrompt { request } }
}

/// The step that follows a route that is good to use: its compaction trigger is measured,
/// where it has a window.
pub open spec fn routed_step(draft: Draft, route: ResolvedRoute) -> Step {
    match route_budget(route) {
        Some(budget) => Step {
            state: Preparation::Trigger { draft, route },
            action: PrepAction::MeasureTrigger { budget },
        },
        None => prompt_step(turn_of(draft, route, 0)),
    }
}

fn use_route(draft: Draft, route: ResolvedRoute) -> (step: Step)
    ensures
        step == routed_step(draft, route),
{
    let limits: Option<RouteLimits> = known_route_limits(route.limits);
    match compaction_budget_for_route(&route.facts, limits) {
        Some(budget) => Step {
            state: Preparation::Trigger { draft, route },
            action: PrepAction::MeasureTrigger { budget },
        },
        None => ask_prompt(draft, route, 0),
    }
}

/// What follows the resolution of the route.
pub open spec fn after_route(
    draft: Draft,
    route: Result<ResolvedRoute, String>,
    step: Step,
) -> bool {
    match route {
        Ok(resolved) => if draft.request.context.client_preflight_required {
            step == (Step {
                state: Preparation::Preflight { draft, route: resolved },
                action: PrepAction::PreflightRoute { route: resolved.id },
            })
        } else {
            step == routed_step(draft, resolved)
        },
        Err(error) => is_rejection(step, draft.request, error@, true),
    }
}

/// Goes on with the resolved route: a client preflight comes first, where it is required.
pub fn on_route(draft: Draft, route: Result<ResolvedRoute, String>) -> (step: Step)
    ensures
        after_route(draft, route, step),
{
    match route {
        Ok(resolved) => if draft.request.context.client_preflight_required {
            let id: u64 = resolved.id;
            Step {
                state: Preparation::Preflight { draft, route: resolved },
                action: PrepAction::PreflightRoute { route: id },
            }
        } else {
            use_route(draft, resolved)
        },
        Err(error) => reject(draft.request, error, true),
    }
}

/// What follows the client preflight.
pub open spec fn after_preflight(
    draft: Draft,
    route: Result<ResolvedRoute, String>,
    step: Step,
) -> bool {
    match route {
        Ok(resolved) => step == routed_step(draft, resolved),
        Err(error) => is_rejection(step, draft.request, error@, true),
    }
}

/// Goes on after the client preflight.
pub fn on_preflight(draft: Draft, route: Result<ResolvedRoute, String>) -> (step: Step)
    ensures
        after_preflight(draft, route, step),
{
    match route {
        Ok(resolved) => use_route(draft, resolved),
        Err(error) => reject(draft.request, error, true),
    }
}

/// Goes on with the measured compaction trigger.
pub fn on_trigger(draft: Draft, route: ResolvedRoute, tokens: u64) -> (step: Step)
    ensures
        step == prompt_step(turn_of(draft, route, tokens)),
{
    ask_prompt(draft, route, tokens)
}

/// Whether the reasoning effort is chosen for each message.
pub open spec fn auto_controls_reasoning(context: DispatchContextSnapshot) -> bool {
    context.auto_model || context.reasoning_effort == ReasoningEffort::Auto
}

/// The step that asks what the effective provider calls the effort on the route of the
/// turn: the selected effort, or that of the snapshot where none was selected.
pub open spec fn effort_step(
    turn: Turn,
    prompt: SystemPrompt,
    selected: Option<ReasoningEffort>,
) -> Step {
    Step {
        state: Preparation::Effort { turn, prompt, selected },
        action: PrepAction::NameEffort {
            effort: match selected {
                Some(effort) => effort,
                None => turn.draft.request.context.reasoning_effort,
            },
            provider: turn.draft.effective_provider,
            base_url: turn.route.base_url,
            model: turn.route.model,
        },
    }
}

fn ask_effort(
    turn: Turn,
    prompt: SystemPrompt,
    selected: Option<ReasoningEffort>,
) -> (step: Step)
    ensures
        step == effort_step(turn, prompt, selected),
{
    let effort: ReasoningEffort = match selected {
        Some(effort) => effort,
        None => turn.draft.request.context.reasoning_effort,
    };
    let provider: ApiProvider = turn.draft.effective_provider;
    let base_url: String = turn.route.base_url.clone();
    let model: String = turn.route.model.clone();
    Step {
        state: Preparation::Effort { turn, prompt, selected },
        action: PrepAction::NameEffort { effort, provider, base_url, model },
    }
}

/// What follows the system prompt: where the effort is chosen for each message, that of the
/// route selection is taken, and one is selected for the message where it has none.
pub open spec fn after_prompt(turn: Turn, prompt: SystemPrompt) -> Step {
    if auto_controls_reasoning(turn.draft.request.context) {
        match turn.draft.auto_selection {
            Some(AutoRouteSelection { reasoning_effort: Some(effort), .. }) => effort_step(
                turn,
                prompt,
                Some(effort),
            ),
            _ => Step {
                state: Preparation::Reasoning { turn, prompt },
                action: PrepAction::SelectReasoning {
                    display: turn.draft.request.message.display,
                },
            },
        }
    } else {
        effort_step(turn, prompt, None)
    }
}

/// Goes on with the system prompt.
pub fn on_prompt(turn: Turn, prompt: SystemPrompt) -> (step: Step)
    ensures
        step == after_prompt(turn, prompt),
{
    let automatic: bool = turn.draft.request.context.auto_model
        || turn.draft.request.context.reasoning_effort == ReasoningEffort::Auto;
    if !automatic {
        return ask_effort(turn, prompt, None);
    }
    let chosen: Option<ReasoningEffort> = match &turn.draft.auto_selection {
        Some(selection) => selection.reasoning_effort,
        None => None,
    };
    match chosen {
        Some(effort) => ask_effort(turn, prompt, Some(effort)),
        None => {
            let display: String = turn.draft.request.message.display.clone();
            Step {
                state: Preparation::Reasoning { turn, prompt },
                action: PrepAction::SelectReasoning { display },
            }
        },
    }
}

/// Goes on with the reasoning effort that was selected for the message.
pub fn on_reasoning(turn: Turn, prompt: SystemPrompt, effort: ReasoningEffort) -> (step: Step)
    ensures
        step == effort_step(turn, prompt, Some(effort)),
{
    ask_effort(turn, prompt, Some(effort))
}

/// `message` is the user message with this text.
pub open spec fn is_user_message(message: Message, text: String) -> bool {
    &&& message.role@ == "user"@
    &&& message.content@ == seq![ContentBlock::Text { text, cache_control: None }]
}

/// What the user sees of the provider: the identity of a custom one, else its name.
pub open spec fn provider_label(provider: ApiProvider, route: ResolvedRoute) -> String {
    if provider == ApiProvider::Custom {
        route.identity_key
    } else {
        route.provider_display_name
    }
}

/// `prepared` is what a turn commits when the engine accepts it.
pub open spec fn is_prepared(
    turn: Turn,
    prompt: SystemPrompt,
    selected: Option<ReasoningEffort>,
    prepared: PreparedDispatch,
) -> bool {
    let draft = turn.draft;
    &&& is_user_message(prepared.next_api_message, draft.content)
    &&& prepared == (PreparedDispatch {
        dispatch_id: draft.request.dispatch_id,
        generation: draft.request.generation,
        message: draft.request.message,
        references: draft.references,
        next_system_prompt: prompt,
        next_api_message: prepared.next_api_message,
        turn_compaction: turn.compaction,
        paused_plan: draft.request.context.paused_plan,
        auto_selection: draft.auto_selection,
        effective_provider: draft.effective_provider,
        effective_model: draft.effective_model,
        effective_provider_identity: turn.route.identity_key,
        effective_provider_label: provider_label(draft.effective_provider, turn.route),
        selected_reasoning_effort: selected,
        auto_model: draft.request.context.auto_model,
    })
}

/// `message` is what the engine is asked to run for a turn.
pub open spec fn is_engine_message(
    turn: Turn,
    effort: Option<String>,
    message: SendMessage,
) -> bool {
    let context = turn.draft.request.context;
    &&& message.dynamic_tools@.len() == 0
    &&& message == (SendMessage {
        content: turn.draft.content,
        mode: context.mode,
        route: turn.route.id,
        compaction: turn.compaction,
        goal_objective: turn.goal_objective,
        goal_token_budget: context.hunt_token_budget,
        goal_status: context.hunt_goal_status,
        reasoning_effort: effort,
        reasoning_effort_auto: auto_controls_reasoning(context),
        auto_model: context.auto_model,
        allow_shell: context.allow_shell,
        trust_mode: context.trust_mode,
        auto_approve: context.auto_approve,
        approval_mode: context.approval_mode,
        translation_enabled: context.translation_enabled,
        show_thinking: context.show_thinking,
        allowed_tools: context.active_allowed_tools,
        dynamic_tools: message.dynamic_tools,
        verbosity: context.verbosity,
        provenance: UserInputProvenance::ExternalUser,
    })
}

/// What follows the name of the effort: the engine is asked, and what will be committed is
/// kept until it has answered.
pub open spec fn after_effort(
    turn: Turn,
    prompt: SystemPrompt,
    selected: Option<ReasoningEffort>,
    value: Option<String>,
    step: Step,
) -> bool {
    &&& step.state matches Preparation::Engine { prepared }
    &&& is_prepared(turn, prompt, selected, prepared)
    &&& step.action matches PrepAction::SendToEngine { message }
    &&& is_engine_message(turn, value, message)
}

/// Goes on with the engine's name of the effort: hands the message to the engine.
pub fn on_effort(
    turn: Turn,
    prompt: SystemPrompt,
    selected: Option<ReasoningEffort>,
    value: Option<String>,
) -> (step: Step)
    ensures
        after_effort(turn, prompt, selected, value, step),
{
    let Turn { draft, route, compaction, goal_objective } = turn;
    let Draft {
        request,
        references,
        content,
        auto_selection,
        effective_provider,
        effective_model,
    } = draft;
    let context: DispatchContextSnapshot = request.context;
    let reasoning_effort_auto: bool = context.auto_model || context.reasoning_effort
        == ReasoningEffort::Auto;
    let label: String = if effective_provider == ApiProvider::Custom {
        route.identity_key.clone()
    } else {
        route.provider_display_name
    };
    let block = ContentBlock::Text { text: content.clone(), cache_control: None };
    let next_api_message = Message { role: "user".to_string(), content: vec![block] };
    assert(next_api_message.content@ =~= seq![block]);
    let message = SendMessage {
        content,
        mode: context.mode,
        route: route.id,
        compaction: compaction.copied(),
        goal_objective,
        goal_token_budget: context.hunt_token_budget,
        goal_status: context.hunt_goal_status,
        reasoning_effort: value,
        reasoning_effort_auto,
        auto_model: context.auto_model,
        allow_shell: context.allow_shell,
        trust_mode: context.trust_mode,
        auto_approve: context.auto_approve,
        approval_mode: context.approval_mode,
        translation_enabled: context.translation_enabled,
        show_thinking: context.show_thinking,
        allowed_tools: context.active_allowed_tools,
        dynamic_tools: Vec::new(),
        verbosity: context.verbosity,
        provenance: UserInputProvenance::ExternalUser,
    };
    let prepared = PreparedDispatch {
        dispatch_id: request.dispatch_id,
        generation: request.generation,
        message: request.message,
        references,
        next_system_prompt: prompt,
        next_api_message,
        turn_compaction: compaction,
        paused_plan: context.paused_plan,
        auto_selection,
        effective_provider,
        effective_model,
        effective_provider_identity: route.identity_key,
        effective_provider_label: label,
        selected_reasoning_effort: selected,
        auto_model: context.auto_model,
    };
    Step {
        state: Preparation::Engine { prepared },
        action: PrepAction::SendToEngine { message },
    }
}

/// What follows the engine's answer.
pub open spec fn after_engine(
    prepared: PreparedDispatch,
    answer: Result<(), String>,
) -> Step {
    Step {
        state: Preparation::Finished,
        action: PrepAction::Finish {
            event: match answer {
                Ok(_) => DispatchEvent::Accepted(prepared),
                Err(error) => DispatchEvent::Rejected {
                    dispatch_id: prepared.dispatch_id,
                    generation: prepared.generation,
                    original: prepared.message,
                    error,
                    restore_composer: true,
                },
            },
        },
    }
}

/// Ends the preparation with the engine's answer.
pub fn on_engine(prepared: PreparedDispatch, answer: Result<(), String>) -> (step: Step)
    ensures
        step == after_engine(prepared, answer),
{
    let event: DispatchEvent = match answer {
        Ok(_) => DispatchEvent::Accepted(prepared),
        Err(error) => DispatchEvent::Rejected {
            dispatch_id: prepared.dispatch_id,
            generation: prepared.generation,
            original: prepared.message,
            error,
            restore_composer: true,
        },
    };
    Step { state: Preparation::Finished, action: PrepAction::Finish { event } }
}

/// Whether a preparation waits for an event of this sort.
pub open spec fn awaits(state: Preparation, event: PrepEvent) -> bool {
    match (state, event) {
        (Preparation::Hooks { .. }, PrepEvent::HooksRan { .. }) => true,
        (Preparation::References { .. }, PrepEvent::ReferencesCollected { .. }) => true,
        (Preparation::Authority { .. }, PrepEvent::AuthorityChecked { .. }) => true,
        (Preparation::Mentions { .. }, PrepEvent::MentionsExpanded { .. }) => true,
        (Preparation::AutoRoute { .. }, PrepEvent::AutoRouteResolved { .. }) => true,
        (Preparation::Route { .. }, PrepEvent::RouteResolved { .. }) => true,
        (Preparation::Preflight { .. }, PrepEvent::PreflightDone { .. }) => true,
        (Preparation::Trigger { .. }, PrepEvent::TriggerMeasured { .. }) => true,
        (Preparation::Prompt { .. }, PrepEvent::PromptBuilt { .. }) => true,
        (Preparation::Reasoning { .. }, PrepEvent::ReasoningSelected { .. }) => true,
        (Preparation::Effort { .. }, PrepEvent::EffortNamed { .. }) => true,
        (Preparation::Engine { .. }, PrepEvent::EngineAnswered { .. }) => true,
        _ => false,
    }
}

/// `step` is what `event` leads to in `state`. An event that is not waited for changes
/// nothing.
pub open spec fn leads_to(state: Preparation, event: PrepEvent, step: Step) -> bool {
    match (state, event) {
        (Preparation::Hooks { request }, PrepEvent::HooksRan { outcome }) => after_hooks(
            request,
            outcome,
            step,
        ),
        (
            Preparation::References { request },
            PrepEvent::ReferencesCollected { references },
        ) => after_references(request, references, step),
        (
            Preparation::Authority { request, references },
            PrepEvent::AuthorityChecked { verdict },
        ) => after_authority(request, references, verdict, step),
        (
            Preparation::Mentions { request, references },
            PrepEvent::MentionsExpanded { user_request },
        ) => after_mentions(request, references, user_request@, step),
        (
            Preparation::AutoRoute { request, references, content },
            PrepEvent::AutoRouteResolved { selection },
        ) => after_auto_route(request, references, content, selection, step),
        (Preparation::Route { draft }, PrepEvent::RouteResolved { route }) => after_route(
            draft,
            route,
            step,
        ),
        (
            Preparation::Preflight { draft, .. },
            PrepEvent::PreflightDone { route },
        ) => after_preflight(draft, route, step),
        (Preparation::Trigger { draft, route }, PrepEvent::TriggerMeasured { tokens }) => step
            == prompt_step(turn_of(draft, route, tokens)),
        (Preparation::Prompt { turn }, PrepEvent::PromptBuilt { prompt }) => step == after_prompt(
            turn,
            prompt,
        ),
        (Preparation::Reasoning { turn, prompt }, PrepEvent::ReasoningSelected { effort }) => step
            == effort_step(turn, prompt, Some(effort)),
        (
            Preparation::Effort { turn, prompt, selected },
            PrepEvent::EffortNamed { value },
        ) => after_effort(turn, prompt, selected, value, step),
        (Preparation::Engine { prepared }, PrepEvent::EngineAnswered { answer }) => step
            == after_engine(prepared, answer),
        _ => step == (Step { state, action: PrepAction::Ignored }),
    }
}

fn ignore(state: Preparation) -> (step: Step)
    ensures
        step == (Step { state, action: PrepAction::Ignored }),
{
    Step { state, action: PrepAction::Ignored }
}

impl Preparation {
    /// Takes the preparation on by one event of the host.
    pub fn advance(self, event: PrepEvent) -> (step: Step)
        ensures
            leads_to(self, event, step),
    {
        match self {
            Preparation::Hooks { request } => match event {
                PrepEvent::HooksRan { outcome } => on_hooks(request, outcome),
                _ => ignore(Preparation::Hooks { request }),
            },
            Preparation::References { request } => match event {
                PrepEvent::ReferencesCollected { references } => on_references(
                    request,
                    references,
                ),
                _ => ignore(Preparation::References { request }),
            },
            Preparation::Authority { request, references } => match event {
                PrepEvent::AuthorityChecked { verdict } => on_authority(
                    request,
                    references,
                    verdict,
                ),
                _ => ignore(Preparation::Authority { request, references }),
            },
            Preparation::Mentions { request, references } => match event {
                PrepEvent::MentionsExpanded { user_request } => on_mentions(
                    request,
                    references,
                    user_request,
                ),
                _ => ignore(Preparation::Mentions { request, references }),
            },
            Preparation::AutoRoute { request, references, content } => match event {
                PrepEvent::AutoRouteResolved { selection } => on_auto_route(
                    request,
                    references,
                    content,
                    selection,
                ),
                _ => ignore(Preparation::AutoRoute { request, references, content }),
            },
            Preparation::Route { draft } => match event {
                PrepEvent::RouteResolved { route } => on_route(draft, route),
                _ => ignore(Preparation::Route { draft }),
            },
            Preparation::Preflight { draft, route: resolved } => match event {
                PrepEvent::PreflightDone { route } => on_preflight(draft, route),
                _ => ignore(Preparation::Preflight { draft, route: resolved }),
            },
            Preparation::Trigger { draft, route } => match event {
                PrepEvent::TriggerMeasured { tokens } => on_trigger(draft, route, tokens),
                _ => ignore(Preparation::Trigger { draft, route }),
            },
            Preparation::Prompt { turn } => match event {
                PrepEvent::PromptBuilt { prompt } => on_prompt(turn, prompt),
                _ => ignore(Preparation::Prompt { turn }),
            },
            Preparation::Reasoning { turn, prompt } => match event {
                PrepEvent::ReasoningSelected { effort } => on_reasoning(turn, prompt, effort),
                _ => ignore(Preparation::Reasoning { turn, prompt }),
            },
            Preparation::Effort { turn, prompt, selected } => match event {
                PrepEvent::EffortNamed { value } => on_effort(turn, prompt, selected, value),
                _ => ignore(Preparation::Effort { turn, prompt, selected }),
            },
            Preparation::Engine { prepared } => match event {
                PrepEvent::EngineAnswered { answer } => on_engine(prepared, answer),
                _ => ignore(Preparation::Engine { prepared }),
            },
            Preparation::Finished => ignore(Preparation::Finished),
        }
    }
}

} // verus!
