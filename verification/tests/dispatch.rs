use codewhale::app_state::{App, EngineHandle, Hunt};
use codewhale::dispatch::{
    ApiProvider, AppMode, ApprovalMode, AutoRouteSelection, ContentBlock, ContextReference,
    DispatchContextSnapshot, DispatchEvent, DispatchRequest, GoalStatus, PluginAuthority,
    PreparedDispatch, QueuedMessage, ReasoningEffort, ResolvedRoute, SendMessage, SystemPrompt,
};
use codewhale::dispatch_coordinator::{dispatch_channel, enqueue_result, Refusal};
use codewhale::harness::HarnessResolution;
use codewhale::paused_plan::PausedCommandPlan;
use codewhale::preparation::{
    begin, build_system_prompt, compaction_for_snapshot, queued_message_content,
    MessageSubmitOutcome, PrepAction, PrepEvent, Preparation, Step,
};
use codewhale::route_budget::{BudgetDefaults, ModelFacts, RouteLimits};
use codewhale::workspace::WorkspacePath;

const DEEPSEEK: ApiProvider = ApiProvider::BuiltIn { id: 1 };
const OPENAI: ApiProvider = ApiProvider::BuiltIn { id: 2 };

fn path(parts: &[&str]) -> WorkspacePath {
    WorkspacePath {
        components: parts.iter().map(|p| p.to_string()).collect(),
    }
}

fn context() -> DispatchContextSnapshot {
    DispatchContextSnapshot {
        workspace: path(&["/", "work"]),
        route_provider: DEEPSEEK,
        api_provider: DEEPSEEK,
        model: "deepseek-v4-pro".to_string(),
        auto_model: false,
        mode: AppMode { id: 1 },
        reasoning_effort: ReasoningEffort::Fixed { level: 2 },
        has_submit_hooks: false,
        hook_mode_label: "agent".to_string(),
        hook_session_id: "session".to_string(),
        hook_tokens: 42,
        skills_scan_codewhale_only: false,
        locale_tag: "en".to_string(),
        translation_enabled: false,
        show_thinking: true,
        verbosity: Some("low".to_string()),
        active_route_limits: None,
        capability_window: 1_000_000,
        budget_defaults: BudgetDefaults {
            compaction_token_threshold: 50_000,
            auto_compact_max_window: 256_000,
        },
        allow_shell: true,
        trust_mode: false,
        auto_approve: false,
        approval_mode: ApprovalMode { id: 3 },
        active_allowed_tools: Some(vec!["read".to_string()]),
        hunt_token_budget: Some(9),
        hunt_goal_status: GoalStatus { id: 4 },
        hunt_quarry: Some("quarry".to_string()),
        paused_plan: PausedCommandPlan::NoPlan,
        client_preflight_required: false,
        auto_compact: true,
        auto_compact_user_configured: true,
        memory_enabled: true,
        moraine_fallback: false,
        project_context_pack_enabled: true,
    }
}

fn request() -> DispatchRequest {
    DispatchRequest {
        dispatch_id: "send-1".to_string(),
        generation: 7,
        message: QueuedMessage::new("hello".to_string(), None),
        context: context(),
    }
}

fn route() -> ResolvedRoute {
    ResolvedRoute {
        id: 77,
        model: "deepseek-v4-pro".to_string(),
        base_url: "https://api.example/v1".to_string(),
        identity_key: "deepseek-key".to_string(),
        provider_display_name: "DeepSeek".to_string(),
        limits: RouteLimits::default(),
        facts: ModelFacts {
            capability_window: 1_000_000,
            model_window: Some(1_000_000),
            auto_compact_default: false,
            output_override: None,
        },
    }
}

fn references() -> PrepEvent {
    PrepEvent::ReferencesCollected {
        references: vec![ContextReference {
            text: "@file".to_string(),
        }],
    }
}

fn expanded(text: &str) -> PrepEvent {
    PrepEvent::MentionsExpanded {
        user_request: text.to_string(),
    }
}

fn prompt() -> PrepEvent {
    PrepEvent::PromptBuilt {
        prompt: SystemPrompt {
            text: "be good".to_string(),
        },
    }
}

fn rejected(step: Step) -> (String, u64, QueuedMessage, String, bool) {
    assert!(matches!(step.state, Preparation::Finished));
    match step.action {
        PrepAction::Finish {
            event:
                DispatchEvent::Rejected {
                    dispatch_id,
                    generation,
                    original,
                    error,
                    restore_composer,
                },
        } => (dispatch_id, generation, original, error, restore_composer),
        other => panic!("not a rejection: {other:?}"),
    }
}

/// Runs a request from the start to the engine, and returns what was asked of it.
fn to_engine(request: DispatchRequest, answers: Vec<PrepEvent>) -> (Preparation, SendMessage) {
    let mut step = begin(request);
    for answer in answers {
        step = step.state.advance(answer);
    }
    match step.action {
        PrepAction::SendToEngine { message } => (step.state, message),
        other => panic!("not sent: {other:?}"),
    }
}

fn accepted(state: Preparation) -> PreparedDispatch {
    match state.advance(PrepEvent::EngineAnswered { answer: Ok(()) }).action {
        PrepAction::Finish {
            event: DispatchEvent::Accepted(prepared),
        } => prepared,
        other => panic!("not accepted: {other:?}"),
    }
}

fn plain_answers() -> Vec<PrepEvent> {
    vec![
        references(),
        expanded("hello there"),
        PrepEvent::RouteResolved { route: Ok(route()) },
        PrepEvent::TriggerMeasured { tokens: 589_466 },
        prompt(),
        PrepEvent::EffortNamed {
            value: Some("medium".to_string()),
        },
    ]
}

#[test]
fn plain_message_reaches_the_engine_and_is_committed() {
    let (state, message) = to_engine(request(), plain_answers());
    assert_eq!(message.content, "hello there");
    assert_eq!(message.route, 77);
    assert_eq!(message.goal_objective.as_deref(), Some("quarry"));
    assert_eq!(message.goal_token_budget, Some(9));
    assert_eq!(message.reasoning_effort.as_deref(), Some("medium"));
    assert!(!message.reasoning_effort_auto);
    assert_eq!(message.allowed_tools, Some(vec!["read".to_string()]));
    assert!(message.dynamic_tools.is_empty());
    assert_eq!(message.verbosity.as_deref(), Some("low"));
    assert_eq!(message.compaction.token_threshold, 589_466);
    assert_eq!(message.compaction.effective_context_window, Some(1_000_000));
    assert!(message.compaction.enabled);

    let prepared = accepted(state);
    assert_eq!(prepared.dispatch_id, "send-1");
    assert_eq!(prepared.generation, 7);
    assert_eq!(prepared.message.display, "hello");
    assert_eq!(prepared.references.len(), 1);
    assert_eq!(prepared.next_system_prompt.text, "be good");
    assert_eq!(prepared.next_api_message.role, "user");
    let ContentBlock::Text { text, cache_control } = &prepared.next_api_message.content[0];
    assert_eq!(text, "hello there");
    assert!(cache_control.is_none());
    assert_eq!(prepared.effective_model, "deepseek-v4-pro");
    assert_eq!(prepared.effective_provider_identity, "deepseek-key");
    assert_eq!(prepared.effective_provider_label, "DeepSeek");
    assert_eq!(prepared.selected_reasoning_effort, None);
}

#[test]
fn hooks_come_first_and_see_the_message() {
    let mut r = request();
    r.context.has_submit_hooks = true;
    match begin(r).action {
        PrepAction::RunSubmitHooks { context } => {
            assert_eq!(context.mode, "agent");
            assert_eq!(context.model, "deepseek-v4-pro");
            assert_eq!(context.session_id, "session");
            assert_eq!(context.tokens, 42);
            assert_eq!(context.message, "hello");
        }
        other => panic!("{other:?}"),
    }
}

#[test]
fn blocking_hook_rejects_with_its_reason() {
    let mut r = request();
    r.context.has_submit_hooks = true;
    let step = begin(r).state.advance(PrepEvent::HooksRan {
        outcome: MessageSubmitOutcome::Blocked {
            reason: "no".to_string(),
        },
    });
    let (id, generation, original, error, restore) = rejected(step);
    assert_eq!((id.as_str(), generation), ("send-1", 7));
    assert_eq!(original.display, "hello");
    assert_eq!(error, "no");
    assert!(!restore);
}

#[test]
fn replacing_hook_changes_the_text_for_good() {
    let mut r = request();
    r.context.has_submit_hooks = true;
    let step = begin(r).state.advance(PrepEvent::HooksRan {
        outcome: MessageSubmitOutcome::Replaced {
            text: "hi".to_string(),
        },
    });
    assert!(matches!(&step.action, PrepAction::CollectReferences { display } if display == "hi"));
    let step = step.state.advance(references()).state.advance(expanded("hi"));
    let step = step.state.advance(PrepEvent::RouteResolved {
        route: Err("no route".to_string()),
    });
    let (_, _, original, error, _) = rejected(step);
    assert_eq!(original.display, "hi");
    assert_eq!(error, "no route");

    let mut r = request();
    r.context.has_submit_hooks = true;
    let step = begin(r).state.advance(PrepEvent::HooksRan {
        outcome: MessageSubmitOutcome::Unchanged,
    });
    assert!(matches!(&step.action, PrepAction::CollectReferences { display } if display == "hello"));
}

#[test]
fn plugin_skill_of_another_workspace_is_denied() {
    let mut r = request();
    r.message.skill_provenance = Some(PluginAuthority {
        workspace: path(&["/", "elsewhere"]),
        id: 5,
    });
    let (_, _, _, error, _) = rejected(begin(r).state.advance(references()));
    assert_eq!(
        error,
        "Queued plugin skill belongs to a different workspace and was denied"
    );
}

#[test]
fn plugin_authority_is_verified() {
    let queued = || {
        let mut r = request();
        r.message.skill_provenance = Some(PluginAuthority {
            workspace: path(&["/", "work"]),
            id: 5,
        });
        r
    };
    let step = begin(queued()).state.advance(references());
    assert!(matches!(step.action, PrepAction::VerifyAuthority { id: 5 }));
    let (_, _, _, error, _) = rejected(step.state.advance(PrepEvent::AuthorityChecked {
        verdict: Err("revoked".to_string()),
    }));
    assert_eq!(error, "revoked");
    let step = begin(queued())
        .state
        .advance(references())
        .state
        .advance(PrepEvent::AuthorityChecked { verdict: Ok(()) });
    assert!(matches!(&step.action, PrepAction::ExpandMentions { display } if display == "hello"));
}

#[test]
fn skill_instruction_precedes_the_request() {
    let message = QueuedMessage::new("x".to_string(), Some("Do it well.".to_string()));
    assert_eq!(
        queued_message_content(&message, "fix".to_string()),
        "Do it well.\n\n---\n\nUser request: fix"
    );
    let plain = QueuedMessage::new("x".to_string(), None);
    assert_eq!(queued_message_content(&plain, "fix".to_string()), "fix");
}

#[test]
fn paused_note_and_goal_go_along() {
    let mut r = request();
    r.context.paused_plan = PausedCommandPlan::Resume {
        quarry: "old goal".to_string(),
        note: " [resumed]".to_string(),
    };
    let (state, message) = to_engine(r, plain_answers());
    assert_eq!(message.content, "hello there [resumed]");
    assert_eq!(message.goal_objective.as_deref(), Some("old goal"));
    assert_eq!(
        accepted(state).paused_plan,
        PausedCommandPlan::Resume {
            quarry: "old goal".to_string(),
            note: " [resumed]".to_string(),
        }
    );
}

fn auto_request() -> DispatchRequest {
    let mut r = request();
    r.context.auto_model = true;
    r
}

fn selection(effort: Option<ReasoningEffort>) -> PrepEvent {
    PrepEvent::AutoRouteResolved {
        selection: Ok(AutoRouteSelection {
            provider: OPENAI,
            model: "gpt-x".to_string(),
            reasoning_effort: effort,
        }),
    }
}

#[test]
fn auto_route_goes_by_content_or_message() {
    for (text, expected) in [("content", "content"), (" \n", "hello")] {
        let step = begin(auto_request()).state.advance(references()).state.advance(expanded(text));
        match step.action {
            PrepAction::ResolveAutoRoute { query } => {
                assert_eq!(query.latest_request, expected);
                assert_eq!(query.provider, DEEPSEEK);
                assert_eq!(query.mode, AppMode { id: 1 });
                assert_eq!(query.effort, ReasoningEffort::Fixed { level: 2 });
            }
            other => panic!("{other:?}"),
        }
    }
}

#[test]
fn failed_auto_route_is_explained() {
    let step = begin(auto_request()).state.advance(references()).state.advance(expanded("c"));
    let (_, _, _, error, _) = rejected(step.state.advance(PrepEvent::AutoRouteResolved {
        selection: Err("offline".to_string()),
    }));
    assert_eq!(error, "Auto model route unavailable: offline");
}

#[test]
fn auto_selection_sets_provider_model_and_effort() {
    let step = begin(auto_request())
        .state
        .advance(references())
        .state
        .advance(expanded("c"))
        .state
        .advance(selection(Some(ReasoningEffort::Fixed { level: 9 })));
    match &step.action {
        PrepAction::ResolveRoute {
            by_identity,
            provider,
            model,
        } => {
            assert!(!by_identity);
            assert_eq!(*provider, OPENAI);
            assert_eq!(model, "gpt-x");
        }
        other => panic!("{other:?}"),
    }
    let step = step
        .state
        .advance(PrepEvent::RouteResolved { route: Ok(route()) })
        .state
        .advance(PrepEvent::TriggerMeasured { tokens: 1 })
        .state
        .advance(prompt());
    assert!(matches!(
        step.action,
        PrepAction::NameEffort {
            effort: ReasoningEffort::Fixed { level: 9 },
            provider: OPENAI,
            ..
        }
    ));
    let step = step.state.advance(PrepEvent::EffortNamed { value: None });
    let prepared = accepted(step.state);
    assert_eq!(
        prepared.selected_reasoning_effort,
        Some(ReasoningEffort::Fixed { level: 9 })
    );
    assert!(prepared.auto_model);
    assert_eq!(prepared.effective_model, "gpt-x");
    assert!(prepared.auto_selection.is_some());
}

#[test]
fn effort_is_selected_where_the_route_names_none() {
    let mut r = request();
    r.context.reasoning_effort = ReasoningEffort::Auto;
    let mut step = begin(r);
    for answer in plain_answers().into_iter().take(5) {
        step = step.state.advance(answer);
    }
    assert!(matches!(&step.action, PrepAction::SelectReasoning { display } if display == "hello"));
    let step = step.state.advance(PrepEvent::ReasoningSelected {
        effort: ReasoningEffort::Fixed { level: 1 },
    });
    match &step.action {
        PrepAction::NameEffort {
            effort,
            provider,
            base_url,
            model,
        } => {
            assert_eq!(*effort, ReasoningEffort::Fixed { level: 1 });
            assert_eq!(*provider, DEEPSEEK);
            assert_eq!(base_url, "https://api.example/v1");
            assert_eq!(model, "deepseek-v4-pro");
        }
        other => panic!("{other:?}"),
    }
    match step.state.advance(PrepEvent::EffortNamed { value: None }).action {
        PrepAction::SendToEngine { message } => assert!(message.reasoning_effort_auto),
        other => panic!("{other:?}"),
    }
}

#[test]
fn preflight_runs_where_required() {
    let waiting = || {
        let mut r = request();
        r.context.client_preflight_required = true;
        begin(r)
            .state
            .advance(references())
            .state
            .advance(expanded("c"))
            .state
            .advance(PrepEvent::RouteResolved { route: Ok(route()) })
    };
    assert!(matches!(waiting().action, PrepAction::PreflightRoute { route: 77 }));
    let (_, _, _, error, _) = rejected(waiting().state.advance(PrepEvent::PreflightDone {
        route: Err("no key".to_string()),
    }));
    assert_eq!(error, "no key");
    let step = waiting().state.advance(PrepEvent::PreflightDone { route: Ok(route()) });
    match step.action {
        PrepAction::MeasureTrigger { budget } => {
            assert_eq!(budget.window_tokens, 1_000_000);
            assert_eq!(budget.output_tokens, 262_144);
            assert_eq!(budget.input_ceiling(), 736_832);
        }
        other => panic!("{other:?}"),
    }
}

#[test]
fn route_without_window_takes_default_threshold() {
    let mut bare = route();
    bare.facts.capability_window = 0;
    let step = begin(request())
        .state
        .advance(references())
        .state
        .advance(expanded("c"))
        .state
        .advance(PrepEvent::RouteResolved { route: Ok(bare) });
    match (&step.state, &step.action) {
        (Preparation::Prompt { turn }, PrepAction::BuildPrompt { .. }) => {
            assert_eq!(turn.compaction.token_threshold, 50_000);
            assert_eq!(turn.compaction.effective_context_window, Some(0));
        }
        other => panic!("{other:?}"),
    }
}

#[test]
fn custom_provider_is_labelled_by_identity() {
    let mut r = request();
    r.context.api_provider = ApiProvider::Custom;
    let (state, _) = to_engine(r, plain_answers());
    let prepared = accepted(state);
    assert_eq!(prepared.effective_provider_label, "deepseek-key");
    assert_eq!(prepared.effective_provider, ApiProvider::Custom);
}

#[test]
fn turn_runs_on_the_route_that_passed_preflight() {
    let mut r = request();
    r.context.client_preflight_required = true;
    let mut passed = route();
    passed.id = 78;
    let mut answers = plain_answers();
    answers.insert(3, PrepEvent::PreflightDone { route: Ok(passed) });
    let (_, message) = to_engine(r, answers);
    assert_eq!(message.route, 78);
}

#[test]
fn replaced_text_is_committed_and_engine_is_asked_once() {
    let mut r = request();
    r.context.has_submit_hooks = true;
    let mut answers = vec![PrepEvent::HooksRan {
        outcome: MessageSubmitOutcome::Replaced {
            text: "hi".to_string(),
        },
    }];
    answers.extend(plain_answers());
    // Reports that are not waited for change nothing.
    answers.push(PrepEvent::HooksRan {
        outcome: MessageSubmitOutcome::Replaced {
            text: "late".to_string(),
        },
    });
    answers.push(PrepEvent::EffortNamed { value: None });
    let mut step = begin(r);
    let mut sent = 0;
    for answer in answers {
        step = step.state.advance(answer);
        if matches!(step.action, PrepAction::SendToEngine { .. }) {
            sent += 1;
        }
    }
    assert_eq!(sent, 1);
    assert_eq!(accepted(step.state).message.display, "hi");
}

#[test]
fn refusing_engine_hands_the_message_back() {
    let (state, _) = to_engine(request(), plain_answers());
    let step = state.advance(PrepEvent::EngineAnswered {
        answer: Err("mailbox closed".to_string()),
    });
    let (id, generation, original, error, restore) = rejected(step);
    assert_eq!((id.as_str(), generation), ("send-1", 7));
    assert_eq!(original.display, "hello");
    assert_eq!(error, "mailbox closed");
    assert!(restore);
}

#[test]
fn unexpected_events_change_nothing() {
    let step = begin(request()).state.advance(prompt());
    assert!(matches!(step.action, PrepAction::Ignored));
    assert!(matches!(step.state, Preparation::References { .. }));
    let done = Preparation::Finished.advance(references());
    assert!(matches!(done.action, PrepAction::Ignored));
    assert!(matches!(done.state, Preparation::Finished));
}

#[test]
fn compaction_follows_user_setting_or_route() {
    let mut c = context();
    c.auto_compact = false;
    assert!(!compaction_for_snapshot(&c, &route(), 5).enabled);
    c.auto_compact_user_configured = false;
    let mut r = route();
    r.facts.auto_compact_default = true;
    let config = compaction_for_snapshot(&c, &r, 5);
    assert!(config.enabled);
    assert_eq!(config.token_threshold, 5);
    assert_eq!(config.model, "deepseek-v4-pro");
    r.limits.context_tokens = Some(300_000);
    let config = compaction_for_snapshot(&c, &r, u64::MAX);
    assert!(!config.enabled);
    assert_eq!(config.token_threshold, 233_440);
    assert_eq!(config.effective_context_window, Some(300_000));
}

#[test]
fn prompt_is_asked_for_with_the_session_model() {
    let mut c = context();
    c.active_route_limits = Some(RouteLimits {
        context_tokens: Some(128_000),
        ..Default::default()
    });
    let request = build_system_prompt(&c, &Some("goal".to_string()));
    assert!(request.user_memory);
    assert_eq!(request.goal_objective.as_deref(), Some("goal"));
    assert_eq!(request.model_id, "deepseek-v4-pro");
    assert_eq!(request.context_window_override, Some(128_000));
    assert_eq!(request.locale_tag, "en");
    c.moraine_fallback = true;
    assert!(!build_system_prompt(&c, &None).user_memory);
}

#[test]
fn full_or_closed_queue_hands_the_request_back() {
    let (handle, mut rx) = dispatch_channel();
    assert!(handle.try_enqueue(request()).is_ok());
    let mut second = request();
    second.dispatch_id = "send-2".to_string();
    let back = handle.clone().try_enqueue(second).unwrap_err();
    assert_eq!(back.dispatch_id, "send-2");
    assert_eq!(back.message.display, "hello");
    assert_eq!(rx.try_recv().unwrap().dispatch_id, "send-1");
    drop(rx);
    let back = handle.try_enqueue(request()).unwrap_err();
    assert_eq!(back.dispatch_id, "send-1");
    let refused = enqueue_result(Err(Refusal::Closed { request: back }));
    assert_eq!(refused.unwrap_err().generation, 7);
    assert!(enqueue_result(Ok(())).is_ok());
}

fn app() -> App {
    App {
        workspace: path(&["/", "work"]),
        harness_profiles: Vec::new(),
        active_harness_resolution: HarnessResolution::default(),
        active_provider_route: "deepseek".to_string(),
        model_display_label: "m".to_string(),
        repo_law: None,
        paused: true,
        pausable: true,
        paused_quarry: Some("paused".to_string()),
        hunt: Hunt {
            quarry: Some("running".to_string()),
            tokens_used: 1,
            time_used_seconds: 2,
            continuation_count: 3,
        },
    }
}

#[test]
fn plans_are_applied() {
    let mut engine = EngineHandle { paused: true };
    let mut a = app();
    PausedCommandPlan::NoPlan.apply(&mut a, &mut engine);
    assert!(!engine.paused);
    assert!(a.paused && a.pausable);

    let mut a = app();
    PausedCommandPlan::ClearWithoutQuarry.apply(&mut a, &mut engine);
    assert!(!a.paused && !a.pausable);
    assert_eq!(a.paused_quarry.as_deref(), Some("paused"));

    let mut a = app();
    a.pausable = false;
    let plan = PausedCommandPlan::Resume {
        quarry: "q".to_string(),
        note: "n".to_string(),
    };
    assert_eq!(plan.note(), Some("n"));
    assert_eq!(plan.goal_objective().as_deref(), Some("q"));
    plan.apply(&mut a, &mut engine);
    assert!(!a.paused && a.pausable);
    assert_eq!(a.paused_quarry, None);
    assert_eq!(a.hunt.quarry.as_deref(), Some("q"));
    assert_eq!(a.hunt.tokens_used, 1);

    let mut a = app();
    let plan = PausedCommandPlan::Detach {
        note: "bye".to_string(),
    };
    assert_eq!(plan.note(), Some("bye"));
    assert_eq!(plan.goal_objective(), None);
    plan.apply(&mut a, &mut engine);
    assert!(!a.paused && a.pausable);
    assert_eq!(a.hunt.quarry, None);
    assert_eq!(
        (a.hunt.tokens_used, a.hunt.time_used_seconds, a.hunt.continuation_count),
        (0, 0, 0)
    );
    assert_eq!(PausedCommandPlan::NoPlan.note(), None);
    assert_eq!(PausedCommandPlan::ClearWithoutQuarry.goal_objective(), None);
}
