//! The values that a send is made of: the queued message, the snapshot it is prepared from,
//! and what is handed to the engine.
use vstd::prelude::*;

use crate::paused_plan::PausedCommandPlan;
use crate::route_budget::{BudgetDefaults, ModelFacts, RouteLimits};
use crate::workspace::WorkspacePath;

verus! {

/// A copy of an optional text.
pub fn copy_text(text: &Option<String>) -> (copy: Option<String>)
    ensures
        copy == *text,
{
    match text {
        Some(t) => Some(t.clone()),
        None => None,
    }
}

/// A model provider: one that the user defined, or a built-in one by its number.
#[derive(Debug, Clone, Copy, PartialEq, Eq, Structural)]
pub enum ApiProvider {
    Custom,
    BuiltIn { id: u32 },
}

/// How hard the model is asked to think.
#[derive(Debug, Clone, Copy, PartialEq, Eq, Structural)]
pub enum ReasoningEffort {
    /// The application chooses for each message.
    Auto,
    /// A fixed level.
    Fixed { level: u8 },
}

/// The application's mode, by its number.
#[derive(Debug, Clone, Copy, PartialEq, Eq, Structural)]
pub struct AppMode {
    pub id: u8,
}

/// How tool calls are approved, by its number.
#[derive(Debug, Clone, Copy, PartialEq, Eq, Structural)]
pub struct ApprovalMode {
    pub id: u8,
}

/// Where the running goal stands, by its number.
#[derive(Debug, Clone, Copy, PartialEq, Eq, Structural)]
pub struct GoalStatus {
    pub id: u8,
}

/// The authority under which a plugin skill was queued: the workspace it was granted in,
/// and the number under which the host keeps it.
#[derive(Debug)]
pub struct PluginAuthority {
    pub workspace: WorkspacePath,
    pub id: u64,
}

impl Clone for PluginAuthority {
    fn clone(&self) -> (copy: Self)
        ensures
            copy.workspace@ == self.workspace@,
            copy.id == self.id,
    {
        PluginAuthority { workspace: self.workspace.clone(), id: self.id }
    }
}

/// A message that the user has sent.
#[derive(Debug)]
pub struct QueuedMessage {
    /// The text as the user wrote it.
    pub display: String,
    /// Instruction of the skill that the message invokes.
    pub skill_instruction: Option<String>,
    /// The plugin authority that the skill comes with.
    pub skill_provenance: Option<PluginAuthority>,
}

/// Two messages with the same text, the same skill and the same authority.
pub open spec fn same_message(a: QueuedMessage, b: QueuedMessage) -> bool {
    &&& a.display == b.display
    &&& a.skill_instruction == b.skill_instruction
    &&& match (a.skill_provenance, b.skill_provenance) {
        (Some(x), Some(y)) => x.workspace@ == y.workspace@ && x.id == y.id,
        (None, None) => true,
        _ => false,
    }
}

impl Clone for QueuedMessage {
    fn clone(&self) -> (copy: Self)
        ensures
            same_message(copy, *self),
    {
        QueuedMessage {
            display: self.display.clone(),
            skill_instruction: copy_text(&self.skill_instruction),
            skill_provenance: match &self.skill_provenance {
                Some(authority) => Some(authority.clone()),
                None => None,
            },
        }
    }
}

impl QueuedMessage {
    /// A message, with the instruction of the skill that it invokes.
    pub fn new(display: String, skill_instruction: Option<String>) -> (message: Self)
        ensures
            message == (QueuedMessage { display, skill_instruction, skill_provenance: None }),
    {
        QueuedMessage { display, skill_instruction, skill_provenance: None }
    }
}

/// Inputs of the preparation, captured when the message is queued.
#[derive(Debug, Clone)]
pub struct DispatchContextSnapshot {
    pub workspace: WorkspacePath,
    /// The provider of the route that the session is bound to.
    pub route_provider: ApiProvider,
    pub api_provider: ApiProvider,
    pub model: String,
    pub auto_model: bool,
    pub mode: AppMode,
    pub reasoning_effort: ReasoningEffort,
    /// Whether hooks are configured for submitted messages.
    pub has_submit_hooks: bool,
    pub hook_mode_label: String,
    pub hook_session_id: String,
    pub hook_tokens: u32,
    pub skills_scan_codewhale_only: bool,
    pub locale_tag: String,
    pub translation_enabled: bool,
    pub show_thinking: bool,
    pub verbosity: Option<String>,
    pub active_route_limits: Option<RouteLimits>,
    /// Context window of `api_provider` and `model` in the provider capability table.
    pub capability_window: u32,
    pub budget_defaults: BudgetDefaults,
    pub allow_shell: bool,
    pub trust_mode: bool,
    pub auto_approve: bool,
    pub approval_mode: ApprovalMode,
    pub active_allowed_tools: Option<Vec<String>>,
    pub hunt_token_budget: Option<u32>,
    pub hunt_goal_status: GoalStatus,
    pub hunt_quarry: Option<String>,
    pub paused_plan: PausedCommandPlan,
    pub client_preflight_required: bool,
    pub auto_compact: bool,
    pub auto_compact_user_configured: bool,
    /// Whether user memory is on.
    pub memory_enabled: bool,
    /// Whether memory is served elsewhere, so that no block of it goes into the prompt.
    pub moraine_fallback: bool,
    pub project_context_pack_enabled: bool,
}

/// A request to prepare a message and have the engine accept it.
#[derive(Debug, Clone)]
pub struct DispatchRequest {
    pub dispatch_id: String,
    pub generation: u64,
    pub message: QueuedMessage,
    pub context: DispatchContextSnapshot,
}

/// A file or resource that a message refers to.
#[derive(Debug, Clone)]
pub struct ContextReference {
    pub text: String,
}

/// What an automatic route selection has chosen.
#[derive(Debug, Clone)]
pub struct AutoRouteSelection {
    pub provider: ApiProvider,
    pub model: String,
    pub reasoning_effort: Option<ReasoningEffort>,
}

/// A route that a turn can be run on.
#[derive(Debug, Clone)]
pub struct ResolvedRoute {
    /// The number under which the host keeps the route.
    pub id: u64,
    pub model: String,
    /// The base URL of the endpoint.
    pub base_url: String,
    pub identity_key: String,
    /// The name of the effective provider, that is, the one that the route was resolved for.
    pub provider_display_name: String,
    /// The limits that the offering reports.
    pub limits: RouteLimits,
    /// What the host's tables say of the snapshot's provider and the model of this route.
    pub facts: ModelFacts,
}

/// How compaction is set for a turn.
#[derive(Debug, Clone)]
pub struct CompactionConfig {
    pub enabled: bool,
    pub token_threshold: usize,
    pub model: String,
    pub effective_context_window: Option<u32>,
}

impl CompactionConfig {
    /// A copy of the configuration.
    pub fn copied(&self) -> (copy: Self)
        ensures
            copy == *self,
    {
        CompactionConfig {
            enabled: self.enabled,
            token_threshold: self.token_threshold,
            model: self.model.clone(),
            effective_context_window: self.effective_context_window,
        }
    }
}

/// A system prompt.
#[derive(Debug, Clone)]
pub struct SystemPrompt {
    pub text: String,
}

/// A part of a conversation message.
#[derive(Debug, Clone)]
pub enum ContentBlock {
    Text { text: String, cache_control: Option<String> },
}

/// A conversation message.
#[derive(Debug, Clone)]
pub struct Message {
    pub role: String,
    pub content: Vec<ContentBlock>,
}

/// Who a user message comes from.
#[derive(Debug, Clone, Copy, PartialEq, Eq, Structural)]
pub enum UserInputProvenance {
    ExternalUser,
}

/// What the engine is asked to run; the host adds its hooks.
#[derive(Debug, Clone)]
pub struct SendMessage {
    pub content: String,
    pub mode: AppMode,
    /// The route that the turn runs on, by the number under which the host keeps it.
    pub route: u64,
    pub compaction: CompactionConfig,
    pub goal_objective: Option<String>,
    pub goal_token_budget: Option<u32>,
    pub goal_status: GoalStatus,
    pub reasoning_effort: Option<String>,
    pub reasoning_effort_auto: bool,
    pub auto_model: bool,
    pub allow_shell: bool,
    pub trust_mode: bool,
    pub auto_approve: bool,
    pub approval_mode: ApprovalMode,
    pub translation_enabled: bool,
    pub show_thinking: bool,
    pub allowed_tools: Option<Vec<String>>,
    pub dynamic_tools: Vec<String>,
    pub verbosity: Option<String>,
    pub provenance: UserInputProvenance,
}

/// Everything that is needed to commit a successful send.
#[derive(Debug)]
pub struct PreparedDispatch {
    pub dispatch_id: String,
    pub generation: u64,
    pub message: QueuedMessage,
    pub references: Vec<ContextReference>,
    pub next_system_prompt: SystemPrompt,
    pub next_api_message: Message,
    pub turn_compaction: CompactionConfig,
    pub paused_plan: PausedCommandPlan,
    pub auto_selection: Option<AutoRouteSelection>,
    pub effective_provider: ApiProvider,
    pub effective_model: String,
    pub effective_provider_identity: String,
    pub effective_provider_label: String,
    pub selected_reasoning_effort: Option<ReasoningEffort>,
    pub auto_model: bool,
}

/// How a send has ended.
#[derive(Debug)]
pub enum DispatchEvent {
    /// The engine has accepted the message.
    Accepted(PreparedDispatch),
    /// The message was not sent.
    Rejected {
        dispatch_id: String,
        generation: u64,
        original: QueuedMessage,
        error: String,
        /// Whether the message goes back into the composer. Where it is false, the error is
        /// shown and nothing is restored: a hook block already has a reason for the user.
        restore_composer: bool,
    },
}

impl DispatchEvent {
    /// The send that the event belongs to: its id and generation.
    pub open spec fn ident(self) -> (String, u64) {
        match self {
            DispatchEvent::Accepted(prepared) => (prepared.dispatch_id, prepared.generation),
            DispatchEvent::Rejected { dispatch_id, generation, .. } => (dispatch_id, generation),
        }
    }

    /// The message that the event hands back.
    pub open spec fn message(self) -> QueuedMessage {
        match self {
            DispatchEvent::Accepted(prepared) => prepared.message,
            DispatchEvent::Rejected { original, .. } => original,
        }
    }
}

/// Law: messages that count as the same have the same text, the same skill and, where one has
/// an authority, both have the same.
pub proof fn law_same_message_agrees(a: QueuedMessage, b: QueuedMessage)
    requires
        same_message(a, b),
    ensures
        a.display == b.display,
        a.skill_instruction == b.skill_instruction,
        a.skill_provenance is Some <==> b.skill_provenance is Some,
        a.skill_provenance is Some ==> a.skill_provenance->0.id == b.skill_provenance->0.id
            && a.skill_provenance->0.workspace@ == b.skill_provenance->0.workspace@,
        same_message(b, a),
{
}

} // verus!
