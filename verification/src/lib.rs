//! Harness postures, route budgets and the send path of a coding agent's terminal UI.
pub mod text;
pub mod wildcard;
pub mod provider;
pub mod harness;
pub mod route_budget;
pub mod budget_laws;
pub mod posture_laws;
pub mod workspace;
pub mod app_state;
pub mod paused_plan;
pub mod dispatch;
pub mod preparation;
pub mod preparation_laws;
pub mod turn_laws;
pub mod dispatch_coordinator;
pub mod send_latency;
pub mod pending_dispatch;
pub mod harness_status;
pub mod status_laws;
