//! The tools that agents call: what each asks of the daemon and what it makes of
//! the answer.

pub mod agent_laws;
pub mod agents;
pub mod client;
pub mod errors;
pub mod memory_scope;
pub mod planner;
pub mod planner_laws;
pub mod requests;
pub mod server;
pub mod task_laws;
pub mod tasks;
pub mod team;
pub mod team_laws;
pub mod telemetry;
pub mod tool_laws;
pub mod waiting;
