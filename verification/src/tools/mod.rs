//! Tools that an agent can call.
pub mod agentphone_laws;
pub mod agentphone_tool;
pub mod args;
pub mod budget;
pub mod issue_tracker;
pub mod policy;
pub mod result;
pub mod schema;
pub mod x_laws;
pub mod x_tool;
