pub mod agentphone;
pub mod laws;
pub mod message;
pub mod session;
pub mod webhook;
