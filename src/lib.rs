//! Command dispatch and per-room onboarding for a chat-room automation agent.
//!
//! The library holds the decisions: how a message is routed to a command,
//! how routing failures read to the user, and how a newly joined room gets
//! its default configuration row. Transport and store I/O stay with the caller.
pub mod dispatch_error;
pub mod onboarding;
pub mod router;
pub mod text;
