//! Adapter between an editor's inline-completion requests and a code-completion
//! agent that speaks its own JSON-RPC dialect.
pub mod copilot;
pub mod text;
pub mod versions;
pub mod bridge;
pub mod auth;
pub mod session;
