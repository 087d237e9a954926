//! Core engine for autonomous agent runs: a bounded think/act loop against a
//! remote completion provider, a sandboxed tool dispatcher, a conversation
//! sanitizer that repairs tool-call/tool-response pairing, and a supervisor
//! holding agent lifecycle state and one-shot approval gates.
//!
//! All network and filesystem effects are reached through caller-supplied
//! collaborator traits, so the decision logic here is fully verified.

pub mod chat;
pub mod community;
pub mod completion;
pub mod info;
pub mod json_out;
pub mod messages;
pub mod prompts;
pub mod runner;
pub mod sandbox;
pub mod sanitize;
pub mod strutil;
pub mod supervisor;
pub mod tools;
pub mod validate;
