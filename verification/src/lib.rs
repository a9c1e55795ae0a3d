//! Governance gates for prompts sent to a language model: subject binding,
//! evidence and ambiguity checks, conversation-context resolution, coaching
//! guidance for blocked prompts, and the configuration of the proxy.

pub mod text;
pub mod dcc;
pub mod input_gate;
pub mod orchestrator;
pub mod config;
pub mod authority_loader;
pub mod provider;
pub mod coaching;
pub mod proxy;
pub mod laws;
