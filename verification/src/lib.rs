//! Persona embodiment for assistant sessions: assembling the embodiment
//! document and coordinating its injection ahead of a session's prompts.

pub mod acp_component;
pub mod constants;
pub mod context_loader;
pub mod embodiment;
pub mod prompts;
pub mod server;
pub mod session_order;
pub mod sparkle_loader;
pub mod text;
pub mod tools;
pub mod types;
