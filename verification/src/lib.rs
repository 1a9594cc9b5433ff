//! Turns a natural-language request into shell commands with the help of a
//! locally hosted language model, optionally letting the model search the web
//! through a bounded tool-calling conversation.

pub mod text;
pub mod message;
pub mod prompt;
pub mod provider;
pub mod json;
pub mod search;
pub mod backend;
pub mod endpoint;
pub mod tool;
pub mod chat;
