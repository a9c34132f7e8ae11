//! NeuroDesk: the logic of a desktop chat client for local Ollama models.
pub mod backend;
pub mod text;
pub mod stream;
pub mod models;
pub mod panels;
pub mod chat;
pub mod markdown;
pub mod nav;
