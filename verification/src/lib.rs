//! A client-side library for a local Ollama server: the data model of models,
//! settings and server replies, the requests sent to the server's HTTP API and
//! the decisions taken on its answers.

pub mod api;
pub mod body;
pub mod model;
pub mod settings;
pub mod show;
pub mod text;
