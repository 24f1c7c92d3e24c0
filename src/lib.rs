//! An OpenAI-style chat-completion gateway in front of a single inference engine:
//! translation of wire requests into engine requests, resolution of image
//! references, and the streaming and one-shot response state machines.

pub mod content;
pub mod di;
pub mod request;
pub mod responder;
pub mod response;
pub mod translate;
pub mod wire;
