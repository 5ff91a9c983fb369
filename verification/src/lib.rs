//! The logic of a Z.AI language model provider, proved with Verus.
pub mod chat;
pub mod completion;
pub mod configuration;
pub mod estimate;
pub mod failure;
pub mod json;
pub mod laws;
pub mod mapper;
pub mod model;
pub mod provider;
pub mod request;
pub mod sse;
pub mod text;
pub mod wire;
