//! Synthesis of a typed client library from an API description document,
//! together with the plain data types of the client it targets.

pub mod text;
pub mod model;
pub mod classify;
pub mod resolve;
pub mod emit;
pub mod yaml;
pub mod loader;
pub mod client;
pub mod images;

pub use client::{
    set_api_type, set_base_url, set_key, ApiResponse, ApiType, ClientConfig, OpenAiError, Usage,
};
