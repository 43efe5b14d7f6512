//! Pokémon information service core: request orchestration and
//! error normalization for a small HTTP façade over two upstream
//! REST APIs (a species-info endpoint and a text-translation
//! endpoint).
//!
//! The modules here hold the decision logic only: classifying an
//! upstream fetch outcome, decoding the JSON bodies, normalizing
//! failures into a uniform error value, and choosing the translation
//! dialect. The surrounding binary performs the network calls and
//! hands their outcomes in as plain values.

pub mod json;
pub mod pokeapi_endpoints;
pub mod request_handlers;
pub mod utils;
