//! Client for an ephemeral file storage service: request construction,
//! response negotiation, identifier extraction and error classification.

pub mod text;
pub mod format;
pub mod http;
pub mod error;
pub mod pattern;
pub mod validate;
pub mod ident;
pub mod api;
pub mod push;
pub mod bootstrap;
pub mod cli;
pub mod config;
