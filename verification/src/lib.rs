//! Bootstrap layer of the Montar server: loading a declarative configuration
//! document into a typed, defaulted `Config`, and describing the logging
//! pipeline (severity filtering, record formatting, failure taxonomy) that
//! the process installs before any application logic runs.

pub mod config;
pub mod emit;
pub mod errors;
pub mod laws;
pub mod level;
pub mod logfmt;
pub mod parse;
pub mod text;
