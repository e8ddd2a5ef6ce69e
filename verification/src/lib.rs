//! A verified core for a local LLM inference engine: the error taxonomy and
//! its mappings, identifier and schema-tag codecs, the memory contract, the
//! configuration resolver, the interim KV pool, the feasibility verdicts, and
//! the model-metadata parser.

pub mod engine;
pub mod error;
pub mod exec;
pub mod fit;
pub mod artifact;
pub mod capabilities;
pub mod cli;
pub mod config;
pub mod ids;
pub mod json;
pub mod json_schema;
pub mod memory;
pub mod request;
pub mod schema;
pub mod secret;
pub mod text;
pub mod time;
