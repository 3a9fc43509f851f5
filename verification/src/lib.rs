//! Command-line companion for a transactional key-value store: argument
//! grammar, persisted settings, and the rendering of stored records, with
//! optional decoding of values as protocol buffer messages.

pub mod cli;
pub mod config;
pub mod convert;
pub mod decode;
pub mod document;
pub mod error;
pub mod format;
pub mod json;
pub mod ops;
pub mod registry;
pub mod schema;
pub mod text;
pub mod wire;
