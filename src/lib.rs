//! Generates strongly-typed Rust declarations from a resolved RPC type graph.
//!
//! The type graph (`model`) is rendered to source text by `gen`, which
//! hands the declarations derived from RPC methods to `method`; type
//! references are spelled by `resolve`, identifiers derived by `naming`.
//! Every rendering function states the exact text it appends through spec
//! functions, and `laws` proves properties that relate them.

pub mod command_line;
pub mod gen;
pub mod laws;
pub mod method;
pub mod model;
pub mod naming;
pub mod resolve;
pub mod text;
