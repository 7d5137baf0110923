//! Configuration of the delivery command-line tool: where the project's
//! `cli.toml` lies, what it holds, what overrides it, and what is written back.

pub mod accessors;
pub mod config;
pub mod document;
pub mod errors;
pub mod laws;
pub mod location;
pub mod locator;
pub mod resolver;
pub mod serializer;
