//! Render a template against a snapshot of environment variables.
//!
//! The library covers the decision logic of a small rendering pipeline:
//! classifying the template and output specifiers (a path, or the `-`
//! sentinel for standard input / standard output), building the flat
//! string-to-string rendering context from an injected snapshot of
//! environment pairs, and compiling and rendering a mustache template
//! against that context. Reading and writing the actual streams is left
//! to the binary around the library.

pub mod context;
pub mod engine;
pub mod invocation;
pub mod pipeline;
