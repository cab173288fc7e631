//! Build-time code generators for contract diagnostics: instrumenting
//! callables with structured log statements and equipping tagged-union error
//! types with rendered messages and an abort payload.

pub mod emit;
pub mod ext;
pub mod instrument;
pub mod markers;
pub mod message;
pub mod model;
pub mod placeholders;
pub mod template;
pub mod text;
