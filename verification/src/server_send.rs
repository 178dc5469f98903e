//! The `server_send` attribute: its arguments are checked and read, the
//! function's `trace_field` attributes are taken out, and the function is
//! written back under a `tracing::instrument` attribute.

pub use analyze::{analyze, Model};
pub use codegen::codegen;
pub use lower::{lower, Ir};
pub use parse::{parse, parse_args, Ast};

pub mod analyze;
pub mod codegen;
pub mod lower;
pub mod parse;
pub mod parsed;
