//! Typed value marshalling for parameterized queries against a structured-data
//! service: native values become a dynamic wire value together with a type
//! descriptor, and a statement collects such bindings under parameter names.

pub mod digits;
pub mod marshal;
pub mod native;
pub mod record;
pub mod statement;
pub mod types;
pub mod value;
