//! Conversion between Rust's fixed-width integers and the `int` objects of an
//! embedded interpreter, exact in both directions.
//!
//! `runtime` models the interpreter's heap, its pending-error slot and the
//! integer primitives of its C interface; `convert` builds the conversions of
//! each native type on those primitives and states what they guarantee.
mod cast;
pub mod convert;
pub mod runtime;

pub use convert::{NativeInt, PyLong};
pub use runtime::{ErrKind, LongWidth, PyErr, PyObject, PyValue, Python};
