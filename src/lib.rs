//! Value handling and the protected-call bridge of an embedded Ruby interpreter.
//!
//! The crate holds what can be decided without touching the interpreter: the
//! tagged machine word and its classification, the text channel that carries a
//! closure's address through the interpreter's one-word protect primitive, the
//! take-once cell that the closure sits in, and the decisions that turn what the
//! primitive reports into a host result.
#![allow(non_camel_case_types)]
#![allow(non_upper_case_globals)]
#![allow(non_snake_case)]

pub mod codec;
pub mod helpers;
pub mod protect;
pub mod value;

pub use crate::helpers::{Binding, Value, WrappedWithData};
pub use crate::protect::{CaughtException, ClosureSlot, ProtectOutcome};
pub use crate::value::{value_type, ID, INNER_VALUE, VALUE};
