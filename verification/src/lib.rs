//! A verified boundary layer for a small Lisp interpreter that a foreign host
//! drives through opaque session handles, staged buffers and command text.
//!
//! The interpreter itself stays outside: the layer decides what is asked of it
//! and in which order, and what the host gets back. Every decision is a pure
//! step from a state and the interpreter's last reply to the next state and
//! the next request, so that whoever owns the interpreter runs the loop.

pub mod bootstrap;
pub mod interpreter;
pub mod introspection;
pub mod pipeline;
pub mod sessions;
pub mod shim;
pub mod standard;
pub mod violation;
