//! A persistent, structurally shared singly-linked list.
//!
//! A list value is a handle to an immutable chain of reference-counted
//! cons cells.  Updating never mutates existing nodes: `add` builds one
//! new cell in front of the shared chain, and `remove` rebuilds only the
//! prefix up to the removed cell, sharing everything behind it.

pub mod cons;
pub mod list;
pub mod suite;
