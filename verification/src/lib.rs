//! Source-location resolution over an immutable semantic model of a program.
//!
//! Given a cursor position, the engine answers "what does this token refer
//! to?" (go-to-definition) and "where is the abstract declaration behind this
//! concrete usage?" (go-to-declaration).  All tables are read-only snapshots
//! populated by an earlier elaboration phase; every query is a pure scan that
//! reports absence as `None`, never as a fault.

pub mod hir;
pub mod interner;
pub mod laws;
pub mod location;
