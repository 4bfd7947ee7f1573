//! Typed intermediate representation and text emitter for hardware
//! description source code, covering an older Verilog-like dialect and a
//! newer SystemVerilog-like dialect.
//!
//! Callers assemble a module as an in-memory tree through the builder
//! methods, then render it: every render path produces an abstract document
//! (`doc::Doc`) that the external layout engine turns into text against a
//! width budget.

pub mod common;
pub mod doc;
pub mod layout;
pub mod strutil;
pub mod subset;
pub mod v05;
pub mod v17;
