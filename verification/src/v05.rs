//! The older dialect: declarations, sequential and concurrent statements,
//! conversions, builders and the renderer.

pub mod ast;
pub mod from;
pub mod helpers;
pub mod render;
