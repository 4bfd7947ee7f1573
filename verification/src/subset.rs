//! The shared syntax backbone: the expression tree, the generic
//! declaration/statement shapes both dialects instantiate, and their
//! renderers.

pub mod ast;
pub mod helpers;
pub mod render;
