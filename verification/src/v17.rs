//! The newer dialect: declarations with first-class functions, assertions,
//! split combinational/edge-triggered processes, and the renderer.

pub mod ast;
pub mod render;
