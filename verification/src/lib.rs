//! Front end of a small scene-description language: an S-expression parser
//! and a tree-walking evaluator that turns source text into typed scene
//! values (positions, colors, vertices, buffers, transforms, cameras,
//! models) and hands finished drawables to a renderer-facing sink.
//!
//! Numeric literals are kept as exact text (`FloatLit`) and colors as raw
//! channel bytes (`ColorLit`); turning them into machine floats is left to
//! the embedding application, so everything here is plain data that the
//! contracts can speak about exactly.

pub mod env;
pub mod interpreter;
pub mod laws;
pub mod lex;
pub mod parser;
pub mod renderer;
pub mod types;
