//! A verified evaluator, normalizer and bidirectional type checker for Pie,
//! the small dependently typed language of "The Little Typer".
//!
//! Terms (`Core`) evaluate to values (`Value`); values read back to normal
//! terms; `synth`, `check` and `is_type` elaborate source terms into their
//! desugared core forms. Every recursive procedure takes a fuel argument
//! that bounds its recursion depth, and each exec function is proved to
//! compute exactly what its model function in `model` defines.
use vstd::prelude::*;

pub mod symbol;
pub mod syntax;
pub mod value;
pub mod model;
pub mod alpha;
pub mod basics;
pub mod normalize;
pub mod typechecker;
pub mod text;
pub mod resugar;
pub mod types;
pub mod laws;
