//! The type-checked expression core of a transformation language: a model
//! of dynamic values, the lattice of static kinds, the compilation of call
//! sites of built-in functions into expression trees, their evaluation, and
//! the native entry points that compute what the evaluator computes.
pub mod env;
pub mod error;
pub mod expression;
pub mod function;
pub mod kind;
pub mod laws;
pub mod object;
pub mod value;
