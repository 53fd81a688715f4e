//! A tree-walking evaluator for a small, dynamically typed, expression
//! oriented scripting language with integers, booleans, strings, first-class
//! functions with lexical closures, conditionals, let bindings, return
//! statements and a built-in registry.
//!
//! The abstract syntax tree the evaluator consumes lives in [`ast`], with its
//! tokens in [`token`]; runtime values in [`object`]; the chained scopes in
//! [`environment`].  Module [`model`] maps each of these to a mathematical
//! value, and [`semantics`] gives programs their meaning as recursive
//! specification functions over those models.  The executable evaluator in
//! [`evaluator`] is proved to return exactly what the semantics say, for
//! every program and every starting environment; [`laws`] proves the general
//! properties of the language — arithmetic soundness, truthiness, closure
//! capture, return through nesting, and error short-circuiting — once and
//! for all inputs.  [`render`] gives nodes and values their printed form.

pub mod ast;
pub mod environment;
pub mod evaluator;
pub mod laws;
pub mod model;
pub mod object;
pub mod render;
pub mod semantics;
pub mod token;
