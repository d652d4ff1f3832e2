//! A code generator that lowers a type-checked module to a Scheme library, and
//! the typing of pipelines (`a |> b |> c`) that runs before it.

pub mod ast;
pub mod chez;
pub mod laws;
pub mod library;
pub mod lowering;
pub mod matching;
pub mod meaning;
pub mod names;
pub mod order;
pub mod sexp;
pub mod steps;
pub mod text;
pub mod type_;
pub mod validity;
