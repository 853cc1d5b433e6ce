//! Compile-time generator of validation code.
//!
//! Given a description of a record type's fields, each annotated with
//! declarative validation rules (length, range, email, cross-field match,
//! and so on), the library builds a composable code fragment that, when
//! executed, checks an instance of the record against those rules and
//! collects structured errors keyed by field name.
//!
//! The fragments are plain data: an abstract syntax tree of guarded checks
//! (`fragment`). The mapping from rules to fragments (`quoting`) is
//! verified against spec-level constructors, and a small evaluation
//! semantics (`semantics`) gives the fragments their runtime meaning, so
//! that the behavioural laws of the generator (`laws`) can be stated and
//! proved.

pub mod fragment;
pub mod interp;
pub mod laws;
pub mod quoting;
pub mod rules;
pub mod semantics;
pub mod shape;
pub mod text;
