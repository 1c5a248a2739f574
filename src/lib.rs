//! Generation of per-variant accessor methods for enum declarations.
//!
//! A declaration is described by plain values ([`decl::TypeDecl`]); the
//! generator turns it into one accessor per enabled variant
//! ([`generate::generate`]), renders those accessors as Rust source text
//! ([`expand::expand_source`]) and lexes that text into a token stream
//! ([`expand::expand`]). [`value`] states what a generated accessor does
//! when it is called, and [`laws`] holds the properties that relate calls.
pub mod decl;
pub mod expand;
pub mod generate;
pub mod laws;
pub mod naming;
pub mod render;
pub mod value;
