//! Resolution engine for declarative conversions between tagged-union types.
//!
//! The library consumes already-parsed union declarations together with the
//! raw argument token lists of their conversion annotations, resolves a
//! normalized variant-and-field mapping table for every declared pairing, and
//! turns that table into a structured conversion plan that a thin rendering
//! layer can print as host-language source text.

pub mod idents;
pub mod laws;

pub use idents::ContainerIdent;
pub use idents::FieldIdent;
pub use idents::FieldRef;
pub use idents::Span;
pub use idents::VariantIdent;

pub mod annot;
pub mod decl;
pub mod diag;
pub mod mapping;
pub mod resolve;
pub mod views;
pub mod emit;
pub mod enum_from;
pub mod enum_into;
