//! Structured diagnostics: every failure of annotation parsing or mapping
//! resolution is one `Diag`, a kind plus the source position it is
//! attributed to. Rendering a human-readable message out of the kind is the
//! caller's concern.

use vstd::prelude::*;

use crate::idents::ContainerIdent;
use crate::idents::FieldRef;
use crate::idents::FieldRefModel;
use crate::idents::Span;
use crate::idents::VariantIdent;

verus! {

/// Which piece of the annotation grammar a malformed annotation was
/// expected to match; enough for the caller to print the matching
/// expected-grammar example.
#[derive(Debug, Clone, Copy, PartialEq, Eq, Structural)]
pub enum ExpectedGrammar {
    /// A comma-separated, non-empty list of container names.
    ContainerList,
    /// A comma-separated, non-empty list of variant references.
    VariantList,
    /// A variant reference: `Container` or `Container::Variant`.
    VariantPath,
    /// A comma-separated, non-empty list of field references.
    FieldList,
    /// A field reference: `Container::Variant.field`.
    FieldPath,
    /// The field component of a field reference: an identifier or a
    /// position literal.
    FieldRefToken,
}

/// The failure taxonomy of the engine.
#[derive(Debug, Clone, PartialEq, Eq)]
pub enum DiagKind {
    /// The container-level list of paired unions is absent.
    MissingAnnotation,
    /// An annotation argument list violates the annotation grammar.
    MalformedAnnotation { expected: ExpectedGrammar },
    /// A bare variant-level marker was used while more than one paired
    /// source union is declared.
    AmbiguousSource,
    /// A bare variant-level marker was used while more than one paired
    /// target union is declared.
    AmbiguousTarget,
    /// A referenced union is not in the container-level list, or a declared
    /// union was not supplied by the declaration loader.
    UnknownContainer { container: ContainerIdent },
    /// A referenced variant does not exist in its named source union.
    UnknownVariant { container: ContainerIdent, variant: VariantIdent },
    /// More than one annotation on one field targets the same paired union
    /// and variant.
    DuplicateFieldMapping { container: ContainerIdent },
    /// Field annotations for one variant pairing mix positional and named
    /// references.
    InconsistentFieldMapping,
    /// A cross-shape pairing leaves the named field without the annotation
    /// it requires.
    MissingFieldAnnotation {
        container: ContainerIdent,
        variant: VariantIdent,
        field: FieldRef,
    },
    /// A field annotation references a pairing that its variant never
    /// claims.
    UnusedFieldAnnotation { container: ContainerIdent, variant: VariantIdent },
}

pub enum DiagKindModel {
    MissingAnnotation,
    MalformedAnnotation { expected: ExpectedGrammar },
    AmbiguousSource,
    AmbiguousTarget,
    UnknownContainer { container: Seq<char> },
    UnknownVariant { container: Seq<char>, variant: Seq<char> },
    DuplicateFieldMapping { container: Seq<char> },
    InconsistentFieldMapping,
    MissingFieldAnnotation { container: Seq<char>, variant: Seq<char>, field: FieldRefModel },
    UnusedFieldAnnotation { container: Seq<char>, variant: Seq<char> },
}

impl View for DiagKind {
    type V = DiagKindModel;

    open spec fn view(&self) -> DiagKindModel {
        match self {
            DiagKind::MissingAnnotation => DiagKindModel::MissingAnnotation,
            DiagKind::MalformedAnnotation { expected } => (
                DiagKindModel::MalformedAnnotation { expected: *expected }
            ),
            DiagKind::AmbiguousSource => DiagKindModel::AmbiguousSource,
            DiagKind::AmbiguousTarget => DiagKindModel::AmbiguousTarget,
            DiagKind::UnknownContainer { container } => (
                DiagKindModel::UnknownContainer { container: container@ }
            ),
            DiagKind::UnknownVariant { container, variant } => (
                DiagKindModel::UnknownVariant { container: container@, variant: variant@ }
            ),
            DiagKind::DuplicateFieldMapping { container } => (
                DiagKindModel::DuplicateFieldMapping { container: container@ }
            ),
            DiagKind::InconsistentFieldMapping => DiagKindModel::InconsistentFieldMapping,
            DiagKind::MissingFieldAnnotation { container, variant, field } => (
                DiagKindModel::MissingFieldAnnotation {
                    container: container@,
                    variant: variant@,
                    field: field@,
                }
            ),
            DiagKind::UnusedFieldAnnotation { container, variant } => (
                DiagKindModel::UnusedFieldAnnotation { container: container@, variant: variant@ }
            ),
        }
    }
}

/// One diagnostic: what went wrong and where to point at.
#[derive(Debug, Clone, PartialEq, Eq)]
pub struct Diag {
    pub span: Span,
    pub kind: DiagKind,
}

pub struct DiagModel {
    pub span: Span,
    pub kind: DiagKindModel,
}

impl View for Diag {
    type V = DiagModel;

    open spec fn view(&self) -> DiagModel {
        DiagModel { span: self.span, kind: self.kind@ }
    }
}

} // verus!
