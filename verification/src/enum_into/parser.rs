//! Annotation parsing for the outgoing engine: purely syntactic, with no
//! consistency checking between annotations.

use vstd::prelude::*;

use crate::annot::ParsedEnumModel;
use crate::annot::ParsedVariant;
use crate::annot::spec_parse_enum;
use crate::decl::RawEnumDecl;
use crate::diag::Diag;
use crate::diag::DiagModel;
use crate::emit::ConversionImplModel;
use crate::idents::ContainerIdent;
use crate::idents::Span;
use crate::mapping::MappingTableModel;
use crate::resolve::Direction;
use crate::views::views_of;

verus! {

broadcast use crate::views::group_views;

pub use crate::annot::ContainerAnnotation;
pub use crate::annot::FieldAnnotation;
pub use crate::annot::FieldAnnotations;
pub use crate::annot::VariantAnnotation;
pub use crate::annot::VariantAnnotations;

/// The parsed form of an annotated source union: its name, the declared
/// target unions, and every variant with its pairing and field mapping
/// references.
pub struct ParsedEnumInto {
    pub source_enum: ContainerIdent,
    pub derive_span: Span,
    pub container_annotations: Vec<ContainerAnnotation>,
    pub variants_annotations: Vec<ParsedVariant>,
}

impl View for ParsedEnumInto {
    type V = ParsedEnumModel;

    open spec fn view(&self) -> ParsedEnumModel {
        ParsedEnumModel {
            ident: self.source_enum@,
            derive_span: self.derive_span,
            containers: views_of(self.container_annotations@),
            variants: views_of(self.variants_annotations@),
        }
    }
}

impl ParsedEnumInto {
    /// Parse every outgoing-conversion annotation of the declaration, in
    /// declaration order, reporting the first grammar violation.
    pub fn parse(decl: &RawEnumDecl) -> (r: Result<ParsedEnumInto, Diag>)
        ensures
            (match r {
                Ok(p) => spec_parse_enum(decl@) == Ok::<_, DiagModel>(p@),
                Err(e) => spec_parse_enum(decl@) == Err::<ParsedEnumModel, _>(e@),
            }),
    {
        match crate::annot::parse_decl_annotations(decl) {
            Err(e) => Err(e),
            Ok((containers, variants)) => Ok(
                ParsedEnumInto {
                    source_enum: decl.ident.duplicate(),
                    derive_span: decl.derive_span,
                    container_annotations: containers,
                    variants_annotations: variants,
                },
            ),
        }
    }
}

/// Resolution of a parsed outgoing declaration.
pub open spec fn spec_resolve_into(p: ParsedEnumModel) -> Result<MappingTableModel, DiagModel> {
    crate::resolve::spec_resolve(
        p.containers,
        p.variants,
        p.derive_span,
        None,
        Direction::IntoTargets,
    )
}

/// The whole outgoing pipeline on models: parse, resolve, emit.
pub open spec fn spec_enum_into_pipeline(d: crate::decl::RawEnumDeclModel) -> Result<
    Seq<ConversionImplModel>,
    DiagModel,
> {
    match spec_parse_enum(d) {
        Err(e) => Err(e),
        Ok(p) => match spec_resolve_into(p) {
            Err(e) => Err(e),
            Ok(table) => Ok(crate::emit::spec_generate(table, p.ident, Direction::IntoTargets)),
        },
    }
}

} // verus!
