//! Annotation parsing for the incoming engine: purely syntactic, with no
//! consistency checking between annotations.

use vstd::prelude::*;

use crate::annot::ParsedEnumModel;
use crate::annot::ParsedVariant;
use crate::annot::spec_parse_enum;
use crate::decl::RawEnumDecl;
use crate::decl::SourceEnumDeclModel;
use crate::diag::Diag;
use crate::diag::DiagModel;
use crate::emit::ConversionImplModel;
use crate::idents::ContainerIdent;
use crate::idents::Span;
use crate::mapping::MappingTableModel;
use crate::resolve::Direction;
use crate::views::views_of;

verus! {

broadcast use crate::views::group_views;

pub use crate::annot::ContainerAnnotation;
pub use crate::annot::FieldAnnotation;
pub use crate::annot::FieldAnnotations;
pub use crate::annot::VariantAnnotation;
pub use crate::annot::VariantAnnotations;

/// The parsed form of an annotated target union: its name, the declared
/// source unions, and every variant with its pairing and field mapping
/// references.
pub struct ParsedEnumFrom {
    pub target_enum: ContainerIdent,
    pub derive_span: Span,
    pub container_annotations: Vec<ContainerAnnotation>,
    pub variants_annotations: Vec<ParsedVariant>,
}

impl View for ParsedEnumFrom {
    type V = ParsedEnumModel;

    open spec fn view(&self) -> ParsedEnumModel {
        ParsedEnumModel {
            ident: self.target_enum@,
            derive_span: self.derive_span,
            containers: views_of(self.container_annotations@),
            variants: views_of(self.variants_annotations@),
        }
    }
}

impl ParsedEnumFrom {
    /// Parse every incoming-conversion annotation of the declaration, in
    /// declaration order, reporting the first grammar violation.
    pub fn parse(decl: &RawEnumDecl) -> (r: Result<ParsedEnumFrom, Diag>)
        ensures
            (match r {
                Ok(p) => spec_parse_enum(decl@) == Ok::<_, DiagModel>(p@),
                Err(e) => spec_parse_enum(decl@) == Err::<ParsedEnumModel, _>(e@),
            }),
    {
        match crate::annot::parse_decl_annotations(decl) {
            Err(e) => Err(e),
            Ok((containers, variants)) => Ok(
                ParsedEnumFrom {
                    target_enum: decl.ident.duplicate(),
                    derive_span: decl.derive_span,
                    container_annotations: containers,
                    variants_annotations: variants,
                },
            ),
        }
    }
}

/// Resolution of a parsed incoming declaration.
pub open spec fn spec_resolve_from(
    p: ParsedEnumModel,
    env: Seq<SourceEnumDeclModel>,
) -> Result<MappingTableModel, DiagModel> {
    crate::resolve::spec_resolve(
        p.containers,
        p.variants,
        p.derive_span,
        Some(env),
        Direction::FromSources,
    )
}

/// The whole incoming pipeline on models: parse, resolve, emit.
pub open spec fn spec_enum_from_pipeline(
    d: crate::decl::RawEnumDeclModel,
    env: Seq<SourceEnumDeclModel>,
) -> Result<Seq<ConversionImplModel>, DiagModel> {
    match spec_parse_enum(d) {
        Err(e) => Err(e),
        Ok(p) => match spec_resolve_from(p, env) {
            Err(e) => Err(e),
            Ok(table) => Ok(
                crate::emit::spec_generate(table, p.ident, Direction::FromSources),
            ),
        },
    }
}

} // verus!
