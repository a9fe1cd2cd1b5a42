//! Mapping resolution and plan generation for the incoming engine.

use vstd::prelude::*;

use crate::decl::SourceEnumDecl;
use crate::diag::Diag;
use crate::diag::DiagModel;
use crate::emit::ConversionImpl;
use crate::enum_from::parser::ParsedEnumFrom;
use crate::enum_from::parser::spec_resolve_from;
use crate::idents::ContainerIdent;
use crate::mapping::MappingTable;
use crate::mapping::MappingTableModel;
use crate::resolve::Direction;
use crate::views::views_of;

verus! {

broadcast use crate::views::group_views;

/// A resolved incoming declaration: everything needed to build the
/// conversion plans, which cannot fail once this is constructed.
pub struct EnumFromGenerator {
    pub target_enum: ContainerIdent,
    pub source_enums: MappingTable,
}

impl EnumFromGenerator {
    /// The resolved mapping table, one entry per declared source union.
    pub fn mappings(&self) -> (r: &MappingTable)
        ensures
            r@ == self.source_enums@,
    {
        &self.source_enums
    }

    /// Resolve a parsed declaration against the source unions' variant
    /// lists, reporting the first inconsistency in declaration order.
    pub fn try_from(parsed: &ParsedEnumFrom, env: &Vec<SourceEnumDecl>) -> (r: Result<
        EnumFromGenerator,
        Diag,
    >)
        ensures
            (match r {
                Ok(g) => {
                    &&& spec_resolve_from(parsed@, views_of(env@)) == Ok::<_, DiagModel>(
                        g.source_enums@,
                    )
                    &&& g.target_enum@ == parsed.target_enum@
                },
                Err(e) => spec_resolve_from(parsed@, views_of(env@)) == Err::<
                    MappingTableModel,
                    _,
                >(e@),
            }),
    {
        match crate::resolve::resolve_decl(
            &parsed.container_annotations,
            &parsed.variants_annotations,
            parsed.derive_span,
            Some(env),
            Direction::FromSources,
        ) {
            Err(e) => Err(e),
            Ok(table) => Ok(
                EnumFromGenerator {
                    target_enum: parsed.target_enum.duplicate(),
                    source_enums: table,
                },
            ),
        }
    }

    /// Build one conversion plan per declared source union.
    pub fn generate(&self) -> (r: Vec<ConversionImpl>)
        ensures
            views_of(r@) == crate::emit::spec_generate(
                self.source_enums@,
                self.target_enum@,
                Direction::FromSources,
            ),
    {
        crate::emit::generate_impls(&self.source_enums, &self.target_enum, Direction::FromSources)
    }
}

} // verus!
