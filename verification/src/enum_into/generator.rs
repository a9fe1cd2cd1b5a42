//! Mapping resolution and plan generation for the outgoing engine.

use vstd::prelude::*;

use crate::diag::Diag;
use crate::diag::DiagModel;
use crate::emit::ConversionImpl;
use crate::enum_into::parser::ParsedEnumInto;
use crate::enum_into::parser::spec_resolve_into;
use crate::idents::ContainerIdent;
use crate::mapping::MappingTable;
use crate::mapping::MappingTableModel;
use crate::resolve::Direction;
use crate::views::views_of;

verus! {

broadcast use crate::views::group_views;

/// A resolved outgoing declaration: everything needed to build the
/// conversion plans, which cannot fail once this is constructed.
pub struct EnumIntoGenerator {
    pub source_enum: ContainerIdent,
    pub target_enums: MappingTable,
}

impl EnumIntoGenerator {
    /// The resolved mapping table, one entry per declared target union.
    pub fn mappings(&self) -> (r: &MappingTable)
        ensures
            r@ == self.target_enums@,
    {
        &self.target_enums
    }

    /// Resolve a parsed declaration, reporting the first inconsistency in
    /// declaration order.
    pub fn try_from(parsed: &ParsedEnumInto) -> (r: Result<EnumIntoGenerator, Diag>)
        ensures
            (match r {
                Ok(g) => {
                    &&& spec_resolve_into(parsed@) == Ok::<_, DiagModel>(g.target_enums@)
                    &&& g.source_enum@ == parsed.source_enum@
                },
                Err(e) => spec_resolve_into(parsed@) == Err::<MappingTableModel, _>(e@),
            }),
    {
        match crate::resolve::resolve_decl(
            &parsed.container_annotations,
            &parsed.variants_annotations,
            parsed.derive_span,
            None,
            Direction::IntoTargets,
        ) {
            Err(e) => Err(e),
            Ok(table) => Ok(
                EnumIntoGenerator {
                    source_enum: parsed.source_enum.duplicate(),
                    target_enums: table,
                },
            ),
        }
    }

    /// Build one conversion plan per declared target union.
    pub fn generate(&self) -> (r: Vec<ConversionImpl>)
        ensures
            views_of(r@) == crate::emit::spec_generate(
                self.target_enums@,
                self.source_enum@,
                Direction::IntoTargets,
            ),
    {
        crate::emit::generate_impls(&self.target_enums, &self.source_enum, Direction::IntoTargets)
    }
}

} // verus!
