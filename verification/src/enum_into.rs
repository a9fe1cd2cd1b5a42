//! The outgoing engine: resolving conversions from the annotated source
//! union into one or more paired target unions.

use vstd::prelude::*;

pub mod generator;
pub mod parser;

use crate::decl::RawEnumDecl;
use crate::diag::Diag;
use crate::diag::DiagModel;
use crate::emit::ConversionImpl;
use crate::emit::ConversionImplModel;
use crate::views::views_of;

verus! {

broadcast use crate::views::group_views;

/// The whole outgoing pipeline: parse the annotations of `decl`, resolve
/// them, and build one conversion plan per declared target union, or
/// report the first diagnostic. The target unions' shapes are not
/// consulted; what they cannot absorb surfaces in the host's own checking
/// of the rendered code.
pub fn derive_enum_into_impl(decl: &RawEnumDecl) -> (r: Result<Vec<ConversionImpl>, Diag>)
    ensures
        (match r {
            Ok(impls) => crate::enum_into::parser::spec_enum_into_pipeline(decl@)
                == Ok::<_, DiagModel>(views_of(impls@)),
            Err(e) => crate::enum_into::parser::spec_enum_into_pipeline(decl@) == Err::<
                Seq<ConversionImplModel>,
                _,
            >(e@),
        }),
{
    match crate::enum_into::parser::ParsedEnumInto::parse(decl) {
        Err(e) => Err(e),
        Ok(parsed) => match crate::enum_into::generator::EnumIntoGenerator::try_from(&parsed) {
            Err(e) => Err(e),
            Ok(generator) => Ok(generator.generate()),
        },
    }
}

} // verus!
