//! The incoming engine: resolving conversions from one or more paired
//! source unions into the annotated target union.

use vstd::prelude::*;

pub mod generator;
pub mod parser;

use crate::decl::RawEnumDecl;
use crate::decl::SourceEnumDecl;
use crate::diag::Diag;
use crate::diag::DiagModel;
use crate::emit::ConversionImpl;
use crate::emit::ConversionImplModel;
use crate::views::views_of;

verus! {

broadcast use crate::views::group_views;

/// The whole incoming pipeline: parse the annotations of `decl`, resolve
/// them against the source unions in `env`, and build one conversion plan
/// per declared source union, or report the first diagnostic.
pub fn derive_enum_from_impl(decl: &RawEnumDecl, env: &Vec<SourceEnumDecl>) -> (r: Result<
    Vec<ConversionImpl>,
    Diag,
>)
    ensures
        (match r {
            Ok(impls) => crate::enum_from::parser::spec_enum_from_pipeline(
                decl@,
                views_of(env@),
            ) == Ok::<_, DiagModel>(views_of(impls@)),
            Err(e) => crate::enum_from::parser::spec_enum_from_pipeline(decl@, views_of(env@))
                == Err::<Seq<ConversionImplModel>, _>(e@),
        }),
{
    match crate::enum_from::parser::ParsedEnumFrom::parse(decl) {
        Err(e) => Err(e),
        Ok(parsed) => match crate::enum_from::generator::EnumFromGenerator::try_from(
            &parsed,
            env,
        ) {
            Err(e) => Err(e),
            Ok(generator) => Ok(generator.generate()),
        },
    }
}

} // verus!
