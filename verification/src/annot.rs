//! The annotation language and its parser.
//!
//! Annotations come in three levels: the container-level list of paired
//! unions, variant-level pairing references, and field-level mapping
//! references. This module turns raw argument token lists into the
//! structured annotation records below; it is purely syntactic and does no
//! cross-checking against other unions' shapes.

use vstd::prelude::*;

use crate::views::views_of;
use vstd::seq_lib::*;

use crate::decl::AnnToken;
use crate::decl::AnnTokenKind;
use crate::decl::AnnTokenKindModel;
use crate::decl::AnnTokenModel;
use crate::decl::AttrPayload;
use crate::decl::AttrPayloadModel;
use crate::decl::RawAttr;
use crate::decl::RawAttrModel;
use crate::decl::RawEnumDecl;
use crate::decl::RawEnumDeclModel;
use crate::decl::RawFields;
use crate::decl::RawFieldsModel;
use crate::decl::RawStructFieldModel;
use crate::decl::RawTupleFieldModel;
use crate::decl::RawVariantModel;
use crate::diag::Diag;
use crate::diag::DiagKind;
use crate::diag::DiagModel;
use crate::diag::DiagKindModel;
use crate::diag::ExpectedGrammar;
use crate::idents::ContainerIdent;
use crate::idents::FieldIdent;
use crate::idents::FieldRef;
use crate::idents::FieldRefModel;
use crate::idents::Span;
use crate::idents::VariantIdent;

verus! {

broadcast use crate::views::group_views;

/// One entry of the container-level paired-union list.
#[derive(Debug, Clone, PartialEq, Eq)]
pub struct ContainerAnnotation {
    pub span: Span,
    pub ident: ContainerIdent,
}

pub struct ContainerAnnotationModel {
    pub span: Span,
    pub ident: Seq<char>,
}

impl View for ContainerAnnotation {
    type V = ContainerAnnotationModel;

    open spec fn view(&self) -> ContainerAnnotationModel {
        ContainerAnnotationModel { span: self.span, ident: self.ident@ }
    }
}

/// One variant-level pairing reference.
#[derive(Debug, Clone, PartialEq, Eq)]
pub enum VariantAnnotation {
    /// A bare marker: defer to the default pairing.
    Nothing { span: Span },
    /// A bare container name: pair with the same-named variant of that
    /// union.
    EnumOnly { span: Span, enum_ident: ContainerIdent },
    /// An explicit `Container::Variant` pairing.
    EnumVariant { span: Span, enum_ident: ContainerIdent, variant_ident: VariantIdent },
}

pub enum VariantAnnotationModel {
    Nothing { span: Span },
    EnumOnly { span: Span, enum_ident: Seq<char> },
    EnumVariant { span: Span, enum_ident: Seq<char>, variant_ident: Seq<char> },
}

impl View for VariantAnnotation {
    type V = VariantAnnotationModel;

    open spec fn view(&self) -> VariantAnnotationModel {
        match self {
            VariantAnnotation::Nothing { span } => (
                VariantAnnotationModel::Nothing { span: *span }
            ),
            VariantAnnotation::EnumOnly { span, enum_ident } => (
                VariantAnnotationModel::EnumOnly { span: *span, enum_ident: enum_ident@ }
            ),
            VariantAnnotation::EnumVariant { span, enum_ident, variant_ident } => (
                VariantAnnotationModel::EnumVariant {
                    span: *span,
                    enum_ident: enum_ident@,
                    variant_ident: variant_ident@,
                }
            ),
        }
    }
}

/// One field-level mapping reference: the paired `Container::Variant.field`
/// triple a field maps to or from, with the positions of its three
/// components for diagnostics.
#[derive(Debug, Clone, PartialEq, Eq)]
pub struct FieldAnnotation {
    pub enum_ident: ContainerIdent,
    pub variant_ident: VariantIdent,
    pub field: FieldRef,
    pub enum_span: Span,
    pub variant_span: Span,
    pub field_span: Span,
}

pub struct FieldAnnotationModel {
    pub enum_ident: Seq<char>,
    pub variant_ident: Seq<char>,
    pub field: FieldRefModel,
    pub enum_span: Span,
    pub variant_span: Span,
    pub field_span: Span,
}

impl View for FieldAnnotation {
    type V = FieldAnnotationModel;

    open spec fn view(&self) -> FieldAnnotationModel {
        FieldAnnotationModel {
            enum_ident: self.enum_ident@,
            variant_ident: self.variant_ident@,
            field: self.field@,
            enum_span: self.enum_span,
            variant_span: self.variant_span,
            field_span: self.field_span,
        }
    }
}

impl FieldAnnotation {
    /// A copy referring to the same triple; the derived `Clone` says
    /// nothing to the verifier, this does.
    pub fn duplicate(&self) -> (r: FieldAnnotation)
        ensures
            r@ == self@,
    {
        FieldAnnotation {
            enum_ident: self.enum_ident.duplicate(),
            variant_ident: self.variant_ident.duplicate(),
            field: self.field.duplicate(),
            enum_span: self.enum_span,
            variant_span: self.variant_span,
            field_span: self.field_span,
        }
    }
}

/// All mapping references attached to one field, with the field's own
/// source position.
#[derive(Debug, Clone, PartialEq, Eq)]
pub struct FieldAnnotations {
    pub field_span: Span,
    pub fields_annotations: Vec<FieldAnnotation>,
}

pub struct FieldAnnotationsModel {
    pub field_span: Span,
    pub fields_annotations: Seq<FieldAnnotationModel>,
}

impl View for FieldAnnotations {
    type V = FieldAnnotationsModel;

    open spec fn view(&self) -> FieldAnnotationsModel {
        FieldAnnotationsModel {
            field_span: self.field_span,
            fields_annotations: views_of(self.fields_annotations@),
        }
    }
}

/// One named field together with its mapping references.
#[derive(Debug, Clone, PartialEq, Eq)]
pub struct NamedFieldAnnotations {
    pub ident: FieldIdent,
    pub annotations: FieldAnnotations,
}

pub struct NamedFieldAnnotationsModel {
    pub ident: Seq<char>,
    pub annotations: FieldAnnotationsModel,
}

impl View for NamedFieldAnnotations {
    type V = NamedFieldAnnotationsModel;

    open spec fn view(&self) -> NamedFieldAnnotationsModel {
        NamedFieldAnnotationsModel { ident: self.ident@, annotations: self.annotations@ }
    }
}

/// The shape of one variant of the annotated union, with the parsed
/// mapping references of each field in declaration order. The shape is the
/// declared one: a variant with an empty parenthesised or braced field list
/// is not a unit variant.
#[derive(Debug, Clone, PartialEq, Eq)]
pub enum ParsedFields {
    Unit,
    Tuple(Vec<FieldAnnotations>),
    Struct(Vec<NamedFieldAnnotations>),
}

pub enum ParsedFieldsModel {
    Unit,
    Tuple(Seq<FieldAnnotationsModel>),
    Struct(Seq<NamedFieldAnnotationsModel>),
}

impl View for ParsedFields {
    type V = ParsedFieldsModel;

    open spec fn view(&self) -> ParsedFieldsModel {
        match self {
            ParsedFields::Unit => ParsedFieldsModel::Unit,
            ParsedFields::Tuple(fs) => ParsedFieldsModel::Tuple(
                views_of(fs@),
            ),
            ParsedFields::Struct(fs) => ParsedFieldsModel::Struct(
                views_of(fs@),
            ),
        }
    }
}

/// Everything parsed off one variant: its pairing references and its
/// fields' mapping references.
#[derive(Debug, Clone, PartialEq, Eq)]
pub struct VariantAnnotations {
    pub variant_annotations: Vec<VariantAnnotation>,
    pub fields_annotations: ParsedFields,
}

pub struct VariantAnnotationsModel {
    pub variant_annotations: Seq<VariantAnnotationModel>,
    pub fields_annotations: ParsedFieldsModel,
}

impl View for VariantAnnotations {
    type V = VariantAnnotationsModel;

    open spec fn view(&self) -> VariantAnnotationsModel {
        VariantAnnotationsModel {
            variant_annotations: views_of(self.variant_annotations@),
            fields_annotations: self.fields_annotations@,
        }
    }
}

/// One variant of the annotated union after annotation parsing.
#[derive(Debug, Clone, PartialEq, Eq)]
pub struct ParsedVariant {
    pub ident: VariantIdent,
    pub annotations: VariantAnnotations,
}

pub struct ParsedVariantModel {
    pub ident: Seq<char>,
    pub annotations: VariantAnnotationsModel,
}

impl View for ParsedVariant {
    type V = ParsedVariantModel;

    open spec fn view(&self) -> ParsedVariantModel {
        ParsedVariantModel { ident: self.ident@, annotations: self.annotations@ }
    }
}

/// The whole annotated union after annotation parsing, still unchecked
/// against any other union.
pub struct ParsedEnumModel {
    pub ident: Seq<char>,
    pub derive_span: Span,
    pub containers: Seq<ContainerAnnotationModel>,
    pub variants: Seq<ParsedVariantModel>,
}

} // verus!

verus! {

// ----------------------------------------------------------------------------
// The annotation grammar, as a mathematical function of the token sequence.
//
// Lists are comma-separated and must be non-empty without a trailing comma;
// a violation is blamed on the offending token when there is one and on the
// whole annotation otherwise. A variant reference is `Container` or
// `Container::Variant`; a field reference is `Container::Variant.field`
// where the field component is an identifier or a position literal.
// ----------------------------------------------------------------------------

pub open spec fn malformed(expected: ExpectedGrammar, span: Span) -> DiagModel {
    DiagModel { span, kind: DiagKindModel::MalformedAnnotation { expected } }
}

/// The position blamed for a violation at token index `i`: the token itself
/// when the list is long enough, the whole annotation otherwise.
pub open spec fn spec_span_at(toks: Seq<AnnTokenModel>, i: int, attr_span: Span) -> Span {
    if 0 <= i < toks.len() {
        toks[i].span
    } else {
        attr_span
    }
}

pub open spec fn spec_parse_container_list(
    toks: Seq<AnnTokenModel>,
    i: int,
    attr_span: Span,
) -> Result<Seq<ContainerAnnotationModel>, DiagModel>
    decreases toks.len() - i,
{
    if i < 0 || i >= toks.len() {
        Err(malformed(ExpectedGrammar::ContainerList, attr_span))
    } else {
        match toks[i].kind {
            AnnTokenKindModel::Ident(name) => {
                let a = ContainerAnnotationModel { span: toks[i].span, ident: name };
                if i + 1 >= toks.len() {
                    Ok(seq![a])
                } else if toks[i + 1].kind is Comma {
                    if i + 2 >= toks.len() {
                        Err(malformed(ExpectedGrammar::ContainerList, attr_span))
                    } else {
                        match spec_parse_container_list(toks, i + 2, attr_span) {
                            Ok(rest) => Ok(seq![a] + rest),
                            Err(e) => Err(e),
                        }
                    }
                } else {
                    Err(malformed(ExpectedGrammar::ContainerList, toks[i + 1].span))
                }
            },
            _ => Err(malformed(ExpectedGrammar::ContainerList, toks[i].span)),
        }
    }
}

pub open spec fn spec_parse_variant_elem(
    toks: Seq<AnnTokenModel>,
    i: int,
    attr_span: Span,
) -> Result<(VariantAnnotationModel, int), DiagModel> {
    if i < 0 || i >= toks.len() {
        Err(malformed(ExpectedGrammar::VariantPath, attr_span))
    } else {
        match toks[i].kind {
            AnnTokenKindModel::Ident(e) => {
                if i + 1 < toks.len() && toks[i + 1].kind is PathSep {
                    if i + 2 >= toks.len() {
                        Err(malformed(ExpectedGrammar::VariantPath, attr_span))
                    } else {
                        match toks[i + 2].kind {
                            AnnTokenKindModel::Ident(v) => {
                                if i + 3 < toks.len() && toks[i + 3].kind is PathSep {
                                    Err(malformed(ExpectedGrammar::VariantPath, toks[i].span))
                                } else {
                                    Ok(
                                        (
                                            VariantAnnotationModel::EnumVariant {
                                                span: toks[i].span,
                                                enum_ident: e,
                                                variant_ident: v,
                                            },
                                            i + 3,
                                        ),
                                    )
                                }
                            },
                            _ => Err(malformed(ExpectedGrammar::VariantPath, toks[i + 2].span)),
                        }
                    }
                } else {
                    Ok(
                        (
                            VariantAnnotationModel::EnumOnly {
                                span: toks[i].span,
                                enum_ident: e,
                            },
                            i + 1,
                        ),
                    )
                }
            },
            _ => Err(malformed(ExpectedGrammar::VariantPath, toks[i].span)),
        }
    }
}

pub open spec fn spec_parse_variant_list(
    toks: Seq<AnnTokenModel>,
    i: int,
    attr_span: Span,
) -> Result<Seq<VariantAnnotationModel>, DiagModel>
    decreases toks.len() - i,
{
    if i < 0 || i >= toks.len() {
        Err(malformed(ExpectedGrammar::VariantList, attr_span))
    } else {
        match spec_parse_variant_elem(toks, i, attr_span) {
            Err(e) => Err(e),
            Ok((a, j)) => {
                if j >= toks.len() {
                    Ok(seq![a])
                } else if toks[j].kind is Comma {
                    // An element never ends before it starts; comparing `j`
                    // with `i` anyway keeps the recursion measure evident.
                    if j + 1 >= toks.len() || j < i {
                        Err(malformed(ExpectedGrammar::VariantList, attr_span))
                    } else {
                        match spec_parse_variant_list(toks, j + 1, attr_span) {
                            Ok(rest) => Ok(seq![a] + rest),
                            Err(e) => Err(e),
                        }
                    }
                } else {
                    Err(malformed(ExpectedGrammar::VariantList, toks[j].span))
                }
            },
        }
    }
}

pub open spec fn spec_parse_field_elem(
    toks: Seq<AnnTokenModel>,
    i: int,
    attr_span: Span,
) -> Result<(FieldAnnotationModel, int), DiagModel> {
    if i < 0 || i >= toks.len() {
        Err(malformed(ExpectedGrammar::FieldPath, attr_span))
    } else {
        match toks[i].kind {
            AnnTokenKindModel::Ident(e) => {
                if !(i + 1 < toks.len() && toks[i + 1].kind is PathSep) {
                    Err(malformed(ExpectedGrammar::FieldPath, toks[i].span))
                } else if i + 2 >= toks.len() {
                    Err(malformed(ExpectedGrammar::FieldPath, attr_span))
                } else {
                    match toks[i + 2].kind {
                        AnnTokenKindModel::Ident(v) => {
                            if i + 3 < toks.len() && toks[i + 3].kind is PathSep {
                                Err(malformed(ExpectedGrammar::FieldPath, toks[i].span))
                            } else if !(i + 3 < toks.len() && toks[i + 3].kind is Dot) {
                                Err(
                                    malformed(
                                        ExpectedGrammar::FieldPath,
                                        spec_span_at(toks, i + 3, attr_span),
                                    ),
                                )
                            } else if i + 4 >= toks.len() {
                                Err(malformed(ExpectedGrammar::FieldRefToken, attr_span))
                            } else {
                                match toks[i + 4].kind {
                                    AnnTokenKindModel::Ident(f) => Ok(
                                        (
                                            FieldAnnotationModel {
                                                enum_ident: e,
                                                variant_ident: v,
                                                field: FieldRefModel::Name(f),
                                                enum_span: toks[i].span,
                                                variant_span: toks[i + 2].span,
                                                field_span: toks[i + 4].span,
                                            },
                                            i + 5,
                                        ),
                                    ),
                                    AnnTokenKindModel::Int(p) => Ok(
                                        (
                                            FieldAnnotationModel {
                                                enum_ident: e,
                                                variant_ident: v,
                                                field: FieldRefModel::Pos(p),
                                                enum_span: toks[i].span,
                                                variant_span: toks[i + 2].span,
                                                field_span: toks[i + 4].span,
                                            },
                                            i + 5,
                                        ),
                                    ),
                                    _ => Err(
                                        malformed(
                                            ExpectedGrammar::FieldRefToken,
                                            toks[i + 4].span,
                                        ),
                                    ),
                                }
                            }
                        },
                        _ => Err(malformed(ExpectedGrammar::FieldPath, toks[i + 2].span)),
                    }
                }
            },
            _ => Err(malformed(ExpectedGrammar::FieldPath, toks[i].span)),
        }
    }
}

pub open spec fn spec_parse_field_list(
    toks: Seq<AnnTokenModel>,
    i: int,
    attr_span: Span,
) -> Result<Seq<FieldAnnotationModel>, DiagModel>
    decreases toks.len() - i,
{
    if i < 0 || i >= toks.len() {
        Err(malformed(ExpectedGrammar::FieldList, attr_span))
    } else {
        match spec_parse_field_elem(toks, i, attr_span) {
            Err(e) => Err(e),
            Ok((a, j)) => {
                if j >= toks.len() {
                    Ok(seq![a])
                } else if toks[j].kind is Comma {
                    // An element never ends before it starts; comparing `j`
                    // with `i` anyway keeps the recursion measure evident.
                    if j + 1 >= toks.len() || j < i {
                        Err(malformed(ExpectedGrammar::FieldList, attr_span))
                    } else {
                        match spec_parse_field_list(toks, j + 1, attr_span) {
                            Ok(rest) => Ok(seq![a] + rest),
                            Err(e) => Err(e),
                        }
                    }
                } else {
                    Err(malformed(ExpectedGrammar::FieldList, toks[j].span))
                }
            },
        }
    }
}

// ----------------------------------------------------------------------------
// Annotation occurrences. A container- or field-level annotation must carry
// an argument list; a bare variant-level marker means "defer to the default
// pairing". Several occurrences on one item concatenate.
// ----------------------------------------------------------------------------

pub open spec fn spec_parse_container_attr(
    a: RawAttrModel,
) -> Result<Seq<ContainerAnnotationModel>, DiagModel> {
    match a.payload {
        AttrPayloadModel::List(toks) => spec_parse_container_list(toks, 0, a.span),
        _ => Err(malformed(ExpectedGrammar::ContainerList, a.span)),
    }
}

pub open spec fn spec_parse_container_attrs(
    attrs: Seq<RawAttrModel>,
    i: int,
) -> Result<Seq<ContainerAnnotationModel>, DiagModel>
    decreases attrs.len() - i,
{
    if i < 0 || i >= attrs.len() {
        Ok(seq![])
    } else {
        match spec_parse_container_attr(attrs[i]) {
            Err(e) => Err(e),
            Ok(v) => match spec_parse_container_attrs(attrs, i + 1) {
                Ok(rest) => Ok(v + rest),
                Err(e) => Err(e),
            },
        }
    }
}

pub open spec fn spec_parse_variant_attr(
    a: RawAttrModel,
) -> Result<Seq<VariantAnnotationModel>, DiagModel> {
    match a.payload {
        AttrPayloadModel::Marker => Ok(seq![VariantAnnotationModel::Nothing { span: a.span }]),
        AttrPayloadModel::List(toks) => spec_parse_variant_list(toks, 0, a.span),
        AttrPayloadModel::NameValue => Err(malformed(ExpectedGrammar::VariantList, a.span)),
    }
}

pub open spec fn spec_parse_variant_attrs(
    attrs: Seq<RawAttrModel>,
    i: int,
) -> Result<Seq<VariantAnnotationModel>, DiagModel>
    decreases attrs.len() - i,
{
    if i < 0 || i >= attrs.len() {
        Ok(seq![])
    } else {
        match spec_parse_variant_attr(attrs[i]) {
            Err(e) => Err(e),
            Ok(v) => match spec_parse_variant_attrs(attrs, i + 1) {
                Ok(rest) => Ok(v + rest),
                Err(e) => Err(e),
            },
        }
    }
}

pub open spec fn spec_parse_field_attr(
    a: RawAttrModel,
) -> Result<Seq<FieldAnnotationModel>, DiagModel> {
    match a.payload {
        AttrPayloadModel::List(toks) => spec_parse_field_list(toks, 0, a.span),
        _ => Err(malformed(ExpectedGrammar::FieldList, a.span)),
    }
}

pub open spec fn spec_parse_field_attrs(
    attrs: Seq<RawAttrModel>,
    i: int,
) -> Result<Seq<FieldAnnotationModel>, DiagModel>
    decreases attrs.len() - i,
{
    if i < 0 || i >= attrs.len() {
        Ok(seq![])
    } else {
        match spec_parse_field_attr(attrs[i]) {
            Err(e) => Err(e),
            Ok(v) => match spec_parse_field_attrs(attrs, i + 1) {
                Ok(rest) => Ok(v + rest),
                Err(e) => Err(e),
            },
        }
    }
}

// ----------------------------------------------------------------------------
// Whole declarations.
// ----------------------------------------------------------------------------

pub open spec fn spec_parse_tuple_fields(
    fs: Seq<RawTupleFieldModel>,
    i: int,
) -> Result<Seq<FieldAnnotationsModel>, DiagModel>
    decreases fs.len() - i,
{
    if i < 0 || i >= fs.len() {
        Ok(seq![])
    } else {
        match spec_parse_field_attrs(fs[i].attrs, 0) {
            Err(e) => Err(e),
            Ok(anns) => match spec_parse_tuple_fields(fs, i + 1) {
                Ok(rest) => Ok(
                    seq![
                        FieldAnnotationsModel { field_span: fs[i].span, fields_annotations: anns },
                    ] + rest,
                ),
                Err(e) => Err(e),
            },
        }
    }
}

pub open spec fn spec_parse_struct_fields(
    fs: Seq<RawStructFieldModel>,
    i: int,
) -> Result<Seq<NamedFieldAnnotationsModel>, DiagModel>
    decreases fs.len() - i,
{
    if i < 0 || i >= fs.len() {
        Ok(seq![])
    } else {
        match spec_parse_field_attrs(fs[i].attrs, 0) {
            Err(e) => Err(e),
            Ok(anns) => match spec_parse_struct_fields(fs, i + 1) {
                Ok(rest) => Ok(
                    seq![
                        NamedFieldAnnotationsModel {
                            ident: fs[i].ident,
                            annotations: FieldAnnotationsModel {
                                field_span: fs[i].span,
                                fields_annotations: anns,
                            },
                        },
                    ] + rest,
                ),
                Err(e) => Err(e),
            },
        }
    }
}

pub open spec fn spec_parse_fields(f: RawFieldsModel) -> Result<ParsedFieldsModel, DiagModel> {
    match f {
        RawFieldsModel::Unit => Ok(ParsedFieldsModel::Unit),
        RawFieldsModel::Tuple(fs) => match spec_parse_tuple_fields(fs, 0) {
            Ok(anns) => Ok(ParsedFieldsModel::Tuple(anns)),
            Err(e) => Err(e),
        },
        RawFieldsModel::Struct(fs) => match spec_parse_struct_fields(fs, 0) {
            Ok(anns) => Ok(ParsedFieldsModel::Struct(anns)),
            Err(e) => Err(e),
        },
    }
}

pub open spec fn spec_parse_variants(
    vs: Seq<RawVariantModel>,
    i: int,
) -> Result<Seq<ParsedVariantModel>, DiagModel>
    decreases vs.len() - i,
{
    if i < 0 || i >= vs.len() {
        Ok(seq![])
    } else {
        match spec_parse_variant_attrs(vs[i].attrs, 0) {
            Err(e) => Err(e),
            Ok(vanns) => match spec_parse_fields(vs[i].fields) {
                Err(e) => Err(e),
                Ok(fanns) => match spec_parse_variants(vs, i + 1) {
                    Ok(rest) => Ok(
                        seq![
                            ParsedVariantModel {
                                ident: vs[i].ident,
                                annotations: VariantAnnotationsModel {
                                    variant_annotations: vanns,
                                    fields_annotations: fanns,
                                },
                            },
                        ] + rest,
                    ),
                    Err(e) => Err(e),
                },
            },
        }
    }
}

/// Parsing a whole declaration: the container-level annotations first, then
/// every variant in declaration order, each variant's own annotations before
/// its fields'. The first grammar violation in that order is the result.
pub open spec fn spec_parse_enum(d: RawEnumDeclModel) -> Result<ParsedEnumModel, DiagModel> {
    match spec_parse_container_attrs(d.attrs, 0) {
        Err(e) => Err(e),
        Ok(cs) => match spec_parse_variants(d.variants, 0) {
            Err(e) => Err(e),
            Ok(vs) => Ok(
                ParsedEnumModel {
                    ident: d.ident,
                    derive_span: d.derive_span,
                    containers: cs,
                    variants: vs,
                },
            ),
        },
    }
}

} // verus!

verus! {

// ----------------------------------------------------------------------------
// The executable parser. Each function returns exactly what its
// specification counterpart describes on the token models.
// ----------------------------------------------------------------------------

fn malformed_diag(expected: ExpectedGrammar, span: Span) -> (r: Diag)
    ensures
        r@ == malformed(expected, span),
{
    Diag { span, kind: DiagKind::MalformedAnnotation { expected } }
}

pub(crate) fn parse_container_list(toks: &Vec<AnnToken>, i: usize, attr_span: Span) -> (r:
    Result<Vec<ContainerAnnotation>, Diag>)
    ensures
        (match r {
            Ok(v) => spec_parse_container_list(
                views_of(toks@),
                i as int,
                attr_span,
            ) == Ok::<_, DiagModel>(views_of(v@)),
            Err(e) => spec_parse_container_list(
                views_of(toks@),
                i as int,
                attr_span,
            ) == Err::<Seq<ContainerAnnotationModel>, _>(e@),
        }),
    decreases toks@.len() - i,
{
    let ghost tm = views_of(toks@);
    if i >= toks.len() {
        Err(malformed_diag(ExpectedGrammar::ContainerList, attr_span))
    } else {
        let t = &toks[i];
        proof {
            assert(tm[i as int] == toks@[i as int]@);
        }
        match &t.kind {
            AnnTokenKind::Ident(name) => {
                let a = ContainerAnnotation {
                    span: t.span,
                    ident: ContainerIdent { name: name.clone() },
                };
                if i + 1 >= toks.len() {
                    let mut out: Vec<ContainerAnnotation> = Vec::new();
                    out.push(a);
                    proof {
                        assert(views_of(out@) =~= seq![out@[0]@]);
                    }
                    Ok(out)
                } else {
                    proof {
                        assert(tm[i + 1] == toks@[i + 1]@);
                    }
                    if matches!(&toks[i + 1].kind, AnnTokenKind::Comma) {
                        if i + 2 >= toks.len() {
                            Err(malformed_diag(ExpectedGrammar::ContainerList, attr_span))
                        } else {
                            match parse_container_list(toks, i + 2, attr_span) {
                                Ok(mut rest) => {
                                    let ghost restm = views_of(rest@);
                                    let mut out: Vec<ContainerAnnotation> = Vec::new();
                                    out.push(a);
                                    out.append(&mut rest);
                                    proof {
                                        assert(views_of(out@)
                                            =~= seq![out@[0]@] + restm);
                                    }
                                    Ok(out)
                                },
                                Err(e) => Err(e),
                            }
                        }
                    } else {
                        Err(malformed_diag(ExpectedGrammar::ContainerList, toks[i + 1].span))
                    }
                }
            },
            _ => Err(malformed_diag(ExpectedGrammar::ContainerList, t.span)),
        }
    }
}

pub(crate) fn parse_variant_elem(toks: &Vec<AnnToken>, i: usize, attr_span: Span) -> (r: Result<
    (VariantAnnotation, usize),
    Diag,
>)
    ensures
        (match r {
            Ok(aj) => {
                &&& spec_parse_variant_elem(
                    views_of(toks@),
                    i as int,
                    attr_span,
                ) == Ok::<_, DiagModel>((aj.0@, aj.1 as int))
                &&& i < aj.1 <= toks@.len()
            },
            Err(e) => spec_parse_variant_elem(
                views_of(toks@),
                i as int,
                attr_span,
            ) == Err::<(VariantAnnotationModel, int), _>(e@),
        }),
{
    let ghost tm = views_of(toks@);
    if i >= toks.len() {
        Err(malformed_diag(ExpectedGrammar::VariantPath, attr_span))
    } else {
        let t = &toks[i];
        proof {
            assert(tm[i as int] == toks@[i as int]@);
        }
        match &t.kind {
            AnnTokenKind::Ident(e) => {
                proof {
                    if i + 1 < toks@.len() {
                        assert(tm[i + 1] == toks@[i + 1]@);
                    }
                }
                if i + 1 < toks.len() && matches!(&toks[i + 1].kind, AnnTokenKind::PathSep) {
                    if i + 2 >= toks.len() {
                        Err(malformed_diag(ExpectedGrammar::VariantPath, attr_span))
                    } else {
                        let t2 = &toks[i + 2];
                        proof {
                            assert(tm[i + 2] == toks@[i + 2]@);
                            if i + 3 < toks@.len() {
                                assert(tm[i + 3] == toks@[i + 3]@);
                            }
                        }
                        match &t2.kind {
                            AnnTokenKind::Ident(v) => {
                                if i + 3 < toks.len() && matches!(
                                    &toks[i + 3].kind,
                                    AnnTokenKind::PathSep,
                                ) {
                                    Err(malformed_diag(ExpectedGrammar::VariantPath, t.span))
                                } else {
                                    Ok(
                                        (
                                            VariantAnnotation::EnumVariant {
                                                span: t.span,
                                                enum_ident: ContainerIdent { name: e.clone() },
                                                variant_ident: VariantIdent { name: v.clone() },
                                            },
                                            i + 3,
                                        ),
                                    )
                                }
                            },
                            _ => Err(malformed_diag(ExpectedGrammar::VariantPath, t2.span)),
                        }
                    }
                } else {
                    Ok(
                        (
                            VariantAnnotation::EnumOnly {
                                span: t.span,
                                enum_ident: ContainerIdent { name: e.clone() },
                            },
                            i + 1,
                        ),
                    )
                }
            },
            _ => Err(malformed_diag(ExpectedGrammar::VariantPath, t.span)),
        }
    }
}

pub(crate) fn parse_variant_list(toks: &Vec<AnnToken>, i: usize, attr_span: Span) -> (r: Result<
    Vec<VariantAnnotation>,
    Diag,
>)
    ensures
        (match r {
            Ok(v) => spec_parse_variant_list(
                views_of(toks@),
                i as int,
                attr_span,
            ) == Ok::<_, DiagModel>(views_of(v@)),
            Err(e) => spec_parse_variant_list(
                views_of(toks@),
                i as int,
                attr_span,
            ) == Err::<Seq<VariantAnnotationModel>, _>(e@),
        }),
    decreases toks@.len() - i,
{
    let ghost tm = views_of(toks@);
    if i >= toks.len() {
        Err(malformed_diag(ExpectedGrammar::VariantList, attr_span))
    } else {
        match parse_variant_elem(toks, i, attr_span) {
            Err(e) => Err(e),
            Ok((a, j)) => {
                if j >= toks.len() {
                    let mut out: Vec<VariantAnnotation> = Vec::new();
                    out.push(a);
                    proof {
                        assert(views_of(out@) =~= seq![out@[0]@]);
                    }
                    Ok(out)
                } else {
                    proof {
                        assert(tm[j as int] == toks@[j as int]@);
                    }
                    if matches!(&toks[j].kind, AnnTokenKind::Comma) {
                        // An element never ends before it starts; comparing
                        // `j` with `i` anyway keeps the recursion measure
                        // evident.
                        if j + 1 >= toks.len() || j < i {
                            Err(malformed_diag(ExpectedGrammar::VariantList, attr_span))
                        } else {
                            match parse_variant_list(toks, j + 1, attr_span) {
                                Ok(mut rest) => {
                                    let ghost restm = views_of(rest@);
                                    let mut out: Vec<VariantAnnotation> = Vec::new();
                                    out.push(a);
                                    out.append(&mut rest);
                                    proof {
                                        assert(views_of(out@)
                                            =~= seq![out@[0]@] + restm);
                                    }
                                    Ok(out)
                                },
                                Err(e) => Err(e),
                            }
                        }
                    } else {
                        Err(malformed_diag(ExpectedGrammar::VariantList, toks[j].span))
                    }
                }
            },
        }
    }
}

pub(crate) fn parse_field_elem(toks: &Vec<AnnToken>, i: usize, attr_span: Span) -> (r: Result<
    (FieldAnnotation, usize),
    Diag,
>)
    ensures
        (match r {
            Ok(aj) => {
                &&& spec_parse_field_elem(
                    views_of(toks@),
                    i as int,
                    attr_span,
                ) == Ok::<_, DiagModel>((aj.0@, aj.1 as int))
                &&& i < aj.1 <= toks@.len()
            },
            Err(e) => spec_parse_field_elem(
                views_of(toks@),
                i as int,
                attr_span,
            ) == Err::<(FieldAnnotationModel, int), _>(e@),
        }),
{
    let ghost tm = views_of(toks@);
    if i >= toks.len() {
        Err(malformed_diag(ExpectedGrammar::FieldPath, attr_span))
    } else {
        let t = &toks[i];
        proof {
            assert(tm[i as int] == toks@[i as int]@);
        }
        match &t.kind {
            AnnTokenKind::Ident(e) => {
                proof {
                    if i + 1 < toks@.len() {
                        assert(tm[i + 1] == toks@[i + 1]@);
                    }
                }
                if !(i + 1 < toks.len() && matches!(&toks[i + 1].kind, AnnTokenKind::PathSep)) {
                    Err(malformed_diag(ExpectedGrammar::FieldPath, t.span))
                } else if i + 2 >= toks.len() {
                    Err(malformed_diag(ExpectedGrammar::FieldPath, attr_span))
                } else {
                    let t2 = &toks[i + 2];
                    proof {
                        assert(tm[i + 2] == toks@[i + 2]@);
                        if i + 3 < toks@.len() {
                            assert(tm[i + 3] == toks@[i + 3]@);
                        }
                        if i + 4 < toks@.len() {
                            assert(tm[i + 4] == toks@[i + 4]@);
                        }
                    }
                    match &t2.kind {
                        AnnTokenKind::Ident(v) => {
                            if i + 3 < toks.len() && matches!(
                                &toks[i + 3].kind,
                                AnnTokenKind::PathSep,
                            ) {
                                Err(malformed_diag(ExpectedGrammar::FieldPath, t.span))
                            } else if !(i + 3 < toks.len() && matches!(
                                &toks[i + 3].kind,
                                AnnTokenKind::Dot,
                            )) {
                                let sp = if i + 3 < toks.len() {
                                    toks[i + 3].span
                                } else {
                                    attr_span
                                };
                                Err(malformed_diag(ExpectedGrammar::FieldPath, sp))
                            } else if i + 4 >= toks.len() {
                                Err(malformed_diag(ExpectedGrammar::FieldRefToken, attr_span))
                            } else {
                                let t4 = &toks[i + 4];
                                let fref = match &t4.kind {
                                    AnnTokenKind::Ident(f) => Some(
                                        FieldRef::FieldIdent(FieldIdent { name: f.clone() }),
                                    ),
                                    AnnTokenKind::Int(p) => Some(FieldRef::FieldPos(*p)),
                                    _ => None,
                                };
                                match fref {
                                    Some(field) => Ok(
                                        (
                                            FieldAnnotation {
                                                enum_ident: ContainerIdent { name: e.clone() },
                                                variant_ident: VariantIdent { name: v.clone() },
                                                field,
                                                enum_span: t.span,
                                                variant_span: t2.span,
                                                field_span: t4.span,
                                            },
                                            i + 5,
                                        ),
                                    ),
                                    None => Err(
                                        malformed_diag(ExpectedGrammar::FieldRefToken, t4.span),
                                    ),
                                }
                            }
                        },
                        _ => Err(malformed_diag(ExpectedGrammar::FieldPath, t2.span)),
                    }
                }
            },
            _ => Err(malformed_diag(ExpectedGrammar::FieldPath, t.span)),
        }
    }
}

pub(crate) fn parse_field_list(toks: &Vec<AnnToken>, i: usize, attr_span: Span) -> (r: Result<
    Vec<FieldAnnotation>,
    Diag,
>)
    ensures
        (match r {
            Ok(v) => spec_parse_field_list(
                views_of(toks@),
                i as int,
                attr_span,
            ) == Ok::<_, DiagModel>(views_of(v@)),
            Err(e) => spec_parse_field_list(
                views_of(toks@),
                i as int,
                attr_span,
            ) == Err::<Seq<FieldAnnotationModel>, _>(e@),
        }),
    decreases toks@.len() - i,
{
    let ghost tm = views_of(toks@);
    if i >= toks.len() {
        Err(malformed_diag(ExpectedGrammar::FieldList, attr_span))
    } else {
        match parse_field_elem(toks, i, attr_span) {
            Err(e) => Err(e),
            Ok((a, j)) => {
                if j >= toks.len() {
                    let mut out: Vec<FieldAnnotation> = Vec::new();
                    out.push(a);
                    proof {
                        assert(views_of(out@) =~= seq![out@[0]@]);
                    }
                    Ok(out)
                } else {
                    proof {
                        assert(tm[j as int] == toks@[j as int]@);
                    }
                    if matches!(&toks[j].kind, AnnTokenKind::Comma) {
                        // An element never ends before it starts; comparing
                        // `j` with `i` anyway keeps the recursion measure
                        // evident.
                        if j + 1 >= toks.len() || j < i {
                            Err(malformed_diag(ExpectedGrammar::FieldList, attr_span))
                        } else {
                            match parse_field_list(toks, j + 1, attr_span) {
                                Ok(mut rest) => {
                                    let ghost restm = views_of(rest@);
                                    let mut out: Vec<FieldAnnotation> = Vec::new();
                                    out.push(a);
                                    out.append(&mut rest);
                                    proof {
                                        assert(views_of(out@)
                                            =~= seq![out@[0]@] + restm);
                                    }
                                    Ok(out)
                                },
                                Err(e) => Err(e),
                            }
                        }
                    } else {
                        Err(malformed_diag(ExpectedGrammar::FieldList, toks[j].span))
                    }
                }
            },
        }
    }
}

} // verus!

verus! {

pub(crate) fn parse_container_attrs(attrs: &Vec<RawAttr>, i: usize) -> (r: Result<
    Vec<ContainerAnnotation>,
    Diag,
>)
    ensures
        (match r {
            Ok(v) => spec_parse_container_attrs(views_of(attrs@), i as int)
                == Ok::<_, DiagModel>(views_of(v@)),
            Err(e) => spec_parse_container_attrs(views_of(attrs@), i as int)
                == Err::<Seq<ContainerAnnotationModel>, _>(e@),
        }),
    decreases attrs@.len() - i,
{
    let ghost am = views_of(attrs@);
    if i >= attrs.len() {
        let out: Vec<ContainerAnnotation> = Vec::new();
        proof {
            assert(views_of(out@) =~= Seq::<
                ContainerAnnotationModel,
            >::empty());
        }
        Ok(out)
    } else {
        let a = &attrs[i];
        proof {
            assert(am[i as int] == attrs@[i as int]@);
        }
        let first = match &a.payload {
            AttrPayload::List(toks) => parse_container_list(toks, 0, a.span),
            _ => Err(malformed_diag(ExpectedGrammar::ContainerList, a.span)),
        };
        match first {
            Err(e) => Err(e),
            Ok(mut v) => {
                let ghost vm = views_of(v@);
                match parse_container_attrs(attrs, i + 1) {
                    Err(e) => Err(e),
                    Ok(mut rest) => {
                        let ghost restm = views_of(rest@);
                        v.append(&mut rest);
                        proof {
                            assert(views_of(v@) =~= vm + restm);
                        }
                        Ok(v)
                    },
                }
            },
        }
    }
}

pub(crate) fn parse_variant_attrs(attrs: &Vec<RawAttr>, i: usize) -> (r: Result<
    Vec<VariantAnnotation>,
    Diag,
>)
    ensures
        (match r {
            Ok(v) => spec_parse_variant_attrs(views_of(attrs@), i as int)
                == Ok::<_, DiagModel>(views_of(v@)),
            Err(e) => spec_parse_variant_attrs(views_of(attrs@), i as int)
                == Err::<Seq<VariantAnnotationModel>, _>(e@),
        }),
    decreases attrs@.len() - i,
{
    let ghost am = views_of(attrs@);
    if i >= attrs.len() {
        let out: Vec<VariantAnnotation> = Vec::new();
        proof {
            assert(views_of(out@) =~= Seq::<
                VariantAnnotationModel,
            >::empty());
        }
        Ok(out)
    } else {
        let a = &attrs[i];
        proof {
            assert(am[i as int] == attrs@[i as int]@);
        }
        let first = match &a.payload {
            AttrPayload::Marker => {
                let mut one: Vec<VariantAnnotation> = Vec::new();
                one.push(VariantAnnotation::Nothing { span: a.span });
                proof {
                    assert(views_of(one@) =~= seq![one@[0]@]);
                }
                Ok(one)
            },
            AttrPayload::List(toks) => parse_variant_list(toks, 0, a.span),
            AttrPayload::NameValue => Err(malformed_diag(ExpectedGrammar::VariantList, a.span)),
        };
        match first {
            Err(e) => Err(e),
            Ok(mut v) => {
                let ghost vm = views_of(v@);
                match parse_variant_attrs(attrs, i + 1) {
                    Err(e) => Err(e),
                    Ok(mut rest) => {
                        let ghost restm = views_of(rest@);
                        v.append(&mut rest);
                        proof {
                            assert(views_of(v@) =~= vm + restm);
                        }
                        Ok(v)
                    },
                }
            },
        }
    }
}

pub(crate) fn parse_field_attrs(attrs: &Vec<RawAttr>, i: usize) -> (r: Result<
    Vec<FieldAnnotation>,
    Diag,
>)
    ensures
        (match r {
            Ok(v) => spec_parse_field_attrs(views_of(attrs@), i as int)
                == Ok::<_, DiagModel>(views_of(v@)),
            Err(e) => spec_parse_field_attrs(views_of(attrs@), i as int)
                == Err::<Seq<FieldAnnotationModel>, _>(e@),
        }),
    decreases attrs@.len() - i,
{
    let ghost am = views_of(attrs@);
    if i >= attrs.len() {
        let out: Vec<FieldAnnotation> = Vec::new();
        proof {
            assert(views_of(out@) =~= Seq::<
                FieldAnnotationModel,
            >::empty());
        }
        Ok(out)
    } else {
        let a = &attrs[i];
        proof {
            assert(am[i as int] == attrs@[i as int]@);
        }
        let first = match &a.payload {
            AttrPayload::List(toks) => parse_field_list(toks, 0, a.span),
            _ => Err(malformed_diag(ExpectedGrammar::FieldList, a.span)),
        };
        match first {
            Err(e) => Err(e),
            Ok(mut v) => {
                let ghost vm = views_of(v@);
                match parse_field_attrs(attrs, i + 1) {
                    Err(e) => Err(e),
                    Ok(mut rest) => {
                        let ghost restm = views_of(rest@);
                        v.append(&mut rest);
                        proof {
                            assert(views_of(v@) =~= vm + restm);
                        }
                        Ok(v)
                    },
                }
            },
        }
    }
}

pub(crate) fn parse_tuple_fields(fs: &Vec<crate::decl::RawTupleField>, i: usize) -> (r: Result<
    Vec<FieldAnnotations>,
    Diag,
>)
    ensures
        (match r {
            Ok(v) => spec_parse_tuple_fields(
                views_of(fs@),
                i as int,
            ) == Ok::<_, DiagModel>(views_of(v@)),
            Err(e) => spec_parse_tuple_fields(
                views_of(fs@),
                i as int,
            ) == Err::<Seq<FieldAnnotationsModel>, _>(e@),
        }),
    decreases fs@.len() - i,
{
    let ghost fm = views_of(fs@);
    if i >= fs.len() {
        let out: Vec<FieldAnnotations> = Vec::new();
        proof {
            assert(views_of(out@) =~= Seq::<
                FieldAnnotationsModel,
            >::empty());
        }
        Ok(out)
    } else {
        let f = &fs[i];
        proof {
            assert(fm[i as int] == fs@[i as int]@);
        }
        match parse_field_attrs(&f.attrs, 0) {
            Err(e) => Err(e),
            Ok(anns) => match parse_tuple_fields(fs, i + 1) {
                Err(e) => Err(e),
                Ok(mut rest) => {
                    let ghost restm = views_of(rest@);
                    let mut out: Vec<FieldAnnotations> = Vec::new();
                    out.push(FieldAnnotations { field_span: f.span, fields_annotations: anns });
                    out.append(&mut rest);
                    proof {
                        assert(views_of(out@) =~= seq![out@[0]@]
                            + restm);
                    }
                    Ok(out)
                },
            },
        }
    }
}

pub(crate) fn parse_struct_fields(fs: &Vec<crate::decl::RawStructField>, i: usize) -> (r: Result<
    Vec<NamedFieldAnnotations>,
    Diag,
>)
    ensures
        (match r {
            Ok(v) => spec_parse_struct_fields(
                views_of(fs@),
                i as int,
            ) == Ok::<_, DiagModel>(views_of(v@)),
            Err(e) => spec_parse_struct_fields(
                views_of(fs@),
                i as int,
            ) == Err::<Seq<NamedFieldAnnotationsModel>, _>(e@),
        }),
    decreases fs@.len() - i,
{
    let ghost fm = views_of(fs@);
    if i >= fs.len() {
        let out: Vec<NamedFieldAnnotations> = Vec::new();
        proof {
            assert(views_of(out@) =~= Seq::<
                NamedFieldAnnotationsModel,
            >::empty());
        }
        Ok(out)
    } else {
        let f = &fs[i];
        proof {
            assert(fm[i as int] == fs@[i as int]@);
        }
        match parse_field_attrs(&f.attrs, 0) {
            Err(e) => Err(e),
            Ok(anns) => match parse_struct_fields(fs, i + 1) {
                Err(e) => Err(e),
                Ok(mut rest) => {
                    let ghost restm = views_of(rest@);
                    let mut out: Vec<NamedFieldAnnotations> = Vec::new();
                    out.push(
                        NamedFieldAnnotations {
                            ident: FieldIdent { name: f.ident.name.clone() },
                            annotations: FieldAnnotations {
                                field_span: f.span,
                                fields_annotations: anns,
                            },
                        },
                    );
                    out.append(&mut rest);
                    proof {
                        assert(views_of(out@) =~= seq![out@[0]@]
                            + restm);
                    }
                    Ok(out)
                },
            },
        }
    }
}

pub(crate) fn parse_fields(f: &RawFields) -> (r: Result<ParsedFields, Diag>)
    ensures
        (match r {
            Ok(p) => spec_parse_fields(f@) == Ok::<_, DiagModel>(p@),
            Err(e) => spec_parse_fields(f@) == Err::<ParsedFieldsModel, _>(e@),
        }),
{
    match f {
        RawFields::Unit => Ok(ParsedFields::Unit),
        RawFields::Tuple(fs) => match parse_tuple_fields(fs, 0) {
            Ok(anns) => Ok(ParsedFields::Tuple(anns)),
            Err(e) => Err(e),
        },
        RawFields::Struct(fs) => match parse_struct_fields(fs, 0) {
            Ok(anns) => Ok(ParsedFields::Struct(anns)),
            Err(e) => Err(e),
        },
    }
}

pub(crate) fn parse_variants(vs: &Vec<crate::decl::RawVariant>, i: usize) -> (r: Result<
    Vec<ParsedVariant>,
    Diag,
>)
    ensures
        (match r {
            Ok(v) => spec_parse_variants(
                views_of(vs@),
                i as int,
            ) == Ok::<_, DiagModel>(views_of(v@)),
            Err(e) => spec_parse_variants(
                views_of(vs@),
                i as int,
            ) == Err::<Seq<ParsedVariantModel>, _>(e@),
        }),
    decreases vs@.len() - i,
{
    let ghost vm = views_of(vs@);
    if i >= vs.len() {
        let out: Vec<ParsedVariant> = Vec::new();
        proof {
            assert(views_of(out@) =~= Seq::<ParsedVariantModel>::empty());
        }
        Ok(out)
    } else {
        let v = &vs[i];
        proof {
            assert(vm[i as int] == vs@[i as int]@);
        }
        match parse_variant_attrs(&v.attrs, 0) {
            Err(e) => Err(e),
            Ok(vanns) => match parse_fields(&v.fields) {
                Err(e) => Err(e),
                Ok(fanns) => match parse_variants(vs, i + 1) {
                    Err(e) => Err(e),
                    Ok(mut rest) => {
                        let ghost restm = views_of(rest@);
                        let mut out: Vec<ParsedVariant> = Vec::new();
                        out.push(
                            ParsedVariant {
                                ident: VariantIdent { name: v.ident.name.clone() },
                                annotations: VariantAnnotations {
                                    variant_annotations: vanns,
                                    fields_annotations: fanns,
                                },
                            },
                        );
                        out.append(&mut rest);
                        proof {
                            assert(views_of(out@) =~= seq![out@[0]@]
                                + restm);
                        }
                        Ok(out)
                    },
                },
            },
        }
    }
}

/// Parse every annotation of one raw declaration: the container-level
/// paired-union list and, per variant, its pairing and field mapping
/// references.
pub(crate) fn parse_decl_annotations(d: &RawEnumDecl) -> (r: Result<
    (Vec<ContainerAnnotation>, Vec<ParsedVariant>),
    Diag,
>)
    ensures
        (match r {
            Ok(cv) => spec_parse_enum(d@) == Ok::<_, DiagModel>(
                ParsedEnumModel {
                    ident: d@.ident,
                    derive_span: d@.derive_span,
                    containers: views_of(cv.0@),
                    variants: views_of(cv.1@),
                },
            ),
            Err(e) => spec_parse_enum(d@) == Err::<ParsedEnumModel, _>(e@),
        }),
{
    match parse_container_attrs(&d.attrs, 0) {
        Err(e) => Err(e),
        Ok(cs) => match parse_variants(&d.variants, 0) {
            Err(e) => Err(e),
            Ok(vs) => Ok((cs, vs)),
        },
    }
}

} // verus!
