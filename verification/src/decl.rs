//! The inbound interface: already-parsed union declarations.
//!
//! The declaration loader (outside this library) turns host-language syntax
//! into these plain structures: the annotated union's name, its variants with
//! their field shapes, and, for every annotation attached to the union, a
//! variant or a field, the raw argument token list of that annotation.
//! Nothing here is cross-checked yet; the grammar parser and the resolver
//! consume it.

use vstd::prelude::*;

use crate::views::views_of;

use crate::idents::ContainerIdent;
use crate::idents::FieldIdent;
use crate::idents::Span;
use crate::idents::VariantIdent;

verus! {

broadcast use crate::views::group_views;

/// One token of an annotation argument list.
#[derive(Debug, Clone, PartialEq, Eq)]
pub enum AnnTokenKind {
    /// An identifier.
    Ident(String),
    /// An unsigned integer literal, as used for tuple field positions.
    Int(usize),
    /// The path separator (`::`).
    PathSep,
    /// A dot (`.`), separating a variant from a field name.
    Dot,
    /// A comma, separating list elements.
    Comma,
    /// Any other token; always a grammar violation in this annotation
    /// language.
    Other,
}

/// Mathematical value of an annotation token.
pub enum AnnTokenKindModel {
    Ident(Seq<char>),
    Int(usize),
    PathSep,
    Dot,
    Comma,
    Other,
}

impl View for AnnTokenKind {
    type V = AnnTokenKindModel;

    open spec fn view(&self) -> AnnTokenKindModel {
        match self {
            AnnTokenKind::Ident(s) => AnnTokenKindModel::Ident(s@),
            AnnTokenKind::Int(v) => AnnTokenKindModel::Int(*v),
            AnnTokenKind::PathSep => AnnTokenKindModel::PathSep,
            AnnTokenKind::Dot => AnnTokenKindModel::Dot,
            AnnTokenKind::Comma => AnnTokenKindModel::Comma,
            AnnTokenKind::Other => AnnTokenKindModel::Other,
        }
    }
}

#[derive(Debug, Clone, PartialEq, Eq)]
pub struct AnnToken {
    pub span: Span,
    pub kind: AnnTokenKind,
}

pub struct AnnTokenModel {
    pub span: Span,
    pub kind: AnnTokenKindModel,
}

impl View for AnnToken {
    type V = AnnTokenModel;

    open spec fn view(&self) -> AnnTokenModel {
        AnnTokenModel { span: self.span, kind: self.kind@ }
    }
}

/// The argument form of one annotation occurrence.
#[derive(Debug, Clone, PartialEq, Eq)]
pub enum AttrPayload {
    /// A bare marker with no argument list.
    Marker,
    /// A parenthesised argument token list.
    List(Vec<AnnToken>),
    /// A `name = value` form; never valid in this annotation language.
    NameValue,
}

pub enum AttrPayloadModel {
    Marker,
    List(Seq<AnnTokenModel>),
    NameValue,
}

impl View for AttrPayload {
    type V = AttrPayloadModel;

    open spec fn view(&self) -> AttrPayloadModel {
        match self {
            AttrPayload::Marker => AttrPayloadModel::Marker,
            AttrPayload::List(toks) => AttrPayloadModel::List(
                views_of(toks@),
            ),
            AttrPayload::NameValue => AttrPayloadModel::NameValue,
        }
    }
}

/// One occurrence of the conversion annotation, already filtered by
/// attribute name by the declaration loader.
#[derive(Debug, Clone, PartialEq, Eq)]
pub struct RawAttr {
    pub span: Span,
    pub payload: AttrPayload,
}

pub struct RawAttrModel {
    pub span: Span,
    pub payload: AttrPayloadModel,
}

impl View for RawAttr {
    type V = RawAttrModel;

    open spec fn view(&self) -> RawAttrModel {
        RawAttrModel { span: self.span, payload: self.payload@ }
    }
}

/// One positional field of a tuple-shaped variant.
#[derive(Debug, Clone, PartialEq, Eq)]
pub struct RawTupleField {
    pub span: Span,
    pub attrs: Vec<RawAttr>,
}

pub struct RawTupleFieldModel {
    pub span: Span,
    pub attrs: Seq<RawAttrModel>,
}

impl View for RawTupleField {
    type V = RawTupleFieldModel;

    open spec fn view(&self) -> RawTupleFieldModel {
        RawTupleFieldModel { span: self.span, attrs: views_of(self.attrs@) }
    }
}

/// One named field of a struct-shaped variant.
#[derive(Debug, Clone, PartialEq, Eq)]
pub struct RawStructField {
    pub ident: FieldIdent,
    pub span: Span,
    pub attrs: Vec<RawAttr>,
}

pub struct RawStructFieldModel {
    pub ident: Seq<char>,
    pub span: Span,
    pub attrs: Seq<RawAttrModel>,
}

impl View for RawStructField {
    type V = RawStructFieldModel;

    open spec fn view(&self) -> RawStructFieldModel {
        RawStructFieldModel {
            ident: self.ident@,
            span: self.span,
            attrs: views_of(self.attrs@),
        }
    }
}

/// The field shape of one variant: unit, positional fields, or named fields.
#[derive(Debug, Clone, PartialEq, Eq)]
pub enum RawFields {
    Unit,
    Tuple(Vec<RawTupleField>),
    Struct(Vec<RawStructField>),
}

pub enum RawFieldsModel {
    Unit,
    Tuple(Seq<RawTupleFieldModel>),
    Struct(Seq<RawStructFieldModel>),
}

impl View for RawFields {
    type V = RawFieldsModel;

    open spec fn view(&self) -> RawFieldsModel {
        match self {
            RawFields::Unit => RawFieldsModel::Unit,
            RawFields::Tuple(fs) => RawFieldsModel::Tuple(
                views_of(fs@),
            ),
            RawFields::Struct(fs) => RawFieldsModel::Struct(
                views_of(fs@),
            ),
        }
    }
}

/// One variant of the annotated union.
#[derive(Debug, Clone, PartialEq, Eq)]
pub struct RawVariant {
    pub ident: VariantIdent,
    pub attrs: Vec<RawAttr>,
    pub fields: RawFields,
}

pub struct RawVariantModel {
    pub ident: Seq<char>,
    pub attrs: Seq<RawAttrModel>,
    pub fields: RawFieldsModel,
}

impl View for RawVariant {
    type V = RawVariantModel;

    open spec fn view(&self) -> RawVariantModel {
        RawVariantModel {
            ident: self.ident@,
            attrs: views_of(self.attrs@),
            fields: self.fields@,
        }
    }
}

/// The whole annotated union as the declaration loader hands it over.
#[derive(Debug, Clone, PartialEq, Eq)]
pub struct RawEnumDecl {
    pub ident: ContainerIdent,
    /// Position of the derive invocation itself; the container-level
    /// annotation being absent is blamed here.
    pub derive_span: Span,
    pub attrs: Vec<RawAttr>,
    pub variants: Vec<RawVariant>,
}

pub struct RawEnumDeclModel {
    pub ident: Seq<char>,
    pub derive_span: Span,
    pub attrs: Seq<RawAttrModel>,
    pub variants: Seq<RawVariantModel>,
}

impl View for RawEnumDecl {
    type V = RawEnumDeclModel;

    open spec fn view(&self) -> RawEnumDeclModel {
        RawEnumDeclModel {
            ident: self.ident@,
            derive_span: self.derive_span,
            attrs: views_of(self.attrs@),
            variants: views_of(self.variants@),
        }
    }
}

/// The variant list of one paired source union, as far as the resolver
/// needs it: resolving an incoming conversion must check that a referenced
/// source variant exists.
#[derive(Debug, Clone, PartialEq, Eq)]
pub struct SourceEnumDecl {
    pub ident: ContainerIdent,
    pub variants: Vec<VariantIdent>,
}

pub struct SourceEnumDeclModel {
    pub ident: Seq<char>,
    pub variants: Seq<Seq<char>>,
}

impl View for SourceEnumDecl {
    type V = SourceEnumDeclModel;

    open spec fn view(&self) -> SourceEnumDeclModel {
        SourceEnumDeclModel {
            ident: self.ident@,
            variants: views_of(self.variants@),
        }
    }
}

} // verus!
