//! The resolved mapping table: the normalized, validated association
//! between the annotated union's variants and the variants of each paired
//! union, ready for conversion-plan emission.
//!
//! Throughout this module "own" is the side the annotations sit on (the
//! annotated union) and "other" is the paired union. For an incoming
//! conversion the annotated union is the target; for an outgoing one it is
//! the source.

use vstd::prelude::*;

use crate::views::views_of;

use crate::idents::ContainerIdent;
use crate::idents::FieldIdent;
use crate::idents::VariantIdent;

verus! {

broadcast use crate::views::group_views;

/// One field pairing between two struct-shaped variants.
#[derive(Debug, Clone, PartialEq, Eq)]
pub struct FieldPair {
    pub own: FieldIdent,
    pub other: FieldIdent,
}

impl View for FieldPair {
    type V = (Seq<char>, Seq<char>);

    open spec fn view(&self) -> (Seq<char>, Seq<char>) {
        (self.own@, self.other@)
    }
}

/// One field pairing between an own struct-shaped variant and an other
/// tuple-shaped variant.
#[derive(Debug, Clone, PartialEq, Eq)]
pub struct FieldPosPair {
    pub own: FieldIdent,
    pub other: usize,
}

impl View for FieldPosPair {
    type V = (Seq<char>, usize);

    open spec fn view(&self) -> (Seq<char>, usize) {
        (self.own@, self.other)
    }
}

/// The complete field table of one variant pairing. Tables are total over
/// the annotated union's own fields: a same-shape pairing fills the fields
/// that carry no annotation with the identity by position or by name, and a
/// cross-shape pairing requires every own field to be annotated.
#[derive(Debug, Clone, PartialEq, Eq)]
pub enum FieldTable {
    /// Both variants are unit-shaped.
    Unit,
    /// Both tuple-shaped: own slot `i` pairs with the other union's slot
    /// `positions[i]`.
    BothTuple { positions: Vec<usize> },
    /// Both struct-shaped: one entry per own field, in declaration order.
    BothStruct { names: Vec<FieldPair> },
    /// Own variant tuple-shaped, other struct-shaped: own slot `i` pairs
    /// with the other union's field `names[i]`.
    OwnTupleOtherStruct { names: Vec<FieldIdent> },
    /// Own variant struct-shaped, other tuple-shaped: one entry per own
    /// field, in declaration order.
    OwnStructOtherTuple { positions: Vec<FieldPosPair> },
}

pub enum FieldTableModel {
    Unit,
    BothTuple(Seq<usize>),
    BothStruct(Seq<(Seq<char>, Seq<char>)>),
    OwnTupleOtherStruct(Seq<Seq<char>>),
    OwnStructOtherTuple(Seq<(Seq<char>, usize)>),
}

impl View for FieldTable {
    type V = FieldTableModel;

    open spec fn view(&self) -> FieldTableModel {
        match self {
            FieldTable::Unit => FieldTableModel::Unit,
            FieldTable::BothTuple { positions } => FieldTableModel::BothTuple(positions@),
            FieldTable::BothStruct { names } => FieldTableModel::BothStruct(
                views_of(names@),
            ),
            FieldTable::OwnTupleOtherStruct { names } => FieldTableModel::OwnTupleOtherStruct(
                views_of(names@),
            ),
            FieldTable::OwnStructOtherTuple { positions } => (
                FieldTableModel::OwnStructOtherTuple(
                    views_of(positions@),
                )
            ),
        }
    }
}

/// The resolved pairing of one own variant with one variant of one paired
/// union; constructed once by the resolver and immutable afterwards.
#[derive(Debug, Clone, PartialEq, Eq)]
pub struct VariantMapping {
    /// The annotated union's own variant.
    pub own_variant: VariantIdent,
    pub fields: FieldTable,
}

pub struct VariantMappingModel {
    pub own_variant: Seq<char>,
    pub fields: FieldTableModel,
}

impl View for VariantMapping {
    type V = VariantMappingModel;

    open spec fn view(&self) -> VariantMappingModel {
        VariantMappingModel { own_variant: self.own_variant@, fields: self.fields@ }
    }
}

/// All mappings that involve one variant of one paired union. An incoming
/// conversion keeps at most one mapping here (a source variant converts to
/// exactly one target); an outgoing one may keep several own variants that
/// feed the same target variant.
#[derive(Debug, Clone, PartialEq, Eq)]
pub struct MappingEntry {
    pub paired_variant: VariantIdent,
    pub mappings: Vec<VariantMapping>,
}

pub struct MappingEntryModel {
    pub paired_variant: Seq<char>,
    pub mappings: Seq<VariantMappingModel>,
}

impl View for MappingEntry {
    type V = MappingEntryModel;

    open spec fn view(&self) -> MappingEntryModel {
        MappingEntryModel {
            paired_variant: self.paired_variant@,
            mappings: views_of(self.mappings@),
        }
    }
}

/// The mappings of one paired union, in discovery order.
#[derive(Debug, Clone, PartialEq, Eq)]
pub struct ContainerMapping {
    pub container: ContainerIdent,
    pub entries: Vec<MappingEntry>,
}

pub struct ContainerMappingModel {
    pub container: Seq<char>,
    pub entries: Seq<MappingEntryModel>,
}

impl View for ContainerMapping {
    type V = ContainerMappingModel;

    open spec fn view(&self) -> ContainerMappingModel {
        ContainerMappingModel {
            container: self.container@,
            entries: views_of(self.entries@),
        }
    }
}

/// The whole resolved table: one `ContainerMapping` per declared paired
/// union, in declaration order with repeated declarations collapsed, each
/// present even when no variant maps to it.
#[derive(Debug, Clone, PartialEq, Eq)]
pub struct MappingTable {
    pub containers: Vec<ContainerMapping>,
}

pub struct MappingTableModel {
    pub containers: Seq<ContainerMappingModel>,
}

impl View for MappingTable {
    type V = MappingTableModel;

    open spec fn view(&self) -> MappingTableModel {
        MappingTableModel { containers: views_of(self.containers@) }
    }
}

} // verus!
