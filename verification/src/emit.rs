//! The emission adapter: from a validated mapping table to one structured
//! conversion plan per paired union. A plan is one `From` implementation:
//! per mapping one match arm that destructures the source variant and
//! builds the target variant, each field passed through the host's generic
//! one-argument conversion. Rendering the plan as host-language source text
//! is the caller's concern; building it is total and cannot fail.
//!
//! Every declared paired union yields a plan, with one arm per mapping and
//! no catch-all arm: an own variant that takes part in no mapping to a
//! paired union contributes no arm to that union's plan, and the host's
//! pattern-exhaustiveness rules decide whether the dispatch is legal.

use vstd::prelude::*;

use crate::views::views_of;

use crate::idents::ContainerIdent;
use crate::idents::FieldIdent;
use crate::idents::FieldRef;
use crate::idents::FieldRefModel;
use crate::idents::VariantIdent;
use crate::mapping::ContainerMapping;
use crate::mapping::ContainerMappingModel;
use crate::mapping::FieldTable;
use crate::mapping::FieldTableModel;
use crate::mapping::MappingEntry;
use crate::mapping::MappingEntryModel;
use crate::mapping::MappingTable;
use crate::mapping::MappingTableModel;
use crate::mapping::VariantMapping;
use crate::mapping::VariantMappingModel;
use crate::resolve::Direction;

verus! {

broadcast use crate::views::group_views;

/// How an arm destructures the source variant: a unit pattern, a tuple
/// pattern binding the slots `0..arity`, or a struct pattern binding the
/// listed field names.
#[derive(Debug, Clone, PartialEq, Eq)]
pub enum PatternFields {
    Unit,
    Tuple { arity: usize },
    Struct { fields: Vec<FieldIdent> },
}

pub enum PatternFieldsModel {
    Unit,
    Tuple(usize),
    Struct(Seq<Seq<char>>),
}

impl View for PatternFields {
    type V = PatternFieldsModel;

    open spec fn view(&self) -> PatternFieldsModel {
        match self {
            PatternFields::Unit => PatternFieldsModel::Unit,
            PatternFields::Tuple { arity } => PatternFieldsModel::Tuple(*arity),
            PatternFields::Struct { fields } => PatternFieldsModel::Struct(
                views_of(fields@),
            ),
        }
    }
}

/// One field of the target construction of a struct-shaped variant: the
/// target field and the source field whose bound value feeds it.
#[derive(Debug, Clone, PartialEq, Eq)]
pub struct FieldValue {
    pub field: FieldIdent,
    pub value: FieldRef,
}

impl View for FieldValue {
    type V = (Seq<char>, FieldRefModel);

    open spec fn view(&self) -> (Seq<char>, FieldRefModel) {
        (self.field@, self.value@)
    }
}

/// How an arm builds the target variant: each value names the source field
/// whose binding is converted into the corresponding target slot or field.
#[derive(Debug, Clone, PartialEq, Eq)]
pub enum ConstructionFields {
    Unit,
    Tuple { values: Vec<FieldRef> },
    Struct { values: Vec<FieldValue> },
}

pub enum ConstructionFieldsModel {
    Unit,
    Tuple(Seq<FieldRefModel>),
    Struct(Seq<(Seq<char>, FieldRefModel)>),
}

impl View for ConstructionFields {
    type V = ConstructionFieldsModel;

    open spec fn view(&self) -> ConstructionFieldsModel {
        match self {
            ConstructionFields::Unit => ConstructionFieldsModel::Unit,
            ConstructionFields::Tuple { values } => ConstructionFieldsModel::Tuple(
                views_of(values@),
            ),
            ConstructionFields::Struct { values } => ConstructionFieldsModel::Struct(
                views_of(values@),
            ),
        }
    }
}

/// One match arm of a conversion.
#[derive(Debug, Clone, PartialEq, Eq)]
pub struct ConversionArm {
    pub source_variant: VariantIdent,
    pub pattern: PatternFields,
    pub target_variant: VariantIdent,
    pub construction: ConstructionFields,
}

pub struct ConversionArmModel {
    pub source_variant: Seq<char>,
    pub pattern: PatternFieldsModel,
    pub target_variant: Seq<char>,
    pub construction: ConstructionFieldsModel,
}

impl View for ConversionArm {
    type V = ConversionArmModel;

    open spec fn view(&self) -> ConversionArmModel {
        ConversionArmModel {
            source_variant: self.source_variant@,
            pattern: self.pattern@,
            target_variant: self.target_variant@,
            construction: self.construction@,
        }
    }
}

/// One conversion plan: the dispatch from `source_enum` values to
/// `target_enum` values, one arm per resolved mapping.
#[derive(Debug, Clone, PartialEq, Eq)]
pub struct ConversionImpl {
    pub source_enum: ContainerIdent,
    pub target_enum: ContainerIdent,
    pub arms: Vec<ConversionArm>,
}

pub struct ConversionImplModel {
    pub source_enum: Seq<char>,
    pub target_enum: Seq<char>,
    pub arms: Seq<ConversionArmModel>,
}

impl View for ConversionImpl {
    type V = ConversionImplModel;

    open spec fn view(&self) -> ConversionImplModel {
        ConversionImplModel {
            source_enum: self.source_enum@,
            target_enum: self.target_enum@,
            arms: views_of(self.arms@),
        }
    }
}

// ----------------------------------------------------------------------------
// The plan, as a mathematical function of the table.
// ----------------------------------------------------------------------------

/// The paired-side names of a struct-to-struct table, in own-field order.
pub open spec fn other_names(pairs: Seq<(Seq<char>, Seq<char>)>) -> Seq<Seq<char>> {
    Seq::new(pairs.len(), |i: int| pairs[i].1)
}

/// The own-side names of a struct-to-struct table, in own-field order.
pub open spec fn own_names(pairs: Seq<(Seq<char>, Seq<char>)>) -> Seq<Seq<char>> {
    Seq::new(pairs.len(), |i: int| pairs[i].0)
}

/// The paired-side slots of a struct-to-tuple table, in own-field order.
pub open spec fn other_positions(pairs: Seq<(Seq<char>, usize)>) -> Seq<usize> {
    Seq::new(pairs.len(), |i: int| pairs[i].1)
}

/// The own-side names of a struct-to-tuple table, in own-field order.
pub open spec fn own_pos_names(pairs: Seq<(Seq<char>, usize)>) -> Seq<Seq<char>> {
    Seq::new(pairs.len(), |i: int| pairs[i].0)
}

/// Position references, slot by slot.
pub open spec fn pos_refs(t: Seq<usize>) -> Seq<FieldRefModel> {
    Seq::new(t.len(), |i: int| FieldRefModel::Pos(t[i]))
}

/// Name references, name by name.
pub open spec fn name_refs(ns: Seq<Seq<char>>) -> Seq<FieldRefModel> {
    Seq::new(ns.len(), |i: int| FieldRefModel::Name(ns[i]))
}

/// Struct construction values of an incoming arm over a struct-to-struct
/// table: each own (target) field from its paired (source) field.
pub open spec fn named_values_from(pairs: Seq<(Seq<char>, Seq<char>)>) -> Seq<
    (Seq<char>, FieldRefModel),
> {
    Seq::new(pairs.len(), |i: int| (pairs[i].0, FieldRefModel::Name(pairs[i].1)))
}

/// Struct construction values of an outgoing arm over a struct-to-struct
/// table: each paired (target) field from its own (source) field.
pub open spec fn named_values_into(pairs: Seq<(Seq<char>, Seq<char>)>) -> Seq<
    (Seq<char>, FieldRefModel),
> {
    Seq::new(pairs.len(), |i: int| (pairs[i].1, FieldRefModel::Name(pairs[i].0)))
}

/// Struct construction values of an incoming arm over a struct-to-tuple
/// table: each own (target) field from its paired (source) slot.
pub open spec fn pos_values_from(pairs: Seq<(Seq<char>, usize)>) -> Seq<
    (Seq<char>, FieldRefModel),
> {
    Seq::new(pairs.len(), |i: int| (pairs[i].0, FieldRefModel::Pos(pairs[i].1)))
}

/// Struct construction values of an outgoing arm over a tuple-to-struct
/// table: each paired (target) field from its own (source) slot.
pub open spec fn slot_values_into(names: Seq<Seq<char>>) -> Seq<(Seq<char>, FieldRefModel)> {
    Seq::new(names.len(), |i: int| (names[i], FieldRefModel::Pos(i as usize)))
}

/// Names kept in first-occurrence order without repetition; a struct
/// pattern binds each source field once however many target fields it
/// feeds.
pub open spec fn spec_dedup_names(ns: Seq<Seq<char>>, i: int) -> Seq<Seq<char>>
    decreases ns.len() - i,
{
    if i < 0 || i >= ns.len() {
        seq![]
    } else if ns.take(i).contains(ns[i]) {
        spec_dedup_names(ns, i + 1)
    } else {
        seq![ns[i]] + spec_dedup_names(ns, i + 1)
    }
}

/// One more than the largest referenced slot (saturating): the slot count
/// of a tuple pattern or construction whose slots come from annotations.
pub open spec fn spec_tuple_arity(ps: Seq<usize>, i: int) -> usize
    decreases ps.len() - i,
{
    if i < 0 || i >= ps.len() {
        0
    } else {
        let cand: usize = if ps[i] == usize::MAX {
            usize::MAX
        } else {
            (ps[i] + 1) as usize
        };
        let rest = spec_tuple_arity(ps, i + 1);
        if cand >= rest {
            cand
        } else {
            rest
        }
    }
}

/// The first own slot that a tuple-to-tuple table sends to target slot
/// `j`.
pub open spec fn spec_find_source_slot(t: Seq<usize>, j: usize, s: int) -> Option<int>
    decreases t.len() - s,
{
    if s < 0 || s >= t.len() {
        None
    } else if t[s] == j {
        Some(s)
    } else {
        spec_find_source_slot(t, j, s + 1)
    }
}

/// The first own field that a struct-to-tuple table sends to target slot
/// `j`.
pub open spec fn spec_find_pos_pair(ps: Seq<(Seq<char>, usize)>, j: usize, s: int) -> Option<int>
    decreases ps.len() - s,
{
    if s < 0 || s >= ps.len() {
        None
    } else if ps[s].1 == j {
        Some(s)
    } else {
        spec_find_pos_pair(ps, j, s + 1)
    }
}

/// The pattern of an incoming arm destructures the paired (source) side of
/// the table.
pub open spec fn spec_pattern_from(ft: FieldTableModel) -> PatternFieldsModel {
    match ft {
        FieldTableModel::Unit => PatternFieldsModel::Unit,
        FieldTableModel::BothTuple(t) => PatternFieldsModel::Tuple(t.len() as usize),
        FieldTableModel::BothStruct(pairs) => PatternFieldsModel::Struct(
            spec_dedup_names(other_names(pairs), 0),
        ),
        FieldTableModel::OwnTupleOtherStruct(names) => PatternFieldsModel::Struct(
            spec_dedup_names(names, 0),
        ),
        FieldTableModel::OwnStructOtherTuple(pairs) => PatternFieldsModel::Tuple(
            spec_tuple_arity(other_positions(pairs), 0),
        ),
    }
}

/// The construction of an incoming arm builds the own (target) side: slot
/// by slot or field by field, each from the paired field the table names.
pub open spec fn spec_construction_from(ft: FieldTableModel) -> ConstructionFieldsModel {
    match ft {
        FieldTableModel::Unit => ConstructionFieldsModel::Unit,
        FieldTableModel::BothTuple(t) => ConstructionFieldsModel::Tuple(pos_refs(t)),
        FieldTableModel::BothStruct(pairs) => ConstructionFieldsModel::Struct(named_values_from(pairs)),
        FieldTableModel::OwnTupleOtherStruct(names) => ConstructionFieldsModel::Tuple(name_refs(names)),
        FieldTableModel::OwnStructOtherTuple(pairs) => ConstructionFieldsModel::Struct(pos_values_from(pairs)),
    }
}

/// The pattern of an outgoing arm destructures the own (source) side.
pub open spec fn spec_pattern_into(ft: FieldTableModel) -> PatternFieldsModel {
    match ft {
        FieldTableModel::Unit => PatternFieldsModel::Unit,
        FieldTableModel::BothTuple(t) => PatternFieldsModel::Tuple(t.len() as usize),
        FieldTableModel::BothStruct(pairs) => PatternFieldsModel::Struct(own_names(pairs)),
        FieldTableModel::OwnTupleOtherStruct(names) => PatternFieldsModel::Tuple(
            names.len() as usize,
        ),
        FieldTableModel::OwnStructOtherTuple(pairs) => PatternFieldsModel::Struct(own_pos_names(pairs)),
    }
}

/// The construction of an outgoing arm builds the paired (target) side.
/// For a tuple target each slot takes the own field the table sends there
/// (for a valid table, the inverse of the slot map); a slot nothing is
/// sent to falls back to the same-numbered own slot.
pub open spec fn spec_construction_into(ft: FieldTableModel) -> ConstructionFieldsModel {
    match ft {
        FieldTableModel::Unit => ConstructionFieldsModel::Unit,
        FieldTableModel::BothTuple(t) => ConstructionFieldsModel::Tuple(
            Seq::new(
                t.len(),
                |j: int| match spec_find_source_slot(t, j as usize, 0) {
                    Some(s) => FieldRefModel::Pos(s as usize),
                    None => FieldRefModel::Pos(j as usize),
                },
            ),
        ),
        FieldTableModel::BothStruct(pairs) => ConstructionFieldsModel::Struct(named_values_into(pairs)),
        FieldTableModel::OwnTupleOtherStruct(names) => ConstructionFieldsModel::Struct(slot_values_into(names)),
        FieldTableModel::OwnStructOtherTuple(pairs) => ConstructionFieldsModel::Tuple(
            Seq::new(
                spec_tuple_arity(other_positions(pairs), 0) as nat,
                |j: int| match spec_find_pos_pair(pairs, j as usize, 0) {
                    Some(s) => FieldRefModel::Name(pairs[s].0),
                    None => FieldRefModel::Pos(j as usize),
                },
            ),
        ),
    }
}

/// One arm: for an incoming conversion the paired variant is matched and
/// the own variant built, for an outgoing one the reverse.
pub open spec fn spec_arm(
    w: Seq<char>,
    m: VariantMappingModel,
    dir: Direction,
) -> ConversionArmModel {
    match dir {
        Direction::FromSources => ConversionArmModel {
            source_variant: w,
            pattern: spec_pattern_from(m.fields),
            target_variant: m.own_variant,
            construction: spec_construction_from(m.fields),
        },
        Direction::IntoTargets => ConversionArmModel {
            source_variant: m.own_variant,
            pattern: spec_pattern_into(m.fields),
            target_variant: w,
            construction: spec_construction_into(m.fields),
        },
    }
}

pub open spec fn spec_entry_arms(e: MappingEntryModel, dir: Direction) -> Seq<ConversionArmModel> {
    e.mappings.map_values(|m: VariantMappingModel| spec_arm(e.paired_variant, m, dir))
}

pub open spec fn spec_container_arms(
    entries: Seq<MappingEntryModel>,
    dir: Direction,
    i: int,
) -> Seq<ConversionArmModel>
    decreases entries.len() - i,
{
    if i < 0 || i >= entries.len() {
        seq![]
    } else {
        spec_entry_arms(entries[i], dir) + spec_container_arms(entries, dir, i + 1)
    }
}

pub open spec fn spec_impl(
    cm: ContainerMappingModel,
    own: Seq<char>,
    dir: Direction,
) -> ConversionImplModel {
    match dir {
        Direction::FromSources => ConversionImplModel {
            source_enum: cm.container,
            target_enum: own,
            arms: spec_container_arms(cm.entries, dir, 0),
        },
        Direction::IntoTargets => ConversionImplModel {
            source_enum: own,
            target_enum: cm.container,
            arms: spec_container_arms(cm.entries, dir, 0),
        },
    }
}

/// The whole plan set: one implementation per paired union, in table
/// order, arms in table order; a pure function of the validated table, so
/// equal tables always emit equal plans.
pub open spec fn spec_generate(
    table: MappingTableModel,
    own: Seq<char>,
    dir: Direction,
) -> Seq<ConversionImplModel> {
    table.containers.map_values(|cm: ContainerMappingModel| spec_impl(cm, own, dir))
}

} // verus!

verus! {

// ----------------------------------------------------------------------------
// The executable plan builder. Each function returns exactly what its
// specification counterpart describes; building a plan never fails.
// ----------------------------------------------------------------------------

#[verifier::loop_isolation(false)]
fn names_prefix_contains(ns: &Vec<FieldIdent>, upto: usize, x: &FieldIdent) -> (r: bool)
    requires
        upto <= ns@.len(),
    ensures
        r == views_of(ns@).take(upto as int).contains(x@),
{
    let ghost nm = views_of(ns@);
    let mut j: usize = 0;
    while j < upto
        invariant
            j <= upto <= ns@.len(),
            forall|k: int| 0 <= k < j ==> nm[k] != x@,
        decreases upto - j,
    {
        if ns[j].same(x) {
            proof {
                assert(nm.take(upto as int)[j as int] == x@);
            }
            return true;
        }
        j += 1;
    }
    proof {
        assert forall|k: int| 0 <= k < upto implies nm.take(upto as int)[k] != x@ by {
            assert(nm.take(upto as int)[k] == nm[k]);
        }
    }
    false
}

fn dedup_names(ns: &Vec<FieldIdent>, i: usize) -> (r: Vec<FieldIdent>)
    requires
        i <= ns@.len(),
    ensures
        views_of(r@) == spec_dedup_names(views_of(ns@), i as int),
    decreases ns@.len() - i,
{
    let ghost nm = views_of(ns@);
    if i >= ns.len() {
        let out: Vec<FieldIdent> = Vec::new();
        proof {
            assert(views_of(out@) =~= Seq::<Seq<char>>::empty());
        }
        out
    } else if names_prefix_contains(ns, i, &ns[i]) {
        dedup_names(ns, i + 1)
    } else {
        let first = ns[i].duplicate();
        let mut rest = dedup_names(ns, i + 1);
        let ghost restm = views_of(rest@);
        let mut out: Vec<FieldIdent> = Vec::new();
        out.push(first);
        out.append(&mut rest);
        proof {
            assert(views_of(out@) =~= seq![out@[0]@] + restm);
        }
        out
    }
}

#[verifier::loop_isolation(false)]
fn other_names_of(pairs: &Vec<crate::mapping::FieldPair>) -> (r: Vec<FieldIdent>)
    ensures
        views_of(r@) == other_names(views_of(pairs@)),
{
    let ghost goal = other_names(views_of(pairs@));
    let mut out: Vec<FieldIdent> = Vec::new();
    let mut j: usize = 0;
    while j < pairs.len()
        invariant
            j <= pairs@.len(),
            out@.len() == j,
            forall|t: int| 0 <= t < j ==> views_of(out@)[t] == goal[t],
        decreases pairs@.len() - j,
    {
        out.push(pairs[j].other.duplicate());
        j += 1;
    }
    proof {
        assert(views_of(out@) =~= goal);
    }
    out
}

#[verifier::loop_isolation(false)]
fn tuple_arity(ps: &Vec<crate::mapping::FieldPosPair>, i: usize) -> (r: usize)
    requires
        i <= ps@.len(),
    ensures
        r == spec_tuple_arity(other_positions(views_of(ps@)), i as int),
    decreases ps@.len() - i,
{
    let ghost pm = other_positions(views_of(ps@));
    if i >= ps.len() {
        0
    } else {
        let cand: usize = if ps[i].other == usize::MAX {
            usize::MAX
        } else {
            ps[i].other + 1
        };
        let rest = tuple_arity(ps, i + 1);
        proof {
            assert(pm[i as int] == ps@[i as int]@.1);
        }
        if cand >= rest {
            cand
        } else {
            rest
        }
    }
}

#[verifier::loop_isolation(false)]
fn find_source_slot(t: &Vec<usize>, j: usize, s: usize) -> (r: Option<usize>)
    ensures
        (match r {
            Some(k) => k < t@.len() && spec_find_source_slot(t@, j, s as int) == Some(k as int),
            None => spec_find_source_slot(t@, j, s as int) is None,
        }),
    decreases t@.len() - s,
{
    if s >= t.len() {
        None
    } else if t[s] == j {
        Some(s)
    } else {
        find_source_slot(t, j, s + 1)
    }
}

#[verifier::loop_isolation(false)]
fn find_pos_pair(ps: &Vec<crate::mapping::FieldPosPair>, j: usize, s: usize) -> (r: Option<usize>)
    ensures
        (match r {
            Some(k) => k < ps@.len() && spec_find_pos_pair(views_of(ps@), j, s as int) == Some(
                k as int,
            ),
            None => spec_find_pos_pair(views_of(ps@), j, s as int) is None,
        }),
    decreases ps@.len() - s,
{
    let ghost pm = views_of(ps@);
    if s >= ps.len() {
        None
    } else {
        proof {
            assert(pm[s as int] == ps@[s as int]@);
        }
        if ps[s].other == j {
            Some(s)
        } else {
            find_pos_pair(ps, j, s + 1)
        }
    }
}

fn pattern_from(ft: &FieldTable) -> (r: PatternFields)
    ensures
        r@ == spec_pattern_from(ft@),
{
    match ft {
        FieldTable::Unit => PatternFields::Unit,
        FieldTable::BothTuple { positions } => PatternFields::Tuple { arity: positions.len() },
        FieldTable::BothStruct { names } => {
            let others = other_names_of(names);
            PatternFields::Struct { fields: dedup_names(&others, 0) }
        },
        FieldTable::OwnTupleOtherStruct { names } => PatternFields::Struct {
            fields: dedup_names(names, 0),
        },
        FieldTable::OwnStructOtherTuple { positions } => PatternFields::Tuple {
            arity: tuple_arity(positions, 0),
        },
    }
}

#[verifier::loop_isolation(false)]
fn construction_from(ft: &FieldTable) -> (r: ConstructionFields)
    ensures
        r@ == spec_construction_from(ft@),
{
    match ft {
        FieldTable::Unit => ConstructionFields::Unit,
        FieldTable::BothTuple { positions } => {
            let ghost goal = pos_refs(positions@);
            let mut values: Vec<FieldRef> = Vec::new();
            let mut j: usize = 0;
            while j < positions.len()
                invariant
                    j <= positions@.len(),
                    values@.len() == j,
                    forall|t: int| 0 <= t < j ==> views_of(values@)[t] == goal[t],
                decreases positions@.len() - j,
            {
                values.push(FieldRef::FieldPos(positions[j]));
                j += 1;
            }
            proof {
                assert(views_of(values@) =~= goal);
            }
            ConstructionFields::Tuple { values }
        },
        FieldTable::BothStruct { names } => {
            let ghost goal = named_values_from(views_of(names@));
            let mut values: Vec<FieldValue> = Vec::new();
            let mut j: usize = 0;
            while j < names.len()
                invariant
                    j <= names@.len(),
                    values@.len() == j,
                    forall|t: int| 0 <= t < j ==> views_of(values@)[t] == goal[t],
                decreases names@.len() - j,
            {
                values.push(
                    FieldValue {
                        field: names[j].own.duplicate(),
                        value: FieldRef::FieldIdent(names[j].other.duplicate()),
                    },
                );
                j += 1;
            }
            proof {
                assert(views_of(values@) =~= goal);
            }
            ConstructionFields::Struct { values }
        },
        FieldTable::OwnTupleOtherStruct { names } => {
            let ghost goal = name_refs(views_of(names@));
            let mut values: Vec<FieldRef> = Vec::new();
            let mut j: usize = 0;
            while j < names.len()
                invariant
                    j <= names@.len(),
                    values@.len() == j,
                    forall|t: int| 0 <= t < j ==> views_of(values@)[t] == goal[t],
                decreases names@.len() - j,
            {
                values.push(FieldRef::FieldIdent(names[j].duplicate()));
                j += 1;
            }
            proof {
                assert(views_of(values@) =~= goal);
            }
            ConstructionFields::Tuple { values }
        },
        FieldTable::OwnStructOtherTuple { positions } => {
            let ghost goal = pos_values_from(views_of(positions@));
            let mut values: Vec<FieldValue> = Vec::new();
            let mut j: usize = 0;
            while j < positions.len()
                invariant
                    j <= positions@.len(),
                    values@.len() == j,
                    forall|t: int| 0 <= t < j ==> views_of(values@)[t] == goal[t],
                decreases positions@.len() - j,
            {
                values.push(
                    FieldValue {
                        field: positions[j].own.duplicate(),
                        value: FieldRef::FieldPos(positions[j].other),
                    },
                );
                j += 1;
            }
            proof {
                assert(views_of(values@) =~= goal);
            }
            ConstructionFields::Struct { values }
        },
    }
}

fn pattern_into(ft: &FieldTable) -> (r: PatternFields)
    ensures
        r@ == spec_pattern_into(ft@),
{
    match ft {
        FieldTable::Unit => PatternFields::Unit,
        FieldTable::BothTuple { positions } => PatternFields::Tuple { arity: positions.len() },
        FieldTable::BothStruct { names } => {
            let ghost goal = own_names(views_of(names@));
            let mut fields: Vec<FieldIdent> = Vec::new();
            let mut j: usize = 0;
            #[verifier::loop_isolation(false)]
            while j < names.len()
                invariant
                    j <= names@.len(),
                    fields@.len() == j,
                    forall|t: int| 0 <= t < j ==> views_of(fields@)[t] == goal[t],
                decreases names@.len() - j,
            {
                fields.push(names[j].own.duplicate());
                j += 1;
            }
            proof {
                assert(views_of(fields@) =~= goal);
            }
            PatternFields::Struct { fields }
        },
        FieldTable::OwnTupleOtherStruct { names } => PatternFields::Tuple {
            arity: names.len(),
        },
        FieldTable::OwnStructOtherTuple { positions } => {
            let ghost goal = own_pos_names(views_of(positions@));
            let mut fields: Vec<FieldIdent> = Vec::new();
            let mut j: usize = 0;
            #[verifier::loop_isolation(false)]
            while j < positions.len()
                invariant
                    j <= positions@.len(),
                    fields@.len() == j,
                    forall|t: int| 0 <= t < j ==> views_of(fields@)[t] == goal[t],
                decreases positions@.len() - j,
            {
                fields.push(positions[j].own.duplicate());
                j += 1;
            }
            proof {
                assert(views_of(fields@) =~= goal);
            }
            PatternFields::Struct { fields }
        },
    }
}

#[verifier::loop_isolation(false)]
fn construction_into(ft: &FieldTable) -> (r: ConstructionFields)
    ensures
        r@ == spec_construction_into(ft@),
{
    match ft {
        FieldTable::Unit => ConstructionFields::Unit,
        FieldTable::BothTuple { positions } => {
            let ghost goal = spec_construction_into(ft@);
            let ghost goalvals = (match goal {
                ConstructionFieldsModel::Tuple(vs) => vs,
                _ => Seq::empty(),
            });
            let mut values: Vec<FieldRef> = Vec::new();
            let mut j: usize = 0;
            while j < positions.len()
                invariant
                    j <= positions@.len(),
                    values@.len() == j,
                    goalvals.len() == positions@.len(),
                    forall|t: int| 0 <= t < j ==> views_of(values@)[t] == goalvals[t],
                decreases positions@.len() - j,
            {
                let v: FieldRef = match find_source_slot(positions, j, 0) {
                    Some(s) => FieldRef::FieldPos(s),
                    None => FieldRef::FieldPos(j),
                };
                values.push(v);
                j += 1;
            }
            proof {
                assert(views_of(values@) =~= goalvals);
            }
            ConstructionFields::Tuple { values }
        },
        FieldTable::BothStruct { names } => {
            let ghost goal = named_values_into(views_of(names@));
            let mut values: Vec<FieldValue> = Vec::new();
            let mut j: usize = 0;
            while j < names.len()
                invariant
                    j <= names@.len(),
                    values@.len() == j,
                    forall|t: int| 0 <= t < j ==> views_of(values@)[t] == goal[t],
                decreases names@.len() - j,
            {
                values.push(
                    FieldValue {
                        field: names[j].other.duplicate(),
                        value: FieldRef::FieldIdent(names[j].own.duplicate()),
                    },
                );
                j += 1;
            }
            proof {
                assert(views_of(values@) =~= goal);
            }
            ConstructionFields::Struct { values }
        },
        FieldTable::OwnTupleOtherStruct { names } => {
            let ghost goal = slot_values_into(views_of(names@));
            let mut values: Vec<FieldValue> = Vec::new();
            let mut j: usize = 0;
            while j < names.len()
                invariant
                    j <= names@.len(),
                    values@.len() == j,
                    forall|t: int| 0 <= t < j ==> views_of(values@)[t] == goal[t],
                decreases names@.len() - j,
            {
                values.push(
                    FieldValue { field: names[j].duplicate(), value: FieldRef::FieldPos(j) },
                );
                j += 1;
            }
            proof {
                assert(views_of(values@) =~= goal);
            }
            ConstructionFields::Struct { values }
        },
        FieldTable::OwnStructOtherTuple { positions } => {
            let ghost goal = spec_construction_into(ft@);
            let ghost goalvals = (match goal {
                ConstructionFieldsModel::Tuple(vs) => vs,
                _ => Seq::empty(),
            });
            let arity = tuple_arity(positions, 0);
            let mut values: Vec<FieldRef> = Vec::new();
            let mut j: usize = 0;
            while j < arity
                invariant
                    j <= arity,
                    arity == spec_tuple_arity(other_positions(views_of(positions@)), 0),
                    values@.len() == j,
                    goalvals.len() == arity,
                    forall|t: int| 0 <= t < j ==> views_of(values@)[t] == goalvals[t],
                decreases arity - j,
            {
                let v: FieldRef = match find_pos_pair(positions, j, 0) {
                    Some(s) => FieldRef::FieldIdent(positions[s].own.duplicate()),
                    None => FieldRef::FieldPos(j),
                };
                values.push(v);
                j += 1;
            }
            proof {
                assert(views_of(values@) =~= goalvals);
            }
            ConstructionFields::Tuple { values }
        },
    }
}

fn build_arm(w: &VariantIdent, m: &VariantMapping, dir: Direction) -> (r: ConversionArm)
    ensures
        r@ == spec_arm(w@, m@, dir),
{
    match dir {
        Direction::FromSources => ConversionArm {
            source_variant: w.duplicate(),
            pattern: pattern_from(&m.fields),
            target_variant: m.own_variant.duplicate(),
            construction: construction_from(&m.fields),
        },
        Direction::IntoTargets => ConversionArm {
            source_variant: m.own_variant.duplicate(),
            pattern: pattern_into(&m.fields),
            target_variant: w.duplicate(),
            construction: construction_into(&m.fields),
        },
    }
}

#[verifier::loop_isolation(false)]
fn entry_arms(e: &MappingEntry, dir: Direction) -> (r: Vec<ConversionArm>)
    ensures
        views_of(r@) == spec_entry_arms(e@, dir),
{
    let ghost goal = spec_entry_arms(e@, dir);
    let mut out: Vec<ConversionArm> = Vec::new();
    let mut j: usize = 0;
    while j < e.mappings.len()
        invariant
            j <= e.mappings@.len(),
            out@.len() == j,
            forall|t: int| 0 <= t < j ==> views_of(out@)[t] == goal[t],
        decreases e.mappings@.len() - j,
    {
        out.push(build_arm(&e.paired_variant, &e.mappings[j], dir));
        j += 1;
    }
    proof {
        assert(views_of(out@) =~= goal);
    }
    out
}

fn container_arms(entries: &Vec<MappingEntry>, dir: Direction, i: usize) -> (r: Vec<
    ConversionArm,
>)
    ensures
        views_of(r@) == spec_container_arms(views_of(entries@), dir, i as int),
    decreases entries@.len() - i,
{
    let ghost em = views_of(entries@);
    if i >= entries.len() {
        let out: Vec<ConversionArm> = Vec::new();
        proof {
            assert(views_of(out@) =~= Seq::<ConversionArmModel>::empty());
        }
        out
    } else {
        proof {
            assert(em[i as int] == entries@[i as int]@);
        }
        let mut first = entry_arms(&entries[i], dir);
        let ghost firstm = views_of(first@);
        let mut rest = container_arms(entries, dir, i + 1);
        let ghost restm = views_of(rest@);
        first.append(&mut rest);
        proof {
            assert(views_of(first@) =~= firstm + restm);
        }
        first
    }
}

fn build_impl(cmap: &ContainerMapping, own: &ContainerIdent, dir: Direction) -> (r:
    ConversionImpl)
    ensures
        r@ == spec_impl(cmap@, own@, dir),
{
    let arms = container_arms(&cmap.entries, dir, 0);
    match dir {
        Direction::FromSources => ConversionImpl {
            source_enum: cmap.container.duplicate(),
            target_enum: own.duplicate(),
            arms,
        },
        Direction::IntoTargets => ConversionImpl {
            source_enum: own.duplicate(),
            target_enum: cmap.container.duplicate(),
            arms,
        },
    }
}

/// Build the whole plan set from a validated table: one conversion per
/// paired union, in table order.
#[verifier::loop_isolation(false)]
pub(crate) fn generate_impls(table: &MappingTable, own: &ContainerIdent, dir: Direction) -> (r:
    Vec<ConversionImpl>)
    ensures
        views_of(r@) == spec_generate(table@, own@, dir),
{
    let ghost goal = spec_generate(table@, own@, dir);
    let mut out: Vec<ConversionImpl> = Vec::new();
    let mut j: usize = 0;
    while j < table.containers.len()
        invariant
            j <= table.containers@.len(),
            out@.len() == j,
            goal.len() == table.containers@.len(),
            forall|t: int| 0 <= t < j ==> views_of(out@)[t] == goal[t],
        decreases table.containers@.len() - j,
    {
        out.push(build_impl(&table.containers[j], own, dir));
        j += 1;
    }
    proof {
        assert(views_of(out@) =~= goal);
    }
    out
}

} // verus!
