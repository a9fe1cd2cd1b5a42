//! Mapping resolution: from parsed annotations (plus, for incoming
//! conversions, the paired source unions' variant lists) to a validated
//! `MappingTable`, or the first diagnostic in declaration order.
//!
//! The algorithm, per variant of the annotated union and in declaration
//! order:
//!
//! 1. Determine the claimed pairings. Each variant-level annotation claims
//!    one: a bare marker claims the sole declared paired union (an error
//!    when several are declared), a bare container name claims the
//!    same-named variant of that union, and `Container::Variant` is fully
//!    explicit. A variant with no annotation at all claims the default
//!    pairing when exactly one paired union is declared (for incoming
//!    conversions only if the same-named source variant exists), and
//!    nothing otherwise.
//! 2. For each claimed pairing: the container must be declared; for
//!    incoming conversions the paired variant must exist; the field
//!    annotations scoped to the pairing are collected (at most one per own
//!    field) and the field table is built by shape, defaulting to identity
//!    where a same-shape pairing leaves fields unannotated and requiring
//!    totality on cross-shape pairings.
//! 3. Any remaining field annotation whose pairing no claim covers is an
//!    error.
//!
//! An incoming conversion keeps at most one mapping per paired variant (a
//! later claim replaces an earlier one); an outgoing conversion may
//! accumulate several mappings under one paired variant, one per claiming
//! own variant.

use vstd::prelude::*;

use crate::views::views_of;

use crate::annot::ContainerAnnotation;
use crate::annot::ContainerAnnotationModel;
use crate::annot::FieldAnnotation;
use crate::annot::FieldAnnotationModel;
use crate::annot::FieldAnnotationsModel;
use crate::annot::NamedFieldAnnotationsModel;
use crate::annot::ParsedFields;
use crate::annot::ParsedFieldsModel;
use crate::annot::ParsedVariant;
use crate::annot::ParsedVariantModel;
use crate::annot::VariantAnnotation;
use crate::annot::VariantAnnotationModel;
use crate::decl::SourceEnumDecl;
use crate::decl::SourceEnumDeclModel;
use crate::diag::Diag;
use crate::diag::DiagKind;
use crate::diag::DiagKindModel;
use crate::diag::DiagModel;
use crate::idents::ContainerIdent;
use crate::idents::FieldIdent;
use crate::idents::FieldRef;
use crate::idents::FieldRefModel;
use crate::idents::Span;
use crate::idents::VariantIdent;
use crate::mapping::ContainerMapping;
use crate::mapping::ContainerMappingModel;
use crate::mapping::FieldTableModel;
use crate::mapping::MappingEntryModel;
use crate::mapping::MappingTable;
use crate::mapping::MappingTableModel;
use crate::mapping::VariantMappingModel;

verus! {

broadcast use crate::views::group_views;

/// Which of the two symmetric engines is resolving: incoming conversions
/// (the annotated union is the target, the paired unions are sources) or
/// outgoing ones (the annotated union is the source).
#[derive(Debug, Clone, Copy, PartialEq, Eq, Structural)]
pub enum Direction {
    FromSources,
    IntoTargets,
}

/// One field annotation selected for a pairing, remembered together with
/// the own field it sits on.
pub struct ExtractedModel {
    pub own: FieldRefModel,
    pub own_span: Span,
    pub ann: FieldAnnotationModel,
}

// ----------------------------------------------------------------------------
// Declared paired unions.
// ----------------------------------------------------------------------------

pub open spec fn contains_container(cs: Seq<ContainerAnnotationModel>, name: Seq<char>) -> bool {
    exists|k: int| 0 <= k < cs.len() && cs[k].ident == name
}

/// The declared paired unions with repeated names collapsed, first
/// occurrence kept.
pub open spec fn spec_dedup_containers(cs: Seq<ContainerAnnotationModel>, i: int) -> Seq<
    ContainerAnnotationModel,
>
    decreases cs.len() - i,
{
    if i < 0 || i >= cs.len() {
        seq![]
    } else if contains_container(cs.take(i), cs[i].ident) {
        spec_dedup_containers(cs, i + 1)
    } else {
        seq![cs[i]] + spec_dedup_containers(cs, i + 1)
    }
}

// ----------------------------------------------------------------------------
// The source environment (incoming conversions only).
// ----------------------------------------------------------------------------

pub open spec fn spec_env_lookup(env: Seq<SourceEnumDeclModel>, c: Seq<char>, i: int) -> Option<
    Seq<Seq<char>>,
>
    decreases env.len() - i,
{
    if i < 0 || i >= env.len() {
        None
    } else if env[i].ident == c {
        Some(env[i].variants)
    } else {
        spec_env_lookup(env, c, i + 1)
    }
}

pub open spec fn spec_env_has_variant(
    env: Seq<SourceEnumDeclModel>,
    c: Seq<char>,
    w: Seq<char>,
) -> bool {
    match spec_env_lookup(env, c, 0) {
        Some(vs) => vs.contains(w),
        None => false,
    }
}

/// The first declared paired union that the environment does not supply,
/// blamed at its declaring annotation.
pub open spec fn spec_env_missing(
    conts: Seq<ContainerAnnotationModel>,
    env: Seq<SourceEnumDeclModel>,
    i: int,
) -> Option<DiagModel>
    decreases conts.len() - i,
{
    if i < 0 || i >= conts.len() {
        None
    } else if spec_env_lookup(env, conts[i].ident, 0) is None {
        Some(
            DiagModel {
                span: conts[i].span,
                kind: DiagKindModel::UnknownContainer { container: conts[i].ident },
            },
        )
    } else {
        spec_env_missing(conts, env, i + 1)
    }
}

// ----------------------------------------------------------------------------
// The empty table.
// ----------------------------------------------------------------------------

pub open spec fn spec_init_table(conts: Seq<ContainerAnnotationModel>) -> MappingTableModel {
    MappingTableModel {
        containers: conts.map_values(
            |c: ContainerAnnotationModel| ContainerMappingModel {
                container: c.ident,
                entries: seq![],
            },
        ),
    }
}

// ----------------------------------------------------------------------------
// Collecting the field annotations of one pairing.
// ----------------------------------------------------------------------------

/// The annotations among `anns` that reference the pairing `(c, w)`.
pub open spec fn spec_matching(
    anns: Seq<FieldAnnotationModel>,
    c: Seq<char>,
    w: Seq<char>,
    i: int,
) -> Seq<FieldAnnotationModel>
    decreases anns.len() - i,
{
    if i < 0 || i >= anns.len() {
        seq![]
    } else if anns[i].enum_ident == c && anns[i].variant_ident == w {
        seq![anns[i]] + spec_matching(anns, c, w, i + 1)
    } else {
        spec_matching(anns, c, w, i + 1)
    }
}

pub open spec fn spec_collect_tuple(
    fs: Seq<FieldAnnotationsModel>,
    c: Seq<char>,
    w: Seq<char>,
    i: int,
) -> Result<Seq<ExtractedModel>, DiagModel>
    decreases fs.len() - i,
{
    if i < 0 || i >= fs.len() {
        Ok(seq![])
    } else {
        let m = spec_matching(fs[i].fields_annotations, c, w, 0);
        if m.len() >= 2 {
            Err(
                DiagModel {
                    span: fs[i].field_span,
                    kind: DiagKindModel::DuplicateFieldMapping { container: c },
                },
            )
        } else {
            match spec_collect_tuple(fs, c, w, i + 1) {
                Err(e) => Err(e),
                Ok(rest) => {
                    if m.len() == 1 {
                        Ok(
                            seq![
                                ExtractedModel {
                                    own: FieldRefModel::Pos(i as usize),
                                    own_span: fs[i].field_span,
                                    ann: m[0],
                                },
                            ] + rest,
                        )
                    } else {
                        Ok(rest)
                    }
                },
            }
        }
    }
}

pub open spec fn spec_collect_struct(
    fs: Seq<NamedFieldAnnotationsModel>,
    c: Seq<char>,
    w: Seq<char>,
    i: int,
) -> Result<Seq<ExtractedModel>, DiagModel>
    decreases fs.len() - i,
{
    if i < 0 || i >= fs.len() {
        Ok(seq![])
    } else {
        let m = spec_matching(fs[i].annotations.fields_annotations, c, w, 0);
        if m.len() >= 2 {
            Err(
                DiagModel {
                    span: fs[i].annotations.field_span,
                    kind: DiagKindModel::DuplicateFieldMapping { container: c },
                },
            )
        } else {
            match spec_collect_struct(fs, c, w, i + 1) {
                Err(e) => Err(e),
                Ok(rest) => {
                    if m.len() == 1 {
                        Ok(
                            seq![
                                ExtractedModel {
                                    own: FieldRefModel::Name(fs[i].ident),
                                    own_span: fs[i].annotations.field_span,
                                    ann: m[0],
                                },
                            ] + rest,
                        )
                    } else {
                        Ok(rest)
                    }
                },
            }
        }
    }
}

pub open spec fn spec_collect(
    fields: ParsedFieldsModel,
    c: Seq<char>,
    w: Seq<char>,
) -> Result<Seq<ExtractedModel>, DiagModel> {
    match fields {
        ParsedFieldsModel::Unit => Ok(seq![]),
        ParsedFieldsModel::Tuple(fs) => spec_collect_tuple(fs, c, w, 0),
        ParsedFieldsModel::Struct(fs) => spec_collect_struct(fs, c, w, 0),
    }
}

// ----------------------------------------------------------------------------
// Building the field table of one pairing.
// ----------------------------------------------------------------------------

/// The annotation selected for the own field `r`, if any.
pub open spec fn spec_find_own(
    ex: Seq<ExtractedModel>,
    r: FieldRefModel,
    i: int,
) -> Option<FieldAnnotationModel>
    decreases ex.len() - i,
{
    if i < 0 || i >= ex.len() {
        None
    } else if ex[i].own == r {
        Some(ex[i].ann)
    } else {
        spec_find_own(ex, r, i + 1)
    }
}

/// The first selected annotation whose paired field is a name, as an
/// inconsistency diagnostic.
pub open spec fn spec_find_named_ann(ex: Seq<ExtractedModel>, i: int) -> Option<DiagModel>
    decreases ex.len() - i,
{
    if i < 0 || i >= ex.len() {
        None
    } else if ex[i].ann.field is Name {
        Some(
            DiagModel {
                span: ex[i].ann.field_span,
                kind: DiagKindModel::InconsistentFieldMapping,
            },
        )
    } else {
        spec_find_named_ann(ex, i + 1)
    }
}

/// The first selected annotation whose paired field is a position, as an
/// inconsistency diagnostic.
pub open spec fn spec_find_pos_ann(ex: Seq<ExtractedModel>, i: int) -> Option<DiagModel>
    decreases ex.len() - i,
{
    if i < 0 || i >= ex.len() {
        None
    } else if ex[i].ann.field is Pos {
        Some(
            DiagModel {
                span: ex[i].ann.field_span,
                kind: DiagKindModel::InconsistentFieldMapping,
            },
        )
    } else {
        spec_find_pos_ann(ex, i + 1)
    }
}

/// The first own tuple slot a cross-shape pairing leaves unannotated.
pub open spec fn spec_missing_tuple(
    fs: Seq<FieldAnnotationsModel>,
    ex: Seq<ExtractedModel>,
    c: Seq<char>,
    w: Seq<char>,
    j: int,
) -> Option<DiagModel>
    decreases fs.len() - j,
{
    if j < 0 || j >= fs.len() {
        None
    } else if spec_find_own(ex, FieldRefModel::Pos(j as usize), 0) is None {
        Some(
            DiagModel {
                span: fs[j].field_span,
                kind: DiagKindModel::MissingFieldAnnotation {
                    container: c,
                    variant: w,
                    field: FieldRefModel::Pos(j as usize),
                },
            },
        )
    } else {
        spec_missing_tuple(fs, ex, c, w, j + 1)
    }
}

/// The first own named field a cross-shape pairing leaves unannotated.
pub open spec fn spec_missing_struct(
    fs: Seq<NamedFieldAnnotationsModel>,
    ex: Seq<ExtractedModel>,
    c: Seq<char>,
    w: Seq<char>,
    j: int,
) -> Option<DiagModel>
    decreases fs.len() - j,
{
    if j < 0 || j >= fs.len() {
        None
    } else if spec_find_own(ex, FieldRefModel::Name(fs[j].ident), 0) is None {
        Some(
            DiagModel {
                span: fs[j].annotations.field_span,
                kind: DiagKindModel::MissingFieldAnnotation {
                    container: c,
                    variant: w,
                    field: FieldRefModel::Name(fs[j].ident),
                },
            },
        )
    } else {
        spec_missing_struct(fs, ex, c, w, j + 1)
    }
}

/// Tuple-to-tuple table: annotated slots as written, the rest identity.
pub open spec fn spec_both_tuple(ex: Seq<ExtractedModel>, n: int) -> Seq<usize> {
    Seq::new(
        n as nat,
        |j: int| match spec_find_own(ex, FieldRefModel::Pos(j as usize), 0) {
            Some(a) => match a.field {
                FieldRefModel::Pos(q) => q,
                FieldRefModel::Name(_) => j as usize,
            },
            None => j as usize,
        },
    )
}

/// Struct-to-struct table: annotated fields as written, the rest identity
/// by name.
pub open spec fn spec_both_struct(
    fs: Seq<NamedFieldAnnotationsModel>,
    ex: Seq<ExtractedModel>,
) -> Seq<(Seq<char>, Seq<char>)> {
    Seq::new(
        fs.len(),
        |j: int| (
            fs[j].ident,
            match spec_find_own(ex, FieldRefModel::Name(fs[j].ident), 0) {
                Some(a) => match a.field {
                    FieldRefModel::Name(o) => o,
                    FieldRefModel::Pos(_) => fs[j].ident,
                },
                None => fs[j].ident,
            },
        ),
    )
}

/// Cross-shape table for an own tuple variant: every slot's annotated
/// paired field name (totality is checked before this is built).
pub open spec fn spec_own_tuple_other_struct(ex: Seq<ExtractedModel>, n: int) -> Seq<Seq<char>> {
    Seq::new(
        n as nat,
        |j: int| match spec_find_own(ex, FieldRefModel::Pos(j as usize), 0) {
            Some(a) => match a.field {
                FieldRefModel::Name(o) => o,
                FieldRefModel::Pos(_) => seq![],
            },
            None => seq![],
        },
    )
}

/// Cross-shape table for an own struct variant: every field's annotated
/// paired position (totality is checked before this is built).
pub open spec fn spec_own_struct_other_tuple(
    fs: Seq<NamedFieldAnnotationsModel>,
    ex: Seq<ExtractedModel>,
) -> Seq<(Seq<char>, usize)> {
    Seq::new(
        fs.len(),
        |j: int| (
            fs[j].ident,
            match spec_find_own(ex, FieldRefModel::Name(fs[j].ident), 0) {
                Some(a) => match a.field {
                    FieldRefModel::Pos(q) => q,
                    FieldRefModel::Name(_) => 0usize,
                },
                None => 0usize,
            },
        ),
    )
}

/// The field table of one pairing. The own shape is the annotated
/// variant's; whether the pairing is cross-shape is decided by the first
/// selected annotation's paired-field kind, a later annotation of the
/// other kind being an inconsistency.
pub open spec fn spec_build_table(
    fields: ParsedFieldsModel,
    ex: Seq<ExtractedModel>,
    c: Seq<char>,
    w: Seq<char>,
) -> Result<FieldTableModel, DiagModel> {
    match fields {
        ParsedFieldsModel::Unit => Ok(FieldTableModel::Unit),
        ParsedFieldsModel::Tuple(fs) => {
            if ex.len() == 0 || ex[0].ann.field is Pos {
                match spec_find_named_ann(ex, 0) {
                    Some(d) => Err(d),
                    None => Ok(FieldTableModel::BothTuple(spec_both_tuple(ex, fs.len() as int))),
                }
            } else {
                match spec_find_pos_ann(ex, 0) {
                    Some(d) => Err(d),
                    None => match spec_missing_tuple(fs, ex, c, w, 0) {
                        Some(d) => Err(d),
                        None => Ok(
                            FieldTableModel::OwnTupleOtherStruct(
                                spec_own_tuple_other_struct(ex, fs.len() as int),
                            ),
                        ),
                    },
                }
            }
        },
        ParsedFieldsModel::Struct(fs) => {
            if ex.len() == 0 || ex[0].ann.field is Name {
                match spec_find_pos_ann(ex, 0) {
                    Some(d) => Err(d),
                    None => Ok(FieldTableModel::BothStruct(spec_both_struct(fs, ex))),
                }
            } else {
                match spec_find_named_ann(ex, 0) {
                    Some(d) => Err(d),
                    None => match spec_missing_struct(fs, ex, c, w, 0) {
                        Some(d) => Err(d),
                        None => Ok(
                            FieldTableModel::OwnStructOtherTuple(
                                spec_own_struct_other_tuple(fs, ex),
                            ),
                        ),
                    },
                }
            }
        },
    }
}

} // verus!

verus! {

// ----------------------------------------------------------------------------
// Inserting one mapping into the table.
// ----------------------------------------------------------------------------

pub open spec fn spec_find_entry(entries: Seq<MappingEntryModel>, w: Seq<char>, i: int) -> Option<
    int,
>
    decreases entries.len() - i,
{
    if i < 0 || i >= entries.len() {
        None
    } else if entries[i].paired_variant == w {
        Some(i)
    } else {
        spec_find_entry(entries, w, i + 1)
    }
}

/// Insert under the paired variant `w`: an incoming conversion keeps one
/// mapping per paired variant (the new one replaces), an outgoing one
/// accumulates; a paired variant not seen before is appended in discovery
/// order.
pub open spec fn spec_insert_entries(
    entries: Seq<MappingEntryModel>,
    w: Seq<char>,
    m: VariantMappingModel,
    dir: Direction,
) -> Seq<MappingEntryModel> {
    match spec_find_entry(entries, w, 0) {
        Some(k) => entries.update(
            k,
            MappingEntryModel {
                paired_variant: w,
                mappings: if dir is FromSources {
                    seq![m]
                } else {
                    entries[k].mappings.push(m)
                },
            },
        ),
        None => entries.push(MappingEntryModel { paired_variant: w, mappings: seq![m] }),
    }
}

pub open spec fn spec_find_container(
    containers: Seq<ContainerMappingModel>,
    c: Seq<char>,
    i: int,
) -> Option<int>
    decreases containers.len() - i,
{
    if i < 0 || i >= containers.len() {
        None
    } else if containers[i].container == c {
        Some(i)
    } else {
        spec_find_container(containers, c, i + 1)
    }
}

pub open spec fn spec_insert(
    table: MappingTableModel,
    c: Seq<char>,
    w: Seq<char>,
    m: VariantMappingModel,
    dir: Direction,
) -> MappingTableModel {
    match spec_find_container(table.containers, c, 0) {
        Some(k) => MappingTableModel {
            containers: table.containers.update(
                k,
                ContainerMappingModel {
                    container: table.containers[k].container,
                    entries: spec_insert_entries(table.containers[k].entries, w, m, dir),
                },
            ),
        },
        None => table,
    }
}

// ----------------------------------------------------------------------------
// Claimed pairings of one variant.
// ----------------------------------------------------------------------------

/// The pairing one variant-level annotation claims: `None` for a bare
/// marker while several paired unions are declared (an error elsewhere).
pub open spec fn spec_pairing_of_ann(
    a: VariantAnnotationModel,
    vname: Seq<char>,
    conts: Seq<ContainerAnnotationModel>,
    single: bool,
) -> Option<(Seq<char>, Seq<char>)> {
    match a {
        VariantAnnotationModel::Nothing { span } => {
            if single {
                Some((conts[0].ident, vname))
            } else {
                None
            }
        },
        VariantAnnotationModel::EnumOnly { span, enum_ident } => Some((enum_ident, vname)),
        VariantAnnotationModel::EnumVariant { span, enum_ident, variant_ident } => Some(
            (enum_ident, variant_ident),
        ),
    }
}

/// Whether the default pairing applies to a variant that carries no
/// annotation: exactly one paired union is declared and, for an incoming
/// conversion, the same-named source variant exists.
pub open spec fn spec_default_applies(
    v: ParsedVariantModel,
    conts: Seq<ContainerAnnotationModel>,
    single: bool,
    env: Option<Seq<SourceEnumDeclModel>>,
    dir: Direction,
) -> bool {
    &&& v.annotations.variant_annotations.len() == 0
    &&& single
    &&& match env {
        Some(e) => spec_env_has_variant(e, conts[0].ident, v.ident),
        None => true,
    }
}

/// Whether the variant claims the pairing `(c, w)`, explicitly or through
/// the default.
pub open spec fn spec_variant_claims(
    v: ParsedVariantModel,
    conts: Seq<ContainerAnnotationModel>,
    single: bool,
    env: Option<Seq<SourceEnumDeclModel>>,
    dir: Direction,
    c: Seq<char>,
    w: Seq<char>,
) -> bool {
    ||| exists|k: int|
        0 <= k < v.annotations.variant_annotations.len()
            && spec_pairing_of_ann(
            v.annotations.variant_annotations[k],
            v.ident,
            conts,
            single,
        ) == Some((c, w))
    ||| (spec_default_applies(v, conts, single, env, dir) && c == conts[0].ident && w == v.ident)
}

// ----------------------------------------------------------------------------
// Leftover field annotations.
// ----------------------------------------------------------------------------

/// The first field annotation in `anns` whose pairing the variant does not
/// claim: referencing an undeclared union is blamed at the annotation's
/// container component, an unclaimed pairing of a declared union at its
/// variant component.
pub open spec fn spec_unused_in_list(
    anns: Seq<FieldAnnotationModel>,
    v: ParsedVariantModel,
    conts: Seq<ContainerAnnotationModel>,
    single: bool,
    env: Option<Seq<SourceEnumDeclModel>>,
    dir: Direction,
    i: int,
) -> Option<DiagModel>
    decreases anns.len() - i,
{
    if i < 0 || i >= anns.len() {
        None
    } else if !spec_variant_claims(
        v,
        conts,
        single,
        env,
        dir,
        anns[i].enum_ident,
        anns[i].variant_ident,
    ) {
        if contains_container(conts, anns[i].enum_ident) {
            Some(
                DiagModel {
                    span: anns[i].variant_span,
                    kind: DiagKindModel::UnusedFieldAnnotation {
                        container: anns[i].enum_ident,
                        variant: anns[i].variant_ident,
                    },
                },
            )
        } else {
            Some(
                DiagModel {
                    span: anns[i].enum_span,
                    kind: DiagKindModel::UnknownContainer { container: anns[i].enum_ident },
                },
            )
        }
    } else {
        spec_unused_in_list(anns, v, conts, single, env, dir, i + 1)
    }
}

pub open spec fn spec_unused_tuple(
    fs: Seq<FieldAnnotationsModel>,
    v: ParsedVariantModel,
    conts: Seq<ContainerAnnotationModel>,
    single: bool,
    env: Option<Seq<SourceEnumDeclModel>>,
    dir: Direction,
    i: int,
) -> Option<DiagModel>
    decreases fs.len() - i,
{
    if i < 0 || i >= fs.len() {
        None
    } else {
        match spec_unused_in_list(fs[i].fields_annotations, v, conts, single, env, dir, 0) {
            Some(d) => Some(d),
            None => spec_unused_tuple(fs, v, conts, single, env, dir, i + 1),
        }
    }
}

pub open spec fn spec_unused_struct(
    fs: Seq<NamedFieldAnnotationsModel>,
    v: ParsedVariantModel,
    conts: Seq<ContainerAnnotationModel>,
    single: bool,
    env: Option<Seq<SourceEnumDeclModel>>,
    dir: Direction,
    i: int,
) -> Option<DiagModel>
    decreases fs.len() - i,
{
    if i < 0 || i >= fs.len() {
        None
    } else {
        match spec_unused_in_list(
            fs[i].annotations.fields_annotations,
            v,
            conts,
            single,
            env,
            dir,
            0,
        ) {
            Some(d) => Some(d),
            None => spec_unused_struct(fs, v, conts, single, env, dir, i + 1),
        }
    }
}

pub open spec fn spec_check_unused(
    v: ParsedVariantModel,
    conts: Seq<ContainerAnnotationModel>,
    single: bool,
    env: Option<Seq<SourceEnumDeclModel>>,
    dir: Direction,
) -> Option<DiagModel> {
    match v.annotations.fields_annotations {
        ParsedFieldsModel::Unit => None,
        ParsedFieldsModel::Tuple(fs) => spec_unused_tuple(fs, v, conts, single, env, dir, 0),
        ParsedFieldsModel::Struct(fs) => spec_unused_struct(fs, v, conts, single, env, dir, 0),
    }
}

// ----------------------------------------------------------------------------
// Processing one variant.
// ----------------------------------------------------------------------------

pub open spec fn spec_process_pairing(
    v: ParsedVariantModel,
    c: Seq<char>,
    w: Seq<char>,
    sp: Span,
    conts: Seq<ContainerAnnotationModel>,
    env: Option<Seq<SourceEnumDeclModel>>,
    dir: Direction,
    table: MappingTableModel,
) -> Result<MappingTableModel, DiagModel> {
    if !contains_container(conts, c) {
        Err(DiagModel { span: sp, kind: DiagKindModel::UnknownContainer { container: c } })
    } else if match env {
        Some(e) => !spec_env_has_variant(e, c, w),
        None => false,
    } {
        Err(
            DiagModel {
                span: sp,
                kind: DiagKindModel::UnknownVariant { container: c, variant: w },
            },
        )
    } else {
        match spec_collect(v.annotations.fields_annotations, c, w) {
            Err(e) => Err(e),
            Ok(ex) => match spec_build_table(v.annotations.fields_annotations, ex, c, w) {
                Err(e) => Err(e),
                Ok(ft) => Ok(
                    spec_insert(
                        table,
                        c,
                        w,
                        VariantMappingModel { own_variant: v.ident, fields: ft },
                        dir,
                    ),
                ),
            },
        }
    }
}

pub open spec fn spec_process_anns(
    v: ParsedVariantModel,
    k: int,
    conts: Seq<ContainerAnnotationModel>,
    single: bool,
    env: Option<Seq<SourceEnumDeclModel>>,
    dir: Direction,
    table: MappingTableModel,
) -> Result<MappingTableModel, DiagModel>
    decreases v.annotations.variant_annotations.len() - k,
{
    if k < 0 || k >= v.annotations.variant_annotations.len() {
        Ok(table)
    } else {
        let a = v.annotations.variant_annotations[k];
        let step = match a {
            VariantAnnotationModel::Nothing { span } => {
                if single {
                    spec_process_pairing(v, conts[0].ident, v.ident, span, conts, env, dir, table)
                } else {
                    Err(
                        DiagModel {
                            span,
                            kind: if dir is FromSources {
                                DiagKindModel::AmbiguousSource
                            } else {
                                DiagKindModel::AmbiguousTarget
                            },
                        },
                    )
                }
            },
            VariantAnnotationModel::EnumOnly { span, enum_ident } => spec_process_pairing(
                v,
                enum_ident,
                v.ident,
                span,
                conts,
                env,
                dir,
                table,
            ),
            VariantAnnotationModel::EnumVariant { span, enum_ident, variant_ident } => (
                spec_process_pairing(v, enum_ident, variant_ident, span, conts, env, dir, table)
            ),
        };
        match step {
            Err(e) => Err(e),
            Ok(t2) => spec_process_anns(v, k + 1, conts, single, env, dir, t2),
        }
    }
}

pub open spec fn spec_process_variant(
    v: ParsedVariantModel,
    conts: Seq<ContainerAnnotationModel>,
    single: bool,
    env: Option<Seq<SourceEnumDeclModel>>,
    dir: Direction,
    table: MappingTableModel,
) -> Result<MappingTableModel, DiagModel> {
    let after = if v.annotations.variant_annotations.len() == 0 {
        if spec_default_applies(v, conts, single, env, dir) {
            spec_process_pairing(
                v,
                conts[0].ident,
                v.ident,
                conts[0].span,
                conts,
                env,
                dir,
                table,
            )
        } else {
            Ok(table)
        }
    } else {
        spec_process_anns(v, 0, conts, single, env, dir, table)
    };
    match after {
        Err(e) => Err(e),
        Ok(t2) => match spec_check_unused(v, conts, single, env, dir) {
            Some(d) => Err(d),
            None => Ok(t2),
        },
    }
}

pub open spec fn spec_resolve_variants(
    vs: Seq<ParsedVariantModel>,
    i: int,
    conts: Seq<ContainerAnnotationModel>,
    single: bool,
    env: Option<Seq<SourceEnumDeclModel>>,
    dir: Direction,
    table: MappingTableModel,
) -> Result<MappingTableModel, DiagModel>
    decreases vs.len() - i,
{
    if i < 0 || i >= vs.len() {
        Ok(table)
    } else {
        match spec_process_variant(vs[i], conts, single, env, dir, table) {
            Err(e) => Err(e),
            Ok(t2) => spec_resolve_variants(vs, i + 1, conts, single, env, dir, t2),
        }
    }
}

/// Resolution of a whole parsed declaration: the declared paired-union
/// list must be non-empty (blamed at the derive site); for an incoming
/// conversion every declared paired union must be supplied by the
/// environment; then the variants are processed in declaration order over
/// a table holding every declared paired union.
pub open spec fn spec_resolve(
    containers: Seq<ContainerAnnotationModel>,
    variants: Seq<ParsedVariantModel>,
    derive_span: Span,
    env: Option<Seq<SourceEnumDeclModel>>,
    dir: Direction,
) -> Result<MappingTableModel, DiagModel> {
    if containers.len() == 0 {
        Err(DiagModel { span: derive_span, kind: DiagKindModel::MissingAnnotation })
    } else {
        let conts = spec_dedup_containers(containers, 0);
        let single = containers.len() == 1;
        let envcheck = match env {
            Some(e) => spec_env_missing(conts, e, 0),
            None => None,
        };
        match envcheck {
            Some(d) => Err(d),
            None => spec_resolve_variants(
                variants,
                0,
                conts,
                single,
                env,
                dir,
                spec_init_table(conts),
            ),
        }
    }
}

} // verus!

verus! {

// ----------------------------------------------------------------------------
// The executable resolver. Each function returns exactly what its
// specification counterpart describes.
// ----------------------------------------------------------------------------

/// One field annotation selected for a pairing, with the own field it sits
/// on.
pub struct Extracted {
    pub own: FieldRef,
    pub own_span: Span,
    pub ann: FieldAnnotation,
}

impl View for Extracted {
    type V = ExtractedModel;

    open spec fn view(&self) -> ExtractedModel {
        ExtractedModel { own: self.own@, own_span: self.own_span, ann: self.ann@ }
    }
}

/// The source environment as the specification sees it.
pub open spec fn env_view(env: Option<&Vec<SourceEnumDecl>>) -> Option<Seq<SourceEnumDeclModel>> {
    match env {
        Some(e) => Some(views_of(e@)),
        None => None,
    }
}

#[verifier::loop_isolation(false)]
fn prefix_contains_container(cs: &Vec<ContainerAnnotation>, upto: usize, name: &ContainerIdent)
    -> (r: bool)
    requires
        upto <= cs@.len(),
    ensures
        r == contains_container(
            views_of(cs@).take(upto as int),
            name@,
        ),
{
    let ghost csm = views_of(cs@);
    let mut j: usize = 0;
    while j < upto
        invariant
            j <= upto <= cs@.len(),
            forall|k: int| 0 <= k < j ==> csm[k].ident != name@,
        decreases upto - j,
    {
        proof {
            assert(csm[j as int] == cs@[j as int]@);
        }
        if cs[j].ident.same(name) {
            proof {
                assert(csm.take(upto as int)[j as int].ident == name@);
            }
            return true;
        }
        j += 1;
    }
    proof {
        assert forall|k: int| 0 <= k < upto implies csm.take(upto as int)[k].ident != name@ by {
            assert(csm.take(upto as int)[k] == csm[k]);
        }
    }
    false
}

fn dedup_containers(cs: &Vec<ContainerAnnotation>, i: usize) -> (r: Vec<ContainerAnnotation>)
    requires
        i <= cs@.len(),
    ensures
        views_of(r@) == spec_dedup_containers(
            views_of(cs@),
            i as int,
        ),
    decreases cs@.len() - i,
{
    let ghost csm = views_of(cs@);
    if i >= cs.len() {
        let out: Vec<ContainerAnnotation> = Vec::new();
        proof {
            assert(views_of(out@) =~= Seq::<
                ContainerAnnotationModel,
            >::empty());
        }
        out
    } else {
        proof {
            assert(csm[i as int] == cs@[i as int]@);
        }
        let seen = prefix_contains_container(cs, i, &cs[i].ident);
        proof {
            assert(csm.take(i as int) =~= views_of(cs@).take(
                i as int,
            ));
        }
        if seen {
            dedup_containers(cs, i + 1)
        } else {
            let first = ContainerAnnotation {
                span: cs[i].span,
                ident: cs[i].ident.duplicate(),
            };
            let mut rest = dedup_containers(cs, i + 1);
            let ghost restm = views_of(rest@);
            let mut out: Vec<ContainerAnnotation> = Vec::new();
            out.push(first);
            out.append(&mut rest);
            proof {
                assert(views_of(out@) =~= seq![out@[0]@] + restm);
            }
            out
        }
    }
}

fn env_has_container(env: &Vec<SourceEnumDecl>, i: usize, c: &ContainerIdent) -> (r: bool)
    ensures
        r == (spec_env_lookup(views_of(env@), c@, i as int) is Some),
    decreases env@.len() - i,
{
    let ghost em = views_of(env@);
    if i >= env.len() {
        false
    } else {
        proof {
            assert(em[i as int] == env@[i as int]@);
        }
        if env[i].ident.same(c) {
            true
        } else {
            env_has_container(env, i + 1, c)
        }
    }
}

#[verifier::loop_isolation(false)]
fn variant_list_contains(vs: &Vec<VariantIdent>, w: &VariantIdent) -> (r: bool)
    ensures
        r == views_of(vs@).contains(w@),
{
    let ghost vm = views_of(vs@);
    let mut j: usize = 0;
    while j < vs.len()
        invariant
            j <= vs@.len(),
            forall|k: int| 0 <= k < j ==> vm[k] != w@,
        decreases vs@.len() - j,
    {
        proof {
            assert(vm[j as int] == vs@[j as int]@);
        }
        if vs[j].same(w) {
            proof {
                assert(vm[j as int] == w@);
            }
            return true;
        }
        j += 1;
    }
    proof {
        assert(forall|k: int| 0 <= k < vm.len() ==> vm[k] != w@);
    }
    false
}

fn env_has_variant(env: &Vec<SourceEnumDecl>, i: usize, c: &ContainerIdent, w: &VariantIdent)
    -> (r: bool)
    ensures
        r == (match spec_env_lookup(views_of(env@), c@, i as int) {
            Some(vs) => vs.contains(w@),
            None => false,
        }),
    decreases env@.len() - i,
{
    let ghost em = views_of(env@);
    if i >= env.len() {
        false
    } else {
        proof {
            assert(em[i as int] == env@[i as int]@);
        }
        if env[i].ident.same(c) {
            variant_list_contains(&env[i].variants, w)
        } else {
            env_has_variant(env, i + 1, c, w)
        }
    }
}

fn env_missing_check(conts: &Vec<ContainerAnnotation>, env: &Vec<SourceEnumDecl>, i: usize) -> (r:
    Option<Diag>)
    ensures
        (match r {
            Some(d) => spec_env_missing(
                views_of(conts@),
                views_of(env@),
                i as int,
            ) == Some(d@),
            None => spec_env_missing(
                views_of(conts@),
                views_of(env@),
                i as int,
            ) is None,
        }),
    decreases conts@.len() - i,
{
    let ghost cm = views_of(conts@);
    if i >= conts.len() {
        None
    } else {
        proof {
            assert(cm[i as int] == conts@[i as int]@);
        }
        if !env_has_container(env, 0, &conts[i].ident) {
            Some(
                Diag {
                    span: conts[i].span,
                    kind: DiagKind::UnknownContainer { container: conts[i].ident.duplicate() },
                },
            )
        } else {
            env_missing_check(conts, env, i + 1)
        }
    }
}

#[verifier::loop_isolation(false)]
fn init_table(conts: &Vec<ContainerAnnotation>) -> (r: MappingTable)
    ensures
        r@ == spec_init_table(views_of(conts@)),
{
    let ghost cm = views_of(conts@);
    let ghost goal = spec_init_table(cm);
    let mut containers: Vec<ContainerMapping> = Vec::new();
    let mut j: usize = 0;
    while j < conts.len()
        invariant
            j <= conts@.len(),
            cm == views_of(conts@),
            goal == spec_init_table(cm),
            containers@.len() == j,
            forall|k: int|
                0 <= k < j ==> views_of(containers@)[k]
                    == goal.containers[k],
        decreases conts@.len() - j,
    {
        proof {
            assert(cm[j as int] == conts@[j as int]@);
        }
        let cmnew = ContainerMapping { container: conts[j].ident.duplicate(), entries: Vec::new() };
        proof {
            assert(views_of(cmnew.entries@) =~= Seq::<MappingEntryModel>::empty());
            assert(cmnew@ == goal.containers[j as int]);
        }
        containers.push(cmnew);
        j += 1;
    }
    let out = MappingTable { containers };
    proof {
        assert(out@.containers =~= goal.containers);
    }
    out
}

fn matching_anns(anns: &Vec<FieldAnnotation>, c: &ContainerIdent, w: &VariantIdent, i: usize)
    -> (r: Vec<FieldAnnotation>)
    ensures
        views_of(r@) == spec_matching(
            views_of(anns@),
            c@,
            w@,
            i as int,
        ),
    decreases anns@.len() - i,
{
    let ghost am = views_of(anns@);
    if i >= anns.len() {
        let out: Vec<FieldAnnotation> = Vec::new();
        proof {
            assert(views_of(out@) =~= Seq::<
                FieldAnnotationModel,
            >::empty());
        }
        out
    } else {
        proof {
            assert(am[i as int] == anns@[i as int]@);
        }
        if anns[i].enum_ident.same(c) && anns[i].variant_ident.same(w) {
            let first = anns[i].duplicate();
            let mut rest = matching_anns(anns, c, w, i + 1);
            let ghost restm = views_of(rest@);
            let mut out: Vec<FieldAnnotation> = Vec::new();
            out.push(first);
            out.append(&mut rest);
            proof {
                assert(views_of(out@) =~= seq![out@[0]@] + restm);
            }
            out
        } else {
            matching_anns(anns, c, w, i + 1)
        }
    }
}

} // verus!

verus! {

fn collect_tuple(
    fs: &Vec<crate::annot::FieldAnnotations>,
    c: &ContainerIdent,
    w: &VariantIdent,
    i: usize,
) -> (r: Result<Vec<Extracted>, Diag>)
    ensures
        (match r {
            Ok(ex) => spec_collect_tuple(
                views_of(fs@),
                c@,
                w@,
                i as int,
            ) == Ok::<_, DiagModel>(views_of(ex@)),
            Err(e) => spec_collect_tuple(
                views_of(fs@),
                c@,
                w@,
                i as int,
            ) == Err::<Seq<ExtractedModel>, _>(e@),
        }),
    decreases fs@.len() - i,
{
    let ghost fm = views_of(fs@);
    if i >= fs.len() {
        let out: Vec<Extracted> = Vec::new();
        proof {
            assert(views_of(out@) =~= Seq::<ExtractedModel>::empty());
        }
        Ok(out)
    } else {
        proof {
            assert(fm[i as int] == fs@[i as int]@);
        }
        let mut m = matching_anns(&fs[i].fields_annotations, c, w, 0);
        if m.len() >= 2 {
            Err(
                Diag {
                    span: fs[i].field_span,
                    kind: DiagKind::DuplicateFieldMapping { container: c.duplicate() },
                },
            )
        } else {
            match collect_tuple(fs, c, w, i + 1) {
                Err(e) => Err(e),
                Ok(rest) => {
                    if m.len() == 1 {
                        let ghost restm = views_of(rest@);
                        let ann = m.remove(0);
                        let mut out: Vec<Extracted> = Vec::new();
                        out.push(
                            Extracted {
                                own: FieldRef::FieldPos(i),
                                own_span: fs[i].field_span,
                                ann,
                            },
                        );
                        let mut rest_mut = rest;
                        out.append(&mut rest_mut);
                        proof {
                            assert(views_of(out@) =~= seq![out@[0]@] + restm);
                        }
                        Ok(out)
                    } else {
                        Ok(rest)
                    }
                },
            }
        }
    }
}

fn collect_struct(
    fs: &Vec<crate::annot::NamedFieldAnnotations>,
    c: &ContainerIdent,
    w: &VariantIdent,
    i: usize,
) -> (r: Result<Vec<Extracted>, Diag>)
    ensures
        (match r {
            Ok(ex) => spec_collect_struct(
                views_of(fs@),
                c@,
                w@,
                i as int,
            ) == Ok::<_, DiagModel>(views_of(ex@)),
            Err(e) => spec_collect_struct(
                views_of(fs@),
                c@,
                w@,
                i as int,
            ) == Err::<Seq<ExtractedModel>, _>(e@),
        }),
    decreases fs@.len() - i,
{
    let ghost fm = views_of(fs@);
    if i >= fs.len() {
        let out: Vec<Extracted> = Vec::new();
        proof {
            assert(views_of(out@) =~= Seq::<ExtractedModel>::empty());
        }
        Ok(out)
    } else {
        proof {
            assert(fm[i as int] == fs@[i as int]@);
        }
        let mut m = matching_anns(&fs[i].annotations.fields_annotations, c, w, 0);
        if m.len() >= 2 {
            Err(
                Diag {
                    span: fs[i].annotations.field_span,
                    kind: DiagKind::DuplicateFieldMapping { container: c.duplicate() },
                },
            )
        } else {
            match collect_struct(fs, c, w, i + 1) {
                Err(e) => Err(e),
                Ok(rest) => {
                    if m.len() == 1 {
                        let ghost restm = views_of(rest@);
                        let ann = m.remove(0);
                        let mut out: Vec<Extracted> = Vec::new();
                        out.push(
                            Extracted {
                                own: FieldRef::FieldIdent(fs[i].ident.duplicate()),
                                own_span: fs[i].annotations.field_span,
                                ann,
                            },
                        );
                        let mut rest_mut = rest;
                        out.append(&mut rest_mut);
                        proof {
                            assert(views_of(out@) =~= seq![out@[0]@] + restm);
                        }
                        Ok(out)
                    } else {
                        Ok(rest)
                    }
                },
            }
        }
    }
}

fn collect_annotations(
    fields: &ParsedFields,
    c: &ContainerIdent,
    w: &VariantIdent,
) -> (r: Result<Vec<Extracted>, Diag>)
    ensures
        (match r {
            Ok(ex) => spec_collect(fields@, c@, w@) == Ok::<_, DiagModel>(
                views_of(ex@),
            ),
            Err(e) => spec_collect(fields@, c@, w@) == Err::<Seq<ExtractedModel>, _>(e@),
        }),
{
    match fields {
        ParsedFields::Unit => {
            let out: Vec<Extracted> = Vec::new();
            proof {
                assert(views_of(out@) =~= Seq::<ExtractedModel>::empty());
            }
            Ok(out)
        },
        ParsedFields::Tuple(fs) => collect_tuple(fs, c, w, 0),
        ParsedFields::Struct(fs) => collect_struct(fs, c, w, 0),
    }
}

fn find_own_idx(ex: &Vec<Extracted>, r0: &FieldRef, i: usize) -> (r: Option<usize>)
    ensures
        (match r {
            Some(k) => {
                &&& k < ex@.len()
                &&& spec_find_own(views_of(ex@), r0@, i as int) == Some(
                    ex@[k as int]@.ann,
                )
            },
            None => spec_find_own(views_of(ex@), r0@, i as int) is None,
        }),
    decreases ex@.len() - i,
{
    let ghost em = views_of(ex@);
    if i >= ex.len() {
        None
    } else {
        proof {
            assert(em[i as int] == ex@[i as int]@);
        }
        if ex[i].own.same(r0) {
            Some(i)
        } else {
            find_own_idx(ex, r0, i + 1)
        }
    }
}

fn find_named_ann(ex: &Vec<Extracted>, i: usize) -> (r: Option<Diag>)
    ensures
        (match r {
            Some(d) => spec_find_named_ann(views_of(ex@), i as int) == Some(
                d@,
            ),
            None => spec_find_named_ann(views_of(ex@), i as int) is None,
        }),
    decreases ex@.len() - i,
{
    let ghost em = views_of(ex@);
    if i >= ex.len() {
        None
    } else {
        proof {
            assert(em[i as int] == ex@[i as int]@);
        }
        if matches!(ex[i].ann.field, FieldRef::FieldIdent(_)) {
            Some(
                Diag {
                    span: ex[i].ann.field_span,
                    kind: DiagKind::InconsistentFieldMapping,
                },
            )
        } else {
            find_named_ann(ex, i + 1)
        }
    }
}

fn find_pos_ann(ex: &Vec<Extracted>, i: usize) -> (r: Option<Diag>)
    ensures
        (match r {
            Some(d) => spec_find_pos_ann(views_of(ex@), i as int) == Some(d@),
            None => spec_find_pos_ann(views_of(ex@), i as int) is None,
        }),
    decreases ex@.len() - i,
{
    let ghost em = views_of(ex@);
    if i >= ex.len() {
        None
    } else {
        proof {
            assert(em[i as int] == ex@[i as int]@);
        }
        if matches!(ex[i].ann.field, FieldRef::FieldPos(_)) {
            Some(
                Diag {
                    span: ex[i].ann.field_span,
                    kind: DiagKind::InconsistentFieldMapping,
                },
            )
        } else {
            find_pos_ann(ex, i + 1)
        }
    }
}

fn missing_tuple(
    fs: &Vec<crate::annot::FieldAnnotations>,
    ex: &Vec<Extracted>,
    c: &ContainerIdent,
    w: &VariantIdent,
    j: usize,
) -> (r: Option<Diag>)
    ensures
        (match r {
            Some(d) => spec_missing_tuple(
                views_of(fs@),
                views_of(ex@),
                c@,
                w@,
                j as int,
            ) == Some(d@),
            None => spec_missing_tuple(
                views_of(fs@),
                views_of(ex@),
                c@,
                w@,
                j as int,
            ) is None,
        }),
    decreases fs@.len() - j,
{
    let ghost fm = views_of(fs@);
    if j >= fs.len() {
        None
    } else {
        proof {
            assert(fm[j as int] == fs@[j as int]@);
        }
        let probe = FieldRef::FieldPos(j);
        if find_own_idx(ex, &probe, 0).is_none() {
            Some(
                Diag {
                    span: fs[j].field_span,
                    kind: DiagKind::MissingFieldAnnotation {
                        container: c.duplicate(),
                        variant: w.duplicate(),
                        field: FieldRef::FieldPos(j),
                    },
                },
            )
        } else {
            missing_tuple(fs, ex, c, w, j + 1)
        }
    }
}

fn missing_struct(
    fs: &Vec<crate::annot::NamedFieldAnnotations>,
    ex: &Vec<Extracted>,
    c: &ContainerIdent,
    w: &VariantIdent,
    j: usize,
) -> (r: Option<Diag>)
    ensures
        (match r {
            Some(d) => spec_missing_struct(
                views_of(fs@),
                views_of(ex@),
                c@,
                w@,
                j as int,
            ) == Some(d@),
            None => spec_missing_struct(
                views_of(fs@),
                views_of(ex@),
                c@,
                w@,
                j as int,
            ) is None,
        }),
    decreases fs@.len() - j,
{
    let ghost fm = views_of(fs@);
    if j >= fs.len() {
        None
    } else {
        proof {
            assert(fm[j as int] == fs@[j as int]@);
        }
        let probe = FieldRef::FieldIdent(fs[j].ident.duplicate());
        if find_own_idx(ex, &probe, 0).is_none() {
            Some(
                Diag {
                    span: fs[j].annotations.field_span,
                    kind: DiagKind::MissingFieldAnnotation {
                        container: c.duplicate(),
                        variant: w.duplicate(),
                        field: FieldRef::FieldIdent(fs[j].ident.duplicate()),
                    },
                },
            )
        } else {
            missing_struct(fs, ex, c, w, j + 1)
        }
    }
}

} // verus!

verus! {

#[verifier::loop_isolation(false)]
fn build_both_tuple(ex: &Vec<Extracted>, n: usize) -> (r: Vec<usize>)
    ensures
        r@ == spec_both_tuple(views_of(ex@), n as int),
{
    let ghost em = views_of(ex@);
    let ghost goal = spec_both_tuple(em, n as int);
    let mut out: Vec<usize> = Vec::new();
    let mut j: usize = 0;
    while j < n
        invariant
            j <= n,
            em == views_of(ex@),
            goal == spec_both_tuple(em, n as int),
            out@.len() == j,
            forall|t: int| 0 <= t < j ==> out@[t] == goal[t],
        decreases n - j,
    {
        let probe = FieldRef::FieldPos(j);
        let v: usize = match find_own_idx(ex, &probe, 0) {
            Some(k) => match &ex[k].ann.field {
                FieldRef::FieldPos(q) => *q,
                FieldRef::FieldIdent(_) => j,
            },
            None => j,
        };
        out.push(v);
        j += 1;
    }
    proof {
        assert(out@ =~= goal);
    }
    out
}

#[verifier::loop_isolation(false)]
fn build_both_struct(fs: &Vec<crate::annot::NamedFieldAnnotations>, ex: &Vec<Extracted>) -> (r:
    Vec<crate::mapping::FieldPair>)
    ensures
        views_of(r@) == spec_both_struct(
            views_of(fs@),
            views_of(ex@),
        ),
{
    let ghost fm = views_of(fs@);
    let ghost em = views_of(ex@);
    let ghost goal = spec_both_struct(fm, em);
    let mut out: Vec<crate::mapping::FieldPair> = Vec::new();
    let mut j: usize = 0;
    while j < fs.len()
        invariant
            j <= fs@.len(),
            fm == views_of(fs@),
            em == views_of(ex@),
            goal == spec_both_struct(fm, em),
            out@.len() == j,
            forall|t: int|
                0 <= t < j ==> views_of(out@)[t] == goal[t],
        decreases fs@.len() - j,
    {
        proof {
            assert(fm[j as int] == fs@[j as int]@);
        }
        let probe = FieldRef::FieldIdent(fs[j].ident.duplicate());
        let other: FieldIdent = match find_own_idx(ex, &probe, 0) {
            Some(k) => match &ex[k].ann.field {
                FieldRef::FieldIdent(o) => o.duplicate(),
                FieldRef::FieldPos(_) => fs[j].ident.duplicate(),
            },
            None => fs[j].ident.duplicate(),
        };
        out.push(crate::mapping::FieldPair { own: fs[j].ident.duplicate(), other });
        j += 1;
    }
    proof {
        assert(views_of(out@) =~= goal);
    }
    out
}

#[verifier::loop_isolation(false)]
fn build_own_tuple_other_struct(ex: &Vec<Extracted>, n: usize) -> (r: Vec<FieldIdent>)
    ensures
        views_of(r@) == spec_own_tuple_other_struct(
            views_of(ex@),
            n as int,
        ),
{
    let ghost em = views_of(ex@);
    let ghost goal = spec_own_tuple_other_struct(em, n as int);
    let mut out: Vec<FieldIdent> = Vec::new();
    let mut j: usize = 0;
    while j < n
        invariant
            j <= n,
            em == views_of(ex@),
            goal == spec_own_tuple_other_struct(em, n as int),
            out@.len() == j,
            forall|t: int| 0 <= t < j ==> views_of(out@)[t] == goal[t],
        decreases n - j,
    {
        let probe = FieldRef::FieldPos(j);
        let other: FieldIdent = match find_own_idx(ex, &probe, 0) {
            Some(k) => match &ex[k].ann.field {
                FieldRef::FieldIdent(o) => o.duplicate(),
                FieldRef::FieldPos(_) => FieldIdent { name: String::new() },
            },
            None => FieldIdent { name: String::new() },
        };
        out.push(other);
        j += 1;
    }
    proof {
        assert(views_of(out@) =~= goal);
    }
    out
}

#[verifier::loop_isolation(false)]
fn build_own_struct_other_tuple(
    fs: &Vec<crate::annot::NamedFieldAnnotations>,
    ex: &Vec<Extracted>,
) -> (r: Vec<crate::mapping::FieldPosPair>)
    ensures
        views_of(r@) == spec_own_struct_other_tuple(
            views_of(fs@),
            views_of(ex@),
        ),
{
    let ghost fm = views_of(fs@);
    let ghost em = views_of(ex@);
    let ghost goal = spec_own_struct_other_tuple(fm, em);
    let mut out: Vec<crate::mapping::FieldPosPair> = Vec::new();
    let mut j: usize = 0;
    while j < fs.len()
        invariant
            j <= fs@.len(),
            fm == views_of(fs@),
            em == views_of(ex@),
            goal == spec_own_struct_other_tuple(fm, em),
            out@.len() == j,
            forall|t: int|
                0 <= t < j ==> views_of(out@)[t]
                    == goal[t],
        decreases fs@.len() - j,
    {
        proof {
            assert(fm[j as int] == fs@[j as int]@);
        }
        let probe = FieldRef::FieldIdent(fs[j].ident.duplicate());
        let other: usize = match find_own_idx(ex, &probe, 0) {
            Some(k) => match &ex[k].ann.field {
                FieldRef::FieldPos(q) => *q,
                FieldRef::FieldIdent(_) => 0,
            },
            None => 0,
        };
        out.push(crate::mapping::FieldPosPair { own: fs[j].ident.duplicate(), other });
        j += 1;
    }
    proof {
        assert(views_of(out@) =~= goal);
    }
    out
}

fn build_table(
    fields: &ParsedFields,
    ex: &Vec<Extracted>,
    c: &ContainerIdent,
    w: &VariantIdent,
) -> (r: Result<crate::mapping::FieldTable, Diag>)
    ensures
        (match r {
            Ok(ft) => spec_build_table(fields@, views_of(ex@), c@, w@)
                == Ok::<_, DiagModel>(ft@),
            Err(e) => spec_build_table(fields@, views_of(ex@), c@, w@)
                == Err::<FieldTableModel, _>(e@),
        }),
{
    let ghost em = views_of(ex@);
    match fields {
        ParsedFields::Unit => Ok(crate::mapping::FieldTable::Unit),
        ParsedFields::Tuple(fs) => {
            proof {
                if ex@.len() > 0 {
                    assert(em[0] == ex@[0]@);
                }
            }
            if ex.len() == 0 || matches!(ex[0].ann.field, FieldRef::FieldPos(_)) {
                match find_named_ann(ex, 0) {
                    Some(d) => Err(d),
                    None => Ok(
                        crate::mapping::FieldTable::BothTuple {
                            positions: build_both_tuple(ex, fs.len()),
                        },
                    ),
                }
            } else {
                match find_pos_ann(ex, 0) {
                    Some(d) => Err(d),
                    None => match missing_tuple(fs, ex, c, w, 0) {
                        Some(d) => Err(d),
                        None => Ok(
                            crate::mapping::FieldTable::OwnTupleOtherStruct {
                                names: build_own_tuple_other_struct(ex, fs.len()),
                            },
                        ),
                    },
                }
            }
        },
        ParsedFields::Struct(fs) => {
            proof {
                if ex@.len() > 0 {
                    assert(em[0] == ex@[0]@);
                }
            }
            if ex.len() == 0 || matches!(ex[0].ann.field, FieldRef::FieldIdent(_)) {
                match find_pos_ann(ex, 0) {
                    Some(d) => Err(d),
                    None => Ok(
                        crate::mapping::FieldTable::BothStruct {
                            names: build_both_struct(fs, ex),
                        },
                    ),
                }
            } else {
                match find_named_ann(ex, 0) {
                    Some(d) => Err(d),
                    None => match missing_struct(fs, ex, c, w, 0) {
                        Some(d) => Err(d),
                        None => Ok(
                            crate::mapping::FieldTable::OwnStructOtherTuple {
                                positions: build_own_struct_other_tuple(fs, ex),
                            },
                        ),
                    },
                }
            }
        },
    }
}

} // verus!

verus! {

fn find_entry(entries: &Vec<crate::mapping::MappingEntry>, w: &VariantIdent, i: usize) -> (r:
    Option<usize>)
    ensures
        (match r {
            Some(k) => {
                &&& k < entries@.len()
                &&& spec_find_entry(
                    views_of(entries@),
                    w@,
                    i as int,
                ) == Some(k as int)
            },
            None => spec_find_entry(
                views_of(entries@),
                w@,
                i as int,
            ) is None,
        }),
    decreases entries@.len() - i,
{
    let ghost em = views_of(entries@);
    if i >= entries.len() {
        None
    } else {
        proof {
            assert(em[i as int] == entries@[i as int]@);
        }
        if entries[i].paired_variant.same(w) {
            Some(i)
        } else {
            find_entry(entries, w, i + 1)
        }
    }
}

fn find_container_idx(containers: &Vec<ContainerMapping>, c: &ContainerIdent, i: usize) -> (r:
    Option<usize>)
    ensures
        (match r {
            Some(k) => {
                &&& k < containers@.len()
                &&& spec_find_container(
                    views_of(containers@),
                    c@,
                    i as int,
                ) == Some(k as int)
            },
            None => spec_find_container(
                views_of(containers@),
                c@,
                i as int,
            ) is None,
        }),
    decreases containers@.len() - i,
{
    let ghost cm = views_of(containers@);
    if i >= containers.len() {
        None
    } else {
        proof {
            assert(cm[i as int] == containers@[i as int]@);
        }
        if containers[i].container.same(c) {
            Some(i)
        } else {
            find_container_idx(containers, c, i + 1)
        }
    }
}

fn insert_mapping(
    table: MappingTable,
    c: &ContainerIdent,
    w: &VariantIdent,
    m: crate::mapping::VariantMapping,
    dir: Direction,
) -> (r: MappingTable)
    ensures
        r@ == spec_insert(table@, c@, w@, m@, dir),
{
    let ghost tm = table@;
    let ghost mm = m@;
    let mut containers = table.containers;
    let ghost old_containers = views_of(containers@);
    match find_container_idx(&containers, c, 0) {
        // The resolver only inserts under declared containers, and the
        // table holds every declared container; the branch keeps the
        // function total.
        None => MappingTable { containers },
        Some(k) => {
            let mut cmap = containers.remove(k);
            proof {
                assert(old_containers[k as int] == cmap@);
            }
            let ghost old_entries = views_of(cmap.entries@);
            let mut entries = cmap.entries;
            match find_entry(&entries, w, 0) {
                Some(j) => {
                    let old_entry = entries.remove(j);
                    proof {
                        assert(old_entries[j as int] == old_entry@);
                    }
                    let new_mappings: Vec<crate::mapping::VariantMapping> = match dir {
                        Direction::FromSources => {
                            let mut one: Vec<crate::mapping::VariantMapping> = Vec::new();
                            one.push(m);
                            one
                        },
                        Direction::IntoTargets => {
                            let mut acc = old_entry.mappings;
                            acc.push(m);
                            acc
                        },
                    };
                    let ghost expected_mappings = (if dir is FromSources {
                        seq![mm]
                    } else {
                        old_entries[j as int].mappings.push(mm)
                    });
                    proof {
                        assert(views_of(new_mappings@) =~= expected_mappings);
                    }
                    let new_entry = crate::mapping::MappingEntry {
                        paired_variant: w.duplicate(),
                        mappings: new_mappings,
                    };
                    proof {
                        assert(new_entry@ == MappingEntryModel {
                            paired_variant: w@,
                            mappings: expected_mappings,
                        });
                    }
                    entries.insert(j, new_entry);
                    proof {
                        assert(views_of(entries@)
                            =~= spec_insert_entries(old_entries, w@, mm, dir));
                    }
                    cmap.entries = entries;
                    proof {
                        assert(cmap@ == ContainerMappingModel {
                            container: old_containers[k as int].container,
                            entries: spec_insert_entries(old_entries, w@, mm, dir),
                        });
                    }
                    containers.insert(k, cmap);
                    proof {
                        assert(views_of(containers@)
                            =~= spec_insert(tm, c@, w@, mm, dir).containers);
                    }
                    MappingTable { containers }
                },
                None => {
                    let mut one: Vec<crate::mapping::VariantMapping> = Vec::new();
                    one.push(m);
                    proof {
                        assert(views_of(one@) =~= seq![mm]);
                    }
                    let new_entry = crate::mapping::MappingEntry {
                        paired_variant: w.duplicate(),
                        mappings: one,
                    };
                    proof {
                        assert(new_entry@ == MappingEntryModel {
                            paired_variant: w@,
                            mappings: seq![mm],
                        });
                    }
                    entries.push(new_entry);
                    proof {
                        assert(views_of(entries@)
                            =~= spec_insert_entries(old_entries, w@, mm, dir));
                    }
                    cmap.entries = entries;
                    proof {
                        assert(cmap@ == ContainerMappingModel {
                            container: old_containers[k as int].container,
                            entries: spec_insert_entries(old_entries, w@, mm, dir),
                        });
                    }
                    containers.insert(k, cmap);
                    proof {
                        assert(views_of(containers@)
                            =~= spec_insert(tm, c@, w@, mm, dir).containers);
                    }
                    MappingTable { containers }
                },
            }
        },
    }
}

} // verus!

verus! {

fn container_list_contains(conts: &Vec<ContainerAnnotation>, name: &ContainerIdent) -> (r: bool)
    ensures
        r == contains_container(views_of(conts@), name@),
{
    let ghost cm = views_of(conts@);
    let r = prefix_contains_container(conts, conts.len(), name);
    proof {
        assert(cm.take(conts@.len() as int) =~= cm);
    }
    r
}

fn ann_claims(
    a: &VariantAnnotation,
    vident: &VariantIdent,
    conts: &Vec<ContainerAnnotation>,
    single: bool,
    c: &ContainerIdent,
    w: &VariantIdent,
) -> (r: bool)
    requires
        single ==> conts@.len() >= 1,
    ensures
        r == (spec_pairing_of_ann(
            a@,
            vident@,
            views_of(conts@),
            single,
        ) == Some((c@, w@))),
{
    let ghost cm = views_of(conts@);
    match a {
        VariantAnnotation::Nothing { .. } => {
            if single {
                proof {
                    assert(cm[0] == conts@[0]@);
                }
                conts[0].ident.same(c) && vident.same(w)
            } else {
                false
            }
        },
        VariantAnnotation::EnumOnly { enum_ident, .. } => enum_ident.same(c) && vident.same(w),
        VariantAnnotation::EnumVariant { enum_ident, variant_ident, .. } => enum_ident.same(c)
            && variant_ident.same(w),
    }
}

fn default_applies(
    v: &ParsedVariant,
    conts: &Vec<ContainerAnnotation>,
    single: bool,
    env: Option<&Vec<SourceEnumDecl>>,
    dir: Direction,
) -> (r: bool)
    requires
        single ==> conts@.len() >= 1,
    ensures
        r == spec_default_applies(
            v@,
            views_of(conts@),
            single,
            env_view(env),
            dir,
        ),
{
    let ghost cm = views_of(conts@);
    if v.annotations.variant_annotations.len() == 0 && single {
        proof {
            assert(cm[0] == conts@[0]@);
        }
        match env {
            Some(e) => env_has_variant(e, 0, &conts[0].ident, &v.ident),
            None => true,
        }
    } else {
        false
    }
}

#[verifier::loop_isolation(false)]
fn variant_claims(
    v: &ParsedVariant,
    conts: &Vec<ContainerAnnotation>,
    single: bool,
    env: Option<&Vec<SourceEnumDecl>>,
    dir: Direction,
    c: &ContainerIdent,
    w: &VariantIdent,
) -> (r: bool)
    requires
        single ==> conts@.len() >= 1,
    ensures
        r == spec_variant_claims(
            v@,
            views_of(conts@),
            single,
            env_view(env),
            dir,
            c@,
            w@,
        ),
{
    let ghost cm = views_of(conts@);
    let anns = &v.annotations.variant_annotations;
    let ghost am = views_of(anns@);
    let mut k: usize = 0;
    while k < anns.len()
        invariant
            k <= anns@.len(),
            single ==> conts@.len() >= 1,
            am == views_of(anns@),
            cm == views_of(conts@),
            forall|t: int|
                0 <= t < k ==> spec_pairing_of_ann(am[t], v@.ident, cm, single) != Some(
                    (c@, w@),
                ),
        decreases anns@.len() - k,
    {
        proof {
            assert(am[k as int] == anns@[k as int]@);
        }
        if ann_claims(&anns[k], &v.ident, conts, single, c, w) {
            proof {
                assert(spec_pairing_of_ann(
                    v@.annotations.variant_annotations[k as int],
                    v@.ident,
                    cm,
                    single,
                ) == Some((c@, w@)));
            }
            return true;
        }
        k += 1;
    }
    let dflt = default_applies(v, conts, single, env, dir);
    if dflt {
        proof {
            assert(cm[0] == conts@[0]@);
        }
        conts[0].ident.same(c) && v.ident.same(w)
    } else {
        false
    }
}

fn unused_in_list(
    anns: &Vec<FieldAnnotation>,
    v: &ParsedVariant,
    conts: &Vec<ContainerAnnotation>,
    single: bool,
    env: Option<&Vec<SourceEnumDecl>>,
    dir: Direction,
    i: usize,
) -> (r: Option<Diag>)
    requires
        single ==> conts@.len() >= 1,
    ensures
        (match r {
            Some(d) => spec_unused_in_list(
                views_of(anns@),
                v@,
                views_of(conts@),
                single,
                env_view(env),
                dir,
                i as int,
            ) == Some(d@),
            None => spec_unused_in_list(
                views_of(anns@),
                v@,
                views_of(conts@),
                single,
                env_view(env),
                dir,
                i as int,
            ) is None,
        }),
    decreases anns@.len() - i,
{
    let ghost am = views_of(anns@);
    if i >= anns.len() {
        None
    } else {
        proof {
            assert(am[i as int] == anns@[i as int]@);
        }
        if !variant_claims(v, conts, single, env, dir, &anns[i].enum_ident, &anns[i].variant_ident)
        {
            if container_list_contains(conts, &anns[i].enum_ident) {
                Some(
                    Diag {
                        span: anns[i].variant_span,
                        kind: DiagKind::UnusedFieldAnnotation {
                            container: anns[i].enum_ident.duplicate(),
                            variant: anns[i].variant_ident.duplicate(),
                        },
                    },
                )
            } else {
                Some(
                    Diag {
                        span: anns[i].enum_span,
                        kind: DiagKind::UnknownContainer {
                            container: anns[i].enum_ident.duplicate(),
                        },
                    },
                )
            }
        } else {
            unused_in_list(anns, v, conts, single, env, dir, i + 1)
        }
    }
}

fn unused_tuple(
    fs: &Vec<crate::annot::FieldAnnotations>,
    v: &ParsedVariant,
    conts: &Vec<ContainerAnnotation>,
    single: bool,
    env: Option<&Vec<SourceEnumDecl>>,
    dir: Direction,
    i: usize,
) -> (r: Option<Diag>)
    requires
        single ==> conts@.len() >= 1,
    ensures
        (match r {
            Some(d) => spec_unused_tuple(
                views_of(fs@),
                v@,
                views_of(conts@),
                single,
                env_view(env),
                dir,
                i as int,
            ) == Some(d@),
            None => spec_unused_tuple(
                views_of(fs@),
                v@,
                views_of(conts@),
                single,
                env_view(env),
                dir,
                i as int,
            ) is None,
        }),
    decreases fs@.len() - i,
{
    let ghost fm = views_of(fs@);
    if i >= fs.len() {
        None
    } else {
        proof {
            assert(fm[i as int] == fs@[i as int]@);
        }
        match unused_in_list(&fs[i].fields_annotations, v, conts, single, env, dir, 0) {
            Some(d) => Some(d),
            None => unused_tuple(fs, v, conts, single, env, dir, i + 1),
        }
    }
}

fn unused_struct(
    fs: &Vec<crate::annot::NamedFieldAnnotations>,
    v: &ParsedVariant,
    conts: &Vec<ContainerAnnotation>,
    single: bool,
    env: Option<&Vec<SourceEnumDecl>>,
    dir: Direction,
    i: usize,
) -> (r: Option<Diag>)
    requires
        single ==> conts@.len() >= 1,
    ensures
        (match r {
            Some(d) => spec_unused_struct(
                views_of(fs@),
                v@,
                views_of(conts@),
                single,
                env_view(env),
                dir,
                i as int,
            ) == Some(d@),
            None => spec_unused_struct(
                views_of(fs@),
                v@,
                views_of(conts@),
                single,
                env_view(env),
                dir,
                i as int,
            ) is None,
        }),
    decreases fs@.len() - i,
{
    let ghost fm = views_of(fs@);
    if i >= fs.len() {
        None
    } else {
        proof {
            assert(fm[i as int] == fs@[i as int]@);
        }
        match unused_in_list(&fs[i].annotations.fields_annotations, v, conts, single, env, dir, 0)
        {
            Some(d) => Some(d),
            None => unused_struct(fs, v, conts, single, env, dir, i + 1),
        }
    }
}

fn check_unused(
    v: &ParsedVariant,
    conts: &Vec<ContainerAnnotation>,
    single: bool,
    env: Option<&Vec<SourceEnumDecl>>,
    dir: Direction,
) -> (r: Option<Diag>)
    requires
        single ==> conts@.len() >= 1,
    ensures
        (match r {
            Some(d) => spec_check_unused(
                v@,
                views_of(conts@),
                single,
                env_view(env),
                dir,
            ) == Some(d@),
            None => spec_check_unused(
                v@,
                views_of(conts@),
                single,
                env_view(env),
                dir,
            ) is None,
        }),
{
    match &v.annotations.fields_annotations {
        ParsedFields::Unit => None,
        ParsedFields::Tuple(fs) => unused_tuple(fs, v, conts, single, env, dir, 0),
        ParsedFields::Struct(fs) => unused_struct(fs, v, conts, single, env, dir, 0),
    }
}

} // verus!

verus! {

fn process_pairing(
    v: &ParsedVariant,
    c: &ContainerIdent,
    w: &VariantIdent,
    sp: Span,
    conts: &Vec<ContainerAnnotation>,
    env: Option<&Vec<SourceEnumDecl>>,
    dir: Direction,
    table: MappingTable,
) -> (r: Result<MappingTable, Diag>)
    ensures
        (match r {
            Ok(t2) => spec_process_pairing(
                v@,
                c@,
                w@,
                sp,
                views_of(conts@),
                env_view(env),
                dir,
                table@,
            ) == Ok::<_, DiagModel>(t2@),
            Err(e) => spec_process_pairing(
                v@,
                c@,
                w@,
                sp,
                views_of(conts@),
                env_view(env),
                dir,
                table@,
            ) == Err::<MappingTableModel, _>(e@),
        }),
{
    if !container_list_contains(conts, c) {
        Err(Diag { span: sp, kind: DiagKind::UnknownContainer { container: c.duplicate() } })
    } else {
        let env_ok = match env {
            Some(e) => env_has_variant(e, 0, c, w),
            None => true,
        };
        if !env_ok {
            Err(
                Diag {
                    span: sp,
                    kind: DiagKind::UnknownVariant {
                        container: c.duplicate(),
                        variant: w.duplicate(),
                    },
                },
            )
        } else {
            match collect_annotations(&v.annotations.fields_annotations, c, w) {
                Err(e) => Err(e),
                Ok(ex) => match build_table(&v.annotations.fields_annotations, &ex, c, w) {
                    Err(e) => Err(e),
                    Ok(ft) => Ok(
                        insert_mapping(
                            table,
                            c,
                            w,
                            crate::mapping::VariantMapping {
                                own_variant: v.ident.duplicate(),
                                fields: ft,
                            },
                            dir,
                        ),
                    ),
                },
            }
        }
    }
}

fn process_anns(
    v: &ParsedVariant,
    k: usize,
    conts: &Vec<ContainerAnnotation>,
    single: bool,
    env: Option<&Vec<SourceEnumDecl>>,
    dir: Direction,
    table: MappingTable,
) -> (r: Result<MappingTable, Diag>)
    requires
        single ==> conts@.len() >= 1,
    ensures
        (match r {
            Ok(t2) => spec_process_anns(
                v@,
                k as int,
                views_of(conts@),
                single,
                env_view(env),
                dir,
                table@,
            ) == Ok::<_, DiagModel>(t2@),
            Err(e) => spec_process_anns(
                v@,
                k as int,
                views_of(conts@),
                single,
                env_view(env),
                dir,
                table@,
            ) == Err::<MappingTableModel, _>(e@),
        }),
    decreases v.annotations.variant_annotations@.len() - k,
{
    let ghost cm = views_of(conts@);
    let anns = &v.annotations.variant_annotations;
    let ghost am = views_of(anns@);
    if k >= anns.len() {
        Ok(table)
    } else {
        proof {
            assert(am[k as int] == anns@[k as int]@);
        }
        let step: Result<MappingTable, Diag> = match &anns[k] {
            VariantAnnotation::Nothing { span } => {
                if single {
                    proof {
                        assert(cm[0] == conts@[0]@);
                    }
                    let c0 = conts[0].ident.duplicate();
                    process_pairing(v, &c0, &v.ident, *span, conts, env, dir, table)
                } else {
                    Err(
                        Diag {
                            span: *span,
                            kind: match dir {
                                Direction::FromSources => DiagKind::AmbiguousSource,
                                Direction::IntoTargets => DiagKind::AmbiguousTarget,
                            },
                        },
                    )
                }
            },
            VariantAnnotation::EnumOnly { span, enum_ident } => process_pairing(
                v,
                enum_ident,
                &v.ident,
                *span,
                conts,
                env,
                dir,
                table,
            ),
            VariantAnnotation::EnumVariant { span, enum_ident, variant_ident } => process_pairing(
                v,
                enum_ident,
                variant_ident,
                *span,
                conts,
                env,
                dir,
                table,
            ),
        };
        match step {
            Err(e) => Err(e),
            Ok(t2) => process_anns(v, k + 1, conts, single, env, dir, t2),
        }
    }
}

fn process_variant(
    v: &ParsedVariant,
    conts: &Vec<ContainerAnnotation>,
    single: bool,
    env: Option<&Vec<SourceEnumDecl>>,
    dir: Direction,
    table: MappingTable,
) -> (r: Result<MappingTable, Diag>)
    requires
        single ==> conts@.len() >= 1,
    ensures
        (match r {
            Ok(t2) => spec_process_variant(
                v@,
                views_of(conts@),
                single,
                env_view(env),
                dir,
                table@,
            ) == Ok::<_, DiagModel>(t2@),
            Err(e) => spec_process_variant(
                v@,
                views_of(conts@),
                single,
                env_view(env),
                dir,
                table@,
            ) == Err::<MappingTableModel, _>(e@),
        }),
{
    let ghost cm = views_of(conts@);
    let after: Result<MappingTable, Diag> = if v.annotations.variant_annotations.len() == 0 {
        if default_applies(v, conts, single, env, dir) {
            proof {
                assert(cm[0] == conts@[0]@);
            }
            let c0 = conts[0].ident.duplicate();
            let sp0 = conts[0].span;
            process_pairing(v, &c0, &v.ident, sp0, conts, env, dir, table)
        } else {
            Ok(table)
        }
    } else {
        process_anns(v, 0, conts, single, env, dir, table)
    };
    match after {
        Err(e) => Err(e),
        Ok(t2) => match check_unused(v, conts, single, env, dir) {
            Some(d) => Err(d),
            None => Ok(t2),
        },
    }
}

fn resolve_variants(
    vs: &Vec<ParsedVariant>,
    i: usize,
    conts: &Vec<ContainerAnnotation>,
    single: bool,
    env: Option<&Vec<SourceEnumDecl>>,
    dir: Direction,
    table: MappingTable,
) -> (r: Result<MappingTable, Diag>)
    requires
        single ==> conts@.len() >= 1,
    ensures
        (match r {
            Ok(t2) => spec_resolve_variants(
                views_of(vs@),
                i as int,
                views_of(conts@),
                single,
                env_view(env),
                dir,
                table@,
            ) == Ok::<_, DiagModel>(t2@),
            Err(e) => spec_resolve_variants(
                views_of(vs@),
                i as int,
                views_of(conts@),
                single,
                env_view(env),
                dir,
                table@,
            ) == Err::<MappingTableModel, _>(e@),
        }),
    decreases vs@.len() - i,
{
    let ghost vm = views_of(vs@);
    if i >= vs.len() {
        Ok(table)
    } else {
        proof {
            assert(vm[i as int] == vs@[i as int]@);
        }
        match process_variant(&vs[i], conts, single, env, dir, table) {
            Err(e) => Err(e),
            Ok(t2) => resolve_variants(vs, i + 1, conts, single, env, dir, t2),
        }
    }
}

/// Resolve one parsed declaration into the mapping table, or the first
/// diagnostic in declaration order.
pub(crate) fn resolve_decl(
    containers: &Vec<ContainerAnnotation>,
    variants: &Vec<ParsedVariant>,
    derive_span: Span,
    env: Option<&Vec<SourceEnumDecl>>,
    dir: Direction,
) -> (r: Result<MappingTable, Diag>)
    ensures
        (match r {
            Ok(t) => spec_resolve(
                views_of(containers@),
                views_of(variants@),
                derive_span,
                env_view(env),
                dir,
            ) == Ok::<_, DiagModel>(t@),
            Err(e) => spec_resolve(
                views_of(containers@),
                views_of(variants@),
                derive_span,
                env_view(env),
                dir,
            ) == Err::<MappingTableModel, _>(e@),
        }),
{
    let ghost cm = views_of(containers@);
    if containers.len() == 0 {
        Err(Diag { span: derive_span, kind: DiagKind::MissingAnnotation })
    } else {
        let conts = dedup_containers(containers, 0);
        let single = containers.len() == 1;
        proof {
            if single {
                assert(!contains_container(cm.take(0), cm[0].ident));
                assert(spec_dedup_containers(cm, 1) =~= Seq::<ContainerAnnotationModel>::empty());
                assert(spec_dedup_containers(cm, 0) =~= seq![cm[0]] + spec_dedup_containers(
                    cm,
                    1,
                ));
            }
        }
        let envcheck: Option<Diag> = match env {
            Some(e) => env_missing_check(&conts, e, 0),
            None => None,
        };
        match envcheck {
            Some(d) => Err(d),
            None => {
                let t0 = init_table(&conts);
                resolve_variants(variants, 0, &conts, single, env, dir, t0)
            },
        }
    }
}

} // verus!
