//! The engine's laws: properties of resolution and emission that hold for
//! every declaration, stated and proved over the same specification
//! functions the executable code is verified against.

use vstd::prelude::*;

use crate::annot::ContainerAnnotationModel;
use crate::annot::FieldAnnotationsModel;
use crate::annot::NamedFieldAnnotationsModel;
use crate::annot::ParsedFieldsModel;
use crate::annot::ParsedVariantModel;
use crate::decl::SourceEnumDeclModel;
use crate::diag::DiagKindModel;
use crate::diag::DiagModel;
use crate::idents::FieldRefModel;
use crate::idents::Span;
use crate::mapping::MappingTableModel;
use crate::resolve::Direction;
use crate::resolve::ExtractedModel;
use crate::resolve::spec_build_table;
use crate::resolve::spec_collect;
use crate::resolve::spec_collect_struct;
use crate::resolve::spec_collect_tuple;
use crate::resolve::spec_dedup_containers;
use crate::resolve::spec_find_own;
use crate::resolve::spec_find_pos_ann;
use crate::resolve::spec_find_named_ann;
use crate::resolve::spec_matching;
use crate::resolve::spec_missing_struct;
use crate::resolve::spec_missing_tuple;
use crate::resolve::spec_pairing_of_ann;
use crate::resolve::spec_process_anns;
use crate::resolve::spec_process_pairing;
use crate::resolve::spec_process_variant;
use crate::resolve::spec_resolve;
use crate::resolve::spec_resolve_variants;
use crate::resolve::spec_variant_claims;

verus! {

// ----------------------------------------------------------------------------
// Determinism. Resolution and emission are functions of the declaration
// set alone: the same declarations always give byte-for-byte the same
// mapping table and the same conversion plans.
// ----------------------------------------------------------------------------

/// Resolving one declaration set twice gives identical results: the result
/// is a function of the declared containers, variants, derive site and
/// environment, and of nothing else.
pub proof fn lemma_resolution_deterministic(
    containers: Seq<ContainerAnnotationModel>,
    variants: Seq<ParsedVariantModel>,
    derive_span: Span,
    env: Option<Seq<SourceEnumDeclModel>>,
    dir: Direction,
)
    ensures
        spec_resolve(containers, variants, derive_span, env, dir) == spec_resolve(
            containers,
            variants,
            derive_span,
            env,
            dir,
        ),
{
}

/// Emitting one table twice gives identical plan sets.
pub proof fn lemma_emission_deterministic(
    table: MappingTableModel,
    own: Seq<char>,
    dir: Direction,
)
    ensures
        crate::emit::spec_generate(table, own, dir) == crate::emit::spec_generate(
            table,
            own,
            dir,
        ),
{
}

// ----------------------------------------------------------------------------
// Duplicate field mappings are fatal.
// ----------------------------------------------------------------------------

/// Whether some field of the variant carries two or more mapping
/// references to the pairing `(c, w)`.
pub open spec fn has_duplicate_for(
    fields: ParsedFieldsModel,
    c: Seq<char>,
    w: Seq<char>,
) -> bool {
    match fields {
        ParsedFieldsModel::Unit => false,
        ParsedFieldsModel::Tuple(fs) => exists|i: int|
            0 <= i < fs.len() && spec_matching(fs[i].fields_annotations, c, w, 0).len() >= 2,
        ParsedFieldsModel::Struct(fs) => exists|i: int|
            0 <= i < fs.len() && spec_matching(
                fs[i].annotations.fields_annotations,
                c,
                w,
                0,
            ).len() >= 2,
    }
}

proof fn lemma_collect_tuple_duplicate(
    fs: Seq<FieldAnnotationsModel>,
    c: Seq<char>,
    w: Seq<char>,
    k: int,
)
    requires
        0 <= k,
        exists|i: int|
            k <= i < fs.len() && spec_matching(fs[i].fields_annotations, c, w, 0).len() >= 2,
    ensures
        spec_collect_tuple(fs, c, w, k) is Err,
        spec_collect_tuple(fs, c, w, k)->Err_0.kind == (DiagKindModel::DuplicateFieldMapping {
            container: c,
        }),
    decreases fs.len() - k,
{
    if spec_matching(fs[k].fields_annotations, c, w, 0).len() >= 2 {
    } else {
        let i = choose|i: int|
            k <= i < fs.len() && spec_matching(fs[i].fields_annotations, c, w, 0).len() >= 2;
        assert(k + 1 <= i < fs.len());
        lemma_collect_tuple_duplicate(fs, c, w, k + 1);
    }
}

proof fn lemma_collect_struct_duplicate(
    fs: Seq<NamedFieldAnnotationsModel>,
    c: Seq<char>,
    w: Seq<char>,
    k: int,
)
    requires
        0 <= k,
        exists|i: int|
            k <= i < fs.len() && spec_matching(
                fs[i].annotations.fields_annotations,
                c,
                w,
                0,
            ).len() >= 2,
    ensures
        spec_collect_struct(fs, c, w, k) is Err,
        spec_collect_struct(fs, c, w, k)->Err_0.kind == (DiagKindModel::DuplicateFieldMapping {
            container: c,
        }),
    decreases fs.len() - k,
{
    if spec_matching(fs[k].annotations.fields_annotations, c, w, 0).len() >= 2 {
    } else {
        let i = choose|i: int|
            k <= i < fs.len() && spec_matching(
                fs[i].annotations.fields_annotations,
                c,
                w,
                0,
            ).len() >= 2;
        assert(k + 1 <= i < fs.len());
        lemma_collect_struct_duplicate(fs, c, w, k + 1);
    }
}

/// Two or more mapping references from one field to one pairing make the
/// collection of that pairing's field annotations fail with
/// `DuplicateFieldMapping` naming the paired union.
pub proof fn lemma_duplicate_field_mapping(fields: ParsedFieldsModel, c: Seq<char>, w: Seq<char>)
    requires
        has_duplicate_for(fields, c, w),
    ensures
        spec_collect(fields, c, w) is Err,
        spec_collect(fields, c, w)->Err_0.kind == (DiagKindModel::DuplicateFieldMapping {
            container: c,
        }),
{
    match fields {
        ParsedFieldsModel::Unit => {},
        ParsedFieldsModel::Tuple(fs) => lemma_collect_tuple_duplicate(fs, c, w, 0),
        ParsedFieldsModel::Struct(fs) => lemma_collect_struct_duplicate(fs, c, w, 0),
    }
}

proof fn lemma_process_pairing_err_on_duplicate(
    v: ParsedVariantModel,
    c: Seq<char>,
    w: Seq<char>,
    sp: Span,
    conts: Seq<ContainerAnnotationModel>,
    env: Option<Seq<SourceEnumDeclModel>>,
    dir: Direction,
    table: MappingTableModel,
)
    requires
        has_duplicate_for(v.annotations.fields_annotations, c, w),
    ensures
        spec_process_pairing(v, c, w, sp, conts, env, dir, table) is Err,
{
    if crate::resolve::contains_container(conts, c) {
        let envfail = match env {
            Some(e) => !crate::resolve::spec_env_has_variant(e, c, w),
            None => false,
        };
        if !envfail {
            lemma_duplicate_field_mapping(v.annotations.fields_annotations, c, w);
        }
    }
}

proof fn lemma_process_anns_err(
    v: ParsedVariantModel,
    k0: int,
    conts: Seq<ContainerAnnotationModel>,
    single: bool,
    env: Option<Seq<SourceEnumDeclModel>>,
    dir: Direction,
    table: MappingTableModel,
    k: int,
    c: Seq<char>,
    w: Seq<char>,
)
    requires
        0 <= k0 <= k < v.annotations.variant_annotations.len(),
        spec_pairing_of_ann(v.annotations.variant_annotations[k], v.ident, conts, single)
            == Some((c, w)),
        has_duplicate_for(v.annotations.fields_annotations, c, w),
    ensures
        spec_process_anns(v, k0, conts, single, env, dir, table) is Err,
    decreases k - k0,
{
    let a = v.annotations.variant_annotations[k0];
    if k0 == k {
        match a {
            crate::annot::VariantAnnotationModel::Nothing { span } => {
                if single {
                    lemma_process_pairing_err_on_duplicate(
                        v,
                        conts[0].ident,
                        v.ident,
                        span,
                        conts,
                        env,
                        dir,
                        table,
                    );
                }
            },
            crate::annot::VariantAnnotationModel::EnumOnly { span, enum_ident } => {
                lemma_process_pairing_err_on_duplicate(
                    v,
                    enum_ident,
                    v.ident,
                    span,
                    conts,
                    env,
                    dir,
                    table,
                );
            },
            crate::annot::VariantAnnotationModel::EnumVariant {
                span,
                enum_ident,
                variant_ident,
            } => {
                lemma_process_pairing_err_on_duplicate(
                    v,
                    enum_ident,
                    variant_ident,
                    span,
                    conts,
                    env,
                    dir,
                    table,
                );
            },
        }
    } else {
        let step = match a {
            crate::annot::VariantAnnotationModel::Nothing { span } => {
                if single {
                    spec_process_pairing(v, conts[0].ident, v.ident, span, conts, env, dir, table)
                } else {
                    Err(
                        DiagModel {
                            span,
                            kind: if dir is FromSources {
                                DiagKindModel::AmbiguousSource
                            } else {
                                DiagKindModel::AmbiguousTarget
                            },
                        },
                    )
                }
            },
            crate::annot::VariantAnnotationModel::EnumOnly { span, enum_ident } => (
                spec_process_pairing(v, enum_ident, v.ident, span, conts, env, dir, table)
            ),
            crate::annot::VariantAnnotationModel::EnumVariant {
                span,
                enum_ident,
                variant_ident,
            } => spec_process_pairing(v, enum_ident, variant_ident, span, conts, env, dir, table),
        };
        match step {
            Err(_) => {},
            Ok(t2) => {
                lemma_process_anns_err(v, k0 + 1, conts, single, env, dir, t2, k, c, w);
            },
        }
    }
}

proof fn lemma_process_variant_err_on_duplicate(
    v: ParsedVariantModel,
    conts: Seq<ContainerAnnotationModel>,
    single: bool,
    env: Option<Seq<SourceEnumDeclModel>>,
    dir: Direction,
    table: MappingTableModel,
    c: Seq<char>,
    w: Seq<char>,
)
    requires
        spec_variant_claims(v, conts, single, env, dir, c, w),
        has_duplicate_for(v.annotations.fields_annotations, c, w),
    ensures
        spec_process_variant(v, conts, single, env, dir, table) is Err,
{
    if v.annotations.variant_annotations.len() == 0 {
        assert(crate::resolve::spec_default_applies(v, conts, single, env, dir) && c == conts[0]
            .ident && w == v.ident);
        lemma_process_pairing_err_on_duplicate(
            v,
            conts[0].ident,
            v.ident,
            conts[0].span,
            conts,
            env,
            dir,
            table,
        );
    } else {
        let k = choose|k: int|
            0 <= k < v.annotations.variant_annotations.len() && spec_pairing_of_ann(
                v.annotations.variant_annotations[k],
                v.ident,
                conts,
                single,
            ) == Some((c, w));
        lemma_process_anns_err(v, 0, conts, single, env, dir, table, k, c, w);
    }
}

proof fn lemma_resolve_variants_err(
    vs: Seq<ParsedVariantModel>,
    i: int,
    conts: Seq<ContainerAnnotationModel>,
    single: bool,
    env: Option<Seq<SourceEnumDeclModel>>,
    dir: Direction,
    table: MappingTableModel,
    j: int,
    c: Seq<char>,
    w: Seq<char>,
)
    requires
        0 <= i <= j < vs.len(),
        spec_variant_claims(vs[j], conts, single, env, dir, c, w),
        has_duplicate_for(vs[j].annotations.fields_annotations, c, w),
    ensures
        spec_resolve_variants(vs, i, conts, single, env, dir, table) is Err,
    decreases j - i,
{
    if i == j {
        lemma_process_variant_err_on_duplicate(vs[i], conts, single, env, dir, table, c, w);
    } else {
        match spec_process_variant(vs[i], conts, single, env, dir, table) {
            Err(_) => {},
            Ok(t2) => {
                lemma_resolve_variants_err(vs, i + 1, conts, single, env, dir, t2, j, c, w);
            },
        }
    }
}

/// For every declaration in which some variant claims a pairing while one
/// of its fields carries two or more mapping references to that same
/// pairing, resolution fails: no mapping table is produced.
pub proof fn lemma_duplicate_field_mapping_fails(
    containers: Seq<ContainerAnnotationModel>,
    variants: Seq<ParsedVariantModel>,
    derive_span: Span,
    env: Option<Seq<SourceEnumDeclModel>>,
    dir: Direction,
    j: int,
    c: Seq<char>,
    w: Seq<char>,
)
    requires
        0 <= j < variants.len(),
        spec_variant_claims(
            variants[j],
            spec_dedup_containers(containers, 0),
            containers.len() == 1,
            env,
            dir,
            c,
            w,
        ),
        has_duplicate_for(variants[j].annotations.fields_annotations, c, w),
    ensures
        spec_resolve(containers, variants, derive_span, env, dir) is Err,
{
    if containers.len() == 0 {
    } else {
        let conts = spec_dedup_containers(containers, 0);
        let single = containers.len() == 1;
        let envcheck = match env {
            Some(e) => crate::resolve::spec_env_missing(conts, e, 0),
            None => None,
        };
        match envcheck {
            Some(_) => {},
            None => {
                lemma_resolve_variants_err(
                    variants,
                    0,
                    conts,
                    single,
                    env,
                    dir,
                    crate::resolve::spec_init_table(conts),
                    j,
                    c,
                    w,
                );
            },
        }
    }
}

// ----------------------------------------------------------------------------
// Cross-shape pairings demand totality.
// ----------------------------------------------------------------------------

proof fn lemma_missing_tuple_some(
    fs: Seq<FieldAnnotationsModel>,
    ex: Seq<ExtractedModel>,
    c: Seq<char>,
    w: Seq<char>,
    k: int,
)
    requires
        0 <= k,
        exists|j: int|
            k <= j < fs.len() && #[trigger] spec_find_own(ex, FieldRefModel::Pos(j as usize), 0) is None,
    ensures
        spec_missing_tuple(fs, ex, c, w, k) is Some,
        spec_missing_tuple(fs, ex, c, w, k)->0.kind matches DiagKindModel::MissingFieldAnnotation {
            container: mc,
            variant: mv,
            field: _,
        } && mc == c && mv == w,
    decreases fs.len() - k,
{
    if spec_find_own(ex, FieldRefModel::Pos(k as usize), 0) is None {
    } else {
        let j = choose|j: int|
            k <= j < fs.len() && #[trigger] spec_find_own(ex, FieldRefModel::Pos(j as usize), 0) is None;
        assert(k + 1 <= j < fs.len());
        lemma_missing_tuple_some(fs, ex, c, w, k + 1);
    }
}

proof fn lemma_missing_struct_some(
    fs: Seq<NamedFieldAnnotationsModel>,
    ex: Seq<ExtractedModel>,
    c: Seq<char>,
    w: Seq<char>,
    k: int,
)
    requires
        0 <= k,
        exists|j: int|
            k <= j < fs.len() && spec_find_own(ex, FieldRefModel::Name(fs[j].ident), 0) is None,
    ensures
        spec_missing_struct(fs, ex, c, w, k) is Some,
        spec_missing_struct(fs, ex, c, w, k)->0.kind matches DiagKindModel::MissingFieldAnnotation {
            container: mc,
            variant: mv,
            field: _,
        } && mc == c && mv == w,
    decreases fs.len() - k,
{
    if spec_find_own(ex, FieldRefModel::Name(fs[k].ident), 0) is None {
    } else {
        let j = choose|j: int|
            k <= j < fs.len() && spec_find_own(ex, FieldRefModel::Name(fs[j].ident), 0) is None;
        assert(k + 1 <= j < fs.len());
        lemma_missing_struct_some(fs, ex, c, w, k + 1);
    }
}

/// A cross-shape pairing of an own tuple variant with struct fields that
/// leaves any slot unannotated fails with `MissingFieldAnnotation` for that
/// pairing, provided no selected annotation also mixes in a positional
/// reference (which is the other, inconsistency failure).
pub proof fn lemma_missing_field_annotation_tuple(
    fs: Seq<FieldAnnotationsModel>,
    ex: Seq<ExtractedModel>,
    c: Seq<char>,
    w: Seq<char>,
)
    requires
        ex.len() > 0,
        ex[0].ann.field is Name,
        spec_find_pos_ann(ex, 0) is None,
        exists|j: int|
            0 <= j < fs.len() && #[trigger] spec_find_own(ex, FieldRefModel::Pos(j as usize), 0) is None,
    ensures
        spec_build_table(ParsedFieldsModel::Tuple(fs), ex, c, w) is Err,
        spec_build_table(
            ParsedFieldsModel::Tuple(fs),
            ex,
            c,
            w,
        )->Err_0.kind matches DiagKindModel::MissingFieldAnnotation {
            container: mc,
            variant: mv,
            field: _,
        } && mc == c && mv == w,
{
    lemma_missing_tuple_some(fs, ex, c, w, 0);
}

/// A cross-shape pairing of an own struct variant with positional fields
/// that leaves any named field unannotated fails with
/// `MissingFieldAnnotation` for that pairing, provided no selected
/// annotation also mixes in a named reference.
pub proof fn lemma_missing_field_annotation_struct(
    fs: Seq<NamedFieldAnnotationsModel>,
    ex: Seq<ExtractedModel>,
    c: Seq<char>,
    w: Seq<char>,
)
    requires
        ex.len() > 0,
        ex[0].ann.field is Pos,
        spec_find_named_ann(ex, 0) is None,
        exists|j: int|
            0 <= j < fs.len() && spec_find_own(ex, FieldRefModel::Name(fs[j].ident), 0) is None,
    ensures
        spec_build_table(ParsedFieldsModel::Struct(fs), ex, c, w) is Err,
        spec_build_table(
            ParsedFieldsModel::Struct(fs),
            ex,
            c,
            w,
        )->Err_0.kind matches DiagKindModel::MissingFieldAnnotation {
            container: mc,
            variant: mv,
            field: _,
        } && mc == c && mv == w,
{
    lemma_missing_struct_some(fs, ex, c, w, 0);
}

} // verus!

verus! {

// ----------------------------------------------------------------------------
// Default resolution is the identity.
// ----------------------------------------------------------------------------

/// A variant that carries no annotations at all, neither on itself nor on
/// any of its fields.
pub open spec fn unannotated(v: ParsedVariantModel) -> bool {
    &&& v.annotations.variant_annotations.len() == 0
    &&& match v.annotations.fields_annotations {
        ParsedFieldsModel::Unit => true,
        ParsedFieldsModel::Tuple(fs) => forall|i: int|
            0 <= i < fs.len() ==> #[trigger] fs[i].fields_annotations.len() == 0,
        ParsedFieldsModel::Struct(fs) => forall|i: int|
            0 <= i < fs.len() ==> #[trigger] fs[i].annotations.fields_annotations.len() == 0,
    }
}

/// The identity field table of a shape: each slot to the same slot, each
/// named field to the same name.
pub open spec fn identity_table(fields: ParsedFieldsModel) -> crate::mapping::FieldTableModel {
    match fields {
        ParsedFieldsModel::Unit => crate::mapping::FieldTableModel::Unit,
        ParsedFieldsModel::Tuple(fs) => crate::mapping::FieldTableModel::BothTuple(
            Seq::new(fs.len(), |j: int| j as usize),
        ),
        ParsedFieldsModel::Struct(fs) => crate::mapping::FieldTableModel::BothStruct(
            Seq::new(fs.len(), |j: int| (fs[j].ident, fs[j].ident)),
        ),
    }
}

/// The identity mapping entries of the first `i` variants, one entry per
/// variant in declaration order.
pub open spec fn identity_entries(vs: Seq<ParsedVariantModel>, i: int) -> Seq<
    crate::mapping::MappingEntryModel,
> {
    Seq::new(
        i as nat,
        |k: int| crate::mapping::MappingEntryModel {
            paired_variant: vs[k].ident,
            mappings: seq![
                crate::mapping::VariantMappingModel {
                    own_variant: vs[k].ident,
                    fields: identity_table(vs[k].annotations.fields_annotations),
                },
            ],
        },
    )
}

/// The table that default resolution of a fully unannotated declaration
/// produces: one identity mapping per variant, under the sole paired
/// union.
pub open spec fn identity_resolution_table(
    c0: Seq<char>,
    vs: Seq<ParsedVariantModel>,
) -> MappingTableModel {
    MappingTableModel {
        containers: seq![
            crate::mapping::ContainerMappingModel {
                container: c0,
                entries: identity_entries(vs, vs.len() as int),
            },
        ],
    }
}

proof fn lemma_collect_tuple_empty(
    fs: Seq<FieldAnnotationsModel>,
    c: Seq<char>,
    w: Seq<char>,
    k: int,
)
    requires
        0 <= k,
        forall|i: int| 0 <= i < fs.len() ==> #[trigger] fs[i].fields_annotations.len() == 0,
    ensures
        spec_collect_tuple(fs, c, w, k) == Ok::<_, DiagModel>(Seq::<ExtractedModel>::empty()),
    decreases fs.len() - k,
{
    if k >= fs.len() {
        assert(spec_collect_tuple(fs, c, w, k) == Ok::<_, DiagModel>(
            Seq::<ExtractedModel>::empty(),
        ));
    } else {
        assert(spec_matching(fs[k].fields_annotations, c, w, 0) =~= Seq::<
            crate::annot::FieldAnnotationModel,
        >::empty());
        lemma_collect_tuple_empty(fs, c, w, k + 1);
    }
}

proof fn lemma_collect_struct_empty(
    fs: Seq<NamedFieldAnnotationsModel>,
    c: Seq<char>,
    w: Seq<char>,
    k: int,
)
    requires
        0 <= k,
        forall|i: int|
            0 <= i < fs.len() ==> #[trigger] fs[i].annotations.fields_annotations.len() == 0,
    ensures
        spec_collect_struct(fs, c, w, k) == Ok::<_, DiagModel>(Seq::<ExtractedModel>::empty()),
    decreases fs.len() - k,
{
    if k >= fs.len() {
    } else {
        assert(spec_matching(fs[k].annotations.fields_annotations, c, w, 0) =~= Seq::<
            crate::annot::FieldAnnotationModel,
        >::empty());
        lemma_collect_struct_empty(fs, c, w, k + 1);
    }
}

proof fn lemma_build_table_identity(fields: ParsedFieldsModel, c: Seq<char>, w: Seq<char>)
    ensures
        spec_build_table(fields, Seq::<ExtractedModel>::empty(), c, w) == Ok::<_, DiagModel>(
            identity_table(fields),
        ),
{
    let ex = Seq::<ExtractedModel>::empty();
    match fields {
        ParsedFieldsModel::Unit => {},
        ParsedFieldsModel::Tuple(fs) => {
            assert(crate::resolve::spec_both_tuple(ex, fs.len() as int) =~= Seq::new(
                fs.len(),
                |j: int| j as usize,
            ));
        },
        ParsedFieldsModel::Struct(fs) => {
            assert(crate::resolve::spec_both_struct(fs, ex) =~= Seq::new(
                fs.len(),
                |j: int| (fs[j].ident, fs[j].ident),
            ));
        },
    }
}

proof fn lemma_unused_tuple_none(
    fs: Seq<FieldAnnotationsModel>,
    v: ParsedVariantModel,
    conts: Seq<ContainerAnnotationModel>,
    single: bool,
    env: Option<Seq<SourceEnumDeclModel>>,
    dir: Direction,
    k: int,
)
    requires
        0 <= k,
        forall|i: int| 0 <= i < fs.len() ==> #[trigger] fs[i].fields_annotations.len() == 0,
    ensures
        crate::resolve::spec_unused_tuple(fs, v, conts, single, env, dir, k) is None,
    decreases fs.len() - k,
{
    if k >= fs.len() {
    } else {
        lemma_unused_tuple_none(fs, v, conts, single, env, dir, k + 1);
    }
}

proof fn lemma_unused_struct_none(
    fs: Seq<NamedFieldAnnotationsModel>,
    v: ParsedVariantModel,
    conts: Seq<ContainerAnnotationModel>,
    single: bool,
    env: Option<Seq<SourceEnumDeclModel>>,
    dir: Direction,
    k: int,
)
    requires
        0 <= k,
        forall|i: int|
            0 <= i < fs.len() ==> #[trigger] fs[i].annotations.fields_annotations.len() == 0,
    ensures
        crate::resolve::spec_unused_struct(fs, v, conts, single, env, dir, k) is None,
    decreases fs.len() - k,
{
    if k >= fs.len() {
    } else {
        lemma_unused_struct_none(fs, v, conts, single, env, dir, k + 1);
    }
}

proof fn lemma_find_entry_none(entries: Seq<crate::mapping::MappingEntryModel>, w: Seq<char>, k: int)
    requires
        0 <= k,
        forall|t: int| k <= t < entries.len() ==> #[trigger] entries[t].paired_variant != w,
    ensures
        crate::resolve::spec_find_entry(entries, w, k) is None,
    decreases entries.len() - k,
{
    if k >= entries.len() {
    } else {
        lemma_find_entry_none(entries, w, k + 1);
    }
}

proof fn lemma_process_variant_identity(
    v: ParsedVariantModel,
    conts: Seq<ContainerAnnotationModel>,
    env: Option<Seq<SourceEnumDeclModel>>,
    dir: Direction,
    entries: Seq<crate::mapping::MappingEntryModel>,
)
    requires
        conts.len() == 1,
        unannotated(v),
        match env {
            Some(e) => crate::resolve::spec_env_has_variant(e, conts[0].ident, v.ident),
            None => true,
        },
        forall|t: int| 0 <= t < entries.len() ==> #[trigger] entries[t].paired_variant != v.ident,
    ensures
        spec_process_variant(
            v,
            conts,
            true,
            env,
            dir,
            MappingTableModel {
                containers: seq![
                    crate::mapping::ContainerMappingModel { container: conts[0].ident, entries },
                ],
            },
        ) == Ok::<_, DiagModel>(
            MappingTableModel {
                containers: seq![
                    crate::mapping::ContainerMappingModel {
                        container: conts[0].ident,
                        entries: entries.push(
                            crate::mapping::MappingEntryModel {
                                paired_variant: v.ident,
                                mappings: seq![
                                    crate::mapping::VariantMappingModel {
                                        own_variant: v.ident,
                                        fields: identity_table(v.annotations.fields_annotations),
                                    },
                                ],
                            },
                        ),
                    },
                ],
            },
        ),
{
    let c0 = conts[0].ident;
    let table = MappingTableModel {
        containers: seq![
            crate::mapping::ContainerMappingModel { container: c0, entries },
        ],
    };
    assert(crate::resolve::spec_default_applies(v, conts, true, env, dir));
    assert(crate::resolve::contains_container(conts, c0)) by {
        assert(conts[0].ident == c0);
    }
    match v.annotations.fields_annotations {
        ParsedFieldsModel::Unit => {},
        ParsedFieldsModel::Tuple(fs) => lemma_collect_tuple_empty(fs, c0, v.ident, 0),
        ParsedFieldsModel::Struct(fs) => lemma_collect_struct_empty(fs, c0, v.ident, 0),
    }
    assert(spec_collect(v.annotations.fields_annotations, c0, v.ident) == Ok::<_, DiagModel>(
        Seq::<ExtractedModel>::empty(),
    ));
    lemma_build_table_identity(v.annotations.fields_annotations, c0, v.ident);
    let m = crate::mapping::VariantMappingModel {
        own_variant: v.ident,
        fields: identity_table(v.annotations.fields_annotations),
    };
    lemma_find_entry_none(entries, v.ident, 0);
    let inserted = crate::resolve::spec_insert(table, c0, v.ident, m, dir);
    assert(crate::resolve::spec_find_container(table.containers, c0, 0) == Some(0int));
    assert(inserted.containers =~= seq![
        crate::mapping::ContainerMappingModel {
            container: c0,
            entries: entries.push(
                crate::mapping::MappingEntryModel { paired_variant: v.ident, mappings: seq![m] },
            ),
        },
    ]);
    match v.annotations.fields_annotations {
        ParsedFieldsModel::Unit => {},
        ParsedFieldsModel::Tuple(fs) => lemma_unused_tuple_none(fs, v, conts, true, env, dir, 0),
        ParsedFieldsModel::Struct(fs) => lemma_unused_struct_none(fs, v, conts, true, env, dir, 0),
    }
}

proof fn lemma_resolve_variants_identity(
    vs: Seq<ParsedVariantModel>,
    i: int,
    conts: Seq<ContainerAnnotationModel>,
    env: Option<Seq<SourceEnumDeclModel>>,
    dir: Direction,
)
    requires
        0 <= i <= vs.len(),
        conts.len() == 1,
        forall|k: int| 0 <= k < vs.len() ==> unannotated(#[trigger] vs[k]),
        forall|k: int, t: int| 0 <= k < t < vs.len() ==> vs[k].ident != vs[t].ident,
        match env {
            Some(e) => forall|k: int|
                0 <= k < vs.len() ==> crate::resolve::spec_env_has_variant(
                    e,
                    conts[0].ident,
                    #[trigger] vs[k].ident,
                ),
            None => true,
        },
    ensures
        spec_resolve_variants(
            vs,
            i,
            conts,
            true,
            env,
            dir,
            MappingTableModel {
                containers: seq![
                    crate::mapping::ContainerMappingModel {
                        container: conts[0].ident,
                        entries: identity_entries(vs, i),
                    },
                ],
            },
        ) == Ok::<_, DiagModel>(identity_resolution_table(conts[0].ident, vs)),
    decreases vs.len() - i,
{
    if i >= vs.len() {
        assert(identity_entries(vs, i) =~= identity_entries(vs, vs.len() as int));
    } else {
        assert(forall|t: int|
            0 <= t < identity_entries(vs, i).len() ==> #[trigger] identity_entries(
                vs,
                i,
            )[t].paired_variant != vs[i].ident);
        lemma_process_variant_identity(vs[i], conts, env, dir, identity_entries(vs, i));
        assert(identity_entries(vs, i).push(
            crate::mapping::MappingEntryModel {
                paired_variant: vs[i].ident,
                mappings: seq![
                    crate::mapping::VariantMappingModel {
                        own_variant: vs[i].ident,
                        fields: identity_table(vs[i].annotations.fields_annotations),
                    },
                ],
            },
        ) =~= identity_entries(vs, i + 1));
        lemma_resolve_variants_identity(vs, i + 1, conts, env, dir);
    }
}

/// Default resolution is the identity: with exactly one paired union
/// declared, no annotations anywhere, distinct variant names, and (for an
/// incoming conversion) a source union that declares every one of those
/// variant names, resolution succeeds with exactly one mapping per variant
/// whose field table is the identity, by position for tuple shapes and by
/// name for struct shapes.
pub proof fn lemma_identity_resolution(
    containers: Seq<ContainerAnnotationModel>,
    variants: Seq<ParsedVariantModel>,
    derive_span: Span,
    env: Option<Seq<SourceEnumDeclModel>>,
    dir: Direction,
)
    requires
        containers.len() == 1,
        forall|k: int| 0 <= k < variants.len() ==> unannotated(#[trigger] variants[k]),
        forall|k: int, t: int| 0 <= k < t < variants.len() ==> variants[k].ident != variants[t].ident,
        match env {
            Some(e) => {
                &&& crate::resolve::spec_env_lookup(e, containers[0].ident, 0) is Some
                &&& forall|k: int|
                    0 <= k < variants.len() ==> crate::resolve::spec_env_has_variant(
                        e,
                        containers[0].ident,
                        #[trigger] variants[k].ident,
                    )
            },
            None => true,
        },
    ensures
        spec_resolve(containers, variants, derive_span, env, dir) == Ok::<_, DiagModel>(
            identity_resolution_table(containers[0].ident, variants),
        ),
{
    let conts = spec_dedup_containers(containers, 0);
    assert(!crate::resolve::contains_container(containers.take(0), containers[0].ident));
    assert(spec_dedup_containers(containers, 1) =~= Seq::<ContainerAnnotationModel>::empty());
    assert(conts =~= seq![containers[0]]);
    match env {
        Some(e) => {
            assert(crate::resolve::spec_env_missing(conts, e, 1) is None);
            assert(crate::resolve::spec_env_missing(conts, e, 0) is None);
        },
        None => {},
    }
    let t0 = crate::resolve::spec_init_table(conts);
    assert(t0.containers =~= seq![
        crate::mapping::ContainerMappingModel {
            container: conts[0].ident,
            entries: Seq::<crate::mapping::MappingEntryModel>::empty(),
        },
    ]);
    assert(identity_entries(variants, 0) =~= Seq::<crate::mapping::MappingEntryModel>::empty());
    lemma_resolve_variants_identity(variants, 0, conts, env, dir);
    assert(conts[0].ident == containers[0].ident);
}

} // verus!

verus! {

// ----------------------------------------------------------------------------
// Renames only move values; they never change them.
// ----------------------------------------------------------------------------

/// The record a struct construction builds from a source record: each
/// target field takes the source field's value, unchanged. Abstract in the
/// value type, because conversion plans carry no values.
pub open spec fn apply_struct_construction<V>(
    cons: Seq<(Seq<char>, FieldRefModel)>,
    src: Map<Seq<char>, V>,
    i: int,
) -> Map<Seq<char>, V>
    decreases cons.len() - i,
{
    if i < 0 || i >= cons.len() {
        Map::empty()
    } else {
        let rest = apply_struct_construction(cons, src, i + 1);
        match cons[i].1 {
            FieldRefModel::Name(s) => rest.insert(cons[i].0, src[s]),
            FieldRefModel::Pos(_) => rest,
        }
    }
}

/// A struct-to-struct table read in the other direction.
pub open spec fn flipped(t: Seq<(Seq<char>, Seq<char>)>) -> Seq<(Seq<char>, Seq<char>)> {
    Seq::new(t.len(), |i: int| (t[i].1, t[i].0))
}

proof fn lemma_apply_lookup<V>(
    cons: Seq<(Seq<char>, FieldRefModel)>,
    src: Map<Seq<char>, V>,
    i: int,
    j: int,
)
    requires
        0 <= i <= j < cons.len(),
        forall|k: int, l: int| 0 <= k < l < cons.len() ==> cons[k].0 != cons[l].0,
        cons[j].1 is Name,
    ensures
        apply_struct_construction(cons, src, i).dom().contains(cons[j].0),
        apply_struct_construction(cons, src, i)[cons[j].0] == src[cons[j].1->Name_0],
    decreases j - i,
{
    if i == j {
    } else {
        lemma_apply_lookup(cons, src, i + 1, j);
        assert(cons[i].0 != cons[j].0);
    }
}

/// Resolving a field-renaming pairing in the outgoing direction, and the
/// same pairing written inversely for the incoming direction, emits the
/// very same construction; and converting a record through the rename and
/// back through the inverse rename reproduces every field value exactly.
pub proof fn lemma_rename_round_trip<V>(t: Seq<(Seq<char>, Seq<char>)>, src: Map<Seq<char>, V>)
    requires
        forall|k: int, l: int| 0 <= k < l < t.len() ==> t[k].0 != t[l].0,
        forall|k: int, l: int| 0 <= k < l < t.len() ==> t[k].1 != t[l].1,
        forall|k: int| 0 <= k < t.len() ==> src.dom().contains(#[trigger] t[k].0),
    ensures
        crate::emit::named_values_from(flipped(t)) == crate::emit::named_values_into(t),
        forall|i: int|
            0 <= i < t.len() ==> #[trigger] apply_struct_construction(
                crate::emit::named_values_into(flipped(t)),
                apply_struct_construction(crate::emit::named_values_into(t), src, 0),
                0,
            )[t[i].0] == src[t[i].0],
{
    let there = crate::emit::named_values_into(t);
    let back = crate::emit::named_values_into(flipped(t));
    assert(crate::emit::named_values_from(flipped(t)) =~= there);
    let mid = apply_struct_construction(there, src, 0);
    assert forall|i: int| 0 <= i < t.len() implies #[trigger] apply_struct_construction(
        back,
        mid,
        0,
    )[t[i].0] == src[t[i].0] by {
        assert(there[i] == (t[i].1, FieldRefModel::Name(t[i].0)));
        assert(forall|k: int, l: int| 0 <= k < l < there.len() ==> there[k].0 != there[l].0);
        lemma_apply_lookup(there, src, 0, i);
        assert(mid[t[i].1] == src[t[i].0]);
        assert(back[i] == (t[i].0, FieldRefModel::Name(t[i].1)));
        assert(forall|k: int, l: int| 0 <= k < l < back.len() ==> back[k].0 != back[l].0);
        lemma_apply_lookup(back, mid, 0, i);
    }
}

} // verus!
