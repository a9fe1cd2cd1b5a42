//! End-to-end resolution and plan-emission scenarios.

use enum_convert::enum_from::parser::ParsedEnumFrom;
use enum_convert::enum_into::parser::ParsedEnumInto;
use enum_convert::decl::AnnToken;
use enum_convert::decl::AnnTokenKind;
use enum_convert::decl::AttrPayload;
use enum_convert::decl::RawAttr;
use enum_convert::decl::RawEnumDecl;
use enum_convert::decl::RawFields;
use enum_convert::decl::RawStructField;
use enum_convert::decl::RawTupleField;
use enum_convert::decl::RawVariant;
use enum_convert::decl::SourceEnumDecl;
use enum_convert::emit::ConstructionFields;
use enum_convert::emit::PatternFields;
use enum_convert::idents::ContainerIdent;
use enum_convert::idents::FieldIdent;
use enum_convert::idents::FieldRef;
use enum_convert::idents::Span;
use enum_convert::idents::VariantIdent;
use enum_convert::mapping::FieldTable;

fn sp(at: usize) -> Span {
    Span { at }
}

fn cid(name: &str) -> ContainerIdent {
    ContainerIdent { name: name.to_string() }
}

fn vid(name: &str) -> VariantIdent {
    VariantIdent { name: name.to_string() }
}

fn fid(name: &str) -> FieldIdent {
    FieldIdent { name: name.to_string() }
}

fn tok(kind: AnnTokenKind, at: usize) -> AnnToken {
    AnnToken { span: sp(at), kind }
}

fn ident_tok(name: &str, at: usize) -> AnnToken {
    tok(AnnTokenKind::Ident(name.to_string()), at)
}

fn list_attr(at: usize, toks: Vec<AnnToken>) -> RawAttr {
    RawAttr { span: sp(at), payload: AttrPayload::List(toks) }
}

fn enum_ref_toks(e: &str, at: usize) -> Vec<AnnToken> {
    vec![ident_tok(e, at)]
}

fn enum_variant_toks(e: &str, v: &str, at: usize) -> Vec<AnnToken> {
    vec![ident_tok(e, at), tok(AnnTokenKind::PathSep, at + 1), ident_tok(v, at + 2)]
}

fn field_ref_toks(e: &str, v: &str, f: &str, at: usize) -> Vec<AnnToken> {
    vec![
        ident_tok(e, at),
        tok(AnnTokenKind::PathSep, at + 1),
        ident_tok(v, at + 2),
        tok(AnnTokenKind::Dot, at + 3),
        ident_tok(f, at + 4),
    ]
}

fn field_pos_toks(e: &str, v: &str, p: usize, at: usize) -> Vec<AnnToken> {
    vec![
        ident_tok(e, at),
        tok(AnnTokenKind::PathSep, at + 1),
        ident_tok(v, at + 2),
        tok(AnnTokenKind::Dot, at + 3),
        tok(AnnTokenKind::Int(p), at + 4),
    ]
}

fn unit_variant(name: &str, attrs: Vec<RawAttr>) -> RawVariant {
    RawVariant { ident: vid(name), attrs, fields: RawFields::Unit }
}

fn tuple_variant(name: &str, attrs: Vec<RawAttr>, fields: Vec<Vec<RawAttr>>) -> RawVariant {
    let mut fs = Vec::new();
    for (i, fattrs) in fields.into_iter().enumerate() {
        fs.push(RawTupleField { span: sp(900 + i), attrs: fattrs });
    }
    RawVariant { ident: vid(name), attrs, fields: RawFields::Tuple(fs) }
}

fn struct_variant(name: &str, attrs: Vec<RawAttr>, fields: Vec<(&str, Vec<RawAttr>)>) -> RawVariant {
    let mut fs = Vec::new();
    for (i, (fname, fattrs)) in fields.into_iter().enumerate() {
        fs.push(RawStructField { ident: fid(fname), span: sp(950 + i), attrs: fattrs });
    }
    RawVariant { ident: vid(name), attrs, fields: RawFields::Struct(fs) }
}

fn decl(name: &str, attrs: Vec<RawAttr>, variants: Vec<RawVariant>) -> RawEnumDecl {
    RawEnumDecl { ident: cid(name), derive_span: sp(1), attrs, variants }
}

fn source_decl(name: &str, variants: &[&str]) -> SourceEnumDecl {
    SourceEnumDecl { ident: cid(name), variants: variants.iter().map(|v| vid(v)).collect() }
}

/// The whole-declaration scenario: a source union with a unit, a tuple and
/// a struct variant converted into a target union that also has an extra
/// variant, with no overrides anywhere, resolves to exactly the three
/// identity mappings and nothing touching the extra variant.
#[test]
fn default_into_resolves_identity_mappings() {
    let d = decl(
        "Source",
        vec![list_attr(2, enum_ref_toks("Target", 3))],
        vec![
            unit_variant("Unit", vec![]),
            tuple_variant("Tuple", vec![], vec![vec![], vec![]]),
            struct_variant("Struct", vec![], vec![("x", vec![]), ("y", vec![])]),
        ],
    );
    let impls = enum_convert::enum_into::derive_enum_into_impl(&d).unwrap();
    assert_eq!(impls.len(), 1);
    let imp = &impls[0];
    assert_eq!(imp.source_enum, cid("Source"));
    assert_eq!(imp.target_enum, cid("Target"));
    assert_eq!(imp.arms.len(), 3);

    assert_eq!(imp.arms[0].source_variant, vid("Unit"));
    assert_eq!(imp.arms[0].target_variant, vid("Unit"));
    assert_eq!(imp.arms[0].pattern, PatternFields::Unit);
    assert_eq!(imp.arms[0].construction, ConstructionFields::Unit);

    assert_eq!(imp.arms[1].source_variant, vid("Tuple"));
    assert_eq!(imp.arms[1].target_variant, vid("Tuple"));
    assert_eq!(imp.arms[1].pattern, PatternFields::Tuple { arity: 2 });
    assert_eq!(
        imp.arms[1].construction,
        ConstructionFields::Tuple { values: vec![FieldRef::FieldPos(0), FieldRef::FieldPos(1)] },
    );

    assert_eq!(imp.arms[2].source_variant, vid("Struct"));
    assert_eq!(imp.arms[2].target_variant, vid("Struct"));
    assert_eq!(
        imp.arms[2].pattern,
        PatternFields::Struct { fields: vec![fid("x"), fid("y")] },
    );
    match &imp.arms[2].construction {
        ConstructionFields::Struct { values } => {
            assert_eq!(values.len(), 2);
            assert_eq!(values[0].field, fid("x"));
            assert_eq!(values[0].value, FieldRef::FieldIdent(fid("x")));
            assert_eq!(values[1].field, fid("y"));
            assert_eq!(values[1].value, FieldRef::FieldIdent(fid("y")));
        },
        other => panic!("expected a struct construction, got {:?}", other),
    }
    for arm in &imp.arms {
        assert_ne!(arm.source_variant, vid("Extra"));
        assert_ne!(arm.target_variant, vid("Extra"));
    }
}

/// The field-rename scenario: a source struct variant with fields `x` and
/// `y` mapped through explicit field annotations onto target fields `a`
/// and `b` resolves to the rename table, not the identity.
#[test]
fn explicit_field_renames_resolve_to_rename_table() {
    let d = decl(
        "Target",
        vec![list_attr(2, enum_ref_toks("Source", 3))],
        vec![struct_variant(
            "Struct",
            vec![],
            vec![
                ("a", vec![list_attr(10, field_ref_toks("Source", "Struct", "x", 11))]),
                ("b", vec![list_attr(20, field_ref_toks("Source", "Struct", "y", 21))]),
            ],
        )],
    );
    let env = vec![source_decl("Source", &["Struct"])];
    let parsed = ParsedEnumFrom::parse(&d).unwrap();
    let gen = enum_convert::enum_from::generator::EnumFromGenerator::try_from(&parsed, &env)
        .unwrap();
    let table = gen.mappings();
    assert_eq!(table.containers.len(), 1);
    assert_eq!(table.containers[0].container, cid("Source"));
    assert_eq!(table.containers[0].entries.len(), 1);
    let entry = &table.containers[0].entries[0];
    assert_eq!(entry.paired_variant, vid("Struct"));
    assert_eq!(entry.mappings.len(), 1);
    assert_eq!(entry.mappings[0].own_variant, vid("Struct"));
    match &entry.mappings[0].fields {
        FieldTable::BothStruct { names } => {
            assert_eq!(names.len(), 2);
            assert_eq!((&names[0].own, &names[0].other), (&fid("a"), &fid("x")));
            assert_eq!((&names[1].own, &names[1].other), (&fid("b"), &fid("y")));
        },
        other => panic!("expected a struct table, got {:?}", other),
    }
}

/// The dual-source scenario: two source unions both feeding one target
/// variant through one annotation listing both produce two independent
/// mappings, one per source union.
#[test]
fn two_sources_one_target_variant_give_two_mappings() {
    let mut toks = enum_ref_toks("First", 10);
    toks.push(tok(AnnTokenKind::Comma, 11));
    toks.extend(enum_variant_toks("Second", "Empty", 12));
    let mut conts = enum_ref_toks("First", 3);
    conts.push(tok(AnnTokenKind::Comma, 4));
    conts.extend(enum_ref_toks("Second", 5));
    let d = decl(
        "Target",
        vec![list_attr(2, conts)],
        vec![unit_variant("Unit", vec![list_attr(9, toks)])],
    );
    let env = vec![source_decl("First", &["Unit"]), source_decl("Second", &["Empty"])];
    let impls = enum_convert::enum_from::derive_enum_from_impl(&d, &env).unwrap();
    assert_eq!(impls.len(), 2);
    assert_eq!(impls[0].source_enum, cid("First"));
    assert_eq!(impls[0].target_enum, cid("Target"));
    assert_eq!(impls[0].arms.len(), 1);
    assert_eq!(impls[0].arms[0].source_variant, vid("Unit"));
    assert_eq!(impls[0].arms[0].target_variant, vid("Unit"));
    assert_eq!(impls[1].source_enum, cid("Second"));
    assert_eq!(impls[1].arms.len(), 1);
    assert_eq!(impls[1].arms[0].source_variant, vid("Empty"));
    assert_eq!(impls[1].arms[0].target_variant, vid("Unit"));
}

/// Resolving one declaration set twice gives byte-identical tables and
/// plans.
#[test]
fn resolution_is_deterministic() {
    let build = || {
        decl(
            "Source",
            vec![list_attr(2, enum_ref_toks("Target", 3))],
            vec![
                unit_variant("Unit", vec![]),
                struct_variant("Struct", vec![], vec![("x", vec![]), ("y", vec![])]),
            ],
        )
    };
    let first = enum_convert::enum_into::derive_enum_into_impl(&build()).unwrap();
    let second = enum_convert::enum_into::derive_enum_into_impl(&build()).unwrap();
    assert_eq!(first, second);

    let p1 = ParsedEnumInto::parse(&build()).unwrap();
    let p2 = ParsedEnumInto::parse(&build()).unwrap();
    let g1 = enum_convert::enum_into::generator::EnumIntoGenerator::try_from(&p1).unwrap();
    let g2 = enum_convert::enum_into::generator::EnumIntoGenerator::try_from(&p2).unwrap();
    assert_eq!(g1.mappings(), g2.mappings());
}

fn lookup<'a>(rec: &'a [(String, i64)], key: &FieldIdent) -> i64 {
    rec.iter().find(|(k, _)| *k == key.name).expect("field must be present").1
}

fn apply_struct(cons: &ConstructionFields, src: &[(String, i64)]) -> Vec<(String, i64)> {
    match cons {
        ConstructionFields::Struct { values } => values
            .iter()
            .map(|v| match &v.value {
                FieldRef::FieldIdent(f) => (v.field.name.clone(), lookup(src, f)),
                FieldRef::FieldPos(_) => panic!("positional source in a struct construction"),
            })
            .collect(),
        other => panic!("expected a struct construction, got {:?}", other),
    }
}

/// The round-trip scenario: a rename applied one way and its inverse
/// applied the other way hand every field value through unchanged, and the
/// outgoing and incoming engines agree on the construction for the same
/// rename.
#[test]
fn rename_round_trip_preserves_values() {
    // Union A maps into union B, renaming x to bx and y to by.
    let a = decl(
        "A",
        vec![list_attr(2, enum_ref_toks("B", 3))],
        vec![struct_variant(
            "Rec",
            vec![],
            vec![
                ("x", vec![list_attr(10, field_ref_toks("B", "Rec", "bx", 11))]),
                ("y", vec![list_attr(20, field_ref_toks("B", "Rec", "by", 21))]),
            ],
        )],
    );
    let a_to_b = enum_convert::enum_into::derive_enum_into_impl(&a).unwrap();
    assert_eq!(a_to_b.len(), 1);

    // Union B maps into union A with the inverse rename.
    let b = decl(
        "B",
        vec![list_attr(2, enum_ref_toks("A", 3))],
        vec![struct_variant(
            "Rec",
            vec![],
            vec![
                ("bx", vec![list_attr(10, field_ref_toks("A", "Rec", "x", 11))]),
                ("by", vec![list_attr(20, field_ref_toks("A", "Rec", "y", 21))]),
            ],
        )],
    );
    let b_to_a = enum_convert::enum_into::derive_enum_into_impl(&b).unwrap();

    let src = vec![("x".to_string(), 41i64), ("y".to_string(), 42i64)];
    let mid = apply_struct(&a_to_b[0].arms[0].construction, &src);
    assert_eq!(lookup(&mid, &fid("bx")), 41);
    assert_eq!(lookup(&mid, &fid("by")), 42);
    let back = apply_struct(&b_to_a[0].arms[0].construction, &mid);
    assert_eq!(lookup(&back, &fid("x")), 41);
    assert_eq!(lookup(&back, &fid("y")), 42);

    // The incoming engine resolving "A built from B" with the inverse
    // rename emits the very same conversion as "B mapped into A".
    let a_from_b = decl(
        "A",
        vec![list_attr(2, enum_ref_toks("B", 3))],
        vec![struct_variant(
            "Rec",
            vec![],
            vec![
                ("x", vec![list_attr(10, field_ref_toks("B", "Rec", "bx", 11))]),
                ("y", vec![list_attr(20, field_ref_toks("B", "Rec", "by", 21))]),
            ],
        )],
    );
    let env = vec![source_decl("B", &["Rec"])];
    let from_impls = enum_convert::enum_from::derive_enum_from_impl(&a_from_b, &env).unwrap();
    assert_eq!(from_impls.len(), 1);
    assert_eq!(from_impls[0].source_enum, cid("B"));
    assert_eq!(from_impls[0].target_enum, cid("A"));
    let back2 = apply_struct(&from_impls[0].arms[0].construction, &mid);
    assert_eq!(lookup(&back2, &fid("x")), 41);
    assert_eq!(lookup(&back2, &fid("y")), 42);
    assert_eq!(from_impls[0].arms[0].construction, b_to_a[0].arms[0].construction);
}

/// Variant renaming: explicit variant pairings steer each variant to the
/// named paired variant, several own variants may share one.
#[test]
fn variant_renames_follow_explicit_pairings() {
    let d = decl(
        "Source",
        vec![list_attr(2, enum_ref_toks("Target", 3))],
        vec![
            unit_variant("Unit", vec![list_attr(10, enum_variant_toks("Target", "UnitRenamed", 11))]),
            unit_variant("Extra", vec![list_attr(20, enum_variant_toks("Target", "UnitRenamed", 21))]),
            tuple_variant(
                "Tuple",
                vec![list_attr(30, enum_variant_toks("Target", "TupleRenamed", 31))],
                vec![vec![], vec![]],
            ),
        ],
    );
    let impls = enum_convert::enum_into::derive_enum_into_impl(&d).unwrap();
    assert_eq!(impls.len(), 1);
    let arms = &impls[0].arms;
    assert_eq!(arms.len(), 3);
    assert_eq!(arms[0].source_variant, vid("Unit"));
    assert_eq!(arms[0].target_variant, vid("UnitRenamed"));
    assert_eq!(arms[1].source_variant, vid("Extra"));
    assert_eq!(arms[1].target_variant, vid("UnitRenamed"));
    assert_eq!(arms[2].source_variant, vid("Tuple"));
    assert_eq!(arms[2].target_variant, vid("TupleRenamed"));
}

/// Cross-shape pairing, fully annotated: a source struct variant feeding a
/// tuple target and a source tuple variant feeding a struct target both
/// resolve, slot for slot as annotated.
#[test]
fn cross_shape_pairings_resolve_when_total() {
    let d = decl(
        "Source",
        vec![list_attr(2, enum_ref_toks("Target", 3))],
        vec![
            struct_variant(
                "S",
                vec![list_attr(10, enum_variant_toks("Target", "T", 11))],
                vec![
                    ("a", vec![list_attr(20, field_pos_toks("Target", "T", 0, 21))]),
                    ("b", vec![list_attr(30, field_pos_toks("Target", "T", 1, 31))]),
                ],
            ),
            tuple_variant(
                "P",
                vec![list_attr(40, enum_variant_toks("Target", "R", 41))],
                vec![
                    vec![list_attr(50, field_ref_toks("Target", "R", "aa", 51))],
                    vec![list_attr(60, field_ref_toks("Target", "R", "bb", 61))],
                ],
            ),
        ],
    );
    let impls = enum_convert::enum_into::derive_enum_into_impl(&d).unwrap();
    let arms = &impls[0].arms;
    assert_eq!(arms.len(), 2);
    assert_eq!(arms[0].pattern, PatternFields::Struct { fields: vec![fid("a"), fid("b")] });
    match &arms[0].construction {
        ConstructionFields::Tuple { values } => {
            assert_eq!(
                values,
                &vec![FieldRef::FieldIdent(fid("a")), FieldRef::FieldIdent(fid("b"))],
            );
        },
        other => panic!("expected a tuple construction, got {:?}", other),
    }
    assert_eq!(arms[1].pattern, PatternFields::Tuple { arity: 2 });
    match &arms[1].construction {
        ConstructionFields::Struct { values } => {
            assert_eq!(values[0].field, fid("aa"));
            assert_eq!(values[0].value, FieldRef::FieldPos(0));
            assert_eq!(values[1].field, fid("bb"));
            assert_eq!(values[1].value, FieldRef::FieldPos(1));
        },
        other => panic!("expected a struct construction, got {:?}", other),
    }
}

/// The incoming engine with one source and defaults everywhere mirrors the
/// outgoing identity: one arm per source variant, identity tables, and the
/// target-only variant stays unmapped.
#[test]
fn default_from_resolves_identity_mappings() {
    let d = decl(
        "Target",
        vec![list_attr(2, enum_ref_toks("Source", 3))],
        vec![
            unit_variant("Unit", vec![]),
            tuple_variant("Tuple", vec![], vec![vec![], vec![]]),
            struct_variant("Struct", vec![], vec![("x", vec![]), ("y", vec![])]),
            unit_variant("Extra", vec![]),
        ],
    );
    // The source union has no variant named Extra: the default pairing for
    // Extra silently lapses, the other three resolve to the identity.
    let env = vec![source_decl("Source", &["Unit", "Tuple", "Struct"])];
    let impls = enum_convert::enum_from::derive_enum_from_impl(&d, &env).unwrap();
    assert_eq!(impls.len(), 1);
    let arms = &impls[0].arms;
    assert_eq!(arms.len(), 3);
    assert_eq!(arms[0].source_variant, vid("Unit"));
    assert_eq!(arms[1].source_variant, vid("Tuple"));
    assert_eq!(
        arms[1].construction,
        ConstructionFields::Tuple { values: vec![FieldRef::FieldPos(0), FieldRef::FieldPos(1)] },
    );
    assert_eq!(arms[2].source_variant, vid("Struct"));
    assert_eq!(arms[2].target_variant, vid("Struct"));
}

/// A chain through a transit union: a source converted into a transit
/// union by the incoming engine and onward by the outgoing engine, both
/// with pure defaults, keeps every variant aligned by name.
#[test]
fn combined_from_and_into_pipelines_agree() {
    let transit_from = decl(
        "Transit",
        vec![list_attr(2, enum_ref_toks("Source", 3))],
        vec![
            unit_variant("Unit", vec![]),
            tuple_variant("Tuple", vec![], vec![vec![], vec![]]),
            struct_variant("Struct", vec![], vec![("x", vec![]), ("y", vec![])]),
        ],
    );
    let env = vec![source_decl("Source", &["Unit", "Tuple", "Struct"])];
    let inbound = enum_convert::enum_from::derive_enum_from_impl(&transit_from, &env).unwrap();

    let transit_into = decl(
        "Transit",
        vec![list_attr(2, enum_ref_toks("Target", 3))],
        vec![
            unit_variant("Unit", vec![]),
            tuple_variant("Tuple", vec![], vec![vec![], vec![]]),
            struct_variant("Struct", vec![], vec![("x", vec![]), ("y", vec![])]),
        ],
    );
    let outbound = enum_convert::enum_into::derive_enum_into_impl(&transit_into).unwrap();

    assert_eq!(inbound.len(), 1);
    assert_eq!(outbound.len(), 1);
    assert_eq!(inbound[0].arms.len(), outbound[0].arms.len());
    for (a, b) in inbound[0].arms.iter().zip(outbound[0].arms.iter()) {
        assert_eq!(a.source_variant, b.source_variant);
        assert_eq!(a.target_variant, b.target_variant);
        assert_eq!(a.construction, b.construction);
    }
}

/// Several target unions, every pairing explicit: each target gets its own
/// conversion plan and only the claimed arms.
#[test]
fn multiple_targets_need_explicit_claims() {
    let mut conts = enum_ref_toks("FirstTarget", 3);
    conts.push(tok(AnnTokenKind::Comma, 4));
    conts.extend(enum_ref_toks("SecondTarget", 5));
    let mut both = enum_ref_toks("FirstTarget", 10);
    both.push(tok(AnnTokenKind::Comma, 11));
    both.extend(enum_ref_toks("SecondTarget", 12));
    let d = decl(
        "Source",
        vec![list_attr(2, conts)],
        vec![
            unit_variant("Unit", vec![list_attr(9, both)]),
            tuple_variant(
                "Tuple",
                vec![list_attr(20, enum_ref_toks("FirstTarget", 21))],
                vec![vec![]],
            ),
            unit_variant("Quiet", vec![]),
        ],
    );
    let impls = enum_convert::enum_into::derive_enum_into_impl(&d).unwrap();
    assert_eq!(impls.len(), 2);
    assert_eq!(impls[0].target_enum, cid("FirstTarget"));
    assert_eq!(impls[0].arms.len(), 2);
    assert_eq!(impls[1].target_enum, cid("SecondTarget"));
    assert_eq!(impls[1].arms.len(), 1);
    assert_eq!(impls[1].arms[0].source_variant, vid("Unit"));
}

/// Bare variant markers with a single source union: each marked variant
/// takes the default same-name pairing, exactly as an unmarked one does.
#[test]
fn bare_markers_with_single_source_use_defaults() {
    let marker = RawAttr { span: sp(9), payload: AttrPayload::Marker };
    let d = decl(
        "Target",
        vec![list_attr(2, enum_ref_toks("Source", 3))],
        vec![
            unit_variant("Unit", vec![marker.clone()]),
            tuple_variant("Tuple", vec![marker.clone()], vec![vec![], vec![]]),
            struct_variant("Struct", vec![marker], vec![("x", vec![]), ("y", vec![])]),
        ],
    );
    let env = vec![source_decl("Source", &["Unit", "Tuple", "Struct"])];
    let impls = enum_convert::enum_from::derive_enum_from_impl(&d, &env).unwrap();
    assert_eq!(impls.len(), 1);
    assert_eq!(impls[0].arms.len(), 3);
    assert_eq!(impls[0].arms[0].source_variant, vid("Unit"));
    assert_eq!(impls[0].arms[2].target_variant, vid("Struct"));
}

/// Positional field renames on a tuple variant: the incoming table records
/// the crossed slots and the plan reads the annotated source slot for each
/// target slot.
#[test]
fn tuple_slot_renames_cross_the_slots() {
    let d = decl(
        "Target",
        vec![list_attr(2, enum_ref_toks("Source", 3))],
        vec![tuple_variant(
            "Tuple",
            vec![],
            vec![
                vec![list_attr(10, field_pos_toks("Source", "Tuple", 1, 11))],
                vec![list_attr(20, field_pos_toks("Source", "Tuple", 0, 21))],
            ],
        )],
    );
    let env = vec![source_decl("Source", &["Tuple"])];
    let impls = enum_convert::enum_from::derive_enum_from_impl(&d, &env).unwrap();
    let arm = &impls[0].arms[0];
    assert_eq!(arm.pattern, PatternFields::Tuple { arity: 2 });
    assert_eq!(
        arm.construction,
        ConstructionFields::Tuple { values: vec![FieldRef::FieldPos(1), FieldRef::FieldPos(0)] },
    );
}

/// Field renames with several source unions: one target struct variant
/// paired with two source variants, each pairing with its own rename
/// table.
#[test]
fn field_renames_with_multiple_sources() {
    let mut conts = enum_ref_toks("Source", 3);
    conts.push(tok(AnnTokenKind::Comma, 4));
    conts.extend(enum_ref_toks("Other", 5));
    let mut vanns = enum_variant_toks("Source", "Struct", 10);
    vanns.push(tok(AnnTokenKind::Comma, 13));
    vanns.extend(enum_variant_toks("Other", "OtherStruct", 14));
    let mut a_anns = field_ref_toks("Source", "Struct", "x", 20);
    a_anns.push(tok(AnnTokenKind::Comma, 25));
    a_anns.extend(field_ref_toks("Other", "OtherStruct", "m", 26));
    let mut b_anns = field_ref_toks("Source", "Struct", "y", 30);
    b_anns.push(tok(AnnTokenKind::Comma, 35));
    b_anns.extend(field_ref_toks("Other", "OtherStruct", "n", 36));
    let d = decl(
        "Target",
        vec![list_attr(2, conts)],
        vec![struct_variant(
            "Struct",
            vec![list_attr(9, vanns)],
            vec![
                ("a", vec![list_attr(19, a_anns)]),
                ("b", vec![list_attr(29, b_anns)]),
            ],
        )],
    );
    let env = vec![
        source_decl("Source", &["Struct"]),
        source_decl("Other", &["OtherStruct"]),
    ];
    let impls = enum_convert::enum_from::derive_enum_from_impl(&d, &env).unwrap();
    assert_eq!(impls.len(), 2);
    let first = &impls[0].arms[0];
    assert_eq!(first.source_variant, vid("Struct"));
    match &first.construction {
        ConstructionFields::Struct { values } => {
            assert_eq!(values[0].value, FieldRef::FieldIdent(fid("x")));
            assert_eq!(values[1].value, FieldRef::FieldIdent(fid("y")));
        },
        other => panic!("expected a struct construction, got {:?}", other),
    }
    let second = &impls[1].arms[0];
    assert_eq!(second.source_variant, vid("OtherStruct"));
    match &second.construction {
        ConstructionFields::Struct { values } => {
            assert_eq!(values[0].value, FieldRef::FieldIdent(fid("m")));
            assert_eq!(values[1].value, FieldRef::FieldIdent(fid("n")));
        },
        other => panic!("expected a struct construction, got {:?}", other),
    }
}

/// A bare marker on a variant with the single target declared is
/// harmlessly redundant: the variant still takes the default pairing.
#[test]
fn redundant_marker_with_single_target() {
    let d = decl(
        "Source",
        vec![list_attr(2, enum_ref_toks("Target", 3))],
        vec![unit_variant("Unit", vec![RawAttr { span: sp(9), payload: AttrPayload::Marker }])],
    );
    let impls = enum_convert::enum_into::derive_enum_into_impl(&d).unwrap();
    assert_eq!(impls[0].arms.len(), 1);
    assert_eq!(impls[0].arms[0].source_variant, vid("Unit"));
    assert_eq!(impls[0].arms[0].target_variant, vid("Unit"));
}

/// Declaring the same paired union twice collapses to one conversion plan.
#[test]
fn repeated_container_declarations_collapse() {
    let mut conts = enum_ref_toks("Target", 3);
    conts.push(tok(AnnTokenKind::Comma, 4));
    conts.extend(enum_ref_toks("Target", 5));
    let d = decl(
        "Source",
        vec![list_attr(2, conts)],
        vec![unit_variant("Unit", vec![list_attr(9, enum_ref_toks("Target", 10))])],
    );
    let impls = enum_convert::enum_into::derive_enum_into_impl(&d).unwrap();
    assert_eq!(impls.len(), 1);
    assert_eq!(impls[0].arms.len(), 1);
}
