//! Every failure class, provoked by a minimal declaration.

use enum_convert::decl::AnnToken;
use enum_convert::decl::AnnTokenKind;
use enum_convert::decl::AttrPayload;
use enum_convert::decl::RawAttr;
use enum_convert::decl::RawEnumDecl;
use enum_convert::decl::RawFields;
use enum_convert::decl::RawStructField;
use enum_convert::decl::RawTupleField;
use enum_convert::decl::RawVariant;
use enum_convert::decl::SourceEnumDecl;
use enum_convert::diag::DiagKind;
use enum_convert::diag::ExpectedGrammar;
use enum_convert::idents::ContainerIdent;
use enum_convert::idents::FieldIdent;
use enum_convert::idents::FieldRef;
use enum_convert::idents::Span;
use enum_convert::idents::VariantIdent;

fn sp(at: usize) -> Span {
    Span { at }
}

fn cid(name: &str) -> ContainerIdent {
    ContainerIdent { name: name.to_string() }
}

fn vid(name: &str) -> VariantIdent {
    VariantIdent { name: name.to_string() }
}

fn fid(name: &str) -> FieldIdent {
    FieldIdent { name: name.to_string() }
}

fn tok(kind: AnnTokenKind, at: usize) -> AnnToken {
    AnnToken { span: sp(at), kind }
}

fn ident_tok(name: &str, at: usize) -> AnnToken {
    tok(AnnTokenKind::Ident(name.to_string()), at)
}

fn list_attr(at: usize, toks: Vec<AnnToken>) -> RawAttr {
    RawAttr { span: sp(at), payload: AttrPayload::List(toks) }
}

fn marker_attr(at: usize) -> RawAttr {
    RawAttr { span: sp(at), payload: AttrPayload::Marker }
}

fn name_value_attr(at: usize) -> RawAttr {
    RawAttr { span: sp(at), payload: AttrPayload::NameValue }
}

fn enum_ref_toks(e: &str, at: usize) -> Vec<AnnToken> {
    vec![ident_tok(e, at)]
}

fn enum_variant_toks(e: &str, v: &str, at: usize) -> Vec<AnnToken> {
    vec![ident_tok(e, at), tok(AnnTokenKind::PathSep, at + 1), ident_tok(v, at + 2)]
}

fn field_ref_toks(e: &str, v: &str, f: &str, at: usize) -> Vec<AnnToken> {
    vec![
        ident_tok(e, at),
        tok(AnnTokenKind::PathSep, at + 1),
        ident_tok(v, at + 2),
        tok(AnnTokenKind::Dot, at + 3),
        ident_tok(f, at + 4),
    ]
}

fn field_pos_toks(e: &str, v: &str, p: usize, at: usize) -> Vec<AnnToken> {
    vec![
        ident_tok(e, at),
        tok(AnnTokenKind::PathSep, at + 1),
        ident_tok(v, at + 2),
        tok(AnnTokenKind::Dot, at + 3),
        tok(AnnTokenKind::Int(p), at + 4),
    ]
}

fn unit_variant(name: &str, attrs: Vec<RawAttr>) -> RawVariant {
    RawVariant { ident: vid(name), attrs, fields: RawFields::Unit }
}

fn tuple_variant(name: &str, attrs: Vec<RawAttr>, fields: Vec<Vec<RawAttr>>) -> RawVariant {
    let mut fs = Vec::new();
    for (i, fattrs) in fields.into_iter().enumerate() {
        fs.push(RawTupleField { span: sp(900 + i), attrs: fattrs });
    }
    RawVariant { ident: vid(name), attrs, fields: RawFields::Tuple(fs) }
}

fn struct_variant(name: &str, attrs: Vec<RawAttr>, fields: Vec<(&str, Vec<RawAttr>)>) -> RawVariant {
    let mut fs = Vec::new();
    for (i, (fname, fattrs)) in fields.into_iter().enumerate() {
        fs.push(RawStructField { ident: fid(fname), span: sp(950 + i), attrs: fattrs });
    }
    RawVariant { ident: vid(name), attrs, fields: RawFields::Struct(fs) }
}

fn decl(name: &str, attrs: Vec<RawAttr>, variants: Vec<RawVariant>) -> RawEnumDecl {
    RawEnumDecl { ident: cid(name), derive_span: sp(1), attrs, variants }
}

fn source_decl(name: &str, variants: &[&str]) -> SourceEnumDecl {
    SourceEnumDecl { ident: cid(name), variants: variants.iter().map(|v| vid(v)).collect() }
}

/// No container-level annotation at all: blamed at the derive site.
#[test]
fn missing_container_annotation_is_fatal() {
    let d = decl("Source", vec![], vec![unit_variant("Unit", vec![])]);
    let err = enum_convert::enum_into::derive_enum_into_impl(&d).unwrap_err();
    assert_eq!(err.kind, DiagKind::MissingAnnotation);
    assert_eq!(err.span, sp(1));
}

/// An empty container argument list violates the grammar.
#[test]
fn empty_container_list_is_malformed() {
    let d = decl("Source", vec![list_attr(2, vec![])], vec![]);
    let err = enum_convert::enum_into::derive_enum_into_impl(&d).unwrap_err();
    assert_eq!(
        err.kind,
        DiagKind::MalformedAnnotation { expected: ExpectedGrammar::ContainerList },
    );
    assert_eq!(err.span, sp(2));
}

/// A trailing comma in a container list violates the grammar and is blamed
/// at the whole annotation.
#[test]
fn trailing_comma_is_malformed() {
    let toks = vec![ident_tok("Target", 3), tok(AnnTokenKind::Comma, 4)];
    let d = decl("Source", vec![list_attr(2, toks)], vec![]);
    let err = enum_convert::enum_into::derive_enum_into_impl(&d).unwrap_err();
    assert_eq!(
        err.kind,
        DiagKind::MalformedAnnotation { expected: ExpectedGrammar::ContainerList },
    );
    assert_eq!(err.span, sp(2));
}

/// A `name = value` container annotation violates the grammar.
#[test]
fn name_value_container_annotation_is_malformed() {
    let d = decl("Source", vec![name_value_attr(2)], vec![]);
    let err = enum_convert::enum_into::derive_enum_into_impl(&d).unwrap_err();
    assert_eq!(
        err.kind,
        DiagKind::MalformedAnnotation { expected: ExpectedGrammar::ContainerList },
    );
}

/// A variant reference with three path segments violates the grammar and
/// is blamed at the start of the reference.
#[test]
fn long_variant_path_is_malformed() {
    let toks = vec![
        ident_tok("A", 10),
        tok(AnnTokenKind::PathSep, 11),
        ident_tok("B", 12),
        tok(AnnTokenKind::PathSep, 13),
        ident_tok("C", 14),
    ];
    let d = decl(
        "Source",
        vec![list_attr(2, enum_ref_toks("Target", 3))],
        vec![unit_variant("Unit", vec![list_attr(9, toks)])],
    );
    let err = enum_convert::enum_into::derive_enum_into_impl(&d).unwrap_err();
    assert_eq!(
        err.kind,
        DiagKind::MalformedAnnotation { expected: ExpectedGrammar::VariantPath },
    );
    assert_eq!(err.span, sp(10));
}

/// A bare marker on a field is invalid: there is no default field-level
/// shorthand in either direction.
#[test]
fn bare_field_marker_is_malformed() {
    let d = decl(
        "Source",
        vec![list_attr(2, enum_ref_toks("Target", 3))],
        vec![struct_variant("Data", vec![], vec![("x", vec![marker_attr(30)])])],
    );
    let err = enum_convert::enum_into::derive_enum_into_impl(&d).unwrap_err();
    assert_eq!(
        err.kind,
        DiagKind::MalformedAnnotation { expected: ExpectedGrammar::FieldList },
    );
    assert_eq!(err.span, sp(30));
    let env = vec![source_decl("Target", &["Data"])];
    let d2 = decl(
        "Other",
        vec![list_attr(2, enum_ref_toks("Target", 3))],
        vec![struct_variant("Data", vec![], vec![("x", vec![marker_attr(30)])])],
    );
    let err2 = enum_convert::enum_from::derive_enum_from_impl(&d2, &env).unwrap_err();
    assert_eq!(
        err2.kind,
        DiagKind::MalformedAnnotation { expected: ExpectedGrammar::FieldList },
    );
}

/// A field reference missing its variant component violates the grammar.
#[test]
fn two_component_field_reference_is_malformed() {
    let toks = vec![
        ident_tok("Target", 30),
        tok(AnnTokenKind::Dot, 31),
        ident_tok("a", 32),
    ];
    let d = decl(
        "Source",
        vec![list_attr(2, enum_ref_toks("Target", 3))],
        vec![struct_variant("Data", vec![], vec![("x", vec![list_attr(29, toks)])])],
    );
    let err = enum_convert::enum_into::derive_enum_into_impl(&d).unwrap_err();
    assert_eq!(
        err.kind,
        DiagKind::MalformedAnnotation { expected: ExpectedGrammar::FieldPath },
    );
    assert_eq!(err.span, sp(30));
}

/// The field component must be an identifier or a position literal.
#[test]
fn bad_field_component_is_malformed() {
    let toks = vec![
        ident_tok("Target", 30),
        tok(AnnTokenKind::PathSep, 31),
        ident_tok("Data", 32),
        tok(AnnTokenKind::Dot, 33),
        tok(AnnTokenKind::Other, 34),
    ];
    let d = decl(
        "Source",
        vec![list_attr(2, enum_ref_toks("Target", 3))],
        vec![struct_variant("Data", vec![], vec![("x", vec![list_attr(29, toks)])])],
    );
    let err = enum_convert::enum_into::derive_enum_into_impl(&d).unwrap_err();
    assert_eq!(
        err.kind,
        DiagKind::MalformedAnnotation { expected: ExpectedGrammar::FieldRefToken },
    );
    assert_eq!(err.span, sp(34));
}

/// A bare variant marker while several source unions are declared is
/// ambiguous in the incoming direction.
#[test]
fn bare_marker_with_many_sources_is_ambiguous() {
    let mut conts = enum_ref_toks("First", 3);
    conts.push(tok(AnnTokenKind::Comma, 4));
    conts.extend(enum_ref_toks("Second", 5));
    let d = decl(
        "Target",
        vec![list_attr(2, conts)],
        vec![unit_variant("Unit", vec![marker_attr(9)])],
    );
    let env = vec![source_decl("First", &["Unit"]), source_decl("Second", &["Unit"])];
    let err = enum_convert::enum_from::derive_enum_from_impl(&d, &env).unwrap_err();
    assert_eq!(err.kind, DiagKind::AmbiguousSource);
    assert_eq!(err.span, sp(9));
}

/// A bare variant marker while several target unions are declared is
/// ambiguous in the outgoing direction.
#[test]
fn bare_marker_with_many_targets_is_ambiguous() {
    let mut conts = enum_ref_toks("First", 3);
    conts.push(tok(AnnTokenKind::Comma, 4));
    conts.extend(enum_ref_toks("Second", 5));
    let d = decl(
        "Source",
        vec![list_attr(2, conts)],
        vec![unit_variant("Unit", vec![marker_attr(9)])],
    );
    let err = enum_convert::enum_into::derive_enum_into_impl(&d).unwrap_err();
    assert_eq!(err.kind, DiagKind::AmbiguousTarget);
    assert_eq!(err.span, sp(9));
}

/// A variant-level reference to an undeclared union is fatal.
#[test]
fn unknown_container_in_variant_annotation() {
    let d = decl(
        "Source",
        vec![list_attr(2, enum_ref_toks("Target", 3))],
        vec![unit_variant("Unit", vec![list_attr(9, enum_ref_toks("NonExistent", 10))])],
    );
    let err = enum_convert::enum_into::derive_enum_into_impl(&d).unwrap_err();
    assert_eq!(err.kind, DiagKind::UnknownContainer { container: cid("NonExistent") });
    assert_eq!(err.span, sp(10));
}

/// An incoming reference to a source variant that the source union does
/// not declare is fatal.
#[test]
fn unknown_source_variant_is_fatal() {
    let d = decl(
        "Target",
        vec![list_attr(2, enum_ref_toks("Source", 3))],
        vec![unit_variant("Unit", vec![list_attr(9, enum_variant_toks("Source", "NonExistent", 10))])],
    );
    let env = vec![source_decl("Source", &["Unit"])];
    let err = enum_convert::enum_from::derive_enum_from_impl(&d, &env).unwrap_err();
    assert_eq!(
        err.kind,
        DiagKind::UnknownVariant { container: cid("Source"), variant: vid("NonExistent") },
    );
    assert_eq!(err.span, sp(10));
}

/// Two field annotations on one field for the same pairing are fatal,
/// blamed at the field.
#[test]
fn duplicate_field_mapping_is_fatal() {
    let mut toks = field_ref_toks("Target", "Data", "a", 30);
    toks.push(tok(AnnTokenKind::Comma, 35));
    toks.extend(field_ref_toks("Target", "Data", "b", 36));
    let d = decl(
        "Source",
        vec![list_attr(2, enum_ref_toks("Target", 3))],
        vec![struct_variant("Data", vec![], vec![("x", vec![list_attr(29, toks)])])],
    );
    let err = enum_convert::enum_into::derive_enum_into_impl(&d).unwrap_err();
    assert_eq!(err.kind, DiagKind::DuplicateFieldMapping { container: cid("Target") });
    assert_eq!(err.span, sp(950));
}

/// Field annotations that mix positional and named references within one
/// pairing are inconsistent.
#[test]
fn mixed_field_reference_kinds_are_inconsistent() {
    let d = decl(
        "Source",
        vec![list_attr(2, enum_ref_toks("Target", 3))],
        vec![struct_variant(
            "Data",
            vec![list_attr(9, enum_variant_toks("Target", "Data", 10))],
            vec![
                ("a", vec![list_attr(20, field_pos_toks("Target", "Data", 0, 21))]),
                ("b", vec![list_attr(30, field_ref_toks("Target", "Data", "b", 31))]),
            ],
        )],
    );
    let err = enum_convert::enum_into::derive_enum_into_impl(&d).unwrap_err();
    assert_eq!(err.kind, DiagKind::InconsistentFieldMapping);
    assert_eq!(err.span, sp(35));
}

/// A cross-shape pairing that leaves one field unannotated is fatal and
/// names the exact uncovered field.
#[test]
fn missing_cross_shape_annotation_names_the_field() {
    let d = decl(
        "Source",
        vec![list_attr(2, enum_ref_toks("Target", 3))],
        vec![struct_variant(
            "Data",
            vec![list_attr(9, enum_variant_toks("Target", "T", 10))],
            vec![
                ("aa", vec![list_attr(20, field_pos_toks("Target", "T", 0, 21))]),
                ("bb", vec![]),
            ],
        )],
    );
    let err = enum_convert::enum_into::derive_enum_into_impl(&d).unwrap_err();
    assert_eq!(
        err.kind,
        DiagKind::MissingFieldAnnotation {
            container: cid("Target"),
            variant: vid("T"),
            field: FieldRef::FieldIdent(fid("bb")),
        },
    );
    assert_eq!(err.span, sp(951));

    let d2 = decl(
        "Source",
        vec![list_attr(2, enum_ref_toks("Target", 3))],
        vec![tuple_variant(
            "P",
            vec![list_attr(9, enum_variant_toks("Target", "T", 10))],
            vec![vec![list_attr(20, field_ref_toks("Target", "T", "aa", 21))], vec![]],
        )],
    );
    let err2 = enum_convert::enum_into::derive_enum_into_impl(&d2).unwrap_err();
    assert_eq!(
        err2.kind,
        DiagKind::MissingFieldAnnotation {
            container: cid("Target"),
            variant: vid("T"),
            field: FieldRef::FieldPos(1),
        },
    );
    assert_eq!(err2.span, sp(901));
}

/// A field annotation for a pairing that its variant never claims is
/// fatal: for a declared union it is an unused mapping, for an undeclared
/// one an unknown union.
#[test]
fn unclaimed_field_annotations_are_fatal() {
    let d = decl(
        "Target",
        vec![list_attr(2, enum_ref_toks("Source", 3))],
        vec![struct_variant(
            "Data",
            vec![list_attr(9, enum_variant_toks("Source", "Data", 10))],
            vec![("x", vec![list_attr(20, field_ref_toks("Source", "Other", "x", 21))])],
        )],
    );
    let env = vec![source_decl("Source", &["Data", "Other"])];
    let err = enum_convert::enum_from::derive_enum_from_impl(&d, &env).unwrap_err();
    assert_eq!(
        err.kind,
        DiagKind::UnusedFieldAnnotation { container: cid("Source"), variant: vid("Other") },
    );
    assert_eq!(err.span, sp(23));

    let d2 = decl(
        "Target",
        vec![list_attr(2, enum_ref_toks("Source", 3))],
        vec![struct_variant(
            "Data",
            vec![list_attr(9, enum_variant_toks("Source", "Data", 10))],
            vec![("x", vec![list_attr(20, field_ref_toks("Elsewhere", "Data", "x", 21))])],
        )],
    );
    let err2 = enum_convert::enum_from::derive_enum_from_impl(&d2, &env).unwrap_err();
    assert_eq!(err2.kind, DiagKind::UnknownContainer { container: cid("Elsewhere") });
    assert_eq!(err2.span, sp(21));
}

/// An incoming declaration whose declared source union the loader did not
/// supply is fatal, blamed at the declaring annotation.
#[test]
fn undeclared_environment_union_is_fatal() {
    let d = decl(
        "Target",
        vec![list_attr(2, enum_ref_toks("Source", 3))],
        vec![unit_variant("Unit", vec![])],
    );
    let env: Vec<SourceEnumDecl> = vec![];
    let err = enum_convert::enum_from::derive_enum_from_impl(&d, &env).unwrap_err();
    assert_eq!(err.kind, DiagKind::UnknownContainer { container: cid("Source") });
    assert_eq!(err.span, sp(3));
}

/// An empty field-level argument list violates the grammar.
#[test]
fn empty_field_list_is_malformed() {
    let d = decl(
        "Source",
        vec![list_attr(2, enum_ref_toks("Target", 3))],
        vec![struct_variant("Data", vec![], vec![("x", vec![list_attr(30, vec![])])])],
    );
    let err = enum_convert::enum_into::derive_enum_into_impl(&d).unwrap_err();
    assert_eq!(
        err.kind,
        DiagKind::MalformedAnnotation { expected: ExpectedGrammar::FieldList },
    );
    assert_eq!(err.span, sp(30));
}

/// A `name = value` variant annotation violates the grammar.
#[test]
fn name_value_variant_annotation_is_malformed() {
    let d = decl(
        "Source",
        vec![list_attr(2, enum_ref_toks("Target", 3))],
        vec![unit_variant("Foo", vec![name_value_attr(9)])],
    );
    let err = enum_convert::enum_into::derive_enum_into_impl(&d).unwrap_err();
    assert_eq!(
        err.kind,
        DiagKind::MalformedAnnotation { expected: ExpectedGrammar::VariantList },
    );
    assert_eq!(err.span, sp(9));
}

/// The first error in declaration order wins: a later variant's grammar
/// violation is reported only once every earlier annotation parsed.
#[test]
fn first_error_in_declaration_order_wins() {
    let d = decl(
        "Source",
        vec![list_attr(2, vec![])],
        vec![unit_variant("Foo", vec![name_value_attr(9)])],
    );
    let err = enum_convert::enum_into::derive_enum_into_impl(&d).unwrap_err();
    assert_eq!(
        err.kind,
        DiagKind::MalformedAnnotation { expected: ExpectedGrammar::ContainerList },
    );
    assert_eq!(err.span, sp(2));
}
