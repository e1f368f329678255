use opcodes_db::error::{ErrorKind, PathStep};
use opcodes_db::loader::load_database;
use opcodes_db::value::{Shape, Value};

fn s(x: &str) -> Value {
    Value::Str(x.to_string())
}

fn n(x: i64) -> Value {
    Value::Int(x)
}

fn list(xs: Vec<Value>) -> Value {
    Value::List(xs)
}

fn obj(pairs: Vec<(&str, Value)>) -> Value {
    Value::Object(pairs.into_iter().map(|(k, v)| (k.to_string(), v)).collect())
}

fn key(k: &str) -> PathStep {
    PathStep::Key(k.to_string())
}

fn idx(i: usize) -> PathStep {
    PathStep::Index(i)
}

/// A minimal valid document, with the four catalogues supplied by the
/// caller.
fn doc(
    enums: Vec<Value>,
    widths: Vec<Value>,
    registers: Vec<Value>,
    records: Vec<Value>,
) -> Value {
    obj(vec![
        ("enums", list(enums)),
        ("arch", s("x86")),
        ("widths", list(widths)),
        ("registers", list(registers)),
        ("version", s("1.0")),
        ("records", list(records)),
        ("tables", list(vec![])),
    ])
}

fn enum_e1(stringify: Value, optional: Value) -> Value {
    obj(vec![
        ("id", s("E1")),
        ("items", list(vec![obj(vec![("name", s("A"))])])),
        ("stringify", stringify),
        ("optional", optional),
    ])
}

#[test]
fn empty_document_loads() {
    let db = load_database(&doc(vec![], vec![], vec![], vec![])).unwrap();
    assert_eq!(db.arch, "x86");
    assert_eq!(db.version, "1.0");
    assert!(db.enums.is_empty());
    assert!(db.widths.is_empty());
    assert!(db.registers.is_empty());
    assert!(db.records.is_empty());
    assert!(db.tables.is_empty());
}

#[test]
fn scenario_enum_coerces_both_boolean_fields() {
    let db = load_database(&doc(vec![enum_e1(n(1), n(0))], vec![], vec![], vec![])).unwrap();
    assert_eq!(db.enums.len(), 1);
    let e = &db.enums[0];
    assert_eq!(e.id, "E1");
    assert_eq!(e.items.len(), 1);
    assert_eq!(e.items[0].name, "A");
    assert_eq!(e.stringify, true);
    assert_eq!(e.optional, Some(false));
}

#[test]
fn loading_twice_gives_equal_databases() {
    let build = || {
        doc(
            vec![enum_e1(n(1), n(0))],
            vec![obj(vec![
                ("name", s("w")),
                ("width16", n(16)),
                ("width32", n(32)),
                ("width64", n(64)),
            ])],
            vec![],
            vec![],
        )
    };
    let a = load_database(&build()).unwrap();
    let b = load_database(&build()).unwrap();
    assert_eq!(a, b);
}

#[test]
fn width_integers_decode_exactly() {
    let db = load_database(&doc(
        vec![],
        vec![obj(vec![
            ("name", s("word")),
            ("width16", n(16)),
            ("width32", n(32)),
            ("width64", n(4294967295)),
        ])],
        vec![],
        vec![],
    ))
    .unwrap();
    let w = &db.widths[0];
    assert_eq!(w.name, "word");
    assert_eq!(w.width16, 16);
    assert_eq!(w.width32, 32);
    assert_eq!(w.width64, u32::MAX);
}

#[test]
fn width_out_of_range_integer_is_rejected_by_name() {
    let err = load_database(&doc(
        vec![],
        vec![obj(vec![
            ("name", s("word")),
            ("width16", n(4294967296)),
            ("width32", n(32)),
            ("width64", n(64)),
        ])],
        vec![],
        vec![],
    ))
    .unwrap_err();
    assert_eq!(err.path, vec![key("widths"), idx(0), key("width16")]);
    assert_eq!(err.kind, ErrorKind::CoercionInt { value: 4294967296 });
}

#[test]
fn register_decodes_all_fields() {
    let db = load_database(&doc(
        vec![],
        vec![],
        vec![obj(vec![
            ("size", n(64)),
            ("is_first", n(1)),
            ("is_last", n(0)),
            ("is_even", n(1)),
            ("encoding", n(3)),
            ("datatype", s("i64")),
            ("reg", s("rbx")),
            ("kind", s("gpr")),
        ])],
        vec![],
    ))
    .unwrap();
    let r = &db.registers[0];
    assert_eq!(r.size, 64);
    assert_eq!(r.is_first, true);
    assert_eq!(r.is_last, false);
    assert_eq!(r.is_even, true);
    assert_eq!(r.encoding, 3);
    assert_eq!(r.datatype, "i64");
    assert_eq!(r.reg, "rbx");
    assert_eq!(r.kind, "gpr");
}

#[test]
fn scenario_record_metadata_string_boolean() {
    let record = obj(vec![
        ("id", s("R1")),
        ("rectype", s("instruction")),
        (
            "metadata",
            obj(vec![("deprecated", s("1")), ("isa", s("SSE2"))]),
        ),
    ]);
    let db = load_database(&doc(vec![], vec![], vec![], vec![record])).unwrap();
    let r = &db.records[0];
    assert_eq!(r.id, "R1");
    assert_eq!(r.rectype, "instruction");
    let md = r.metadata.as_ref().unwrap();
    assert_eq!(md.deprecated, true);
    assert_eq!(md.isa, "SSE2");
    assert_eq!(r.title, None);
    assert_eq!(r.templates, None);
}

#[test]
fn scenario_boolean_field_holding_two_fails_with_exact_path() {
    let err =
        load_database(&doc(vec![enum_e1(n(2), n(0))], vec![], vec![], vec![])).unwrap_err();
    assert_eq!(err.path, vec![key("enums"), idx(0), key("stringify")]);
    assert_eq!(err.kind, ErrorKind::CoercionInt { value: 2 });
}

#[test]
fn scenario_ast_node_without_type_tag_fails_at_its_position() {
    let good_ast = obj(vec![("type", s("reg"))]);
    let bad_ast = obj(vec![("value", s("al"))]);
    let record = obj(vec![
        ("id", s("R1")),
        ("rectype", s("instruction")),
        (
            "templates",
            list(vec![obj(vec![
                ("metadata", obj(vec![])),
                (
                    "syntax",
                    obj(vec![
                        ("mnem", s("MOV")),
                        ("text", s("MOV al, imm8")),
                        ("ast", list(vec![good_ast, bad_ast])),
                    ]),
                ),
            ])]),
        ),
    ]);
    let err = load_database(&doc(vec![], vec![], vec![], vec![record])).unwrap_err();
    assert_eq!(
        err.path,
        vec![
            key("records"),
            idx(0),
            key("templates"),
            idx(0),
            key("syntax"),
            key("ast"),
            idx(1),
            key("type"),
        ]
    );
    assert_eq!(err.kind, ErrorKind::MissingField);
}

#[test]
fn scenario_unknown_extra_fields_are_ignored_everywhere() {
    let clean = doc(vec![enum_e1(n(1), n(0))], vec![], vec![], vec![]);
    let noisy = obj(vec![
        ("comment", s("extra at the root")),
        (
            "enums",
            list(vec![obj(vec![
                ("id", s("E1")),
                (
                    "items",
                    list(vec![obj(vec![("name", s("A")), ("color", s("red"))])]),
                ),
                ("stringify", n(1)),
                ("optional", n(0)),
                ("future_flag", n(42)),
            ])]),
        ),
        ("arch", s("x86")),
        ("widths", list(vec![])),
        ("registers", list(vec![])),
        ("version", s("1.0")),
        ("records", list(vec![])),
        ("tables", list(vec![])),
        ("trailing", Value::Bool(true)),
    ]);
    let a = load_database(&clean).unwrap();
    let b = load_database(&noisy).unwrap();
    assert_eq!(a, b);
}

#[test]
fn missing_required_root_field_is_reported() {
    let no_arch = obj(vec![
        ("enums", list(vec![])),
        ("widths", list(vec![])),
        ("registers", list(vec![])),
        ("version", s("1.0")),
        ("records", list(vec![])),
        ("tables", list(vec![])),
    ]);
    let err = load_database(&no_arch).unwrap_err();
    assert_eq!(err.path, vec![key("arch")]);
    assert_eq!(err.kind, ErrorKind::MissingField);
}

#[test]
fn wrong_shape_is_reported_with_both_shapes() {
    let err = load_database(&obj(vec![
        ("enums", list(vec![])),
        ("arch", s("x86")),
        ("widths", n(5)),
        ("registers", list(vec![])),
        ("version", s("1.0")),
        ("records", list(vec![])),
        ("tables", list(vec![])),
    ]))
    .unwrap_err();
    assert_eq!(err.path, vec![key("widths")]);
    assert_eq!(
        err.kind,
        ErrorKind::TypeMismatch { expected: Shape::List, actual: Shape::Int }
    );
}

#[test]
fn json_boolean_is_not_a_legal_boolean_encoding() {
    let err = load_database(&doc(
        vec![enum_e1(Value::Bool(true), n(0))],
        vec![],
        vec![],
        vec![],
    ))
    .unwrap_err();
    assert_eq!(err.path, vec![key("enums"), idx(0), key("stringify")]);
    assert_eq!(
        err.kind,
        ErrorKind::TypeMismatch { expected: Shape::Int, actual: Shape::Bool }
    );
}

#[test]
fn null_optional_field_is_not_present() {
    let db = load_database(&doc(
        vec![enum_e1(n(0), Value::Null)],
        vec![],
        vec![],
        vec![],
    ))
    .unwrap();
    assert_eq!(db.enums[0].stringify, false);
    assert_eq!(db.enums[0].optional, None);
}

#[test]
fn string_boolean_coercion_failure_names_the_string() {
    let record = obj(vec![
        ("id", s("R1")),
        ("rectype", s("instruction")),
        (
            "metadata",
            obj(vec![("deprecated", s("yes")), ("isa", s("SSE2"))]),
        ),
    ]);
    let err = load_database(&doc(vec![], vec![], vec![], vec![record])).unwrap_err();
    assert_eq!(
        err.path,
        vec![key("records"), idx(0), key("metadata"), key("deprecated")]
    );
    assert_eq!(err.kind, ErrorKind::CoercionStr { value: "yes".to_string() });
}

#[test]
fn bad_enum_item_is_located_by_index() {
    let bad_enum = obj(vec![
        ("id", s("E1")),
        ("items", list(vec![obj(vec![("name", s("A"))]), n(3)])),
        ("stringify", n(0)),
        ("optional", n(0)),
    ]);
    let err = load_database(&doc(vec![bad_enum], vec![], vec![], vec![])).unwrap_err();
    assert_eq!(err.path, vec![key("enums"), idx(0), key("items"), idx(1)]);
    assert_eq!(
        err.kind,
        ErrorKind::TypeMismatch { expected: Shape::Object, actual: Shape::Int }
    );
}

#[test]
fn full_record_round_trips_every_component() {
    let record = obj(vec![
        ("id", s("R1")),
        ("rectype", s("instruction")),
        ("title", s("Move")),
        ("extensions", list(vec![s("BASE")])),
        (
            "metadata",
            obj(vec![("deprecated", s("0")), ("isa", s("SSE2"))]),
        ),
        (
            "diagram",
            obj(vec![(
                "fields",
                list(vec![obj(vec![("value", s("0b1000")), ("name", s("op"))])]),
            )]),
        ),
        ("categories", list(vec![s("data-transfer"), s("general")])),
        ("tags", obj(vec![("page", s("MOV"))])),
        (
            "templates",
            list(vec![obj(vec![
                (
                    "metadata",
                    obj(vec![("xacquire", s("0")), ("lock", s("1"))]),
                ),
                (
                    "bitdiffs",
                    obj(vec![(
                        "fields",
                        list(vec![obj(vec![("value", s("0b1")), ("name", s("w"))])]),
                    )]),
                ),
                (
                    "syntax",
                    obj(vec![
                        ("mnem", s("MOV")),
                        ("text", s("MOV r64, imm64")),
                        (
                            "ast",
                            list(vec![obj(vec![
                                ("type", s("reg")),
                                ("value", s("rax")),
                                ("suppressed", n(0)),
                                ("read", n(0)),
                                ("write", n(1)),
                                ("size", n(64)),
                                ("datatype", s("i64")),
                                ("encodedin", s("reg")),
                                ("symbol", s("r64")),
                            ])]),
                        ),
                    ]),
                ),
            ])]),
        ),
        (
            "iflags",
            obj(vec![
                ("af", s("U")),
                ("of", s("C")),
                ("cf", s("C")),
                ("sf", s("X")),
                ("zf", s("X")),
                ("pf", s("X")),
            ]),
        ),
    ]);
    let table = obj(vec![("anything", s("ignored"))]);
    let root = obj(vec![
        ("enums", list(vec![])),
        ("arch", s("x86-64")),
        ("widths", list(vec![])),
        ("registers", list(vec![])),
        ("version", s("2.3")),
        ("records", list(vec![record])),
        ("tables", list(vec![table])),
    ]);
    let db = load_database(&root).unwrap();
    assert_eq!(db.arch, "x86-64");
    assert_eq!(db.version, "2.3");
    assert_eq!(db.tables.len(), 1);
    let r = &db.records[0];
    assert_eq!(r.title.as_deref(), Some("Move"));
    assert_eq!(r.extensions.as_deref(), Some(&["BASE".to_string()][..]));
    let md = r.metadata.as_ref().unwrap();
    assert_eq!(md.deprecated, false);
    assert_eq!(md.isa, "SSE2");
    let dg = r.diagram.as_ref().unwrap();
    assert_eq!(dg.fields.len(), 1);
    assert_eq!(dg.fields[0].value, "0b1000");
    assert_eq!(dg.fields[0].name, "op");
    assert_eq!(
        r.categories.as_deref(),
        Some(&["data-transfer".to_string(), "general".to_string()][..])
    );
    assert_eq!(r.tags.as_ref().unwrap().page, "MOV");
    let t = &r.templates.as_ref().unwrap()[0];
    assert_eq!(t.metadata.xacquire, Some(false));
    assert_eq!(t.metadata.lock, Some(true));
    assert_eq!(t.metadata.xrelease, None);
    let bd = t.bitdiffs.as_ref().unwrap();
    assert_eq!(bd.fields[0].value, "0b1");
    assert_eq!(bd.fields[0].name, "w");
    assert_eq!(t.syntax.mnem, "MOV");
    assert_eq!(t.syntax.text, "MOV r64, imm64");
    let a = &t.syntax.ast[0];
    assert_eq!(a.ast_type, "reg");
    assert_eq!(a.value.as_deref(), Some("rax"));
    assert_eq!(a.suppressed, Some(false));
    assert_eq!(a.read, Some(false));
    assert_eq!(a.write, Some(true));
    assert_eq!(a.size, Some(64));
    assert_eq!(a.datatype.as_deref(), Some("i64"));
    assert_eq!(a.encodedin.as_deref(), Some("reg"));
    assert_eq!(a.symbol.as_deref(), Some("r64"));
    let f = r.iflags.as_ref().unwrap();
    assert_eq!(f.af, "U");
    assert_eq!(f.of, "C");
    assert_eq!(f.cf, "C");
    assert_eq!(f.sf, "X");
    assert_eq!(f.zf, "X");
    assert_eq!(f.pf, "X");
}

#[test]
fn non_object_root_is_rejected() {
    let err = load_database(&n(7)).unwrap_err();
    assert!(err.path.is_empty());
    assert_eq!(
        err.kind,
        ErrorKind::TypeMismatch { expected: Shape::Object, actual: Shape::Int }
    );
}

#[test]
fn duplicate_keys_take_the_first_binding() {
    let mut root = doc(vec![], vec![], vec![], vec![]);
    if let Value::Object(pairs) = &mut root {
        pairs.push(("arch".to_string(), s("shadowed")));
    }
    let db = load_database(&root).unwrap();
    assert_eq!(db.arch, "x86");
}
