use jsonschema_core::compiler::compile_validators;
use jsonschema_core::compiler::validators_is_valid;
use jsonschema_core::compiler::validators_validate;
use jsonschema_core::compiler::CompilationContext;
use jsonschema_core::error::ErrorKind;
use jsonschema_core::value::NumberValue;
use jsonschema_core::value::TypeKind;
use jsonschema_core::JsonValue;

fn obj(entries: Vec<(&str, JsonValue)>) -> JsonValue {
    JsonValue::Object(
        entries.into_iter().map(|(k, v)| (k.to_string(), v)).collect(),
    )
}

fn unum(n: u64) -> JsonValue {
    JsonValue::Number(NumberValue::Unsigned(n))
}

fn inum(n: i64) -> JsonValue {
    JsonValue::Number(NumberValue::Signed(n))
}

fn s(text: &str) -> JsonValue {
    JsonValue::Str(text.to_string())
}

fn compile(schema: &JsonValue) -> Vec<jsonschema_core::validator::Validator> {
    compile_validators(schema, &CompilationContext::new()).expect("schema should compile")
}

fn errors_of(schema: &JsonValue, inst: &JsonValue) -> Vec<jsonschema_core::error::ValidationError> {
    let vs = compile(schema);
    let mut it = validators_validate(&vs, inst);
    let mut out = Vec::new();
    while let Some(e) = it.next() {
        out.push(e);
    }
    out
}

fn check(schema: &JsonValue, inst: &JsonValue) -> bool {
    let vs = compile(schema);
    validators_is_valid(&vs, inst)
}

#[test]
fn forbid_variant_reports_extra_key() {
    let schema = obj(vec![
        ("properties", obj(vec![("a", obj(vec![]))])),
        ("additionalProperties", JsonValue::Bool(false)),
    ]);
    let bad = obj(vec![("a", unum(1)), ("b", unum(2))]);
    let errs = errors_of(&schema, &bad);
    assert_eq!(errs.len(), 1);
    assert_eq!(errs[0].kind, ErrorKind::FalseSchema);
    match &errs[0].value {
        JsonValue::Str(k) => assert_eq!(k, "b"),
        _ => panic!("expected the offending key"),
    }
    let good = obj(vec![("a", unum(1))]);
    assert!(errors_of(&schema, &good).is_empty());
    assert!(check(&schema, &good));
    assert!(!check(&schema, &bad));
}

#[test]
fn pattern_exempt_subordinate_schema_variant() {
    let schema = obj(vec![
        ("patternProperties", obj(vec![("^x-", obj(vec![]))])),
        ("additionalProperties", obj(vec![("type", s("number"))])),
    ]);
    let good = obj(vec![("x-foo", s("bar")), ("count", unum(3))]);
    assert!(check(&schema, &good));
    assert!(errors_of(&schema, &good).is_empty());

    let bad = obj(vec![("count", s("nope"))]);
    let errs = errors_of(&schema, &bad);
    assert_eq!(errs.len(), 1);
    assert_eq!(errs[0].kind, ErrorKind::TypeMismatch { expected: TypeKind::Number });
    match &errs[0].value {
        JsonValue::Str(v) => assert_eq!(v, "nope"),
        _ => panic!("expected the offending value"),
    }
}

#[test]
fn exclusive_minimum_exact_at_precision_boundary_unsigned() {
    let limit = 1u64 << 54;
    let schema = obj(vec![("exclusiveMinimum", unum(limit))]);
    assert!(!check(&schema, &unum(limit)));
    assert!(!check(&schema, &unum(limit - 1)));
    assert!(check(&schema, &unum(limit + 1)));
}

#[test]
fn exclusive_minimum_exact_at_precision_boundary_signed() {
    let limit = 1i64 << 54;
    let schema = obj(vec![("exclusiveMinimum", inum(limit))]);
    assert!(!check(&schema, &inum(limit)));
    assert!(!check(&schema, &inum(limit - 1)));
    assert!(check(&schema, &inum(limit + 1)));
}

#[test]
fn equal_limits_of_different_representations_agree() {
    let limit = 1u64 << 54;
    let unsigned_schema = obj(vec![("exclusiveMinimum", unum(limit))]);
    let signed_schema = obj(vec![("exclusiveMinimum", inum(limit as i64))]);
    for inst in [
        unum(limit),
        unum(limit - 1),
        unum(limit + 1),
        inum(-5),
        unum(0),
        s("not a number"),
    ] {
        assert_eq!(check(&unsigned_schema, &inst), check(&signed_schema, &inst));
    }
}

#[test]
fn mixed_representation_comparisons_are_exact() {
    let schema = obj(vec![("exclusiveMinimum", inum(-3))]);
    assert!(check(&schema, &unum(0)));
    assert!(check(&schema, &inum(-2)));
    assert!(!check(&schema, &inum(-3)));
    assert!(!check(&schema, &inum(-4)));

    let schema_u = obj(vec![("exclusiveMinimum", unum(u64::MAX))]);
    assert!(!check(&schema_u, &inum(i64::MAX)));
    assert!(!check(&schema_u, &unum(u64::MAX)));
}

#[test]
fn boolean_and_detail_modes_agree() {
    let schemas = vec![
        obj(vec![("additionalProperties", JsonValue::Bool(false))]),
        obj(vec![
            ("properties", obj(vec![("a", obj(vec![]))])),
            ("additionalProperties", obj(vec![("type", s("number"))])),
        ]),
        obj(vec![("exclusiveMinimum", unum(10))]),
    ];
    let instances = vec![
        obj(vec![("a", unum(1)), ("b", s("x"))]),
        obj(vec![]),
        unum(5),
        unum(11),
        s("text"),
        JsonValue::Null,
    ];
    for schema in &schemas {
        for inst in &instances {
            assert_eq!(check(schema, inst), errors_of(schema, inst).is_empty());
        }
    }
}

#[test]
fn shape_vacuity_on_ungoverned_shapes() {
    let property_schema = obj(vec![("additionalProperties", JsonValue::Bool(false))]);
    for inst in [unum(1), s("x"), JsonValue::Null, JsonValue::Bool(true), JsonValue::Array(vec![])]
    {
        assert!(check(&property_schema, &inst));
        assert!(errors_of(&property_schema, &inst).is_empty());
    }
    let numeric_schema = obj(vec![("exclusiveMinimum", unum(100))]);
    for inst in [s("x"), JsonValue::Null, obj(vec![]), JsonValue::Array(vec![])] {
        assert!(check(&numeric_schema, &inst));
        assert!(errors_of(&numeric_schema, &inst).is_empty());
    }
}

#[test]
fn exemption_widening_removes_violations() {
    let narrow = obj(vec![
        ("properties", obj(vec![("a", obj(vec![]))])),
        ("additionalProperties", JsonValue::Bool(false)),
    ]);
    let wide = obj(vec![
        ("properties", obj(vec![("a", obj(vec![])), ("b", obj(vec![]))])),
        ("additionalProperties", JsonValue::Bool(false)),
    ]);
    let inst = obj(vec![("b", unum(2))]);
    assert!(!check(&narrow, &inst));
    assert!(check(&wide, &inst));
}

#[test]
fn pattern_widening_removes_violations() {
    let narrow = obj(vec![
        ("patternProperties", obj(vec![("^x-", obj(vec![]))])),
        ("additionalProperties", JsonValue::Bool(false)),
    ]);
    let wide = obj(vec![
        ("patternProperties", obj(vec![("^x-", obj(vec![])), ("^y-", obj(vec![]))])),
        ("additionalProperties", JsonValue::Bool(false)),
    ]);
    let inst = obj(vec![("y-k", unum(2))]);
    assert!(!check(&narrow, &inst));
    assert!(check(&wide, &inst));
}

#[test]
fn violations_keep_keyword_compilation_order() {
    let schema = obj(vec![
        ("exclusiveMinimum", unum(10)),
        ("type", s("string")),
    ]);
    let errs = errors_of(&schema, &unum(5));
    assert_eq!(errs.len(), 2);
    assert_eq!(
        errs[0].kind,
        ErrorKind::ExclusiveMinimum { limit: NumberValue::Unsigned(10) }
    );
    assert_eq!(errs[1].kind, ErrorKind::TypeMismatch { expected: TypeKind::Str });

    let flipped = obj(vec![
        ("type", s("string")),
        ("exclusiveMinimum", unum(10)),
    ]);
    let errs = errors_of(&flipped, &unum(5));
    assert_eq!(errs.len(), 2);
    assert_eq!(errs[0].kind, ErrorKind::TypeMismatch { expected: TypeKind::Str });
    assert_eq!(
        errs[1].kind,
        ErrorKind::ExclusiveMinimum { limit: NumberValue::Unsigned(10) }
    );
}

#[test]
fn bare_forbid_reports_whole_object() {
    let schema = obj(vec![("additionalProperties", JsonValue::Bool(false))]);
    assert!(check(&schema, &obj(vec![])));
    let bad = obj(vec![("a", unum(1))]);
    let errs = errors_of(&schema, &bad);
    assert_eq!(errs.len(), 1);
    assert_eq!(errs[0].kind, ErrorKind::FalseSchema);
    match &errs[0].value {
        JsonValue::Object(entries) => {
            assert_eq!(entries.len(), 1);
            assert_eq!(entries[0].0, "a");
        }
        _ => panic!("expected the whole instance"),
    }
}

#[test]
fn subordinate_schema_reports_all_extra_values() {
    let schema = obj(vec![
        ("properties", obj(vec![("a", obj(vec![]))])),
        ("additionalProperties", obj(vec![("type", s("number"))])),
    ]);
    let bad = obj(vec![("a", s("kept")), ("b", s("one")), ("c", s("two"))]);
    let errs = errors_of(&schema, &bad);
    assert_eq!(errs.len(), 2);
    match &errs[0].value {
        JsonValue::Str(v) => assert_eq!(v, "one"),
        _ => panic!("expected the first offending value"),
    }
    match &errs[1].value {
        JsonValue::Str(v) => assert_eq!(v, "two"),
        _ => panic!("expected the second offending value"),
    }
}

#[test]
fn forbid_variant_reports_only_first_key() {
    let schema = obj(vec![
        ("properties", obj(vec![("a", obj(vec![]))])),
        ("additionalProperties", JsonValue::Bool(false)),
    ]);
    let bad = obj(vec![("b", unum(1)), ("c", unum(2))]);
    let errs = errors_of(&schema, &bad);
    assert_eq!(errs.len(), 1);
    match &errs[0].value {
        JsonValue::Str(k) => assert_eq!(k, "b"),
        _ => panic!("expected the first offending key"),
    }
}

#[test]
fn nested_subordinate_schemas_recurse() {
    let schema = obj(vec![(
        "additionalProperties",
        obj(vec![
            ("additionalProperties", obj(vec![("type", s("number"))])),
        ]),
    )]);
    let good = obj(vec![("outer", obj(vec![("inner", unum(3))]))]);
    assert!(check(&schema, &good));
    let bad = obj(vec![("outer", obj(vec![("inner", s("no"))]))]);
    assert!(!check(&schema, &bad));
    let errs = errors_of(&schema, &bad);
    assert_eq!(errs.len(), 1);
}

#[test]
fn error_iterator_is_single_pass() {
    let schema = obj(vec![
        ("properties", obj(vec![])),
        ("additionalProperties", obj(vec![("type", s("number"))])),
    ]);
    let inst = obj(vec![("a", s("x")), ("b", s("y"))]);
    let vs = compile(&schema);
    let mut it = validators_validate(&vs, &inst);
    assert!(!it.is_empty());
    assert!(it.next().is_some());
    assert!(it.next().is_some());
    assert!(it.next().is_none());
    assert!(it.next().is_none());
    assert!(it.is_empty());
}

#[test]
fn rendering_names_keyword_and_parameters() {
    let schema = obj(vec![("exclusiveMinimum", unum(54))]);
    let vs = compile(&schema);
    assert_eq!(vs.len(), 1);
    assert_eq!(vs[0].to_string(), "exclusiveMinimum: 54");

    let schema = obj(vec![("exclusiveMinimum", inum(-7))]);
    let vs = compile(&schema);
    assert_eq!(vs[0].to_string(), "exclusiveMinimum: -7");

    let schema = obj(vec![("additionalProperties", JsonValue::Bool(false))]);
    let vs = compile(&schema);
    assert_eq!(vs[0].to_string(), "additionalProperties: false");

    let schema = obj(vec![("additionalProperties", obj(vec![("type", s("number"))]))]);
    let vs = compile(&schema);
    assert_eq!(vs[0].to_string(), "additionalProperties: [type: number]");

    let schema = obj(vec![("exclusiveMinimum", unum(0))]);
    let vs = compile(&schema);
    assert_eq!(vs[0].to_string(), "exclusiveMinimum: 0");

    let schema = obj(vec![("exclusiveMinimum", unum(9007199254740993))]);
    let vs = compile(&schema);
    assert_eq!(vs[0].to_string(), "exclusiveMinimum: 9007199254740993");

    let schema = obj(vec![(
        "additionalProperties",
        obj(vec![("type", s("number")), ("exclusiveMinimum", unum(10))]),
    )]);
    let vs = compile(&schema);
    assert_eq!(
        vs[0].to_string(),
        "additionalProperties: [type: number, exclusiveMinimum: 10]"
    );

    let vs = compile_validators(&JsonValue::Bool(false), &CompilationContext::new()).unwrap();
    assert_eq!(vs[0].to_string(), "false");
}
