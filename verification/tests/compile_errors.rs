use jsonschema_core::compiler::compile_validators;
use jsonschema_core::compiler::validators_is_valid;
use jsonschema_core::compiler::CompilationContext;
use jsonschema_core::error::CompilationError;
use jsonschema_core::value::NumberValue;
use jsonschema_core::JsonValue;

fn obj(entries: Vec<(&str, JsonValue)>) -> JsonValue {
    JsonValue::Object(
        entries.into_iter().map(|(k, v)| (k.to_string(), v)).collect(),
    )
}

fn unum(n: u64) -> JsonValue {
    JsonValue::Number(NumberValue::Unsigned(n))
}

fn s(text: &str) -> JsonValue {
    JsonValue::Str(text.to_string())
}

#[test]
fn properties_sibling_must_be_an_object() {
    let schema = obj(vec![
        ("properties", s("not an object")),
        ("additionalProperties", JsonValue::Bool(false)),
    ]);
    let r = compile_validators(&schema, &CompilationContext::new());
    assert_eq!(r.err(), Some(CompilationError::SchemaError));
}

#[test]
fn pattern_union_must_compile() {
    let schema = obj(vec![
        ("patternProperties", obj(vec![("[", obj(vec![]))])),
        ("additionalProperties", JsonValue::Bool(false)),
    ]);
    let r = compile_validators(&schema, &CompilationContext::new());
    assert_eq!(r.err(), Some(CompilationError::SchemaError));
}

#[test]
fn invalid_pattern_fails_even_for_allow_anything() {
    let schema = obj(vec![
        ("patternProperties", obj(vec![("[", obj(vec![]))])),
        ("additionalProperties", JsonValue::Bool(true)),
    ]);
    let r = compile_validators(&schema, &CompilationContext::new());
    assert_eq!(r.err(), Some(CompilationError::SchemaError));
}

#[test]
fn pattern_exemption_sibling_must_be_an_object() {
    let schema = obj(vec![
        ("patternProperties", s("not an object")),
        ("additionalProperties", JsonValue::Bool(false)),
    ]);
    let r = compile_validators(&schema, &CompilationContext::new());
    assert_eq!(r.err(), Some(CompilationError::SchemaError));
}

#[test]
fn exclusive_minimum_limit_must_be_numeric() {
    let schema = obj(vec![("exclusiveMinimum", s("ten"))]);
    let r = compile_validators(&schema, &CompilationContext::new());
    assert_eq!(r.err(), Some(CompilationError::SchemaError));
}

#[test]
fn type_name_must_be_known() {
    let schema = obj(vec![("type", s("decimal"))]);
    let r = compile_validators(&schema, &CompilationContext::new());
    assert_eq!(r.err(), Some(CompilationError::SchemaError));
}

#[test]
fn schema_fragment_must_be_object_or_boolean() {
    let r = compile_validators(&s("true"), &CompilationContext::new());
    assert_eq!(r.err(), Some(CompilationError::SchemaError));
}

#[test]
fn allow_anything_compiles_to_nothing() {
    let schema = obj(vec![
        ("properties", obj(vec![("a", obj(vec![]))])),
        ("additionalProperties", JsonValue::Bool(true)),
    ]);
    let vs = compile_validators(&schema, &CompilationContext::new()).unwrap();
    assert_eq!(vs.len(), 0);
}

#[test]
fn boolean_schemas_compile() {
    let ctx = CompilationContext::new();
    let always = compile_validators(&JsonValue::Bool(true), &ctx).unwrap();
    assert!(validators_is_valid(&always, &unum(1)));
    assert_eq!(always.len(), 0);

    let never = compile_validators(&JsonValue::Bool(false), &ctx).unwrap();
    assert_eq!(never.len(), 1);
    assert!(!validators_is_valid(&never, &unum(1)));
    assert!(!validators_is_valid(&never, &obj(vec![])));
}

#[test]
fn unknown_keywords_are_ignored() {
    let schema = obj(vec![
        ("title", s("irrelevant")),
        ("exclusiveMinimum", unum(3)),
    ]);
    let vs = compile_validators(&schema, &CompilationContext::new()).unwrap();
    assert_eq!(vs.len(), 1);
    assert!(validators_is_valid(&vs, &unum(4)));
    assert!(!validators_is_valid(&vs, &unum(3)));
}
