//! The "additional properties" keyword compiler: three orthogonal
//! compile-time conditions — the keyword's own value, a sibling named
//! exemption set, a sibling pattern-union exemption — select one of
//! eight specialized validator variants, or no validator at all.

use vstd::prelude::*;
use crate::compiler::compile_validators;
use crate::compiler::spec_compile_validators;
use crate::compiler::CompilationContext;
use crate::error::CompilationError;
use crate::model::SpecValidator;
use crate::pattern::regex_valid;
use crate::pattern::Pattern;
use crate::validator::opt_res_view;
use crate::validator::res_view;
use crate::validator::AdditionalPropertiesFalseValidator;
use crate::validator::AdditionalPropertiesNotEmptyFalseValidator;
use crate::validator::AdditionalPropertiesNotEmptyValidator;
use crate::validator::AdditionalPropertiesValidator;
use crate::validator::AdditionalPropertiesWithPatternsFalseValidator;
use crate::validator::AdditionalPropertiesWithPatternsNotEmptyFalseValidator;
use crate::validator::AdditionalPropertiesWithPatternsNotEmptyValidator;
use crate::validator::AdditionalPropertiesWithPatternsValidator;
use crate::validator::Validator;
use crate::value::lemma_spec_entries_of;
use crate::value::spec_entries_of;
use crate::value::str_eq;
use crate::value::strings_view;
use crate::value::JsonValue;
use crate::value::SpecValue;

verus! {

broadcast use lemma_spec_entries_of;

/// The value bound to a key of an object, by first occurrence in
/// document order.
pub open spec fn spec_object_get(entries: Seq<(Seq<char>, SpecValue)>, key: Seq<char>) -> Option<
    SpecValue,
>
    decreases entries.len(),
{
    if entries.len() == 0 {
        None
    } else if entries[0].0 == key {
        Some(entries[0].1)
    } else {
        spec_object_get(entries.drop_first(), key)
    }
}

/// The keys of an object, in document order.
pub open spec fn spec_keys_of(entries: Seq<(Seq<char>, SpecValue)>) -> Seq<Seq<char>> {
    Seq::new(entries.len(), |i: int| entries[i].0)
}

/// Keys joined into one pattern union, separated by `'|'`.
pub open spec fn join_pipe(keys: Seq<Seq<char>>) -> Seq<char>
    decreases keys.len(),
{
    if keys.len() == 0 {
        Seq::empty()
    } else if keys.len() == 1 {
        keys[0]
    } else {
        join_pipe(keys.drop_last()) + seq!['|'] + keys[keys.len() - 1]
    }
}

/// Looks a key up in an object's entries, first occurrence wins.
#[verifier::loop_isolation(false)]
fn object_get<'a>(entries: &'a Vec<(String, JsonValue)>, key: &str) -> (r: Option<&'a JsonValue>)
    ensures
        match r {
            Some(v) => spec_object_get(spec_entries_of(entries@), key@) == Some(v@),
            None => spec_object_get(spec_entries_of(entries@), key@) is None,
        },
{
    let ghost se = spec_entries_of(entries@);
    let mut j: usize = 0;
    proof {
        assert(se.skip(0) =~= se);
    }
    while j < entries.len()
        invariant
            j <= entries.len(),
            spec_object_get(se, key@) == spec_object_get(se.skip(j as int), key@),
        decreases entries.len() - j,
    {
        if str_eq(entries[j].0.as_str(), key) {
            proof {
                assert(se.skip(j as int)[0] == se[j as int]);
            }
            return Some(&entries[j].1);
        }
        proof {
            assert(se.skip(j as int)[0] == se[j as int]);
            assert(se.skip(j as int).drop_first() =~= se.skip(j + 1));
        }
        j += 1;
    }
    None
}

/// Clones the keys of an object into the named exemption set, in
/// document order.
#[verifier::loop_isolation(false)]
fn keys_of(entries: &Vec<(String, JsonValue)>) -> (r: Vec<String>)
    ensures
        strings_view(r@) == spec_keys_of(spec_entries_of(entries@)),
{
    let mut out: Vec<String> = Vec::new();
    let mut i: usize = 0;
    while i < entries.len()
        invariant
            i <= entries.len(),
            out@.len() == i,
            forall|k: int| 0 <= k < i ==> (#[trigger] out@[k])@ == entries@[k].0@,
        decreases entries.len() - i,
    {
        let key = entries[i].0.clone();
        out.push(key);
        i += 1;
    }
    proof {
        assert(strings_view(out@) =~= spec_keys_of(spec_entries_of(entries@)));
    }
    out
}

/// Joins the keys of the pattern-exemption object into one pattern
/// union.
#[verifier::loop_isolation(false)]
fn join_pipe_exec(entries: &Vec<(String, JsonValue)>) -> (r: String)
    ensures
        r@ == join_pipe(spec_keys_of(spec_entries_of(entries@))),
{
    let ghost keys = spec_keys_of(spec_entries_of(entries@));
    let mut out = String::new();
    let mut i: usize = 0;
    proof {
        reveal_strlit("|");
        assert(keys.take(0) =~= Seq::<Seq<char>>::empty());
    }
    while i < entries.len()
        invariant
            i <= entries.len(),
            out@ == join_pipe(keys.take(i as int)),
        decreases entries.len() - i,
    {
        if i > 0 {
            out.append("|");
        }
        out.append(entries[i].0.as_str());
        proof {
            assert(keys.take(i + 1).drop_last() =~= keys.take(i as int));
            assert(keys.take(i + 1)[i as int] == keys[i as int]);
            if i == 0 {
                assert(out@ =~= join_pipe(keys.take(1)));
            } else {
                assert(out@ =~= join_pipe(keys.take(i as int)) + seq!['|'] + keys[i as int]);
            }
        }
        i += 1;
    }
    proof {
        assert(keys.take(keys.len() as int) =~= keys);
    }
    out
}

/// The model of compiling the bare subordinate-schema variant.
pub open spec fn spec_compile_ap(schema: SpecValue) -> Result<SpecValidator, CompilationError>
    decreases schema, 2int, 0int,
{
    match spec_compile_validators(schema) {
        Ok(subs) => Ok(SpecValidator::AdditionalProperties { subs }),
        Err(e) => Err(e),
    }
}

/// The model of compiling the named-exempt forbid variant.
pub open spec fn spec_compile_nef(properties: SpecValue) -> Result<
    SpecValidator,
    CompilationError,
> {
    match properties {
        SpecValue::Object(pe) => Ok(
            SpecValidator::AdditionalPropertiesNotEmptyFalse { properties: spec_keys_of(pe) },
        ),
        _ => Err(CompilationError::SchemaError),
    }
}

/// The model of compiling the named-exempt subordinate-schema variant.
pub open spec fn spec_compile_ne(schema: SpecValue, properties: SpecValue) -> Result<
    SpecValidator,
    CompilationError,
>
    decreases schema, 2int, 0int,
{
    match properties {
        SpecValue::Object(pe) => match spec_compile_validators(schema) {
            Ok(subs) => Ok(
                SpecValidator::AdditionalPropertiesNotEmpty {
                    subs,
                    properties: spec_keys_of(pe),
                },
            ),
            Err(e) => Err(e),
        },
        _ => Err(CompilationError::SchemaError),
    }
}

/// The model of compiling the pattern-exempt subordinate-schema
/// variant.
pub open spec fn spec_compile_wp(schema: SpecValue, pattern: Seq<char>) -> Result<
    SpecValidator,
    CompilationError,
>
    decreases schema, 2int, 0int,
{
    match spec_compile_validators(schema) {
        Ok(subs) => Ok(SpecValidator::AdditionalPropertiesWithPatterns { subs, pattern }),
        Err(e) => Err(e),
    }
}

/// The model of compiling the named-and-pattern-exempt
/// subordinate-schema variant.
pub open spec fn spec_compile_wpne(
    schema: SpecValue,
    properties: SpecValue,
    pattern: Seq<char>,
) -> Result<SpecValidator, CompilationError>
    decreases schema, 2int, 0int,
{
    match properties {
        SpecValue::Object(pe) => match spec_compile_validators(schema) {
            Ok(subs) => Ok(
                SpecValidator::AdditionalPropertiesWithPatternsNotEmpty {
                    subs,
                    properties: spec_keys_of(pe),
                    pattern,
                },
            ),
            Err(e) => Err(e),
        },
        _ => Err(CompilationError::SchemaError),
    }
}

/// The model of compiling the named-and-pattern-exempt forbid variant.
pub open spec fn spec_compile_wpnef(properties: SpecValue, pattern: Seq<char>) -> Result<
    SpecValidator,
    CompilationError,
> {
    match properties {
        SpecValue::Object(pe) => Ok(
            SpecValidator::AdditionalPropertiesWithPatternsNotEmptyFalse {
                properties: spec_keys_of(pe),
                pattern,
            },
        ),
        _ => Err(CompilationError::SchemaError),
    }
}

/// The model of the dispatch-level compiler: the keyword's own value
/// and the two sibling exemptions select the variant, `None` meaning
/// "allow anything" needs no validator, and a malformed sibling or an
/// invalid pattern union is a schema error.
pub open spec fn spec_compile_additional(
    parent: Seq<(Seq<char>, SpecValue)>,
    schema: SpecValue,
) -> Option<Result<SpecValidator, CompilationError>>
    decreases schema, 3int, 0int,
{
    let properties = spec_object_get(parent, "properties"@);
    match spec_object_get(parent, "patternProperties"@) {
        Some(pats) => match pats {
            SpecValue::Object(pat_entries) => {
                let pattern = join_pipe(spec_keys_of(pat_entries));
                if regex_valid(pattern) {
                    match schema {
                        SpecValue::Bool(true) => None,
                        SpecValue::Bool(false) => match properties {
                            Some(props) => Some(spec_compile_wpnef(props, pattern)),
                            None => Some(
                                Ok(
                                    SpecValidator::AdditionalPropertiesWithPatternsFalse {
                                        pattern,
                                    },
                                ),
                            ),
                        },
                        _ => match properties {
                            Some(props) => Some(spec_compile_wpne(schema, props, pattern)),
                            None => Some(spec_compile_wp(schema, pattern)),
                        },
                    }
                } else {
                    Some(Err(CompilationError::SchemaError))
                }
            },
            _ => Some(Err(CompilationError::SchemaError)),
        },
        None => match schema {
            SpecValue::Bool(true) => None,
            SpecValue::Bool(false) => match properties {
                Some(props) => Some(spec_compile_nef(props)),
                None => Some(Ok(SpecValidator::AdditionalPropertiesFalse)),
            },
            _ => match properties {
                Some(props) => Some(spec_compile_ne(schema, props)),
                None => Some(spec_compile_ap(schema)),
            },
        },
    }
}

impl AdditionalPropertiesValidator {
    /// Compiles the subordinate schema every property value must
    /// satisfy.
    pub fn compile(schema: &JsonValue, context: &CompilationContext) -> (r: Result<
        Validator,
        CompilationError,
    >)
        ensures
            res_view(r) == spec_compile_ap(schema@),
        decreases schema, 2int, 0int,
    {
        match compile_validators(schema, context) {
            Ok(validators) => Ok(
                Validator::AdditionalProperties(AdditionalPropertiesValidator { validators }),
            ),
            Err(e) => Err(e),
        }
    }
}

impl AdditionalPropertiesFalseValidator {
    /// Compiles the bare forbid variant: no property is allowed.
    pub fn compile() -> (r: Result<Validator, CompilationError>)
        ensures
            res_view(r) == Ok::<_, CompilationError>(SpecValidator::AdditionalPropertiesFalse),
    {
        Ok(Validator::AdditionalPropertiesFalse(AdditionalPropertiesFalseValidator {}))
    }
}

impl AdditionalPropertiesNotEmptyFalseValidator {
    /// Compiles the named-exempt forbid variant from the sibling
    /// exemption object.
    pub fn compile(properties: &JsonValue) -> (r: Result<Validator, CompilationError>)
        ensures
            res_view(r) == spec_compile_nef(properties@),
    {
        match properties {
            JsonValue::Object(props) => Ok(
                Validator::AdditionalPropertiesNotEmptyFalse(
                    AdditionalPropertiesNotEmptyFalseValidator { properties: keys_of(props) },
                ),
            ),
            _ => Err(CompilationError::SchemaError),
        }
    }
}

impl AdditionalPropertiesNotEmptyValidator {
    /// Compiles the named-exempt subordinate-schema variant.
    pub fn compile(
        schema: &JsonValue,
        properties: &JsonValue,
        context: &CompilationContext,
    ) -> (r: Result<Validator, CompilationError>)
        ensures
            res_view(r) == spec_compile_ne(schema@, properties@),
        decreases schema, 2int, 0int,
    {
        match properties {
            JsonValue::Object(props) => match compile_validators(schema, context) {
                Ok(validators) => Ok(
                    Validator::AdditionalPropertiesNotEmpty(
                        AdditionalPropertiesNotEmptyValidator {
                            validators,
                            properties: keys_of(props),
                        },
                    ),
                ),
                Err(e) => Err(e),
            },
            _ => Err(CompilationError::SchemaError),
        }
    }
}

impl AdditionalPropertiesWithPatternsValidator {
    /// Compiles the pattern-exempt subordinate-schema variant.
    pub fn compile(
        schema: &JsonValue,
        pattern: Pattern,
        context: &CompilationContext,
    ) -> (r: Result<Validator, CompilationError>)
        ensures
            res_view(r) == spec_compile_wp(schema@, pattern.src()),
        decreases schema, 2int, 0int,
    {
        match compile_validators(schema, context) {
            Ok(validators) => Ok(
                Validator::AdditionalPropertiesWithPatterns(
                    AdditionalPropertiesWithPatternsValidator { validators, pattern },
                ),
            ),
            Err(e) => Err(e),
        }
    }
}

impl AdditionalPropertiesWithPatternsFalseValidator {
    /// Compiles the pattern-exempt forbid variant.
    pub fn compile(pattern: Pattern) -> (r: Result<Validator, CompilationError>)
        ensures
            res_view(r) == Ok::<_, CompilationError>(
                SpecValidator::AdditionalPropertiesWithPatternsFalse { pattern: pattern.src() },
            ),
    {
        Ok(
            Validator::AdditionalPropertiesWithPatternsFalse(
                AdditionalPropertiesWithPatternsFalseValidator { pattern },
            ),
        )
    }
}

impl AdditionalPropertiesWithPatternsNotEmptyValidator {
    /// Compiles the named-and-pattern-exempt subordinate-schema
    /// variant.
    pub fn compile(
        schema: &JsonValue,
        properties: &JsonValue,
        pattern: Pattern,
        context: &CompilationContext,
    ) -> (r: Result<Validator, CompilationError>)
        ensures
            res_view(r) == spec_compile_wpne(schema@, properties@, pattern.src()),
        decreases schema, 2int, 0int,
    {
        match properties {
            JsonValue::Object(props) => match compile_validators(schema, context) {
                Ok(validators) => Ok(
                    Validator::AdditionalPropertiesWithPatternsNotEmpty(
                        AdditionalPropertiesWithPatternsNotEmptyValidator {
                            validators,
                            properties: keys_of(props),
                            pattern,
                        },
                    ),
                ),
                Err(e) => Err(e),
            },
            _ => Err(CompilationError::SchemaError),
        }
    }
}

impl AdditionalPropertiesWithPatternsNotEmptyFalseValidator {
    /// Compiles the named-and-pattern-exempt forbid variant.
    pub fn compile(properties: &JsonValue, pattern: Pattern) -> (r: Result<
        Validator,
        CompilationError,
    >)
        ensures
            res_view(r) == spec_compile_wpnef(properties@, pattern.src()),
    {
        match properties {
            JsonValue::Object(props) => Ok(
                Validator::AdditionalPropertiesWithPatternsNotEmptyFalse(
                    AdditionalPropertiesWithPatternsNotEmptyFalseValidator {
                        properties: keys_of(props),
                        pattern,
                    },
                ),
            ),
            _ => Err(CompilationError::SchemaError),
        }
    }
}

/// The dispatch-level compiler for the "additional properties"
/// keyword: inspects the sibling exemption keywords, compiles the
/// pattern union once, and selects the specialized variant.
pub fn compile(
    parent: &Vec<(String, JsonValue)>,
    schema: &JsonValue,
    context: &CompilationContext,
) -> (r: Option<Result<Validator, CompilationError>>)
    ensures
        opt_res_view(r) == spec_compile_additional(spec_entries_of(parent@), schema@),
    decreases schema, 3int, 0int,
{
    let properties = object_get(parent, "properties");
    match object_get(parent, "patternProperties") {
        Some(pats) => match pats {
            JsonValue::Object(obj) => {
                let pattern_src = join_pipe_exec(obj);
                match Pattern::compile(&pattern_src) {
                    Some(re) => match schema {
                        JsonValue::Bool(true) => None,
                        JsonValue::Bool(false) => match properties {
                            Some(props) => Some(
                                AdditionalPropertiesWithPatternsNotEmptyFalseValidator::compile(
                                    props,
                                    re,
                                ),
                            ),
                            None => Some(
                                AdditionalPropertiesWithPatternsFalseValidator::compile(re),
                            ),
                        },
                        _ => match properties {
                            Some(props) => Some(
                                AdditionalPropertiesWithPatternsNotEmptyValidator::compile(
                                    schema,
                                    props,
                                    re,
                                    context,
                                ),
                            ),
                            None => Some(
                                AdditionalPropertiesWithPatternsValidator::compile(
                                    schema,
                                    re,
                                    context,
                                ),
                            ),
                        },
                    },
                    None => Some(Err(CompilationError::SchemaError)),
                }
            },
            _ => Some(Err(CompilationError::SchemaError)),
        },
        None => match schema {
            JsonValue::Bool(true) => None,
            JsonValue::Bool(false) => match properties {
                Some(props) => Some(AdditionalPropertiesNotEmptyFalseValidator::compile(props)),
                None => Some(AdditionalPropertiesFalseValidator::compile()),
            },
            _ => match properties {
                Some(props) => Some(
                    AdditionalPropertiesNotEmptyValidator::compile(schema, props, context),
                ),
                None => Some(AdditionalPropertiesValidator::compile(schema, context)),
            },
        },
    }
}

} // verus!
