//! The compiled validator nodes and their dual-mode check contract:
//! `is_valid`, the allocation-light short-circuiting boolean check, and
//! `validate`, the exhaustive enumeration of violations, both proved
//! against the same model.

use vstd::prelude::*;
use crate::error::errs_view;
use crate::error::ErrorIterator;
use crate::error::ErrorKind;
use crate::error::ValidationError;
use crate::model::first_non_exempt;
use crate::model::key_exempt;
use crate::model::lemma_first_non_exempt_found;
use crate::model::lemma_first_non_exempt_none;
use crate::model::lemma_one_sub_valid_char;
use crate::model::lemma_subs_valid_char;
use crate::model::one_sub_errors;
use crate::model::one_sub_valid;
use crate::model::spec_errors;
use crate::model::spec_valid;
use crate::model::subs_errors;
use crate::model::subs_valid;
use crate::model::SpecValidator;
use crate::numeric::number_gt;
use crate::pattern::Pattern;
use crate::value::clone_entries;
use crate::value::lemma_spec_entries_of;
use crate::value::lemma_spec_values_of;
use crate::value::shape_matches;
use crate::value::spec_entries_of;
use crate::value::strings_view;
use crate::value::JsonValue;
use crate::value::NumberValue;
use crate::value::SpecValue;
use crate::value::TypeKind;

verus! {

broadcast use lemma_spec_entries_of, lemma_spec_values_of;

/// Validates every property value against a subordinate schema.
pub struct AdditionalPropertiesValidator {
    pub validators: Vec<Validator>,
}

/// Forbids every property.
pub struct AdditionalPropertiesFalseValidator {}

/// Forbids every property not named by the sibling exemption set.
pub struct AdditionalPropertiesNotEmptyFalseValidator {
    pub properties: Vec<String>,
}

/// Validates every property value not named by the sibling exemption
/// set against a subordinate schema.
pub struct AdditionalPropertiesNotEmptyValidator {
    pub validators: Vec<Validator>,
    pub properties: Vec<String>,
}

/// Validates every property value whose key escapes the sibling
/// pattern union against a subordinate schema.
pub struct AdditionalPropertiesWithPatternsValidator {
    pub validators: Vec<Validator>,
    pub pattern: Pattern,
}

/// Forbids every property whose key escapes the sibling pattern union.
pub struct AdditionalPropertiesWithPatternsFalseValidator {
    pub pattern: Pattern,
}

/// Validates every property value covered by neither the named
/// exemption set nor the pattern union against a subordinate schema.
pub struct AdditionalPropertiesWithPatternsNotEmptyValidator {
    pub validators: Vec<Validator>,
    pub properties: Vec<String>,
    pub pattern: Pattern,
}

/// Forbids every property covered by neither the named exemption set
/// nor the pattern union.
pub struct AdditionalPropertiesWithPatternsNotEmptyFalseValidator {
    pub properties: Vec<String>,
    pub pattern: Pattern,
}

/// Requires a numeric instance to lie strictly above a non-negative
/// integer limit.
pub struct ExclusiveMinimumU64Validator {
    pub limit: u64,
}

/// Requires a numeric instance to lie strictly above a signed integer
/// limit.
pub struct ExclusiveMinimumI64Validator {
    pub limit: i64,
}

/// Requires the instance to have a named shape.
pub struct TypeValidator {
    pub kind: TypeKind,
}

/// Rejects every instance: the compiled form of the `false` schema.
pub struct FalseSchemaValidator {}

/// A compiled validator node: one closed variant per specialized
/// behaviour, chosen once at compile time.
pub enum Validator {
    AdditionalProperties(AdditionalPropertiesValidator),
    AdditionalPropertiesFalse(AdditionalPropertiesFalseValidator),
    AdditionalPropertiesNotEmptyFalse(AdditionalPropertiesNotEmptyFalseValidator),
    AdditionalPropertiesNotEmpty(AdditionalPropertiesNotEmptyValidator),
    AdditionalPropertiesWithPatterns(AdditionalPropertiesWithPatternsValidator),
    AdditionalPropertiesWithPatternsFalse(AdditionalPropertiesWithPatternsFalseValidator),
    AdditionalPropertiesWithPatternsNotEmpty(AdditionalPropertiesWithPatternsNotEmptyValidator),
    AdditionalPropertiesWithPatternsNotEmptyFalse(
        AdditionalPropertiesWithPatternsNotEmptyFalseValidator,
    ),
    ExclusiveMinimumU64(ExclusiveMinimumU64Validator),
    ExclusiveMinimumI64(ExclusiveMinimumI64Validator),
    TypeCheck(TypeValidator),
    FalseSchema(FalseSchemaValidator),
}

/// An ordered aggregate of compiled validators, read as a conjunction.
pub type Validators = Vec<Validator>;

/// The model of a compiled validator node.
pub open spec fn spec_validator_of(v: Validator) -> SpecValidator
    decreases v, 1int,
{
    match v {
        Validator::AdditionalProperties(s) => SpecValidator::AdditionalProperties {
            subs: spec_validators_of(s.validators@),
        },
        Validator::AdditionalPropertiesFalse(_) => SpecValidator::AdditionalPropertiesFalse,
        Validator::AdditionalPropertiesNotEmptyFalse(s) => SpecValidator::AdditionalPropertiesNotEmptyFalse {
            properties: strings_view(s.properties@),
        },
        Validator::AdditionalPropertiesNotEmpty(s) => SpecValidator::AdditionalPropertiesNotEmpty {
            subs: spec_validators_of(s.validators@),
            properties: strings_view(s.properties@),
        },
        Validator::AdditionalPropertiesWithPatterns(s) => SpecValidator::AdditionalPropertiesWithPatterns {
            subs: spec_validators_of(s.validators@),
            pattern: s.pattern.src(),
        },
        Validator::AdditionalPropertiesWithPatternsFalse(s) => SpecValidator::AdditionalPropertiesWithPatternsFalse {
            pattern: s.pattern.src(),
        },
        Validator::AdditionalPropertiesWithPatternsNotEmpty(s) => SpecValidator::AdditionalPropertiesWithPatternsNotEmpty {
            subs: spec_validators_of(s.validators@),
            properties: strings_view(s.properties@),
            pattern: s.pattern.src(),
        },
        Validator::AdditionalPropertiesWithPatternsNotEmptyFalse(s) => SpecValidator::AdditionalPropertiesWithPatternsNotEmptyFalse {
            properties: strings_view(s.properties@),
            pattern: s.pattern.src(),
        },
        Validator::ExclusiveMinimumU64(s) => SpecValidator::ExclusiveMinimum {
            limit: s.limit as int,
        },
        Validator::ExclusiveMinimumI64(s) => SpecValidator::ExclusiveMinimum {
            limit: s.limit as int,
        },
        Validator::TypeCheck(s) => SpecValidator::TypeCheck { expected: s.kind },
        Validator::FalseSchema(_) => SpecValidator::FalseSchema,
    }
}

/// The models of a sequence of compiled validators, element by element.
pub open spec fn spec_validators_of(vs: Seq<Validator>) -> Seq<SpecValidator>
    decreases vs, 0int,
{
    if vs.len() == 0 {
        Seq::empty()
    } else {
        spec_validators_of(vs.drop_last()).push(spec_validator_of(vs[vs.len() - 1]))
    }
}

/// Element-wise reading of `spec_validators_of`.
pub broadcast proof fn lemma_spec_validators_of(vs: Seq<Validator>)
    ensures
        #[trigger] spec_validators_of(vs).len() == vs.len(),
        forall|i: int|
            0 <= i < vs.len() ==> spec_validators_of(vs)[i] == spec_validator_of(vs[i]),
    decreases vs,
{
    if vs.len() > 0 {
        lemma_spec_validators_of(vs.drop_last());
    }
}

impl View for Validator {
    type V = SpecValidator;

    open spec fn view(&self) -> SpecValidator {
        spec_validator_of(*self)
    }
}

/// The model of an optional named-key exemption set.
pub open spec fn opt_props_view(p: Option<&Vec<String>>) -> Option<Seq<Seq<char>>> {
    match p {
        Some(ps) => Some(strings_view(ps@)),
        None => None,
    }
}

/// The model of an optional pattern-union exemption.
pub open spec fn opt_pat_view(p: Option<&Pattern>) -> Option<Seq<char>> {
    match p {
        Some(pt) => Some(pt.src()),
        None => None,
    }
}

/// Membership of a key in the named exemption set.
#[verifier::loop_isolation(false)]
fn props_contains(props: &Vec<String>, key: &String) -> (r: bool)
    ensures
        r == strings_view(props@).contains(key@),
{
    let ghost pv = strings_view(props@);
    let mut i: usize = 0;
    while i < props.len()
        invariant
            i <= props.len(),
            forall|k: int| 0 <= k < i ==> (#[trigger] pv[k]) != key@,
        decreases props.len() - i,
    {
        if props[i].eq(key) {
            proof {
                assert(pv[i as int] == key@);
            }
            return true;
        }
        i += 1;
    }
    proof {
        if pv.contains(key@) {
            let w = choose|w: int| 0 <= w < pv.len() && pv[w] == key@;
            assert(pv[w] != key@);
        }
    }
    false
}

/// Whether a property key is covered by either exemption.
fn key_exempt_exec(key: &String, props: Option<&Vec<String>>, pat: Option<&Pattern>) -> (r: bool)
    ensures
        r == key_exempt(opt_props_view(props), opt_pat_view(pat), key@),
{
    let named = match props {
        Some(ps) => props_contains(ps, key),
        None => false,
    };
    if named {
        true
    } else {
        match pat {
            Some(p) => p.is_match(key),
            None => false,
        }
    }
}

/// Scans the object's keys in document order for the first one no
/// exemption covers.
#[verifier::loop_isolation(false)]
fn find_non_exempt(
    entries: &Vec<(String, JsonValue)>,
    props: Option<&Vec<String>>,
    pat: Option<&Pattern>,
) -> (r: Option<usize>)
    ensures
        match r {
            Some(j) => j < entries@.len() && first_non_exempt(
                spec_entries_of(entries@),
                opt_props_view(props),
                opt_pat_view(pat),
            ) == Some(entries@[j as int].0@),
            None => first_non_exempt(
                spec_entries_of(entries@),
                opt_props_view(props),
                opt_pat_view(pat),
            ) is None,
        },
{
    let ghost se = spec_entries_of(entries@);
    let ghost pv = opt_props_view(props);
    let ghost tv = opt_pat_view(pat);
    proof {
        lemma_spec_entries_of(entries@);
    }
    let mut j: usize = 0;
    while j < entries.len()
        invariant
            j <= entries.len(),
            forall|k: int| 0 <= k < j ==> key_exempt(pv, tv, (#[trigger] se[k]).0),
        decreases entries.len() - j,
    {
        if !key_exempt_exec(&entries[j].0, props, pat) {
            proof {
                lemma_first_non_exempt_found(se, pv, tv, j as int);
            }
            return Some(j);
        }
        j += 1;
    }
    proof {
        lemma_first_non_exempt_none(se, pv, tv);
    }
    None
}

/// Whether every subordinate validator accepts every non-exempt
/// property value; stops at the first failure.
#[verifier::loop_isolation(false)]
fn subs_is_valid(
    subs: &Vec<Validator>,
    entries: &Vec<(String, JsonValue)>,
    props: Option<&Vec<String>>,
    pat: Option<&Pattern>,
) -> (r: bool)
    ensures
        r == subs_valid(
            spec_validators_of(subs@),
            spec_entries_of(entries@),
            opt_props_view(props),
            opt_pat_view(pat),
        ),
    decreases subs@, 3int,
{
    let ghost sv = spec_validators_of(subs@);
    let ghost se = spec_entries_of(entries@);
    let ghost pv = opt_props_view(props);
    let ghost tv = opt_pat_view(pat);
    proof {
        lemma_spec_validators_of(subs@);
        lemma_spec_entries_of(entries@);
    }
    let mut i: usize = 0;
    while i < subs.len()
        invariant
            i <= subs.len(),
            forall|ii: int| 0 <= ii < i ==> one_sub_valid(#[trigger] sv[ii], se, pv, tv),
        decreases subs.len() - i,
    {
        let sub = &subs[i];
        let mut j: usize = 0;
        while j < entries.len()
            invariant
                j <= entries.len(),
                i < subs.len(),
                forall|jj: int|
                    0 <= jj < j ==> key_exempt(pv, tv, (#[trigger] se[jj]).0) || spec_valid(
                        sv[i as int],
                        se[jj].1,
                    ),
            decreases entries.len() - j,
        {
            if !key_exempt_exec(&entries[j].0, props, pat) {
                if !sub.is_valid(&entries[j].1) {
                    proof {
                        assert(!key_exempt(pv, tv, se[j as int].0));
                        assert(!spec_valid(sv[i as int], se[j as int].1));
                        lemma_one_sub_valid_char(sv[i as int], se, pv, tv);
                        lemma_subs_valid_char(sv, se, pv, tv);
                    }
                    return false;
                }
            }
            j += 1;
        }
        proof {
            lemma_one_sub_valid_char(sv[i as int], se, pv, tv);
        }
        i += 1;
    }
    proof {
        lemma_subs_valid_char(sv, se, pv, tv);
    }
    true
}

/// The violations every subordinate validator reports over the
/// non-exempt property values, subordinate-major, in document order.
#[verifier::loop_isolation(false)]
fn subs_errors_list(
    subs: &Vec<Validator>,
    entries: &Vec<(String, JsonValue)>,
    props: Option<&Vec<String>>,
    pat: Option<&Pattern>,
) -> (r: Vec<ValidationError>)
    ensures
        errs_view(r@) == subs_errors(
            spec_validators_of(subs@),
            spec_entries_of(entries@),
            opt_props_view(props),
            opt_pat_view(pat),
        ),
    decreases subs@, 3int,
{
    let ghost sv = spec_validators_of(subs@);
    let ghost se = spec_entries_of(entries@);
    let ghost pv = opt_props_view(props);
    let ghost tv = opt_pat_view(pat);
    proof {
        lemma_spec_validators_of(subs@);
        lemma_spec_entries_of(entries@);
    }
    let mut out: Vec<ValidationError> = Vec::new();
    proof {
        assert(errs_view(out@) =~= subs_errors(sv.take(0), se, pv, tv));
    }
    let mut i: usize = 0;
    while i < subs.len()
        invariant
            i <= subs.len(),
            errs_view(out@) == subs_errors(sv.take(i as int), se, pv, tv),
        decreases subs.len() - i,
    {
        let sub = &subs[i];
        let ghost done = errs_view(out@);
        let mut j: usize = 0;
        proof {
            assert(errs_view(out@) =~= done + one_sub_errors(sv[i as int], se.take(0), pv, tv));
        }
        while j < entries.len()
            invariant
                j <= entries.len(),
                i < subs.len(),
                errs_view(out@) == done + one_sub_errors(sv[i as int], se.take(j as int), pv, tv),
            decreases entries.len() - j,
        {
            let ghost before = errs_view(out@);
            if !key_exempt_exec(&entries[j].0, props, pat) {
                let mut errs = sub.errors_list(&entries[j].1);
                proof {
                    assert(errs_view(out@ + errs@) =~= errs_view(out@) + errs_view(errs@));
                }
                out.append(&mut errs);
            }
            proof {
                assert(se.take(j + 1).drop_last() =~= se.take(j as int));
                assert(se.take(j + 1)[j as int] == se[j as int]);
                assert(errs_view(out@) =~= done + one_sub_errors(
                    sv[i as int],
                    se.take(j + 1),
                    pv,
                    tv,
                ));
            }
            j += 1;
        }
        proof {
            assert(se.take(se.len() as int) =~= se);
            assert(sv.take(i + 1).drop_last() =~= sv.take(i as int));
            assert(sv.take(i + 1)[i as int] == sv[i as int]);
            assert(errs_view(out@) =~= subs_errors(sv.take(i + 1), se, pv, tv));
        }
        i += 1;
    }
    proof {
        assert(sv.take(sv.len() as int) =~= sv);
    }
    out
}

/// Exact shape test of an instance against a named shape.
fn shape_matches_exec(kind: TypeKind, inst: &JsonValue) -> (r: bool)
    ensures
        r == shape_matches(kind, inst@),
{
    match kind {
        TypeKind::Null => matches!(inst, JsonValue::Null),
        TypeKind::Boolean => matches!(inst, JsonValue::Bool(_)),
        TypeKind::Number => matches!(inst, JsonValue::Number(_)),
        TypeKind::Integer => matches!(inst, JsonValue::Number(_)),
        TypeKind::Str => matches!(inst, JsonValue::Str(_)),
        TypeKind::Array => matches!(inst, JsonValue::Array(_)),
        TypeKind::Object => matches!(inst, JsonValue::Object(_)),
    }
}

impl Validator {
    /// The fast boolean check: true exactly when the instance satisfies
    /// this validator; stops at the first failing sub-check.
    pub fn is_valid(&self, inst: &JsonValue) -> (r: bool)
        ensures
            r == spec_valid(self@, inst@),
        decreases self, 4int,
    {
        match inst {
            JsonValue::Object(entries) => self.is_valid_object(entries),
            _ => match self {
                Validator::ExclusiveMinimumU64(v) => match inst {
                    JsonValue::Number(n) => number_gt(*n, NumberValue::Unsigned(v.limit)),
                    _ => true,
                },
                Validator::ExclusiveMinimumI64(v) => match inst {
                    JsonValue::Number(n) => number_gt(*n, NumberValue::Signed(v.limit)),
                    _ => true,
                },
                Validator::TypeCheck(v) => shape_matches_exec(v.kind, inst),
                Validator::FalseSchema(_) => false,
                _ => true,
            },
        }
    }

    /// The boolean check specialized to object-shaped instances;
    /// validators governing other shapes accept vacuously.
    pub fn is_valid_object(&self, entries: &Vec<(String, JsonValue)>) -> (r: bool)
        ensures
            r == spec_valid(self@, SpecValue::Object(spec_entries_of(entries@))),
        decreases self, 3int,
    {
        match self {
            Validator::AdditionalProperties(v) => subs_is_valid(&v.validators, entries, None, None),
            Validator::AdditionalPropertiesFalse(_) => entries.len() == 0,
            Validator::AdditionalPropertiesNotEmptyFalse(v) => find_non_exempt(
                entries,
                Some(&v.properties),
                None,
            ).is_none(),
            Validator::AdditionalPropertiesNotEmpty(v) => subs_is_valid(
                &v.validators,
                entries,
                Some(&v.properties),
                None,
            ),
            Validator::AdditionalPropertiesWithPatterns(v) => subs_is_valid(
                &v.validators,
                entries,
                None,
                Some(&v.pattern),
            ),
            Validator::AdditionalPropertiesWithPatternsFalse(v) => find_non_exempt(
                entries,
                None,
                Some(&v.pattern),
            ).is_none(),
            Validator::AdditionalPropertiesWithPatternsNotEmpty(v) => subs_is_valid(
                &v.validators,
                entries,
                Some(&v.properties),
                Some(&v.pattern),
            ),
            Validator::AdditionalPropertiesWithPatternsNotEmptyFalse(v) => find_non_exempt(
                entries,
                Some(&v.properties),
                Some(&v.pattern),
            ).is_none(),
            Validator::ExclusiveMinimumU64(_) => true,
            Validator::ExclusiveMinimumI64(_) => true,
            Validator::TypeCheck(v) => matches!(v.kind, TypeKind::Object),
            Validator::FalseSchema(_) => false,
        }
    }

    /// The detailed check: the instance's violations, in reporting
    /// order, as a list.
    pub fn errors_list(&self, inst: &JsonValue) -> (r: Vec<ValidationError>)
        ensures
            errs_view(r@) == spec_errors(self@, inst@),
        decreases self, 4int,
    {
        match inst {
            JsonValue::Object(entries) => self.errors_object(entries),
            _ => {
                let out: Vec<ValidationError> = match self {
                    Validator::ExclusiveMinimumU64(v) => match inst {
                        JsonValue::Number(n) => {
                            if number_gt(*n, NumberValue::Unsigned(v.limit)) {
                                Vec::new()
                            } else {
                                let mut es: Vec<ValidationError> = Vec::new();
                                es.push(
                                    ValidationError {
                                        kind: ErrorKind::ExclusiveMinimum {
                                            limit: NumberValue::Unsigned(v.limit),
                                        },
                                        value: JsonValue::Number(*n),
                                    },
                                );
                                es
                            }
                        },
                        _ => Vec::new(),
                    },
                    Validator::ExclusiveMinimumI64(v) => match inst {
                        JsonValue::Number(n) => {
                            if number_gt(*n, NumberValue::Signed(v.limit)) {
                                Vec::new()
                            } else {
                                let mut es: Vec<ValidationError> = Vec::new();
                                es.push(
                                    ValidationError {
                                        kind: ErrorKind::ExclusiveMinimum {
                                            limit: NumberValue::Signed(v.limit),
                                        },
                                        value: JsonValue::Number(*n),
                                    },
                                );
                                es
                            }
                        },
                        _ => Vec::new(),
                    },
                    Validator::TypeCheck(v) => {
                        if shape_matches_exec(v.kind, inst) {
                            Vec::new()
                        } else {
                            let mut es: Vec<ValidationError> = Vec::new();
                            es.push(
                                ValidationError {
                                    kind: ErrorKind::TypeMismatch { expected: v.kind },
                                    value: inst.deep_clone(),
                                },
                            );
                            es
                        }
                    },
                    Validator::FalseSchema(_) => {
                        let mut es: Vec<ValidationError> = Vec::new();
                        es.push(
                            ValidationError {
                                kind: ErrorKind::FalseSchema,
                                value: inst.deep_clone(),
                            },
                        );
                        es
                    },
                    _ => Vec::new(),
                };
                proof {
                    assert(errs_view(out@) =~= spec_errors(self@, inst@));
                }
                out
            },
        }
    }

    /// The detailed check specialized to object-shaped instances.
    pub fn errors_object(&self, entries: &Vec<(String, JsonValue)>) -> (r: Vec<ValidationError>)
        ensures
            errs_view(r@) == spec_errors(self@, SpecValue::Object(spec_entries_of(entries@))),
        decreases self, 3int,
    {
        let out: Vec<ValidationError> = match self {
            Validator::AdditionalProperties(v) => subs_errors_list(
                &v.validators,
                entries,
                None,
                None,
            ),
            Validator::AdditionalPropertiesFalse(_) => {
                if entries.len() == 0 {
                    Vec::new()
                } else {
                    let mut es: Vec<ValidationError> = Vec::new();
                    es.push(
                        ValidationError {
                            kind: ErrorKind::FalseSchema,
                            value: JsonValue::Object(clone_entries(entries)),
                        },
                    );
                    es
                }
            },
            Validator::AdditionalPropertiesNotEmptyFalse(v) => forbid_errors_list(
                entries,
                Some(&v.properties),
                None,
            ),
            Validator::AdditionalPropertiesNotEmpty(v) => subs_errors_list(
                &v.validators,
                entries,
                Some(&v.properties),
                None,
            ),
            Validator::AdditionalPropertiesWithPatterns(v) => subs_errors_list(
                &v.validators,
                entries,
                None,
                Some(&v.pattern),
            ),
            Validator::AdditionalPropertiesWithPatternsFalse(v) => forbid_errors_list(
                entries,
                None,
                Some(&v.pattern),
            ),
            Validator::AdditionalPropertiesWithPatternsNotEmpty(v) => subs_errors_list(
                &v.validators,
                entries,
                Some(&v.properties),
                Some(&v.pattern),
            ),
            Validator::AdditionalPropertiesWithPatternsNotEmptyFalse(v) => forbid_errors_list(
                entries,
                Some(&v.properties),
                Some(&v.pattern),
            ),
            Validator::ExclusiveMinimumU64(_) => Vec::new(),
            Validator::ExclusiveMinimumI64(_) => Vec::new(),
            Validator::TypeCheck(v) => {
                if matches!(v.kind, TypeKind::Object) {
                    Vec::new()
                } else {
                    let mut es: Vec<ValidationError> = Vec::new();
                    es.push(
                        ValidationError {
                            kind: ErrorKind::TypeMismatch { expected: v.kind },
                            value: JsonValue::Object(clone_entries(entries)),
                        },
                    );
                    es
                }
            },
            Validator::FalseSchema(_) => {
                let mut es: Vec<ValidationError> = Vec::new();
                es.push(
                    ValidationError {
                        kind: ErrorKind::FalseSchema,
                        value: JsonValue::Object(clone_entries(entries)),
                    },
                );
                es
            },
        };
        proof {
            assert(errs_view(out@) =~= spec_errors(
                self@,
                SpecValue::Object(spec_entries_of(entries@)),
            ));
        }
        out
    }

    /// The detailed check: a single-pass sequence of this instance's
    /// violations, exhaustive within this validator's domain.
    pub fn validate(&self, inst: &JsonValue) -> (r: ErrorIterator)
        ensures
            r@ == spec_errors(self@, inst@),
        decreases self, 5int,
    {
        ErrorIterator::new(self.errors_list(inst))
    }

    /// The detailed check specialized to object-shaped instances, as a
    /// single-pass sequence.
    pub fn validate_object(&self, entries: &Vec<(String, JsonValue)>) -> (r: ErrorIterator)
        ensures
            r@ == spec_errors(self@, SpecValue::Object(spec_entries_of(entries@))),
        decreases self, 5int,
    {
        ErrorIterator::new(self.errors_object(entries))
    }
}

/// The model of a keyword compiler's result.
pub open spec fn res_view(r: Result<Validator, crate::error::CompilationError>) -> Result<
    SpecValidator,
    crate::error::CompilationError,
> {
    match r {
        Ok(v) => Ok(v@),
        Err(e) => Err(e),
    }
}

/// The model of a dispatch-level keyword compiler's result: `None`
/// means the keyword is absent or a semantic no-op.
pub open spec fn opt_res_view(r: Option<Result<Validator, crate::error::CompilationError>>) -> Option<
    Result<SpecValidator, crate::error::CompilationError>,
> {
    match r {
        None => None,
        Some(res) => Some(res_view(res)),
    }
}

/// The single violation a forbid variant reports: the first uncovered
/// key, if any, as the offending value.
fn forbid_errors_list(
    entries: &Vec<(String, JsonValue)>,
    props: Option<&Vec<String>>,
    pat: Option<&Pattern>,
) -> (r: Vec<ValidationError>)
    ensures
        errs_view(r@) == crate::model::forbid_errors(
            spec_entries_of(entries@),
            opt_props_view(props),
            opt_pat_view(pat),
        ),
{
    match find_non_exempt(entries, props, pat) {
        Some(j) => {
            let mut es: Vec<ValidationError> = Vec::new();
            es.push(
                ValidationError {
                    kind: ErrorKind::FalseSchema,
                    value: JsonValue::Str(entries[j].0.clone()),
                },
            );
            proof {
                assert(errs_view(es@) =~= crate::model::forbid_errors(
                    spec_entries_of(entries@),
                    opt_props_view(props),
                    opt_pat_view(pat),
                ));
            }
            es
        },
        None => {
            let es: Vec<ValidationError> = Vec::new();
            proof {
                assert(errs_view(es@) =~= crate::model::forbid_errors(
                    spec_entries_of(entries@),
                    opt_props_view(props),
                    opt_pat_view(pat),
                ));
            }
            es
        },
    }
}

} // verus!
