//! The mathematical model of compiled validators: what each validator
//! variant accepts, and which violations it reports, defined over the
//! value model alone.

use vstd::prelude::*;
use crate::error::SpecError;
use crate::error::SpecErrorKind;
use crate::pattern::regex_match;
use crate::value::shape_matches;
use crate::value::SpecValue;
use crate::value::TypeKind;

verus! {

/// The model of a compiled validator node. Property-restricting
/// variants carry the named-key exemption set and the pattern-union
/// exemption they were specialized with; numeric variants carry the
/// limit as a mathematical integer, so equal limits of different
/// representations model identically.
pub enum SpecValidator {
    AdditionalProperties { subs: Seq<SpecValidator> },
    AdditionalPropertiesFalse,
    AdditionalPropertiesNotEmptyFalse { properties: Seq<Seq<char>> },
    AdditionalPropertiesNotEmpty { subs: Seq<SpecValidator>, properties: Seq<Seq<char>> },
    AdditionalPropertiesWithPatterns { subs: Seq<SpecValidator>, pattern: Seq<char> },
    AdditionalPropertiesWithPatternsFalse { pattern: Seq<char> },
    AdditionalPropertiesWithPatternsNotEmpty {
        subs: Seq<SpecValidator>,
        properties: Seq<Seq<char>>,
        pattern: Seq<char>,
    },
    AdditionalPropertiesWithPatternsNotEmptyFalse {
        properties: Seq<Seq<char>>,
        pattern: Seq<char>,
    },
    ExclusiveMinimum { limit: int },
    TypeCheck { expected: TypeKind },
    FalseSchema,
}

/// Whether a property key is exempt from the additional-properties
/// check: it is named in the sibling exemption set, or it matches the
/// sibling pattern union.
pub open spec fn key_exempt(
    props: Option<Seq<Seq<char>>>,
    pat: Option<Seq<char>>,
    key: Seq<char>,
) -> bool {
    (match props {
        Some(ps) => ps.contains(key),
        None => false,
    }) || (match pat {
        Some(p) => regex_match(p, key),
        None => false,
    })
}

/// The first object key, in document order, that no exemption covers.
pub open spec fn first_non_exempt(
    entries: Seq<(Seq<char>, SpecValue)>,
    props: Option<Seq<Seq<char>>>,
    pat: Option<Seq<char>>,
) -> Option<Seq<char>>
    decreases entries.len(),
{
    if entries.len() == 0 {
        None
    } else if !key_exempt(props, pat, entries[0].0) {
        Some(entries[0].0)
    } else {
        first_non_exempt(entries.drop_first(), props, pat)
    }
}

/// Whether an instance satisfies a compiled validator.
pub open spec fn spec_valid(v: SpecValidator, inst: SpecValue) -> bool
    decreases v, 0int,
{
    match v {
        SpecValidator::AdditionalProperties { subs } => match inst {
            SpecValue::Object(entries) => subs_valid(subs, entries, None, None),
            _ => true,
        },
        SpecValidator::AdditionalPropertiesFalse => match inst {
            SpecValue::Object(entries) => entries.len() == 0,
            _ => true,
        },
        SpecValidator::AdditionalPropertiesNotEmptyFalse { properties } => match inst {
            SpecValue::Object(entries) => first_non_exempt(entries, Some(properties), None)
                is None,
            _ => true,
        },
        SpecValidator::AdditionalPropertiesNotEmpty { subs, properties } => match inst {
            SpecValue::Object(entries) => subs_valid(subs, entries, Some(properties), None),
            _ => true,
        },
        SpecValidator::AdditionalPropertiesWithPatterns { subs, pattern } => match inst {
            SpecValue::Object(entries) => subs_valid(subs, entries, None, Some(pattern)),
            _ => true,
        },
        SpecValidator::AdditionalPropertiesWithPatternsFalse { pattern } => match inst {
            SpecValue::Object(entries) => first_non_exempt(entries, None, Some(pattern)) is None,
            _ => true,
        },
        SpecValidator::AdditionalPropertiesWithPatternsNotEmpty { subs, properties, pattern } => match inst {
            SpecValue::Object(entries) => subs_valid(
                subs,
                entries,
                Some(properties),
                Some(pattern),
            ),
            _ => true,
        },
        SpecValidator::AdditionalPropertiesWithPatternsNotEmptyFalse { properties, pattern } => match inst {
            SpecValue::Object(entries) => first_non_exempt(
                entries,
                Some(properties),
                Some(pattern),
            ) is None,
            _ => true,
        },
        SpecValidator::ExclusiveMinimum { limit } => match inst {
            SpecValue::Int(n) => n > limit,
            _ => true,
        },
        SpecValidator::TypeCheck { expected } => shape_matches(expected, inst),
        SpecValidator::FalseSchema => false,
    }
}

/// Whether every subordinate validator accepts every non-exempt
/// property value.
pub open spec fn subs_valid(
    subs: Seq<SpecValidator>,
    entries: Seq<(Seq<char>, SpecValue)>,
    props: Option<Seq<Seq<char>>>,
    pat: Option<Seq<char>>,
) -> bool
    decreases subs, 1int,
{
    if subs.len() == 0 {
        true
    } else {
        subs_valid(subs.drop_last(), entries, props, pat) && one_sub_valid(
            subs[subs.len() - 1],
            entries,
            props,
            pat,
        )
    }
}

/// Whether one subordinate validator accepts every non-exempt property
/// value.
pub open spec fn one_sub_valid(
    sub: SpecValidator,
    entries: Seq<(Seq<char>, SpecValue)>,
    props: Option<Seq<Seq<char>>>,
    pat: Option<Seq<char>>,
) -> bool
    decreases sub, 2 + entries.len(),
{
    if entries.len() == 0 {
        true
    } else {
        one_sub_valid(sub, entries.drop_last(), props, pat) && (key_exempt(
            props,
            pat,
            entries[entries.len() - 1].0,
        ) || spec_valid(sub, entries[entries.len() - 1].1))
    }
}

/// The violations an instance earns from a compiled validator, in
/// reporting order. Forbid variants report at most the first uncovered
/// key; subordinate-schema variants report every subordinate violation
/// across all non-exempt property values.
pub open spec fn spec_errors(v: SpecValidator, inst: SpecValue) -> Seq<SpecError>
    decreases v, 0int,
{
    match v {
        SpecValidator::AdditionalProperties { subs } => match inst {
            SpecValue::Object(entries) => subs_errors(subs, entries, None, None),
            _ => Seq::empty(),
        },
        SpecValidator::AdditionalPropertiesFalse => match inst {
            SpecValue::Object(entries) => if entries.len() == 0 {
                Seq::empty()
            } else {
                seq![SpecError { kind: SpecErrorKind::FalseSchema, value: inst }]
            },
            _ => Seq::empty(),
        },
        SpecValidator::AdditionalPropertiesNotEmptyFalse { properties } => match inst {
            SpecValue::Object(entries) => forbid_errors(entries, Some(properties), None),
            _ => Seq::empty(),
        },
        SpecValidator::AdditionalPropertiesNotEmpty { subs, properties } => match inst {
            SpecValue::Object(entries) => subs_errors(subs, entries, Some(properties), None),
            _ => Seq::empty(),
        },
        SpecValidator::AdditionalPropertiesWithPatterns { subs, pattern } => match inst {
            SpecValue::Object(entries) => subs_errors(subs, entries, None, Some(pattern)),
            _ => Seq::empty(),
        },
        SpecValidator::AdditionalPropertiesWithPatternsFalse { pattern } => match inst {
            SpecValue::Object(entries) => forbid_errors(entries, None, Some(pattern)),
            _ => Seq::empty(),
        },
        SpecValidator::AdditionalPropertiesWithPatternsNotEmpty { subs, properties, pattern } => match inst {
            SpecValue::Object(entries) => subs_errors(
                subs,
                entries,
                Some(properties),
                Some(pattern),
            ),
            _ => Seq::empty(),
        },
        SpecValidator::AdditionalPropertiesWithPatternsNotEmptyFalse { properties, pattern } => match inst {
            SpecValue::Object(entries) => forbid_errors(entries, Some(properties), Some(pattern)),
            _ => Seq::empty(),
        },
        SpecValidator::ExclusiveMinimum { limit } => match inst {
            SpecValue::Int(n) => if n > limit {
                Seq::empty()
            } else {
                seq![
                    SpecError {
                        kind: SpecErrorKind::ExclusiveMinimum { limit },
                        value: inst,
                    },
                ]
            },
            _ => Seq::empty(),
        },
        SpecValidator::TypeCheck { expected } => if shape_matches(expected, inst) {
            Seq::empty()
        } else {
            seq![SpecError { kind: SpecErrorKind::TypeMismatch { expected }, value: inst }]
        },
        SpecValidator::FalseSchema => seq![
            SpecError { kind: SpecErrorKind::FalseSchema, value: inst },
        ],
    }
}

/// The single violation a forbid variant reports for the first
/// uncovered key, if any.
pub open spec fn forbid_errors(
    entries: Seq<(Seq<char>, SpecValue)>,
    props: Option<Seq<Seq<char>>>,
    pat: Option<Seq<char>>,
) -> Seq<SpecError> {
    match first_non_exempt(entries, props, pat) {
        Some(k) => seq![
            SpecError { kind: SpecErrorKind::FalseSchema, value: SpecValue::Str(k) },
        ],
        None => Seq::empty(),
    }
}

/// The violations every subordinate validator reports over the
/// non-exempt property values, subordinate-major, each in document
/// order.
pub open spec fn subs_errors(
    subs: Seq<SpecValidator>,
    entries: Seq<(Seq<char>, SpecValue)>,
    props: Option<Seq<Seq<char>>>,
    pat: Option<Seq<char>>,
) -> Seq<SpecError>
    decreases subs, 1int,
{
    if subs.len() == 0 {
        Seq::empty()
    } else {
        subs_errors(subs.drop_last(), entries, props, pat) + one_sub_errors(
            subs[subs.len() - 1],
            entries,
            props,
            pat,
        )
    }
}

/// The violations one subordinate validator reports over the non-exempt
/// property values, in document order.
pub open spec fn one_sub_errors(
    sub: SpecValidator,
    entries: Seq<(Seq<char>, SpecValue)>,
    props: Option<Seq<Seq<char>>>,
    pat: Option<Seq<char>>,
) -> Seq<SpecError>
    decreases sub, 2 + entries.len(),
{
    if entries.len() == 0 {
        Seq::empty()
    } else {
        one_sub_errors(sub, entries.drop_last(), props, pat) + (if key_exempt(
            props,
            pat,
            entries[entries.len() - 1].0,
        ) {
            Seq::empty()
        } else {
            spec_errors(sub, entries[entries.len() - 1].1)
        })
    }
}

/// Whether an instance satisfies every validator of an aggregate.
pub open spec fn aggregate_valid(vs: Seq<SpecValidator>, inst: SpecValue) -> bool
    decreases vs,
{
    if vs.len() == 0 {
        true
    } else {
        aggregate_valid(vs.drop_last(), inst) && spec_valid(vs[vs.len() - 1], inst)
    }
}

/// The violations an aggregate reports: every member is queried, in
/// compilation order, and the violation sequences are concatenated.
pub open spec fn aggregate_errors(vs: Seq<SpecValidator>, inst: SpecValue) -> Seq<SpecError>
    decreases vs,
{
    if vs.len() == 0 {
        Seq::empty()
    } else {
        aggregate_errors(vs.drop_last(), inst) + spec_errors(vs[vs.len() - 1], inst)
    }
}

/// `first_non_exempt` finds nothing exactly when every key is exempt.
pub proof fn lemma_first_non_exempt_none(
    entries: Seq<(Seq<char>, SpecValue)>,
    props: Option<Seq<Seq<char>>>,
    pat: Option<Seq<char>>,
)
    ensures
        first_non_exempt(entries, props, pat) is None <==> (forall|j: int|
            0 <= j < entries.len() ==> key_exempt(props, pat, #[trigger] entries[j].0)),
    decreases entries.len(),
{
    if entries.len() > 0 {
        let rest = entries.drop_first();
        lemma_first_non_exempt_none(rest, props, pat);
        assert(forall|j: int| 0 <= j < rest.len() ==> #[trigger] rest[j] == entries[j + 1]);
        if key_exempt(props, pat, entries[0].0) {
            if first_non_exempt(entries, props, pat) is None {
                assert forall|j: int|
                    0 <= j < entries.len() implies key_exempt(
                    props,
                    pat,
                    (#[trigger] entries[j]).0,
                ) by {
                    if j >= 1 {
                        assert(rest[j - 1] == entries[j]);
                        assert(key_exempt(props, pat, rest[j - 1].0));
                    }
                }
            } else {
                let j = choose|j: int|
                    0 <= j < rest.len() && !key_exempt(props, pat, (#[trigger] rest[j]).0);
                assert(rest[j] == entries[j + 1]);
                assert(!key_exempt(props, pat, entries[j + 1].0));
            }
        }
    }
}

/// A scan that passes the first `j` keys as exempt and stops on a
/// non-exempt key has found `first_non_exempt`.
pub proof fn lemma_first_non_exempt_found(
    entries: Seq<(Seq<char>, SpecValue)>,
    props: Option<Seq<Seq<char>>>,
    pat: Option<Seq<char>>,
    j: int,
)
    requires
        0 <= j < entries.len(),
        forall|k: int| 0 <= k < j ==> key_exempt(props, pat, #[trigger] entries[k].0),
        !key_exempt(props, pat, entries[j].0),
    ensures
        first_non_exempt(entries, props, pat) == Some(entries[j].0),
    decreases j,
{
    if j > 0 {
        assert(forall|k: int|
            0 <= k < entries.drop_first().len() ==> #[trigger] entries.drop_first()[k]
                == entries[k + 1]);
        lemma_first_non_exempt_found(entries.drop_first(), props, pat, j - 1);
    }
}

/// Quantifier reading of `one_sub_valid`.
pub proof fn lemma_one_sub_valid_char(
    sub: SpecValidator,
    entries: Seq<(Seq<char>, SpecValue)>,
    props: Option<Seq<Seq<char>>>,
    pat: Option<Seq<char>>,
)
    ensures
        one_sub_valid(sub, entries, props, pat) <==> (forall|j: int|
            0 <= j < entries.len() ==> key_exempt(props, pat, (#[trigger] entries[j]).0)
                || spec_valid(sub, entries[j].1)),
    decreases entries.len(),
{
    if entries.len() > 0 {
        let prev = entries.drop_last();
        let n = entries.len() - 1;
        lemma_one_sub_valid_char(sub, prev, props, pat);
        assert(forall|j: int| 0 <= j < prev.len() ==> #[trigger] prev[j] == entries[j]);
        if one_sub_valid(sub, entries, props, pat) {
            assert forall|j: int|
                0 <= j < entries.len() implies key_exempt(props, pat, (#[trigger] entries[j]).0)
                || spec_valid(sub, entries[j].1) by {
                if j < n {
                    assert(prev[j] == entries[j]);
                    assert(key_exempt(props, pat, prev[j].0) || spec_valid(sub, prev[j].1));
                }
            }
        } else {
            if !one_sub_valid(sub, prev, props, pat) {
                let j = choose|j: int|
                    0 <= j < prev.len() && !(key_exempt(props, pat, (#[trigger] prev[j]).0)
                        || spec_valid(sub, prev[j].1));
                assert(prev[j] == entries[j]);
                assert(!(key_exempt(props, pat, entries[j].0) || spec_valid(sub, entries[j].1)));
            } else {
                assert(!(key_exempt(props, pat, entries[n].0) || spec_valid(sub, entries[n].1)));
            }
        }
    }
}

/// Quantifier reading of `subs_valid`.
pub proof fn lemma_subs_valid_char(
    subs: Seq<SpecValidator>,
    entries: Seq<(Seq<char>, SpecValue)>,
    props: Option<Seq<Seq<char>>>,
    pat: Option<Seq<char>>,
)
    ensures
        subs_valid(subs, entries, props, pat) <==> (forall|i: int|
            0 <= i < subs.len() ==> one_sub_valid(#[trigger] subs[i], entries, props, pat)),
    decreases subs.len(),
{
    if subs.len() > 0 {
        let prev = subs.drop_last();
        let n = subs.len() - 1;
        lemma_subs_valid_char(prev, entries, props, pat);
        assert(forall|i: int| 0 <= i < prev.len() ==> #[trigger] prev[i] == subs[i]);
        if subs_valid(subs, entries, props, pat) {
            assert forall|i: int|
                0 <= i < subs.len() implies one_sub_valid(
                #[trigger] subs[i],
                entries,
                props,
                pat,
            ) by {
                if i < n {
                    assert(prev[i] == subs[i]);
                    assert(one_sub_valid(prev[i], entries, props, pat));
                }
            }
        } else {
            if !subs_valid(prev, entries, props, pat) {
                let i = choose|i: int|
                    0 <= i < prev.len() && !one_sub_valid(#[trigger] prev[i], entries, props, pat);
                assert(prev[i] == subs[i]);
                assert(!one_sub_valid(subs[i], entries, props, pat));
            } else {
                assert(!one_sub_valid(subs[n], entries, props, pat));
            }
        }
    }
}

} // verus!
