//! The engine-wide laws, proved over the validator model: agreement of
//! the two check modes, vacuity on shapes a validator does not govern,
//! monotonicity of exemptions, and order preservation of aggregate
//! reporting.

use vstd::prelude::*;
use crate::error::SpecError;
use crate::model::aggregate_errors;
use crate::model::aggregate_valid;
use crate::model::first_non_exempt;
use crate::model::key_exempt;
use crate::model::lemma_first_non_exempt_none;
use crate::model::lemma_one_sub_valid_char;
use crate::model::lemma_subs_valid_char;
use crate::model::one_sub_errors;
use crate::model::one_sub_valid;
use crate::model::spec_errors;
use crate::model::spec_valid;
use crate::model::subs_errors;
use crate::model::subs_valid;
use crate::model::SpecValidator;
use crate::pattern::regex_match;
use crate::value::SpecValue;

verus! {

/// One subordinate validator accepts all non-exempt values exactly when
/// it reports no violation over them.
pub proof fn lemma_one_sub_iff(
    sub: SpecValidator,
    entries: Seq<(Seq<char>, SpecValue)>,
    props: Option<Seq<Seq<char>>>,
    pat: Option<Seq<char>>,
)
    ensures
        one_sub_valid(sub, entries, props, pat) <==> one_sub_errors(sub, entries, props, pat).len()
            == 0,
    decreases sub, 2 + entries.len(),
{
    if entries.len() > 0 {
        lemma_one_sub_iff(sub, entries.drop_last(), props, pat);
        if !key_exempt(props, pat, entries[entries.len() - 1].0) {
            lemma_valid_iff_no_errors(sub, entries[entries.len() - 1].1);
        }
    }
}

/// The subordinate validators all accept exactly when none reports a
/// violation.
pub proof fn lemma_subs_iff(
    subs: Seq<SpecValidator>,
    entries: Seq<(Seq<char>, SpecValue)>,
    props: Option<Seq<Seq<char>>>,
    pat: Option<Seq<char>>,
)
    ensures
        subs_valid(subs, entries, props, pat) <==> subs_errors(subs, entries, props, pat).len()
            == 0,
    decreases subs, 1int,
{
    if subs.len() > 0 {
        lemma_subs_iff(subs.drop_last(), entries, props, pat);
        lemma_one_sub_iff(subs[subs.len() - 1], entries, props, pat);
    }
}

/// Boolean/detail agreement: a validator accepts an instance exactly
/// when its detailed check reports no violation.
pub proof fn lemma_valid_iff_no_errors(v: SpecValidator, inst: SpecValue)
    ensures
        spec_valid(v, inst) <==> spec_errors(v, inst).len() == 0,
    decreases v, 0int,
{
    match v {
        SpecValidator::AdditionalProperties { subs } => {
            if let SpecValue::Object(entries) = inst {
                lemma_subs_iff(subs, entries, None, None);
            }
        },
        SpecValidator::AdditionalPropertiesNotEmpty { subs, properties } => {
            if let SpecValue::Object(entries) = inst {
                lemma_subs_iff(subs, entries, Some(properties), None);
            }
        },
        SpecValidator::AdditionalPropertiesWithPatterns { subs, pattern } => {
            if let SpecValue::Object(entries) = inst {
                lemma_subs_iff(subs, entries, None, Some(pattern));
            }
        },
        SpecValidator::AdditionalPropertiesWithPatternsNotEmpty { subs, properties, pattern } => {
            if let SpecValue::Object(entries) = inst {
                lemma_subs_iff(subs, entries, Some(properties), Some(pattern));
            }
        },
        _ => {},
    }
}

/// An aggregate accepts exactly when its detailed check reports no
/// violation.
pub proof fn lemma_aggregate_iff(vs: Seq<SpecValidator>, inst: SpecValue)
    ensures
        aggregate_valid(vs, inst) <==> aggregate_errors(vs, inst).len() == 0,
    decreases vs,
{
    if vs.len() > 0 {
        lemma_aggregate_iff(vs.drop_last(), inst);
        lemma_valid_iff_no_errors(vs[vs.len() - 1], inst);
    }
}

/// Whether a validator variant governs object-shaped instances only.
pub open spec fn governs_objects(v: SpecValidator) -> bool {
    ||| v matches SpecValidator::AdditionalProperties { .. }
    ||| v matches SpecValidator::AdditionalPropertiesFalse
    ||| v matches SpecValidator::AdditionalPropertiesNotEmptyFalse { .. }
    ||| v matches SpecValidator::AdditionalPropertiesNotEmpty { .. }
    ||| v matches SpecValidator::AdditionalPropertiesWithPatterns { .. }
    ||| v matches SpecValidator::AdditionalPropertiesWithPatternsFalse { .. }
    ||| v matches SpecValidator::AdditionalPropertiesWithPatternsNotEmpty { .. }
    ||| v matches SpecValidator::AdditionalPropertiesWithPatternsNotEmptyFalse { .. }
}

/// Shape vacuity: a property-restricting validator accepts every
/// non-object instance and reports nothing about it.
pub proof fn lemma_shape_vacuity_objects(v: SpecValidator, inst: SpecValue)
    requires
        governs_objects(v),
        !(inst is Object),
    ensures
        spec_valid(v, inst),
        spec_errors(v, inst) == Seq::<SpecError>::empty(),
{
}

/// Shape vacuity: a numeric-bound validator accepts every non-numeric
/// instance and reports nothing about it.
pub proof fn lemma_shape_vacuity_numbers(v: SpecValidator, inst: SpecValue)
    requires
        v matches SpecValidator::ExclusiveMinimum { .. },
        !(inst is Int),
    ensures
        spec_valid(v, inst),
        spec_errors(v, inst) == Seq::<SpecError>::empty(),
{
}

/// Exemption monotonicity, forbid family: under every exemption pair at
/// least as permissive as the old one, an object with no uncovered key
/// still has none.
pub proof fn lemma_exemption_monotonic_forbid(
    entries: Seq<(Seq<char>, SpecValue)>,
    props1: Option<Seq<Seq<char>>>,
    pat1: Option<Seq<char>>,
    props2: Option<Seq<Seq<char>>>,
    pat2: Option<Seq<char>>,
)
    requires
        forall|k: Seq<char>| #[trigger] key_exempt(props1, pat1, k) ==> key_exempt(props2, pat2, k),
    ensures
        first_non_exempt(entries, props1, pat1) is None ==> first_non_exempt(entries, props2, pat2)
            is None,
{
    lemma_first_non_exempt_none(entries, props1, pat1);
    lemma_first_non_exempt_none(entries, props2, pat2);
}

/// Exemption monotonicity, subordinate-schema family: widening the
/// exemptions only removes values from the checked set, so acceptance
/// is preserved.
pub proof fn lemma_exemption_monotonic_subschema(
    subs: Seq<SpecValidator>,
    entries: Seq<(Seq<char>, SpecValue)>,
    props1: Option<Seq<Seq<char>>>,
    pat1: Option<Seq<char>>,
    props2: Option<Seq<Seq<char>>>,
    pat2: Option<Seq<char>>,
)
    requires
        forall|k: Seq<char>| #[trigger] key_exempt(props1, pat1, k) ==> key_exempt(props2, pat2, k),
    ensures
        subs_valid(subs, entries, props1, pat1) ==> subs_valid(subs, entries, props2, pat2),
{
    lemma_subs_valid_char(subs, entries, props1, pat1);
    lemma_subs_valid_char(subs, entries, props2, pat2);
    if subs_valid(subs, entries, props1, pat1) {
        assert forall|i: int|
            0 <= i < subs.len() implies one_sub_valid(#[trigger] subs[i], entries, props2, pat2) by {
            lemma_one_sub_valid_char(subs[i], entries, props1, pat1);
            lemma_one_sub_valid_char(subs[i], entries, props2, pat2);
            assert(one_sub_valid(subs[i], entries, props1, pat1));
        }
    }
}

/// Exemption monotonicity at the validator level, forbid variant:
/// growing the named-exemption set or widening the pattern union can
/// only turn a rejection into an acceptance, with the keyword's own
/// value held fixed.
pub proof fn lemma_exemption_monotonicity_forbid_variant(
    properties1: Seq<Seq<char>>,
    pattern1: Seq<char>,
    properties2: Seq<Seq<char>>,
    pattern2: Seq<char>,
    inst: SpecValue,
)
    requires
        forall|k: Seq<char>| #[trigger] properties1.contains(k) ==> properties2.contains(k),
        forall|k: Seq<char>| #[trigger] regex_match(pattern1, k) ==> regex_match(pattern2, k),
        spec_valid(
            SpecValidator::AdditionalPropertiesWithPatternsNotEmptyFalse {
                properties: properties1,
                pattern: pattern1,
            },
            inst,
        ),
    ensures
        spec_valid(
            SpecValidator::AdditionalPropertiesWithPatternsNotEmptyFalse {
                properties: properties2,
                pattern: pattern2,
            },
            inst,
        ),
{
    if let SpecValue::Object(entries) = inst {
        assert forall|k: Seq<char>|
            #[trigger] key_exempt(Some(properties1), Some(pattern1), k) implies key_exempt(
            Some(properties2),
            Some(pattern2),
            k,
        ) by {}
        lemma_exemption_monotonic_forbid(
            entries,
            Some(properties1),
            Some(pattern1),
            Some(properties2),
            Some(pattern2),
        );
    }
}

/// Exemption monotonicity at the validator level, subordinate-schema
/// variant: growing the named-exemption set or widening the pattern
/// union can only turn a rejection into an acceptance, with the
/// keyword's own value held fixed.
pub proof fn lemma_exemption_monotonicity_subschema_variant(
    subs: Seq<SpecValidator>,
    properties1: Seq<Seq<char>>,
    pattern1: Seq<char>,
    properties2: Seq<Seq<char>>,
    pattern2: Seq<char>,
    inst: SpecValue,
)
    requires
        forall|k: Seq<char>| #[trigger] properties1.contains(k) ==> properties2.contains(k),
        forall|k: Seq<char>| #[trigger] regex_match(pattern1, k) ==> regex_match(pattern2, k),
        spec_valid(
            SpecValidator::AdditionalPropertiesWithPatternsNotEmpty {
                subs,
                properties: properties1,
                pattern: pattern1,
            },
            inst,
        ),
    ensures
        spec_valid(
            SpecValidator::AdditionalPropertiesWithPatternsNotEmpty {
                subs,
                properties: properties2,
                pattern: pattern2,
            },
            inst,
        ),
{
    if let SpecValue::Object(entries) = inst {
        assert forall|k: Seq<char>|
            #[trigger] key_exempt(Some(properties1), Some(pattern1), k) implies key_exempt(
            Some(properties2),
            Some(pattern2),
            k,
        ) by {}
        lemma_exemption_monotonic_subschema(
            subs,
            entries,
            Some(properties1),
            Some(pattern1),
            Some(properties2),
            Some(pattern2),
        );
    }
}

/// Numeric representation irrelevance: limits of equal value compile to
/// validators with the same model, whether carried as unsigned or as
/// signed integers, so they are behaviorally indistinguishable to every
/// caller of the check modes.
pub proof fn lemma_limit_representation_irrelevant(u: u64, i: i64)
    requires
        u as int == i as int,
    ensures
        crate::validator::spec_validator_of(
            crate::validator::Validator::ExclusiveMinimumU64(
                crate::validator::ExclusiveMinimumU64Validator { limit: u },
            ),
        ) == crate::validator::spec_validator_of(
            crate::validator::Validator::ExclusiveMinimumI64(
                crate::validator::ExclusiveMinimumI64Validator { limit: i },
            ),
        ),
{
}

/// Appending one validator to an aggregate appends exactly its
/// violations to the aggregate's report.
pub proof fn lemma_aggregate_errors_push(
    vs: Seq<SpecValidator>,
    v: SpecValidator,
    inst: SpecValue,
)
    ensures
        aggregate_errors(vs.push(v), inst) == aggregate_errors(vs, inst) + spec_errors(v, inst),
        aggregate_valid(vs.push(v), inst) == (aggregate_valid(vs, inst) && spec_valid(v, inst)),
{
    assert(vs.push(v).drop_last() =~= vs);
    assert(vs.push(v)[vs.push(v).len() - 1] == v);
}

/// Order-preserving concatenation: an aggregate compiled from one
/// keyword and then another reports the first keyword's violations
/// strictly before the second's.
pub proof fn lemma_order_preserving_concatenation(
    v1: SpecValidator,
    v2: SpecValidator,
    inst: SpecValue,
)
    ensures
        aggregate_errors(seq![v1, v2], inst) == spec_errors(v1, inst) + spec_errors(v2, inst),
{
    let one = seq![v1];
    lemma_aggregate_errors_push(one, v2, inst);
    assert(one.push(v2) =~= seq![v1, v2]);
    lemma_aggregate_errors_push(Seq::empty(), v1, inst);
    assert(Seq::<SpecValidator>::empty().push(v1) =~= one);
    assert(Seq::<SpecError>::empty() + spec_errors(v1, inst) =~= spec_errors(v1, inst));
}

} // verus!
