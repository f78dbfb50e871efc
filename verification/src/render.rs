//! Human-readable labels for compiled validators: the keyword name plus
//! its effective parameters, for diagnostics and debugging only, never
//! for control flow. The label of a validator is fixed exactly, as a
//! function of its model.

use vstd::prelude::*;
use crate::model::SpecValidator;
use crate::validator::lemma_spec_validators_of;
use crate::validator::spec_validators_of;
use crate::validator::Validator;
use crate::value::TypeKind;

verus! {

/// The decimal digit character of a value below ten.
pub open spec fn dec_digit(d: int) -> char {
    if d == 0 {
        '0'
    } else if d == 1 {
        '1'
    } else if d == 2 {
        '2'
    } else if d == 3 {
        '3'
    } else if d == 4 {
        '4'
    } else if d == 5 {
        '5'
    } else if d == 6 {
        '6'
    } else if d == 7 {
        '7'
    } else if d == 8 {
        '8'
    } else {
        '9'
    }
}

/// The decimal rendering of a non-negative integer, most significant
/// digit first, without leading zeros.
pub open spec fn dec_str(n: int) -> Seq<char>
    recommends
        n >= 0,
    decreases n,
    when n >= 0
{
    if n < 10 {
        seq![dec_digit(n)]
    } else {
        dec_str(n / 10).push(dec_digit(n % 10))
    }
}

/// The decimal rendering of an integer, with a leading minus sign when
/// it is negative.
pub open spec fn int_str(n: int) -> Seq<char> {
    if n >= 0 {
        dec_str(n)
    } else {
        seq!['-'] + dec_str(-n)
    }
}

/// The name of an instance shape.
pub open spec fn spec_type_name(kind: TypeKind) -> Seq<char> {
    match kind {
        TypeKind::Null => "null"@,
        TypeKind::Boolean => "boolean"@,
        TypeKind::Number => "number"@,
        TypeKind::Integer => "integer"@,
        TypeKind::Str => "string"@,
        TypeKind::Array => "array"@,
        TypeKind::Object => "object"@,
    }
}

/// The label of a compiled validator: the keyword name plus its
/// effective parameters. Forbid variants all read as the false-valued
/// keyword; subordinate-schema variants list their subordinate
/// validators' labels in order; numeric variants show the limit's
/// decimal value, whichever representation carries it.
pub open spec fn spec_label(v: SpecValidator) -> Seq<char>
    decreases v, 0int,
{
    match v {
        SpecValidator::AdditionalProperties { subs } => "additionalProperties: ["@
            + spec_labels_join(subs) + "]"@,
        SpecValidator::AdditionalPropertiesFalse => "additionalProperties: false"@,
        SpecValidator::AdditionalPropertiesNotEmptyFalse { .. } => "additionalProperties: false"@,
        SpecValidator::AdditionalPropertiesNotEmpty { subs, .. } => "additionalProperties: ["@
            + spec_labels_join(subs) + "]"@,
        SpecValidator::AdditionalPropertiesWithPatterns { subs, .. } => "additionalProperties: ["@
            + spec_labels_join(subs) + "]"@,
        SpecValidator::AdditionalPropertiesWithPatternsFalse { .. } =>
            "additionalProperties: false"@,
        SpecValidator::AdditionalPropertiesWithPatternsNotEmpty { subs, .. } =>
            "additionalProperties: ["@ + spec_labels_join(subs) + "]"@,
        SpecValidator::AdditionalPropertiesWithPatternsNotEmptyFalse { .. } =>
            "additionalProperties: false"@,
        SpecValidator::ExclusiveMinimum { limit } => "exclusiveMinimum: "@ + int_str(limit),
        SpecValidator::TypeCheck { expected } => "type: "@ + spec_type_name(expected),
        SpecValidator::FalseSchema => "false"@,
    }
}

/// The labels of a list of validators, joined with a comma and a
/// space.
pub open spec fn spec_labels_join(subs: Seq<SpecValidator>) -> Seq<char>
    decreases subs, 1int,
{
    if subs.len() == 0 {
        Seq::empty()
    } else if subs.len() == 1 {
        spec_label(subs[0])
    } else {
        spec_labels_join(subs.drop_last()) + ", "@ + spec_label(subs[subs.len() - 1])
    }
}

/// One decimal digit as text.
fn digit_str(d: u64) -> (r: &'static str)
    requires
        d < 10,
    ensures
        r@ == seq![dec_digit(d as int)],
{
    proof {
        reveal_strlit("0");
        reveal_strlit("1");
        reveal_strlit("2");
        reveal_strlit("3");
        reveal_strlit("4");
        reveal_strlit("5");
        reveal_strlit("6");
        reveal_strlit("7");
        reveal_strlit("8");
        reveal_strlit("9");
    }
    let r: &'static str = match d {
        0 => "0",
        1 => "1",
        2 => "2",
        3 => "3",
        4 => "4",
        5 => "5",
        6 => "6",
        7 => "7",
        8 => "8",
        _ => "9",
    };
    proof {
        assert(r@ =~= seq![dec_digit(d as int)]);
    }
    r
}

/// The decimal rendering of a non-negative integer.
#[verifier::loop_isolation(false)]
fn u64_to_string(n: u64) -> (r: String)
    ensures
        r@ == dec_str(n as int),
{
    if n < 10 {
        let d = digit_str(n);
        let mut out = String::new();
        out.append(d);
        return out;
    }
    let mut digits: Vec<&str> = Vec::new();
    let ghost mut tail: Seq<char> = Seq::empty();
    let mut m: u64 = n;
    while m > 0
        invariant
            m > 0 ==> dec_str(n as int) == dec_str(m as int) + tail,
            m == 0 ==> dec_str(n as int) == tail,
            digits@.len() == tail.len(),
            forall|j: int|
                0 <= j < digits@.len() ==> (#[trigger] digits@[j])@ == seq![
                    tail[tail.len() - 1 - j],
                ],
        decreases m,
    {
        let d = m % 10;
        let s = digit_str(d);
        proof {
            if m >= 10 {
                assert(dec_str(m as int) == dec_str(m as int / 10).push(
                    dec_digit(m as int % 10),
                ));
                assert(dec_str(m as int / 10).push(dec_digit(m as int % 10)) =~= dec_str(
                    m as int / 10,
                ) + seq![dec_digit(m as int % 10)]);
                assert(dec_str(m as int / 10) + seq![dec_digit(m as int % 10)] + tail =~= dec_str(
                    m as int / 10,
                ) + (seq![dec_digit(m as int % 10)] + tail));
            } else {
                assert(dec_str(m as int) == seq![dec_digit(m as int)]);
            }
            tail = seq![dec_digit(d as int)] + tail;
        }
        digits.push(s);
        m = m / 10;
    }
    let mut out = String::new();
    let mut i: usize = digits.len();
    while i > 0
        invariant
            i <= digits.len(),
            out@ =~= tail.take(digits@.len() - i),
        decreases i,
    {
        i -= 1;
        out.append(digits[i]);
        proof {
            assert(out@ =~= tail.take(digits@.len() - i));
        }
    }
    proof {
        assert(tail.take(tail.len() as int) =~= tail);
    }
    out
}

/// The decimal rendering of a signed integer.
fn i64_to_string(n: i64) -> (r: String)
    ensures
        r@ == int_str(n as int),
{
    if n >= 0 {
        u64_to_string(n as u64)
    } else {
        let mag: u64 = ((-(n + 1)) as u64) + 1;
        proof {
            reveal_strlit("-");
            assert(mag as int == -(n as int));
            assert("-"@ =~= seq!['-']);
        }
        let mut out = "-".to_owned();
        let rest = u64_to_string(mag);
        out.append(rest.as_str());
        out
    }
}

/// The name of an instance shape.
fn type_label(kind: TypeKind) -> (r: &'static str)
    ensures
        r@ == spec_type_name(kind),
{
    match kind {
        TypeKind::Null => "null",
        TypeKind::Boolean => "boolean",
        TypeKind::Number => "number",
        TypeKind::Integer => "integer",
        TypeKind::Str => "string",
        TypeKind::Array => "array",
        TypeKind::Object => "object",
    }
}

/// The label of a subordinate-schema variant: the keyword name followed
/// by the subordinate validators' own labels, in order.
#[verifier::loop_isolation(false)]
fn label_with_subs(subs: &Vec<Validator>) -> (r: String)
    ensures
        r@ == "additionalProperties: ["@ + spec_labels_join(spec_validators_of(subs@)) + "]"@,
    decreases subs@, 6int,
{
    let ghost sv = spec_validators_of(subs@);
    proof {
        lemma_spec_validators_of(subs@);
        assert(sv.take(0) =~= Seq::<SpecValidator>::empty());
    }
    let mut out = "additionalProperties: [".to_owned();
    proof {
        assert(out@ =~= "additionalProperties: ["@ + spec_labels_join(sv.take(0)));
    }
    let mut i: usize = 0;
    while i < subs.len()
        invariant
            i <= subs.len(),
            out@ == "additionalProperties: ["@ + spec_labels_join(sv.take(i as int)),
        decreases subs.len() - i,
    {
        if i > 0 {
            out.append(", ");
        }
        let label = subs[i].to_string();
        out.append(label.as_str());
        proof {
            assert(sv.take(i + 1).drop_last() =~= sv.take(i as int));
            assert(sv.take(i + 1)[i as int] == sv[i as int]);
            if i == 0 {
                assert(out@ =~= "additionalProperties: ["@ + spec_labels_join(sv.take(1)));
            } else {
                assert(out@ =~= "additionalProperties: ["@ + (spec_labels_join(sv.take(i as int))
                    + ", "@ + spec_label(sv[i as int])));
            }
        }
        i += 1;
    }
    proof {
        assert(sv.take(sv.len() as int) =~= sv);
    }
    out.append("]");
    out
}

impl Validator {
    /// A stable human-readable label of this validator's configuration:
    /// exactly `spec_label` of its model.
    pub fn to_string(&self) -> (r: String)
        ensures
            r@ == spec_label(self@),
        decreases self, 7int,
    {
        match self {
            Validator::AdditionalProperties(v) => label_with_subs(&v.validators),
            Validator::AdditionalPropertiesFalse(_) => "additionalProperties: false".to_owned(),
            Validator::AdditionalPropertiesNotEmptyFalse(_) => "additionalProperties: false"
                .to_owned(),
            Validator::AdditionalPropertiesNotEmpty(v) => label_with_subs(&v.validators),
            Validator::AdditionalPropertiesWithPatterns(v) => label_with_subs(&v.validators),
            Validator::AdditionalPropertiesWithPatternsFalse(_) => "additionalProperties: false"
                .to_owned(),
            Validator::AdditionalPropertiesWithPatternsNotEmpty(v) => label_with_subs(
                &v.validators,
            ),
            Validator::AdditionalPropertiesWithPatternsNotEmptyFalse(_) =>
                "additionalProperties: false".to_owned(),
            Validator::ExclusiveMinimumU64(v) => {
                let mut out = "exclusiveMinimum: ".to_owned();
                let num = u64_to_string(v.limit);
                out.append(num.as_str());
                out
            },
            Validator::ExclusiveMinimumI64(v) => {
                let mut out = "exclusiveMinimum: ".to_owned();
                let num = i64_to_string(v.limit);
                out.append(num.as_str());
                out
            },
            Validator::TypeCheck(v) => {
                let mut out = "type: ".to_owned();
                out.append(type_label(v.kind));
                out
            },
            Validator::FalseSchema(_) => "false".to_owned(),
        }
    }
}

} // verus!
