//! The structured-data value model: the tree shape shared by schema
//! documents and the instances validated against them, together with its
//! mathematical view.

use vstd::prelude::*;

verus! {

/// An exact numeric value. Non-negative integers are carried as `u64`,
/// negative integers as `i64`, so that bound checks can be made without
/// precision loss in either representation.
#[derive(Clone, Copy, Debug, PartialEq, Eq, Structural)]
pub enum NumberValue {
    Unsigned(u64),
    Signed(i64),
}

impl NumberValue {
    /// The mathematical integer this number denotes.
    pub open spec fn as_int(self) -> int {
        match self {
            NumberValue::Unsigned(u) => u as int,
            NumberValue::Signed(i) => i as int,
        }
    }
}

/// A parsed structured-data value: null, boolean, exact number, string,
/// ordered array, or object. Object entries keep the order they were
/// handed over in (a parsed document hands them over key-ordered), and
/// every check and report walks them in that order.
pub enum JsonValue {
    Null,
    Bool(bool),
    Number(NumberValue),
    Str(String),
    Array(Vec<JsonValue>),
    Object(Vec<(String, JsonValue)>),
}

/// The mathematical model of a structured-data value.
pub enum SpecValue {
    Null,
    Bool(bool),
    Int(int),
    Str(Seq<char>),
    Array(Seq<SpecValue>),
    Object(Seq<(Seq<char>, SpecValue)>),
}

/// The model of an executable value: numbers become mathematical
/// integers, strings become character sequences, arrays and objects
/// become sequences of modelled children.
pub open spec fn spec_value_of(v: JsonValue) -> SpecValue
    decreases v,
{
    match v {
        JsonValue::Null => SpecValue::Null,
        JsonValue::Bool(b) => SpecValue::Bool(b),
        JsonValue::Number(n) => SpecValue::Int(n.as_int()),
        JsonValue::Str(s) => SpecValue::Str(s@),
        JsonValue::Array(items) => SpecValue::Array(spec_values_of(items@)),
        JsonValue::Object(entries) => SpecValue::Object(spec_entries_of(entries@)),
    }
}

/// The models of a sequence of values, element by element.
pub open spec fn spec_values_of(items: Seq<JsonValue>) -> Seq<SpecValue>
    decreases items,
{
    if items.len() == 0 {
        Seq::empty()
    } else {
        spec_values_of(items.drop_last()).push(spec_value_of(items[items.len() - 1]))
    }
}

/// The models of a sequence of object entries, element by element.
pub open spec fn spec_entries_of(entries: Seq<(String, JsonValue)>) -> Seq<(Seq<char>, SpecValue)>
    decreases entries,
{
    if entries.len() == 0 {
        Seq::empty()
    } else {
        spec_entries_of(entries.drop_last()).push(
            (entries[entries.len() - 1].0@, spec_value_of(entries[entries.len() - 1].1)),
        )
    }
}

/// The instance shapes a type-restricting keyword can name.
#[derive(Clone, Copy, Debug, PartialEq, Eq, Structural)]
pub enum TypeKind {
    Null,
    Boolean,
    Number,
    Integer,
    Str,
    Array,
    Object,
}

/// Whether an instance has the shape a type keyword names. Every number
/// this engine carries is exact, so `Number` and `Integer` coincide.
pub open spec fn shape_matches(kind: TypeKind, inst: SpecValue) -> bool {
    match kind {
        TypeKind::Null => inst is Null,
        TypeKind::Boolean => inst is Bool,
        TypeKind::Number => inst is Int,
        TypeKind::Integer => inst is Int,
        TypeKind::Str => inst is Str,
        TypeKind::Array => inst is Array,
        TypeKind::Object => inst is Object,
    }
}

/// Element-wise reading of `spec_values_of`.
pub broadcast proof fn lemma_spec_values_of(items: Seq<JsonValue>)
    ensures
        #[trigger] spec_values_of(items).len() == items.len(),
        forall|i: int|
            0 <= i < items.len() ==> spec_values_of(items)[i] == spec_value_of(items[i]),
    decreases items,
{
    if items.len() > 0 {
        lemma_spec_values_of(items.drop_last());
    }
}

/// Element-wise reading of `spec_entries_of`.
pub broadcast proof fn lemma_spec_entries_of(entries: Seq<(String, JsonValue)>)
    ensures
        #[trigger] spec_entries_of(entries).len() == entries.len(),
        forall|i: int|
            0 <= i < entries.len() ==> spec_entries_of(entries)[i] == (
                entries[i].0@,
                spec_value_of(entries[i].1),
            ),
    decreases entries,
{
    if entries.len() > 0 {
        lemma_spec_entries_of(entries.drop_last());
    }
}

impl View for JsonValue {
    type V = SpecValue;

    open spec fn view(&self) -> SpecValue {
        spec_value_of(*self)
    }
}

impl JsonValue {
    /// A deep copy denoting the same model.
    pub fn deep_clone(&self) -> (r: JsonValue)
        ensures
            r@ == self@,
        decreases self, 0int,
    {
        match self {
            JsonValue::Null => JsonValue::Null,
            JsonValue::Bool(b) => JsonValue::Bool(*b),
            JsonValue::Number(n) => JsonValue::Number(*n),
            JsonValue::Str(s) => JsonValue::Str(s.clone()),
            JsonValue::Array(items) => JsonValue::Array(clone_values(items)),
            JsonValue::Object(entries) => JsonValue::Object(clone_entries(entries)),
        }
    }
}

/// A deep copy of a value list denoting the same models.
#[verifier::loop_isolation(false)]
pub fn clone_values(items: &Vec<JsonValue>) -> (r: Vec<JsonValue>)
    ensures
        spec_values_of(r@) == spec_values_of(items@),
    decreases items@, 1int,
{
    let mut out: Vec<JsonValue> = Vec::new();
    let mut i: usize = 0;
    while i < items.len()
        invariant
            i <= items.len(),
            out@.len() == i,
            forall|k: int|
                0 <= k < i ==> spec_value_of(#[trigger] out@[k]) == spec_value_of(items@[k]),
        decreases items.len() - i,
    {
        let c = items[i].deep_clone();
        out.push(c);
        i += 1;
    }
    proof {
        lemma_spec_values_of(out@);
        lemma_spec_values_of(items@);
        assert(spec_values_of(out@) =~= spec_values_of(items@));
    }
    out
}

/// A deep copy of an entry list denoting the same models.
#[verifier::loop_isolation(false)]
pub fn clone_entries(entries: &Vec<(String, JsonValue)>) -> (r: Vec<(String, JsonValue)>)
    ensures
        spec_entries_of(r@) == spec_entries_of(entries@),
    decreases entries@, 1int,
{
    let mut out: Vec<(String, JsonValue)> = Vec::new();
    let mut i: usize = 0;
    while i < entries.len()
        invariant
            i <= entries.len(),
            out@.len() == i,
            forall|k: int|
                0 <= k < i ==> (#[trigger] out@[k]).0@ == entries@[k].0@ && spec_value_of(
                    out@[k].1,
                ) == spec_value_of(entries@[k].1),
        decreases entries.len() - i,
    {
        let key = entries[i].0.clone();
        let val = entries[i].1.deep_clone();
        out.push((key, val));
        i += 1;
    }
    proof {
        lemma_spec_entries_of(out@);
        lemma_spec_entries_of(entries@);
        assert(spec_entries_of(out@) =~= spec_entries_of(entries@));
    }
    out
}

/// The models of a list of strings, element by element.
pub open spec fn strings_view(s: Seq<String>) -> Seq<Seq<char>> {
    Seq::new(s.len(), |i: int| s[i]@)
}

/// Relies on `str`'s `PartialEq`: two string slices are equal exactly
/// when their character sequences are.
#[verifier::external_body]
pub fn str_eq(a: &str, b: &str) -> (r: bool)
    ensures
        r == (a@ == b@),
{
    a == b
}

} // verus!
