//! The violation record produced when an instance breaks a compiled
//! validator, the single-pass sequence that `validate` hands out, and
//! the error a malformed schema raises at compile time.

use vstd::prelude::*;
use crate::value::JsonValue;
use crate::value::NumberValue;
use crate::value::SpecValue;
use crate::value::TypeKind;

verus! {

/// Why a schema fragment was rejected at compile time.
#[derive(Clone, Copy, Debug, PartialEq, Eq, Structural)]
pub enum CompilationError {
    /// The schema document is structurally invalid for a keyword's
    /// declared shape.
    SchemaError,
}

/// Which keyword's constraint a violation reports.
#[derive(Clone, Copy, Debug, PartialEq, Eq, Structural)]
pub enum ErrorKind {
    /// The governing schema allows nothing at the offending spot.
    FalseSchema,
    /// The instance number is not strictly above the limit.
    ExclusiveMinimum { limit: NumberValue },
    /// The instance does not have the required shape.
    TypeMismatch { expected: TypeKind },
}

/// The model of a violation kind. Numeric limits appear as their
/// mathematical value, so equal limits of different representations
/// report indistinguishable violations.
pub enum SpecErrorKind {
    FalseSchema,
    ExclusiveMinimum { limit: int },
    TypeMismatch { expected: TypeKind },
}

impl View for ErrorKind {
    type V = SpecErrorKind;

    open spec fn view(&self) -> SpecErrorKind {
        match *self {
            ErrorKind::FalseSchema => SpecErrorKind::FalseSchema,
            ErrorKind::ExclusiveMinimum { limit } => SpecErrorKind::ExclusiveMinimum {
                limit: limit.as_int(),
            },
            ErrorKind::TypeMismatch { expected } => SpecErrorKind::TypeMismatch { expected },
        }
    }
}

/// One reported failure of an instance against a validator: the kind of
/// constraint broken and a snapshot of the offending instance sub-value.
pub struct ValidationError {
    pub kind: ErrorKind,
    pub value: JsonValue,
}

/// The model of a violation record.
pub struct SpecError {
    pub kind: SpecErrorKind,
    pub value: SpecValue,
}

impl View for ValidationError {
    type V = SpecError;

    open spec fn view(&self) -> SpecError {
        SpecError { kind: self.kind@, value: self.value@ }
    }
}

/// The models of a list of violation records, element by element.
pub open spec fn errs_view(s: Seq<ValidationError>) -> Seq<SpecError> {
    Seq::new(s.len(), |i: int| s[i]@)
}

/// The finite, single-pass, non-restartable sequence of violation
/// records returned by `validate`. Its model is the sequence of
/// violations not yet consumed.
pub struct ErrorIterator {
    remaining: Vec<ValidationError>,
}

impl View for ErrorIterator {
    type V = Seq<SpecError>;

    closed spec fn view(&self) -> Seq<SpecError> {
        errs_view(self.remaining@)
    }
}

impl ErrorIterator {
    /// Wraps an already-produced list of violations, to be consumed
    /// front to back.
    pub fn new(errors: Vec<ValidationError>) -> (r: ErrorIterator)
        ensures
            r@ == errs_view(errors@),
    {
        ErrorIterator { remaining: errors }
    }

    /// Whether any violation is left to consume.
    pub fn is_empty(&self) -> (r: bool)
        ensures
            r == (self@.len() == 0),
    {
        self.remaining.len() == 0
    }

    /// Hands out the next violation, or `None` once the sequence is
    /// exhausted; consumed violations cannot be revisited.
    pub fn next(&mut self) -> (r: Option<ValidationError>)
        ensures
            old(self)@.len() == 0 ==> r is None && final(self)@ == old(self)@,
            old(self)@.len() > 0 ==> match r {
                Some(e) => e@ == old(self)@[0] && final(self)@ == old(self)@.drop_first(),
                None => false,
            },
    {
        if self.remaining.len() == 0 {
            None
        } else {
            let e = self.remaining.remove(0);
            proof {
                assert(self@ =~= old(self)@.drop_first());
            }
            Some(e)
        }
    }
}

} // verus!
