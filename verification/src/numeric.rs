//! Exact cross-representation numeric comparison. Each mixed-width
//! comparison is delegated to the `num_cmp` crate through a trusted
//! wrapper whose contract is the exact mathematical comparison.

use vstd::prelude::*;
use crate::value::NumberValue;

verus! {

/// Relies on `num_cmp::NumCmp::num_gt` for `u64` against `u64`:
/// exactly `a > b`.
#[verifier::external_body]
fn num_gt_u64_u64(a: u64, b: u64) -> (r: bool)
    ensures
        r == (a > b),
{
    num_cmp::NumCmp::num_gt(a, b)
}

/// Relies on `num_cmp::NumCmp::num_gt` for `u64` against `i64`:
/// exact comparison of the mathematical values, without coercion loss.
#[verifier::external_body]
fn num_gt_u64_i64(a: u64, b: i64) -> (r: bool)
    ensures
        r == (a as int > b as int),
{
    num_cmp::NumCmp::num_gt(a, b)
}

/// Relies on `num_cmp::NumCmp::num_gt` for `i64` against `u64`:
/// exact comparison of the mathematical values, without coercion loss.
#[verifier::external_body]
fn num_gt_i64_u64(a: i64, b: u64) -> (r: bool)
    ensures
        r == (a as int > b as int),
{
    num_cmp::NumCmp::num_gt(a, b)
}

/// Relies on `num_cmp::NumCmp::num_gt` for `i64` against `i64`:
/// exactly `a > b`.
#[verifier::external_body]
fn num_gt_i64_i64(a: i64, b: i64) -> (r: bool)
    ensures
        r == (a > b),
{
    num_cmp::NumCmp::num_gt(a, b)
}

/// Exact "strictly greater" between an instance number and a limit,
/// dispatching on the representation pair so that no comparison loses
/// precision.
pub fn number_gt(n: NumberValue, limit: NumberValue) -> (r: bool)
    ensures
        r == (n.as_int() > limit.as_int()),
{
    match (n, limit) {
        (NumberValue::Unsigned(a), NumberValue::Unsigned(b)) => num_gt_u64_u64(a, b),
        (NumberValue::Unsigned(a), NumberValue::Signed(b)) => num_gt_u64_i64(a, b),
        (NumberValue::Signed(a), NumberValue::Unsigned(b)) => num_gt_i64_u64(a, b),
        (NumberValue::Signed(a), NumberValue::Signed(b)) => num_gt_i64_i64(a, b),
    }
}

} // verus!
