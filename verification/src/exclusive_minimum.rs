//! The "exclusive minimum" keyword compiler: the limit is bound at
//! compile time to the narrowest exact representation, and the
//! validate-time comparison is exact for every (limit, instance)
//! representation pair.

use vstd::prelude::*;
use crate::compiler::CompilationContext;
use crate::error::CompilationError;
use crate::model::SpecValidator;
use crate::validator::opt_res_view;
use crate::validator::ExclusiveMinimumI64Validator;
use crate::validator::ExclusiveMinimumU64Validator;
use crate::validator::Validator;
use crate::value::JsonValue;
use crate::value::NumberValue;
use crate::value::SpecValue;

verus! {

/// The model of the keyword compiler: a numeric limit compiles to the
/// exact-bound validator, anything else is a schema error.
pub open spec fn spec_compile_exclusive_minimum(schema: SpecValue) -> Option<
    Result<SpecValidator, CompilationError>,
> {
    match schema {
        SpecValue::Int(n) => Some(Ok(SpecValidator::ExclusiveMinimum { limit: n })),
        _ => Some(Err(CompilationError::SchemaError)),
    }
}

/// Compiles the "exclusive minimum" keyword, choosing the validator
/// variant bound to the limit's own exact representation. Two limits
/// of equal value but different representation compile to validators
/// with the same model.
pub fn compile(
    _parent: &Vec<(String, JsonValue)>,
    schema: &JsonValue,
    _context: &CompilationContext,
) -> (r: Option<Result<Validator, CompilationError>>)
    ensures
        opt_res_view(r) == spec_compile_exclusive_minimum(schema@),
{
    match schema {
        JsonValue::Number(n) => match n {
            NumberValue::Unsigned(u) => Some(
                Ok(Validator::ExclusiveMinimumU64(ExclusiveMinimumU64Validator { limit: *u })),
            ),
            NumberValue::Signed(i) => Some(
                Ok(Validator::ExclusiveMinimumI64(ExclusiveMinimumI64Validator { limit: *i })),
            ),
        },
        _ => Some(Err(CompilationError::SchemaError)),
    }
}

} // verus!
