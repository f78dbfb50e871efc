//! The "type" keyword compiler, single-shape form: the schema names an
//! instance shape, and the compiled validator accepts exactly the
//! instances of that shape.

use vstd::prelude::*;
use crate::compiler::CompilationContext;
use crate::error::CompilationError;
use crate::model::SpecValidator;
use crate::validator::opt_res_view;
use crate::validator::TypeValidator;
use crate::validator::Validator;
use crate::value::str_eq;
use crate::value::JsonValue;
use crate::value::SpecValue;
use crate::value::TypeKind;

verus! {

/// The shape a type name denotes, if it is one of the seven known
/// names.
pub open spec fn spec_type_kind(name: Seq<char>) -> Option<TypeKind> {
    if name == "null"@ {
        Some(TypeKind::Null)
    } else if name == "boolean"@ {
        Some(TypeKind::Boolean)
    } else if name == "number"@ {
        Some(TypeKind::Number)
    } else if name == "integer"@ {
        Some(TypeKind::Integer)
    } else if name == "string"@ {
        Some(TypeKind::Str)
    } else if name == "array"@ {
        Some(TypeKind::Array)
    } else if name == "object"@ {
        Some(TypeKind::Object)
    } else {
        None
    }
}

/// The model of the keyword compiler: a known shape name compiles to
/// the shape check, anything else is a schema error.
pub open spec fn spec_compile_type(schema: SpecValue) -> Option<
    Result<SpecValidator, CompilationError>,
> {
    match schema {
        SpecValue::Str(name) => match spec_type_kind(name) {
            Some(k) => Some(Ok(SpecValidator::TypeCheck { expected: k })),
            None => Some(Err(CompilationError::SchemaError)),
        },
        _ => Some(Err(CompilationError::SchemaError)),
    }
}

/// Compiles the "type" keyword in its single-shape form.
pub fn compile(
    _parent: &Vec<(String, JsonValue)>,
    schema: &JsonValue,
    _context: &CompilationContext,
) -> (r: Option<Result<Validator, CompilationError>>)
    ensures
        opt_res_view(r) == spec_compile_type(schema@),
{
    match schema {
        JsonValue::Str(name) => {
            let kind: Option<TypeKind> = if str_eq(name.as_str(), "null") {
                Some(TypeKind::Null)
            } else if str_eq(name.as_str(), "boolean") {
                Some(TypeKind::Boolean)
            } else if str_eq(name.as_str(), "number") {
                Some(TypeKind::Number)
            } else if str_eq(name.as_str(), "integer") {
                Some(TypeKind::Integer)
            } else if str_eq(name.as_str(), "string") {
                Some(TypeKind::Str)
            } else if str_eq(name.as_str(), "array") {
                Some(TypeKind::Array)
            } else if str_eq(name.as_str(), "object") {
                Some(TypeKind::Object)
            } else {
                None
            };
            match kind {
                Some(k) => Some(Ok(Validator::TypeCheck(TypeValidator { kind: k }))),
                None => Some(Err(CompilationError::SchemaError)),
            }
        },
        _ => Some(Err(CompilationError::SchemaError)),
    }
}

} // verus!
