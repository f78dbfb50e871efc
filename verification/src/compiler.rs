//! The top-level compiler: dispatches each recognized keyword of a
//! schema object, in document order, to its keyword compiler, and
//! collects the compiled validators into an ordered aggregate read as a
//! conjunction.

use vstd::prelude::*;
use crate::additional_properties;
use crate::additional_properties::spec_compile_additional;
use crate::error::errs_view;
use crate::error::CompilationError;
use crate::error::ErrorIterator;
use crate::error::ValidationError;
use crate::exclusive_minimum;
use crate::exclusive_minimum::spec_compile_exclusive_minimum;
use crate::model::aggregate_errors;
use crate::model::aggregate_valid;
use crate::model::spec_errors;
use crate::model::spec_valid;
use crate::model::SpecValidator;
use crate::type_keyword;
use crate::type_keyword::spec_compile_type;
use crate::validator::lemma_spec_validators_of;
use crate::validator::opt_res_view;
use crate::validator::spec_validators_of;
use crate::validator::FalseSchemaValidator;
use crate::validator::Validator;
use crate::validator::Validators;
use crate::value::lemma_spec_entries_of;
use crate::value::spec_entries_of;
use crate::value::str_eq;
use crate::value::JsonValue;
use crate::value::SpecValue;

verus! {

/// Per-recursion-step compilation configuration, handed read-only down
/// the compilation call tree and specialized by the caller for nested
/// scopes. The two keyword families compiled here need no draft
/// switches or resolution scope, so the context carries none.
pub struct CompilationContext {}

impl CompilationContext {
    /// A context for a fresh compilation.
    pub fn new() -> CompilationContext {
        CompilationContext {  }
    }
}

/// The model of dispatching one keyword of a schema object; `None`
/// means the key is not a recognized keyword, or configures a no-op.
pub open spec fn spec_compile_keyword(entries: Seq<(Seq<char>, SpecValue)>, i: int) -> Option<
    Result<SpecValidator, CompilationError>,
>
    recommends
        0 <= i < entries.len(),
    decreases entries, 1int, 0int,
{
    if 0 <= i < entries.len() {
        if entries[i].0 == "additionalProperties"@ {
            spec_compile_additional(entries, entries[i].1)
        } else if entries[i].0 == "exclusiveMinimum"@ {
            spec_compile_exclusive_minimum(entries[i].1)
        } else if entries[i].0 == "type"@ {
            spec_compile_type(entries[i].1)
        } else {
            None
        }
    } else {
        None
    }
}

/// The model of compiling the keywords of a schema object from
/// position `i` on, in document order, aborting at the first error.
pub open spec fn spec_compile_from(entries: Seq<(Seq<char>, SpecValue)>, i: int) -> Result<
    Seq<SpecValidator>,
    CompilationError,
>
    decreases entries, 2int, entries.len() - i,
{
    if i < 0 || i >= entries.len() {
        Ok(Seq::empty())
    } else {
        match spec_compile_keyword(entries, i) {
            None => spec_compile_from(entries, i + 1),
            Some(Err(e)) => Err(e),
            Some(Ok(v)) => match spec_compile_from(entries, i + 1) {
                Ok(rest) => Ok(seq![v] + rest),
                Err(e) => Err(e),
            },
        }
    }
}

/// The model of the compilation entry point: a boolean schema compiles
/// to nothing or to the reject-everything validator, an object schema
/// to its keywords' validators in document order, and anything else is
/// a schema error.
pub open spec fn spec_compile_validators(schema: SpecValue) -> Result<
    Seq<SpecValidator>,
    CompilationError,
>
    decreases schema, 0int, 0int,
{
    match schema {
        SpecValue::Bool(b) => if b {
            Ok(Seq::empty())
        } else {
            Ok(seq![SpecValidator::FalseSchema])
        },
        SpecValue::Object(entries) => spec_compile_from(entries, 0),
        _ => Err(CompilationError::SchemaError),
    }
}

/// Dispatches the keyword at one position of the schema object.
fn compile_keyword(
    parent: &Vec<(String, JsonValue)>,
    idx: usize,
    context: &CompilationContext,
) -> (r: Option<Result<Validator, CompilationError>>)
    requires
        idx < parent@.len(),
    ensures
        opt_res_view(r) == spec_compile_keyword(spec_entries_of(parent@), idx as int),
    decreases parent@, 3int, 0int,
{
    proof {
        lemma_spec_entries_of(parent@);
    }
    let key = &parent[idx].0;
    if str_eq(key.as_str(), "additionalProperties") {
        additional_properties::compile(parent, &parent[idx].1, context)
    } else if str_eq(key.as_str(), "exclusiveMinimum") {
        exclusive_minimum::compile(parent, &parent[idx].1, context)
    } else if str_eq(key.as_str(), "type") {
        type_keyword::compile(parent, &parent[idx].1, context)
    } else {
        None
    }
}

/// The compilation entry point: compiles one schema fragment into the
/// ordered aggregate of its keywords' validators. Compilation is pure;
/// the same fragment and context always yield validators with the same
/// model.
#[verifier::loop_isolation(false)]
pub fn compile_validators(schema: &JsonValue, context: &CompilationContext) -> (r: Result<
    Validators,
    CompilationError,
>)
    ensures
        match r {
            Ok(vs) => spec_compile_validators(schema@) == Ok::<_, CompilationError>(
                spec_validators_of(vs@),
            ),
            Err(e) => spec_compile_validators(schema@) == Err::<Seq<SpecValidator>, _>(e),
        },
    decreases schema, 0int, 0int,
{
    match schema {
        JsonValue::Bool(b) => {
            if *b {
                let out: Validators = Vec::new();
                proof {
                    assert(spec_validators_of(out@) =~= Seq::<SpecValidator>::empty());
                }
                Ok(out)
            } else {
                let mut out: Validators = Vec::new();
                out.push(Validator::FalseSchema(FalseSchemaValidator {  }));
                proof {
                    lemma_spec_validators_of(out@);
                    assert(spec_validators_of(out@) =~= seq![SpecValidator::FalseSchema]);
                }
                Ok(out)
            }
        },
        JsonValue::Object(entries) => {
            let ghost se = spec_entries_of(entries@);
            proof {
                lemma_spec_entries_of(entries@);
            }
            let mut out: Validators = Vec::new();
            let mut i: usize = 0;
            proof {
                assert(spec_validators_of(out@) =~= Seq::<SpecValidator>::empty());
                match spec_compile_from(se, 0) {
                    Ok(rest) => {
                        assert(spec_validators_of(out@) + rest =~= rest);
                    },
                    Err(_) => {},
                }
            }
            while i < entries.len()
                invariant
                    i <= entries.len(),
                    spec_compile_from(se, 0) == (match spec_compile_from(se, i as int) {
                        Ok(rest) => Ok::<_, CompilationError>(spec_validators_of(out@) + rest),
                        Err(e) => Err(e),
                    }),
                decreases entries.len() - i,
            {
                let compiled = compile_keyword(entries, i, context);
                match compiled {
                    None => {},
                    Some(Ok(v)) => {
                        let ghost prev = out@;
                        out.push(v);
                        proof {
                            assert(out@.drop_last() =~= prev);
                            assert(spec_validators_of(out@) == spec_validators_of(prev).push(v@));
                            match spec_compile_from(se, i + 1) {
                                Ok(rest) => {
                                    assert(spec_validators_of(prev) + (seq![v@] + rest)
                                        =~= spec_validators_of(out@) + rest);
                                },
                                Err(_) => {},
                            }
                        }
                    },
                    Some(Err(e)) => {
                        return Err(e);
                    },
                }
                i += 1;
            }
            proof {
                match spec_compile_from(se, entries@.len() as int) {
                    Ok(rest) => {
                        assert(spec_validators_of(out@) + rest =~= spec_validators_of(out@));
                    },
                    Err(_) => {},
                }
            }
            Ok(out)
        },
        _ => Err(CompilationError::SchemaError),
    }
}

/// The aggregate boolean check: true exactly when every member
/// validator accepts the instance; stops at the first rejection.
#[verifier::loop_isolation(false)]
pub fn validators_is_valid(vs: &Validators, inst: &JsonValue) -> (r: bool)
    ensures
        r == aggregate_valid(spec_validators_of(vs@), inst@),
{
    let ghost av = spec_validators_of(vs@);
    proof {
        lemma_spec_validators_of(vs@);
        assert(av.take(0) =~= Seq::<SpecValidator>::empty());
    }
    let mut i: usize = 0;
    while i < vs.len()
        invariant
            i <= vs.len(),
            aggregate_valid(av.take(i as int), inst@),
        decreases vs.len() - i,
    {
        if !vs[i].is_valid(inst) {
            proof {
                lemma_aggregate_valid_prefix(av, inst@, i as int);
            }
            return false;
        }
        proof {
            assert(av.take(i + 1).drop_last() =~= av.take(i as int));
            assert(av.take(i + 1)[i as int] == av[i as int]);
        }
        i += 1;
    }
    proof {
        assert(av.take(vs@.len() as int) =~= av);
    }
    true
}

/// If some member validator rejects, the aggregate rejects.
proof fn lemma_aggregate_valid_prefix(vs: Seq<SpecValidator>, inst: SpecValue, i: int)
    requires
        0 <= i < vs.len(),
        !spec_valid(vs[i], inst),
    ensures
        !aggregate_valid(vs, inst),
    decreases vs.len(),
{
    if vs.len() > 0 {
        if i < vs.len() - 1 {
            assert(vs.drop_last()[i] == vs[i]);
            lemma_aggregate_valid_prefix(vs.drop_last(), inst, i);
        }
    }
}

/// The aggregate detailed check: every member is queried, in
/// compilation order, and the violation sequences are concatenated
/// into one single-pass sequence.
#[verifier::loop_isolation(false)]
pub fn validators_validate(vs: &Validators, inst: &JsonValue) -> (r: ErrorIterator)
    ensures
        r@ == aggregate_errors(spec_validators_of(vs@), inst@),
{
    let ghost av = spec_validators_of(vs@);
    proof {
        lemma_spec_validators_of(vs@);
    }
    let mut out: Vec<ValidationError> = Vec::new();
    proof {
        assert(av.take(0) =~= Seq::<SpecValidator>::empty());
        assert(errs_view(out@) =~= aggregate_errors(av.take(0), inst@));
    }
    let mut i: usize = 0;
    while i < vs.len()
        invariant
            i <= vs.len(),
            errs_view(out@) == aggregate_errors(av.take(i as int), inst@),
        decreases vs.len() - i,
    {
        let mut errs = vs[i].errors_list(inst);
        proof {
            assert(errs_view(out@ + errs@) =~= errs_view(out@) + errs_view(errs@));
        }
        out.append(&mut errs);
        proof {
            assert(av.take(i + 1).drop_last() =~= av.take(i as int));
            assert(av.take(i + 1)[i as int] == av[i as int]);
        }
        i += 1;
    }
    proof {
        assert(av.take(vs@.len() as int) =~= av);
    }
    ErrorIterator::new(out)
}

} // verus!
