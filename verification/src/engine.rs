//! The filter engine boundary: compiling filter source text once at startup,
//! and evaluating the compiled filter against one input document plus the
//! per-record variable bindings, yielding an ordered sequence of produced
//! documents and evaluation errors. Both are jaq calls behind trusted
//! wrappers.

use vstd::prelude::*;
use crate::bindings::VarBindings;
use jaq_interpret::{FilterT, Val};
use serde_json::Value;

verus! {

/// The engine's compiled filter type, opaque to the transform.
#[verifier::external_type_specification]
#[verifier::external_body]
#[verifier::reject_recursive_types(V)]
pub struct ExFilter<V>(jaq_interpret::Filter<V>);

/// The engine's internal value type, opaque: it only ever appears inside the
/// trusted wrappers, converted from and to codec documents.
#[verifier::external_type_specification]
#[verifier::external_body]
pub struct ExVal(jaq_interpret::Val);

/// The engine's evaluation error type, opaque: it only ever appears inside
/// the trusted wrappers, rendered to a diagnostic string.
#[verifier::external_type_specification]
#[verifier::external_body]
#[verifier::reject_recursive_types(V)]
pub struct ExError<V>(jaq_interpret::Error<V>);

/// A filter compiled once at startup, immutable and shared read-only across
/// all record invocations. A value of this type exists only through
/// `compile_filter`, which declares exactly the one variable that
/// `eval_filter` binds: the engine indexes variable bindings unchecked, so
/// the declared names and the supplied values must always pair up, and
/// keeping both sides inside this module is what guarantees it.
pub struct CompiledFilter {
    filter: jaq_interpret::Filter,
}

/// Whether the engine accepts a filter source text compiled against its
/// native and standard libraries with the given declared variable names;
/// a function of the source and the names alone.
pub uninterp spec fn filter_compiles(src: Seq<char>, vars: Seq<Seq<char>>) -> bool;

/// One element of an output sequence: a produced document, or the engine's
/// diagnostic for an evaluation error.
pub enum EvalOutput {
    /// A document the filter produced.
    Doc(serde_json::Value),
    /// An evaluation error, rendered as the engine reports it.
    Fail(String),
}

/// Relies on jaq_parse::parse and jaq_interpret::ParseCtx::compile, seeded
/// with jaq_core's native filters and jaq_std's definitions: whether the
/// source parses and compiles is a function of the source and the declared
/// variable names alone. Exactly one variable is declared, matching the one
/// binding `eval_filter` supplies. The error case carries a diagnostic
/// naming the source.
#[verifier::external_body]
pub(crate) fn compile_filter(src: &str, key_var: String) -> (r: Result<CompiledFilter, String>)
    ensures
        r is Ok <==> filter_compiles(src@, seq![key_var@]),
{
    let mut defs = jaq_interpret::ParseCtx::new(vec![key_var]);
    defs.insert_natives(jaq_core::core());
    defs.insert_defs(jaq_std::std());
    let (main, errs) = jaq_parse::parse(src, jaq_parse::main());
    let main = match main {
        Some(m) if errs.is_empty() => m,
        _ => return Err(format!("filter {src} is invalid")),
    };
    let f = defs.compile(main);
    if !defs.errs.is_empty() {
        return Err(format!("filter {src} is invalid"));
    }
    Ok(CompiledFilter { filter: f })
}

/// Converts one produced engine value into a codec document, arm for arm as
/// jaq_interpret's own conversion into serde_json::Value does it, except
/// that its one fallible step — a numeric literal the engine kept as text
/// and the codec rejects as out of range — is reported as an error here
/// where the blanket conversion unwraps and aborts.
#[verifier::external_body]
fn val_to_doc(v: &Val) -> (r: Result<Value, String>) {
    match v {
        Val::Arr(a) => Ok(Value::Array(a.iter().map(val_to_doc).collect::<Result<_, String>>()?)),
        Val::Obj(o) => o.iter()
            .map(|(k, x)| Ok::<(String, Value), String>(((**k).clone(), val_to_doc(x)?)))
            .collect::<Result<_, String>>()
            .map(Value::Object),
        other => leaf_to_doc(other),
    }
}

/// The leaf arms of `val_to_doc`: integers, floats (a non-finite float
/// becomes null, as in the engine's own conversion), numeric literals kept
/// as text, strings and booleans; containers never reach this, so the last
/// arm is the engine's null.
#[verifier::external_body]
fn leaf_to_doc(v: &Val) -> (r: Result<Value, String>) {
    match v {
        Val::Int(i) => Ok(Value::from(*i as i64)),
        Val::Float(f) => Ok(serde_json::Number::from_f64(*f).map_or(Value::Null, Value::Number)),
        Val::Num(n) => Ok(Value::Number(n.parse().map_err(|e: serde_json::Error| e.to_string())?)),
        Val::Str(s) => Ok(Value::String((**s).clone())),
        Val::Bool(b) => Ok(Value::Bool(*b)),
        _ => Ok(Value::Null),
    }
}

/// Relies on jaq_interpret's FilterT::run: the filter is evaluated on the
/// input document with the key variable bound (a string value where a key
/// is present, null otherwise), and the lazy output sequence is pulled in
/// order, each element converted to a produced document or an evaluation
/// error; nothing is pulled past the first error element. Which sequence
/// comes back is claimed nowhere: the engine's native filters include ones
/// that read the clock and the environment, so the sequence is not a
/// function of the arguments. What the transform does with it holds for
/// every sequence.
#[verifier::external_body]
pub fn eval_filter(
    f: &CompiledFilter,
    bindings: VarBindings,
    doc: serde_json::Value,
) -> (r: Vec<EvalOutput>)
{
    let key = bindings.key.map_or(Val::Null, Val::str);
    let inputs = jaq_interpret::RcIter::new(core::iter::empty());
    let ctx = jaq_interpret::Ctx::new(vec![key], &inputs);
    let mut out = Vec::new();
    for step in f.filter.run((ctx, Val::from(doc))) {
        match step.map_err(|e| e.to_string()).and_then(|v| val_to_doc(&v)) {
            Ok(d) => out.push(EvalOutput::Doc(d)),
            Err(e) => { out.push(EvalOutput::Fail(e)); return out; },
        }
    }
    out
}

} // verus!
