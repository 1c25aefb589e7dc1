//! The transform driver: the per-record lifecycle. It requires the record's
//! value, decodes it into a document, builds the variable bindings, runs the
//! compiled filter, and turns each produced document, in order, into an
//! output record carrying the original key — stopping at the first
//! evaluation or serialization error while keeping the outputs already
//! produced.

use vstd::prelude::*;
use crate::bindings::{build_bindings, bytes_view};
use crate::codec::{decode_doc, encode_doc, json_bytes, json_doc, round_trips};
use crate::engine::{compile_filter, eval_filter, filter_compiles, CompiledFilter, EvalOutput};

verus! {

/// Why one record failed to transform. Every failure is terminal for that
/// record and none is retried; startup failures are separate (`initialize`).
pub enum TransformError {
    /// The record has no value to transform.
    MissingValue,
    /// The value bytes are not valid JSON; carries the codec's diagnostic.
    Decode(String),
    /// The filter raised an error mid-sequence; carries the engine's
    /// diagnostic. Outputs produced for earlier elements stand.
    Evaluation(String),
    /// A produced document could not be serialized; carries the codec's
    /// diagnostic.
    Encode(String),
    /// The downstream write of an output record was rejected. Never produced
    /// here: the caller that performs the writes reports it.
    Emit(String),
}

/// One output record: the original record's key, unchanged byte for byte,
/// and one produced document's encoding as the value.
pub struct OutputRecord {
    /// The input record's key, cloned.
    pub key: Option<Vec<u8>>,
    /// The encoded document.
    pub value: Vec<u8>,
}

/// An output record's key, as a sequence.
pub open spec fn record_key(r: OutputRecord) -> Option<Seq<u8>> {
    match r.key {
        Some(k) => Some(k@),
        None => None,
    }
}

/// The values of a run of output records, in order.
pub open spec fn output_values(outs: Seq<OutputRecord>) -> Seq<Seq<u8>> {
    outs.map_values(|r: OutputRecord| r.value@)
}

/// The documents of one output sequence, in order: the produced document,
/// or `None` where the element is an evaluation error.
pub open spec fn eval_view(steps: Seq<EvalOutput>) -> Seq<Option<serde_json::Value>> {
    steps.map_values(
        |s: EvalOutput|
            match s {
                EvalOutput::Doc(d) => Some(d),
                EvalOutput::Fail(_) => None,
            },
    )
}

/// How driving one output sequence ends.
pub enum Outcome {
    /// The output sequence was exhausted without an error.
    Done,
    /// The filter raised an error after the outputs so far.
    EvalFailed,
    /// A produced document could not be serialized.
    EncodeFailed,
}

/// Drives one output sequence: the encodings of the produced documents
/// before the first evaluation or serialization error, and how the record
/// ends.
pub open spec fn drive(results: Seq<Option<serde_json::Value>>) -> (Seq<Seq<u8>>, Outcome)
    decreases results.len(),
{
    if results.len() == 0 {
        (Seq::<Seq<u8>>::empty(), Outcome::Done)
    } else {
        match results[0] {
            Option::None => (Seq::<Seq<u8>>::empty(), Outcome::EvalFailed),
            Option::Some(d) => match json_bytes(d) {
                Option::None => (Seq::<Seq<u8>>::empty(), Outcome::EncodeFailed),
                Option::Some(b) => {
                    let rest = drive(results.drop_first());
                    (seq![b] + rest.0, rest.1)
                },
            },
        }
    }
}

/// Which error reports which terminal state.
pub open spec fn error_matches(e: TransformError, end: Outcome) -> bool {
    match end {
        Outcome::EvalFailed => e is Evaluation,
        Outcome::EncodeFailed => e is Encode,
        Outcome::Done => false,
    }
}

/// The input key, cloned for one output record.
fn clone_key(key: Option<&[u8]>) -> (r: Option<Vec<u8>>)
    ensures
        (match r {
            Some(k) => Some(k@),
            None => None,
        }) == bytes_view(key),
{
    match key {
        Some(k) => Some(vstd::slice::slice_to_vec(k)),
        None => None,
    }
}

/// Unfolds `drive` past one successfully encoded document.
proof fn lemma_drive_step(results: Seq<Option<serde_json::Value>>, p: int)
    requires
        0 <= p < results.len(),
        results[p] matches Some(d) && json_bytes(d) is Some,
    ensures
        drive(results.skip(p)).0 =~= seq![json_bytes(results[p]->0).unwrap()]
            + drive(results.skip(p + 1)).0,
        drive(results.skip(p)).1 == drive(results.skip(p + 1)).1,
{
    assert(results.skip(p)[0] == results[p]);
    assert(results.skip(p).drop_first() =~= results.skip(p + 1));
}

/// Drives one output sequence to completion, in order: each produced
/// document is encoded and becomes one output record carrying the record's
/// key. The first evaluation or serialization error ends the record with
/// that error, and the outputs already produced are returned and stand; a
/// sequence of zero elements is a success with zero outputs.
#[verifier::loop_isolation(false)]
pub fn drive_outputs(key: Option<&[u8]>, steps: Vec<EvalOutput>) -> (out: (
    Vec<OutputRecord>,
    Result<(), TransformError>,
))
    ensures
        ({
            let results = eval_view(steps@);
            let m = drive(results);
            &&& out.0@.len() == m.0.len()
            &&& output_values(out.0@) =~= m.0
            &&& out.1 is Ok <==> m.1 is Done
            &&& out.1 matches Err(e) ==> error_matches(e, m.1)
            &&& (m.1 is EvalFailed ==> (match steps@[m.0.len() as int] {
                EvalOutput::Fail(msg) => out.1 == Err::<(), TransformError>(TransformError::Evaluation(msg)),
                EvalOutput::Doc(_) => false,
            }))
            &&& forall|i: int|
                0 <= i < out.0@.len() ==> record_key(#[trigger] out.0@[i]) == bytes_view(key)
            &&& forall|i: int|
                0 <= i < out.0@.len() ==> json_doc((#[trigger] out.0@[i]).value@) is Some
                    ==> json_doc(out.0@[i].value@) == results[i]
            &&& forall|i: int|
                0 <= i < out.0@.len() ==> (match results[i] {
                    Some(d) => round_trips(d) ==> json_doc(
                        (#[trigger] out.0@[i]).value@,
                    ) == Some(d),
                    None => true,
                })
        }),
{
    let ghost all = steps@;
    let ghost full = eval_view(all);
    let mut steps = steps;
    let mut outputs: Vec<OutputRecord> = Vec::new();
    proof {
        assert(full.skip(0) =~= full);
        assert(output_values(outputs@) =~= Seq::<Seq<u8>>::empty());
    }
    while steps.len() > 0
        invariant
            full == eval_view(all),
            steps@.len() <= all.len(),
            steps@ =~= all.skip(all.len() - steps@.len()),
            outputs@.len() == all.len() - steps@.len(),
            output_values(outputs@) + drive(full.skip(all.len() - steps@.len())).0
                =~= drive(full).0,
            drive(full.skip(all.len() - steps@.len())).1 == drive(full).1,
            forall|i: int|
                0 <= i < outputs@.len() ==> record_key(#[trigger] outputs@[i]) == bytes_view(key),
            forall|i: int|
                0 <= i < outputs@.len() ==> json_doc((#[trigger] outputs@[i]).value@) is Some
                    ==> json_doc(outputs@[i].value@) == full[i],
            forall|i: int|
                0 <= i < outputs@.len() ==> (match full[i] {
                    Some(d) => round_trips(d) ==> json_doc(
                        (#[trigger] outputs@[i]).value@,
                    ) == Some(d),
                    None => true,
                }),
        decreases steps@.len(),
    {
        let ghost p = all.len() - steps@.len();
        let ghost steps0 = steps@;
        proof {
            assert(full.len() == all.len());
            assert(full.skip(p)[0] == full[p]);
            assert(full[p] == eval_view(all)[p]);
        }
        let step = steps.remove(0);
        proof {
            assert(step == steps0[0]);
            assert(steps0[0] == all[p]);
            assert(steps@ =~= steps0.subrange(1, steps0.len() as int));
            assert(steps@ =~= all.skip(p + 1));
        }
        match step {
            EvalOutput::Fail(msg) => {
                proof {
                    assert(full[p] is None);
                    assert(output_values(outputs@) =~= drive(full).0);
                }
                return (outputs, Err(TransformError::Evaluation(msg)));
            },
            EvalOutput::Doc(d) => {
                proof {
                    assert(full[p] == Some(d));
                }
                match encode_doc(&d) {
                    Err(e) => {
                        proof {
                            assert(output_values(outputs@) =~= drive(full).0);
                        }
                        return (outputs, Err(TransformError::Encode(e)));
                    },
                    Ok(bytes) => {
                        let out_key = clone_key(key);
                        let rec = OutputRecord { key: out_key, value: bytes };
                        outputs.push(rec);
                        proof {
                            lemma_drive_step(full, p);
                            assert(output_values(outputs@)
                                =~= output_values(outputs@.drop_last()) + seq![rec.value@]);
                        }
                    },
                }
            },
        }
    }
    proof {
        assert(full.skip(full.len() as int) =~= Seq::<Option<serde_json::Value>>::empty());
    }
    (outputs, Ok(()))
}

/// Transforms one record: require its value, decode it, bind the key
/// variable, run the filter, and emit one output record per produced
/// document, in order, each carrying the original key (see `drive_outputs`,
/// which pins the outputs against the sequence the filter produced). On
/// failure the outputs produced before the failure are returned and stand.
pub fn transform(
    f: &CompiledFilter,
    key: Option<&[u8]>,
    value: Option<&[u8]>,
) -> (out: (Vec<OutputRecord>, Result<(), TransformError>))
    ensures
        bytes_view(value) is None <==> out.1 == Err::<(), TransformError>(TransformError::MissingValue),
        bytes_view(value) is None ==> out.0@.len() == 0,
        (match bytes_view(value) {
            Some(v) => {
                &&& json_doc(v) is None <==> (out.1 matches Err(e) && e is Decode)
                &&& json_doc(v) is None ==> out.0@.len() == 0
            },
            None => true,
        }),
        out.1 matches Err(e) ==> !(e is Emit),
        forall|i: int|
            0 <= i < out.0@.len() ==> record_key(#[trigger] out.0@[i]) == bytes_view(key),
{
    let value_bytes = match value {
        Some(v) => v,
        None => {
            return (Vec::new(), Err(TransformError::MissingValue));
        },
    };
    let doc = match decode_doc(value_bytes) {
        Ok(d) => d,
        Err(e) => {
            return (Vec::new(), Err(TransformError::Decode(e)));
        },
    };
    let bindings = build_bindings(key);
    let steps = eval_filter(f, bindings, doc);
    drive_outputs(key, steps)
}

/// The name under which the record key is bound for the filter, as source
/// text references it.
pub fn key_var_name() -> (r: String)
    ensures
        r@ == "KEY"@,
{
    "KEY".to_owned()
}

/// The variable names declared at startup, in order: the single key
/// variable.
pub open spec fn declared_vars() -> Seq<Seq<char>> {
    seq!["KEY"@]
}

/// Compiles the filter source once at process start, against the declared
/// key variable. A parse or resolution failure is returned so the caller can
/// terminate before any record is accepted; the compiled filter is immutable
/// and reused unchanged for every record.
pub fn initialize(src: &str) -> (r: Result<CompiledFilter, String>)
    ensures
        r is Ok <==> filter_compiles(src@, declared_vars()),
{
    let key_var = key_var_name();
    proof {
        assert(seq![key_var@] =~= declared_vars());
    }
    compile_filter(src, key_var)
}

} // verus!
