//! What driving one output sequence guarantees, for whole classes of
//! sequences, proved once over the model in which `drive_outputs`'s contract
//! is stated. (That a record with no value, or with malformed value bytes,
//! fails with the matching error and zero outputs stands in `transform`'s
//! own contract.)

use vstd::prelude::*;
use crate::codec::{json_bytes, json_doc, round_trips};
use crate::transform::drive;

verus! {

/// Where the first k elements of an output sequence are documents that
/// serialize, `drive` emits exactly their encodings, in order, before
/// whatever the remainder yields.
proof fn lemma_drive_split(results: Seq<Option<serde_json::Value>>, k: int)
    requires
        0 <= k <= results.len(),
        forall|i: int|
            0 <= i < k ==> (#[trigger] results[i]) is Some && json_bytes(results[i]->0) is Some,
    ensures
        drive(results).1 == drive(results.skip(k)).1,
        drive(results).0.len() == k + drive(results.skip(k)).0.len(),
        forall|i: int| 0 <= i < k ==> drive(results).0[i] == json_bytes(results[i]->0).unwrap(),
        forall|i: int|
            k <= i < drive(results).0.len() ==> drive(results).0[i]
                == drive(results.skip(k)).0[i - k],
    decreases k,
{
    if k == 0 {
        assert(results.skip(0) =~= results);
    } else {
        let tail = results.drop_first();
        assert(forall|i: int| 0 <= i < k - 1 ==> #[trigger] tail[i] == results[i + 1]);
        lemma_drive_split(tail, k - 1);
        assert(tail.skip(k - 1) =~= results.skip(k));
        assert(drive(results).0 =~= seq![json_bytes(results[0]->0).unwrap()] + drive(tail).0);
    }
}

/// A filter evaluation that yields several documents, all serializable,
/// drives to exactly one output per document, in order, and the record
/// succeeds.
pub proof fn lemma_one_output_per_document(
    results: Seq<Option<serde_json::Value>>,
    docs: Seq<serde_json::Value>,
)
    requires
        results =~= docs.map_values(|x: serde_json::Value| Some(x)),
        forall|i: int| 0 <= i < docs.len() ==> json_bytes(#[trigger] docs[i]) is Some,
    ensures
        drive(results).1 is Done,
        drive(results).0.len() == docs.len(),
        forall|i: int|
            0 <= i < docs.len() ==> drive(results).0[i] == json_bytes(docs[i]).unwrap(),
{
    lemma_drive_split(results, results.len() as int);
    assert(results.skip(results.len() as int) =~= Seq::<Option<serde_json::Value>>::empty());
}

/// A filter evaluation that raises an error after producing k documents
/// drives to exactly those k outputs, in order, before the record fails as
/// an evaluation error; no later output appears.
pub proof fn lemma_outputs_before_failure(
    results: Seq<Option<serde_json::Value>>,
    docs: Seq<serde_json::Value>,
)
    requires
        docs.len() < results.len(),
        forall|i: int| 0 <= i < docs.len() ==> results[i] == Some(#[trigger] docs[i]),
        results[docs.len() as int] is None,
        forall|i: int| 0 <= i < docs.len() ==> json_bytes(#[trigger] docs[i]) is Some,
    ensures
        drive(results).1 is EvalFailed,
        drive(results).0.len() == docs.len(),
        forall|i: int|
            0 <= i < docs.len() ==> drive(results).0[i] == json_bytes(docs[i]).unwrap(),
{
    assert forall|i: int|
        0 <= i < docs.len() implies (#[trigger] results[i]) is Some
        && json_bytes(results[i]->0) is Some by {
        assert(results[i] == Some(docs[i]));
    }
    lemma_drive_split(results, docs.len() as int);
    assert(results.skip(docs.len() as int)[0] == results[docs.len() as int]);
}

/// An identity evaluation — one whose output sequence is exactly the decoded
/// input document — drives to exactly one output, the document's encoding,
/// whose bytes decode back to that document, and the record succeeds. Every
/// document the decoder returns satisfies `round_trips` (see `decode_doc`),
/// so this holds of every decoded record value; that the output's key is the
/// input key stands in `drive_outputs`'s own contract.
pub proof fn lemma_identity_round_trip(doc: serde_json::Value)
    requires
        round_trips(doc),
    ensures
        drive(seq![Some(doc)]).1 is Done,
        drive(seq![Some(doc)]).0 =~= seq![json_bytes(doc).unwrap()],
        json_doc(json_bytes(doc).unwrap()) == Some(doc),
{
    assert(seq![doc].map_values(|x: serde_json::Value| Some(x)) =~= seq![Some(doc)]);
    lemma_one_output_per_document(seq![Some(doc)], seq![doc]);
}

} // verus!
