//! The document codec boundary: decoding a record's value bytes into a
//! structured document and encoding a produced document back to bytes.
//! Both directions are serde_json calls behind trusted wrappers; the
//! documents themselves are carried opaquely through the transform.

use vstd::prelude::*;

verus! {

/// The codec's document type, opaque to the transform: it is decoded,
/// handed to the filter engine, and encoded, never inspected.
#[verifier::external_type_specification]
#[verifier::external_body]
pub struct ExValue(serde_json::Value);

/// The document that a byte sequence decodes to, or `None` where the bytes
/// are not valid JSON. Parsing is a function of the bytes alone.
pub uninterp spec fn json_doc(bytes: Seq<u8>) -> Option<serde_json::Value>;

/// The byte encoding of a document, or `None` where the document cannot be
/// serialized. Encoding is a function of the document alone.
pub uninterp spec fn json_bytes(doc: serde_json::Value) -> Option<Seq<u8>>;

/// A document whose encoding is bytes that decode back to it exactly.
/// Not every document round-trips: the decoder refuses nesting beyond a
/// fixed depth that the encoder does not enforce, so a deep enough document
/// encodes to bytes the decoder rejects. Every document the decoder itself
/// returned round-trips, since its depth passed the decoder once.
pub open spec fn round_trips(doc: serde_json::Value) -> bool {
    &&& json_bytes(doc) is Some
    &&& json_doc(json_bytes(doc)->0) == Some(doc)
}

/// Relies on serde_json::from_slice: it returns a document exactly when the
/// input is valid JSON within the decoder's nesting depth, and which document
/// depends on the bytes alone. A returned document re-encodes (serializing a
/// document never fails on what the decoder can produce) to JSON text of the
/// depth just decoded, which decodes back to an equal document — exact for
/// floating-point numbers too, since the crate enables the codec's
/// round-trip float parsing, under which the encoder's shortest-digit output
/// re-parses to the identical number. The error case carries the codec's
/// diagnostic.
#[verifier::external_body]
pub fn decode_doc(bytes: &[u8]) -> (r: Result<serde_json::Value, String>)
    ensures
        r is Ok <==> json_doc(bytes@) is Some,
        r matches Ok(d) ==> json_doc(bytes@) == Some(d),
        r matches Ok(d) ==> round_trips(d),
{
    serde_json::from_slice(bytes).map_err(|e| e.to_string())
}

/// Relies on serde_json::to_vec: whether a document serializes, and to which
/// bytes, depends on the document alone; the bytes it produces are JSON text
/// for exactly that document, so where they decode at all they decode to an
/// equal document (exact for floating-point numbers under the codec's
/// round-trip float parsing, which the crate enables).
#[verifier::external_body]
pub fn encode_doc(doc: &serde_json::Value) -> (r: Result<Vec<u8>, String>)
    ensures
        r is Ok <==> json_bytes(*doc) is Some,
        r matches Ok(b) ==> json_bytes(*doc) == Some(b@),
        r matches Ok(b) ==> (json_doc(b@) is Some ==> json_doc(b@) == Some(*doc)),
{
    serde_json::to_vec(doc).map_err(|e| e.to_string())
}

} // verus!
