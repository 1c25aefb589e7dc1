//! The variable context builder: for each record, one value per declared
//! variable name, in a fixed order. The only declared variable is the record
//! key, bound as its bytes decoded lossily to text where a key is present,
//! and as an absent (null) value otherwise — never an error, so that filters
//! can reference the key uniformly.

use vstd::prelude::*;

verus! {

/// The characters that lossy UTF-8 decoding yields for a byte sequence;
/// a function of the bytes alone.
pub uninterp spec fn utf8_lossy(bytes: Seq<u8>) -> Seq<char>;

/// Relies on String::from_utf8_lossy: invalid sequences are substituted with
/// replacement characters, never reported; the result depends on the bytes
/// alone.
#[verifier::external_body]
fn lossy_utf8(bytes: &[u8]) -> (r: String)
    ensures
        r@ == utf8_lossy(bytes@),
{
    String::from_utf8_lossy(bytes).into_owned()
}

/// An optional byte field of a record, as a sequence.
pub open spec fn bytes_view(b: Option<&[u8]>) -> Option<Seq<u8>> {
    match b {
        Some(s) => Some(s@),
        None => None,
    }
}

/// The variable bindings for one record's evaluation: one value per declared
/// variable name. The single declared variable is the record key.
pub struct VarBindings {
    /// The key's text where the record has a key; `None` binds the key
    /// variable to the null document.
    pub key: Option<String>,
}

impl VarBindings {
    /// The key binding as the filter sees it: the key's characters, or
    /// absent where the record has no key.
    pub open spec fn key_model(self) -> Option<Seq<char>> {
        match self.key {
            Some(s) => Some(s@),
            None => None,
        }
    }
}

/// What the key binding must be for given key bytes: the bytes decoded
/// lossily where a key is present, absent otherwise.
pub open spec fn key_binding_model(key: Option<Seq<u8>>) -> Option<Seq<char>> {
    match key {
        Some(k) => Some(utf8_lossy(k)),
        None => None,
    }
}

/// Builds the per-record bindings. Never fails: an absent or ill-encoded key
/// degrades to an absent or substituted value rather than erroring.
pub fn build_bindings(key: Option<&[u8]>) -> (b: VarBindings)
    ensures
        b.key_model() == key_binding_model(bytes_view(key)),
{
    match key {
        Some(k) => VarBindings { key: Some(lossy_utf8(k)) },
        None => VarBindings { key: None },
    }
}

} // verus!
