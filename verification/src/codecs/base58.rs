//! Backend adapter for the `base58` codec.
//!
//! Base58 is a binary-safe text encoding, not a compressor: it has no
//! compression level, so the quality argument is ignored, and encoding
//! cannot fail.

use vstd::prelude::*;

use crate::{Codec, Error, Quality};

verus! {

/// The base58 text (as ASCII bytes, default Bitcoin alphabet) that the
/// backend produces for `data`.
pub uninterp spec fn spec_encoded_bytes(data: Seq<u8>) -> Seq<u8>;

/// What the backend's decoder makes of `data`: the bytes the base58 text
/// spells where every character is from the alphabet, nothing otherwise.
pub uninterp spec fn spec_decoded_bytes(data: Seq<u8>) -> Option<Seq<u8>>;

/// Relies on `bs58::encode` with the default (Bitcoin) alphabet: it returns
/// the base58 text of `data` as bytes, a pure function of the input, and
/// cannot fail.
#[verifier::external_body]
fn encode_raw(data: &[u8]) -> (r: Vec<u8>)
    ensures
        r@ == spec_encoded_bytes(data@),
{
    bs58::encode(data).into_vec()
}

/// Relies on `bs58::decode` with the default (Bitcoin) alphabet: it inverts
/// `bs58::encode`, so any buffer the backend encoded decodes back to the
/// original bytes. Whether it accepts the input, and what it yields, are
/// pure functions of the input bytes alone.
#[verifier::external_body]
fn decode_raw(data: &[u8]) -> (r: Result<Vec<u8>, String>)
    ensures
        r is Ok <==> spec_decoded_bytes(data@) is Some,
        r is Ok ==> r->Ok_0@ == spec_decoded_bytes(data@)->Some_0,
        forall|orig: Seq<u8>| data@ == #[trigger] spec_encoded_bytes(orig) ==> r is Ok && r->Ok_0@ == orig,
{
    match bs58::decode(data).into_vec() {
        Ok(v) => Ok(v),
        Err(e) => Err(format!("{}", e)),
    }
}

/// Encode `data` as base58 text. The quality argument is ignored: base58 has
/// no notion of effort, and encoding always succeeds.
pub fn encode(data: &[u8], _quality: Quality) -> (r: Vec<u8>)
    ensures
        r@ == spec_encoded_bytes(data@),
{
    encode_raw(data)
}

/// Decode base58 text back into the bytes it spells.
pub fn decode(data: &[u8]) -> (r: Result<Vec<u8>, Error>)
    ensures
        r is Ok <==> spec_decoded_bytes(data@) is Some,
        r is Ok ==> r->Ok_0@ == spec_decoded_bytes(data@)->Some_0,
        forall|orig: Seq<u8>| data@ == #[trigger] spec_encoded_bytes(orig) ==> r is Ok && r->Ok_0@ == orig,
        r matches Err(e) ==> e matches Error::DecodeFailed { codec: c, detail: _ }
            && c == Codec::Base58,
{
    match decode_raw(data) {
        Ok(v) => Ok(v),
        Err(detail) => Err(Error::DecodeFailed { codec: Codec::Base58, detail }),
    }
}

} // verus!
