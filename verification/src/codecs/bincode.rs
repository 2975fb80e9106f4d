//! Backend adapter for the `bincode` codec.
//!
//! Bincode is a structured binary serialization format, not a compressor: it
//! has no compression level, so the quality argument is ignored. With the
//! backend's default options a byte buffer serializes to its length as a
//! little-endian `u64` followed by the bytes themselves, which lets this
//! adapter's contracts state the layout exactly.

use vstd::bytes::lemma_auto_spec_u64_to_from_le_bytes;
use vstd::bytes::spec_u64_from_le_bytes;
use vstd::bytes::spec_u64_to_le_bytes;
use vstd::prelude::*;

use crate::{Codec, Error, Quality};

verus! {

/// The bincode serialization of a byte buffer: its length as a little-endian
/// `u64`, then the bytes.
pub open spec fn spec_encoded_bytes(data: Seq<u8>) -> Seq<u8> {
    spec_u64_to_le_bytes(data.len() as u64) + data
}

/// Whether `data` starts with a little-endian `u64` length that the rest of
/// `data` can satisfy; exactly then does bincode accept it as a byte buffer.
pub open spec fn spec_well_formed(data: Seq<u8>) -> bool {
    data.len() >= 8 && 8 + spec_u64_from_le_bytes(data.subrange(0, 8)) <= data.len()
}

/// The byte buffer that a well-formed bincode serialization carries.
pub open spec fn spec_decoded(data: Seq<u8>) -> Seq<u8>
    recommends
        spec_well_formed(data),
{
    data.subrange(8, 8 + spec_u64_from_le_bytes(data.subrange(0, 8)) as int)
}

/// Relies on `bincode::serialize` with its default options (little-endian,
/// fixed-size integers): a byte slice serializes to its length as a `u64`
/// followed by the bytes. Writing into a fresh vector with no size limit
/// leaves it no failure path.
#[verifier::external_body]
fn encode_raw(data: &[u8]) -> (r: Vec<u8>)
    ensures
        r@ == spec_encoded_bytes(data@),
{
    bincode::serialize(data).expect("bincode serialization of a byte slice does not fail")
}

/// Relies on `bincode::deserialize::<Vec<u8>>` with its default options: it
/// reads a little-endian `u64` length and then that many bytes, ignoring
/// trailing input, and fails exactly when the input is too short for its
/// stated length.
#[verifier::external_body]
fn decode_raw(data: &[u8]) -> (r: Result<Vec<u8>, String>)
    ensures
        spec_well_formed(data@) ==> r is Ok && r->Ok_0@ == spec_decoded(data@),
        !spec_well_formed(data@) ==> r is Err,
{
    match bincode::deserialize::<Vec<u8>>(data) {
        Ok(v) => Ok(v),
        Err(e) => Err(format!("{}", e)),
    }
}

/// A bincode serialization is well formed and carries back the buffer it was
/// made from.
pub proof fn lemma_encoded_bytes_round_trip(orig: Seq<u8>)
    requires
        orig.len() <= u64::MAX,
    ensures
        spec_encoded_bytes(orig).len() == 8 + orig.len(),
        spec_well_formed(spec_encoded_bytes(orig)),
        spec_decoded(spec_encoded_bytes(orig)) == orig,
{
    lemma_auto_spec_u64_to_from_le_bytes();
    let enc = spec_encoded_bytes(orig);
    assert(enc.subrange(0, 8) =~= spec_u64_to_le_bytes(orig.len() as u64));
    assert(spec_u64_from_le_bytes(enc.subrange(0, 8)) == orig.len());
    assert(enc.subrange(8, 8 + orig.len() as int) =~= orig);
}

/// A bincode serialization is never the buffer it was made from: it is
/// always eight bytes longer.
pub proof fn lemma_encoded_bytes_changes_representation(data: Seq<u8>)
    ensures
        spec_encoded_bytes(data) != data,
{
    lemma_auto_spec_u64_to_from_le_bytes();
    assert(spec_encoded_bytes(data).len() == 8 + data.len());
}

/// Serialize `data` with bincode. The quality argument is ignored: bincode
/// has no notion of effort.
pub fn encode(data: &[u8], _quality: Quality) -> (r: Vec<u8>)
    ensures
        r@ == spec_encoded_bytes(data@),
{
    encode_raw(data)
}

/// Deserialize a bincode byte buffer.
pub fn decode(data: &[u8]) -> (r: Result<Vec<u8>, Error>)
    ensures
        r is Ok <==> spec_well_formed(data@),
        r is Ok ==> r->Ok_0@ == spec_decoded(data@),
        forall|orig: Seq<u8>| data@ == #[trigger] spec_encoded_bytes(orig) ==> r is Ok && r->Ok_0@ == orig,
        r matches Err(e) ==> e matches Error::DecodeFailed { codec: c, detail: _ }
            && c == Codec::BinCode,
{
    proof {
        assert forall|orig: Seq<u8>| data@ == #[trigger] spec_encoded_bytes(orig) implies {
            &&& spec_well_formed(data@)
            &&& spec_decoded(data@) == orig
        } by {
            lemma_auto_spec_u64_to_from_le_bytes();
            vstd::slice::axiom_spec_len::<u8>(data);
            assert(data@.len() == 8 + orig.len());
            lemma_encoded_bytes_round_trip(orig);
        }
    }
    match decode_raw(data) {
        Ok(v) => Ok(v),
        Err(detail) => Err(Error::DecodeFailed { codec: Codec::BinCode, detail }),
    }
}

} // verus!
