//! Backend adapter for the `zstd` codec.

use vstd::prelude::*;

use crate::{Codec, Error, Quality};

verus! {

/// The native `zstd` compression level selected by each normalized quality.
///
/// `Maximum` is deliberately capped at 11: the backend's true ceiling is far
/// higher, but reaching it costs disproportionate time for little gain. A
/// level of 0 asks the backend for its own default.
pub open spec fn spec_quality_to_codec(quality: Quality) -> i32 {
    match quality {
        Quality::Default => 0,
        Quality::Level1 => 1,
        Quality::Level2 => 2,
        Quality::Level3 => 3,
        Quality::Level4 => 4,
        Quality::Level5 => 5,
        Quality::Level6 => 6,
        Quality::Level7 => 7,
        Quality::Level8 => 8,
        Quality::Level9 => 9,
        Quality::Maximum => 11,
    }
}

/// Map the normalized quality scale onto `zstd`'s native levels.
pub fn quality_to_codec(quality: Quality) -> (level: i32)
    ensures
        level == spec_quality_to_codec(quality),
        0 <= level <= 11,
{
    match quality {
        Quality::Default => 0,
        Quality::Level1 => 1,
        Quality::Level2 => 2,
        Quality::Level3 => 3,
        Quality::Level4 => 4,
        Quality::Level5 => 5,
        Quality::Level6 => 6,
        Quality::Level7 => 7,
        Quality::Level8 => 8,
        Quality::Level9 => 9,
        Quality::Maximum => 11,
    }
}

/// The `zstd` stream that the backend produces for `data` at `level`.
pub uninterp spec fn spec_compressed(level: i32, data: Seq<u8>) -> Seq<u8>;

/// What the backend's decoder makes of `data`: the decompressed bytes where
/// it accepts the input, nothing where it rejects it.
pub uninterp spec fn spec_decompressed(data: Seq<u8>) -> Option<Seq<u8>>;

/// Relies on `zstd::stream::encode_all`: it returns the whole compressed
/// stream for `data`, a pure function of the input bytes and the level.
/// In-memory input and output leave it no failure path.
#[verifier::external_body]
fn encode_raw(data: &[u8], level: i32) -> (r: Vec<u8>)
    requires
        0 <= level <= 22,
    ensures
        r@ == spec_compressed(level, data@),
{
    zstd::stream::encode_all(data, level).expect("in-memory zstd compression does not fail")
}

/// Relies on `zstd::stream::decode_all`: it inverts `encode_all`, so any
/// buffer the backend compressed decompresses back to the original bytes.
/// Whether it accepts the input, and what it yields, are pure functions of
/// the input bytes alone.
#[verifier::external_body]
fn decode_raw(data: &[u8]) -> (r: Result<Vec<u8>, String>)
    ensures
        r is Ok <==> spec_decompressed(data@) is Some,
        r is Ok ==> r->Ok_0@ == spec_decompressed(data@)->Some_0,
        forall|level: i32, orig: Seq<u8>| data@ == #[trigger] spec_compressed(level, orig) ==> r is Ok && r->Ok_0@ == orig,
{
    match zstd::stream::decode_all(data) {
        Ok(v) => Ok(v),
        Err(e) => Err(format!("{}", e)),
    }
}

/// Compress `data` with `zstd` at the level selected by `quality`.
pub fn encode(data: &[u8], quality: Quality) -> (r: Vec<u8>)
    ensures
        r@ == spec_compressed(spec_quality_to_codec(quality), data@),
{
    encode_raw(data, quality_to_codec(quality))
}

/// Decompress a `zstd` stream.
pub fn decode(data: &[u8]) -> (r: Result<Vec<u8>, Error>)
    ensures
        r is Ok <==> spec_decompressed(data@) is Some,
        r is Ok ==> r->Ok_0@ == spec_decompressed(data@)->Some_0,
        forall|level: i32, orig: Seq<u8>| data@ == #[trigger] spec_compressed(level, orig) ==> r is Ok && r->Ok_0@ == orig,
        r matches Err(e) ==> e matches Error::DecodeFailed { codec: c, detail: _ }
            && c == Codec::Zstd,
{
    match decode_raw(data) {
        Ok(v) => Ok(v),
        Err(detail) => Err(Error::DecodeFailed { codec: Codec::Zstd, detail }),
    }
}

} // verus!
