//! Backend adapter for the `deflate` codec.

use std::io::Read;
use vstd::prelude::*;

use crate::{Codec, Error, Quality};

verus! {

/// The native `deflate` compression level selected by each normalized
/// quality, on the backend's 0-9 scale.
pub open spec fn spec_quality_to_codec(quality: Quality) -> u32 {
    match quality {
        Quality::Default => 6,
        Quality::Level1 => 1,
        Quality::Level2 => 2,
        Quality::Level3 => 3,
        Quality::Level4 => 4,
        Quality::Level5 => 5,
        Quality::Level6 => 6,
        Quality::Level7 => 7,
        Quality::Level8 => 8,
        Quality::Level9 => 9,
        Quality::Maximum => 9,
    }
}

/// Map the normalized quality scale onto `deflate`'s native 0-9 levels.
pub fn quality_to_codec(quality: Quality) -> (level: u32)
    ensures
        level == spec_quality_to_codec(quality),
        level <= 9,
{
    match quality {
        Quality::Default => 6,
        Quality::Level1 => 1,
        Quality::Level2 => 2,
        Quality::Level3 => 3,
        Quality::Level4 => 4,
        Quality::Level5 => 5,
        Quality::Level6 => 6,
        Quality::Level7 => 7,
        Quality::Level8 => 8,
        Quality::Level9 => 9,
        Quality::Maximum => 9,
    }
}

/// The raw `deflate` stream that the backend produces for `data` at `level`.
pub uninterp spec fn spec_compressed(level: u32, data: Seq<u8>) -> Seq<u8>;

/// What the backend's decoder makes of `data`: the decompressed bytes where
/// it accepts the input, nothing where it rejects it.
pub uninterp spec fn spec_decompressed(data: Seq<u8>) -> Option<Seq<u8>>;

/// Relies on `flate2::read::DeflateEncoder`: reading it to the end yields the
/// whole compressed stream for `data`, a pure function of the input bytes and
/// the level.
/// In-memory input and output leave it no failure path.
#[verifier::external_body]
fn encode_raw(data: &[u8], level: u32) -> (r: Vec<u8>)
    requires
        level <= 9,
    ensures
        r@ == spec_compressed(level, data@),
{
    let mut buf = Vec::new();
    flate2::read::DeflateEncoder::new(data, flate2::Compression::new(level))
        .read_to_end(&mut buf)
        .expect("in-memory deflate compression does not fail");
    buf
}

/// Relies on `flate2::read::DeflateDecoder`: it inverts `DeflateEncoder`, so
/// any buffer the backend compressed decompresses back to the original bytes.
/// Whether it accepts the input, and what it yields, are pure functions of
/// the input bytes alone.
#[verifier::external_body]
fn decode_raw(data: &[u8]) -> (r: Result<Vec<u8>, String>)
    ensures
        r is Ok <==> spec_decompressed(data@) is Some,
        r is Ok ==> r->Ok_0@ == spec_decompressed(data@)->Some_0,
        forall|level: u32, orig: Seq<u8>| data@ == #[trigger] spec_compressed(level, orig) ==> r is Ok && r->Ok_0@ == orig,
{
    let mut buf = Vec::new();
    match flate2::read::DeflateDecoder::new(data).read_to_end(&mut buf) {
        Ok(_) => Ok(buf),
        Err(e) => Err(format!("{}", e)),
    }
}

/// Compress `data` with `deflate` at the level selected by `quality`.
pub fn encode(data: &[u8], quality: Quality) -> (r: Vec<u8>)
    ensures
        r@ == spec_compressed(spec_quality_to_codec(quality), data@),
{
    encode_raw(data, quality_to_codec(quality))
}

/// Decompress a raw `deflate` stream.
pub fn decode(data: &[u8]) -> (r: Result<Vec<u8>, Error>)
    ensures
        r is Ok <==> spec_decompressed(data@) is Some,
        r is Ok ==> r->Ok_0@ == spec_decompressed(data@)->Some_0,
        forall|level: u32, orig: Seq<u8>| data@ == #[trigger] spec_compressed(level, orig) ==> r is Ok && r->Ok_0@ == orig,
        r matches Err(e) ==> e matches Error::DecodeFailed { codec: c, detail: _ }
            && c == Codec::Deflate,
{
    match decode_raw(data) {
        Ok(v) => Ok(v),
        Err(detail) => Err(Error::DecodeFailed { codec: Codec::Deflate, detail }),
    }
}

} // verus!
