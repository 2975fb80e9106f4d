//! Backend adapter for the `brotli` codec.

use std::io::Read;
use vstd::prelude::*;

use crate::{Codec, Error, Quality};

verus! {

/// The native `brotli` quality selected by each normalized quality, on the
/// backend's 0-11 scale. `Maximum` uses the backend's true ceiling of 11;
/// `Default` stays at 9, where compression is still fast.
pub open spec fn spec_quality_to_codec(quality: Quality) -> u32 {
    match quality {
        Quality::Default => 9,
        Quality::Level1 => 1,
        Quality::Level2 => 2,
        Quality::Level3 => 3,
        Quality::Level4 => 4,
        Quality::Level5 => 5,
        Quality::Level6 => 6,
        Quality::Level7 => 7,
        Quality::Level8 => 8,
        Quality::Level9 => 9,
        Quality::Maximum => 11,
    }
}

/// Map the normalized quality scale onto `brotli`'s native 0-11 qualities.
pub fn quality_to_codec(quality: Quality) -> (level: u32)
    ensures
        level == spec_quality_to_codec(quality),
        level <= 11,
{
    match quality {
        Quality::Default => 9,
        Quality::Level1 => 1,
        Quality::Level2 => 2,
        Quality::Level3 => 3,
        Quality::Level4 => 4,
        Quality::Level5 => 5,
        Quality::Level6 => 6,
        Quality::Level7 => 7,
        Quality::Level8 => 8,
        Quality::Level9 => 9,
        Quality::Maximum => 11,
    }
}

/// The `brotli` stream that the backend produces for `data` at `level` with
/// the window size this adapter fixes.
pub uninterp spec fn spec_compressed(level: u32, data: Seq<u8>) -> Seq<u8>;

/// What the backend's decoder makes of `data`: the decompressed bytes where
/// it accepts the input, nothing where it rejects it.
pub uninterp spec fn spec_decompressed(data: Seq<u8>) -> Option<Seq<u8>>;

/// Relies on `brotli::CompressorReader`: reading it to the end yields the
/// whole compressed stream for `data`, a pure function of the input bytes,
/// the quality and the window size (fixed here at 22, with the default
/// buffer size).
/// In-memory input and output leave it no failure path.
#[verifier::external_body]
fn encode_raw(data: &[u8], level: u32) -> (r: Vec<u8>)
    requires
        level <= 11,
    ensures
        r@ == spec_compressed(level, data@),
{
    let mut buf = Vec::new();
    brotli::CompressorReader::new(data, 4096, level, 22)
        .read_to_end(&mut buf)
        .expect("in-memory brotli compression does not fail");
    buf
}

/// Relies on `brotli::Decompressor`: it inverts `CompressorReader`, so any
/// buffer the backend compressed decompresses back to the original bytes.
/// Whether it accepts the input, and what it yields, are pure functions of
/// the input bytes alone.
#[verifier::external_body]
fn decode_raw(data: &[u8]) -> (r: Result<Vec<u8>, String>)
    ensures
        r is Ok <==> spec_decompressed(data@) is Some,
        r is Ok ==> r->Ok_0@ == spec_decompressed(data@)->Some_0,
        forall|level: u32, orig: Seq<u8>| data@ == #[trigger] spec_compressed(level, orig) ==> r is Ok && r->Ok_0@ == orig,
{
    let mut buf = Vec::new();
    match brotli::Decompressor::new(data, 4096).read_to_end(&mut buf) {
        Ok(_) => Ok(buf),
        Err(e) => Err(format!("{}", e)),
    }
}

/// Compress `data` with `brotli` at the quality selected by `quality`.
pub fn encode(data: &[u8], quality: Quality) -> (r: Vec<u8>)
    ensures
        r@ == spec_compressed(spec_quality_to_codec(quality), data@),
{
    encode_raw(data, quality_to_codec(quality))
}

/// Decompress a `brotli` stream.
pub fn decode(data: &[u8]) -> (r: Result<Vec<u8>, Error>)
    ensures
        r is Ok <==> spec_decompressed(data@) is Some,
        r is Ok ==> r->Ok_0@ == spec_decompressed(data@)->Some_0,
        forall|level: u32, orig: Seq<u8>| data@ == #[trigger] spec_compressed(level, orig) ==> r is Ok && r->Ok_0@ == orig,
        r matches Err(e) ==> e matches Error::DecodeFailed { codec: c, detail: _ }
            && c == Codec::Brotli,
{
    match decode_raw(data) {
        Ok(v) => Ok(v),
        Err(detail) => Err(Error::DecodeFailed { codec: Codec::Brotli, detail }),
    }
}

} // verus!
