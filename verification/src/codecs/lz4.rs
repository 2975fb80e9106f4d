//! Backend adapter for the `lz4` codec.

use std::io::Read;
use std::io::Write;
use vstd::prelude::*;

use crate::{Codec, Error, Quality};

verus! {

/// The native `lz4` compression level selected by each normalized quality,
/// on the backend's 0-16 frame scale. A level of 0 asks the backend for its
/// fast default; `Maximum` uses the high-compression ceiling of 16.
pub open spec fn spec_quality_to_codec(quality: Quality) -> u32 {
    match quality {
        Quality::Default => 0,
        Quality::Level1 => 1,
        Quality::Level2 => 2,
        Quality::Level3 => 3,
        Quality::Level4 => 4,
        Quality::Level5 => 5,
        Quality::Level6 => 6,
        Quality::Level7 => 7,
        Quality::Level8 => 8,
        Quality::Level9 => 9,
        Quality::Maximum => 16,
    }
}

/// Map the normalized quality scale onto `lz4`'s native 0-16 levels.
pub fn quality_to_codec(quality: Quality) -> (level: u32)
    ensures
        level == spec_quality_to_codec(quality),
        level <= 16,
{
    match quality {
        Quality::Default => 0,
        Quality::Level1 => 1,
        Quality::Level2 => 2,
        Quality::Level3 => 3,
        Quality::Level4 => 4,
        Quality::Level5 => 5,
        Quality::Level6 => 6,
        Quality::Level7 => 7,
        Quality::Level8 => 8,
        Quality::Level9 => 9,
        Quality::Maximum => 16,
    }
}

/// The `lz4` frame that the backend produces for `data` at `level`.
pub uninterp spec fn spec_compressed(level: u32, data: Seq<u8>) -> Seq<u8>;

/// What the backend's decoder makes of `data`: the decompressed bytes where
/// it accepts the input, nothing where it rejects it.
pub uninterp spec fn spec_decompressed(data: Seq<u8>) -> Option<Seq<u8>>;

/// Relies on `lz4::EncoderBuilder` and `lz4::Encoder`: writing `data` through
/// the encoder and finishing it yields the whole frame, a pure function of
/// the input bytes and the level.
/// In-memory input and output leave it no failure path.
#[verifier::external_body]
fn encode_raw(data: &[u8], level: u32) -> (r: Vec<u8>)
    requires
        level <= 16,
    ensures
        r@ == spec_compressed(level, data@),
{
    let mut encoder = lz4::EncoderBuilder::new()
        .level(level)
        .build(Vec::new())
        .expect("in-memory lz4 frame setup does not fail");
    encoder.write_all(data).expect("in-memory lz4 compression does not fail");
    let (buf, result) = encoder.finish();
    result.expect("in-memory lz4 compression does not fail");
    buf
}

/// Relies on `lz4::Decoder`: it inverts `lz4::Encoder`, so any frame the
/// backend produced decompresses back to the original bytes.
/// Whether it accepts the input, and what it yields, are pure functions of
/// the input bytes alone.
#[verifier::external_body]
fn decode_raw(data: &[u8]) -> (r: Result<Vec<u8>, String>)
    ensures
        r is Ok <==> spec_decompressed(data@) is Some,
        r is Ok ==> r->Ok_0@ == spec_decompressed(data@)->Some_0,
        forall|level: u32, orig: Seq<u8>| data@ == #[trigger] spec_compressed(level, orig) ==> r is Ok && r->Ok_0@ == orig,
{
    let mut buf = Vec::new();
    let mut decoder = match lz4::Decoder::new(data) {
        Ok(decoder) => decoder,
        Err(e) => return Err(format!("{}", e)),
    };
    match decoder.read_to_end(&mut buf) {
        Ok(_) => Ok(buf),
        Err(e) => Err(format!("{}", e)),
    }
}

/// Compress `data` with `lz4` at the level selected by `quality`.
pub fn encode(data: &[u8], quality: Quality) -> (r: Vec<u8>)
    ensures
        r@ == spec_compressed(spec_quality_to_codec(quality), data@),
{
    encode_raw(data, quality_to_codec(quality))
}

/// Decompress an `lz4` frame.
pub fn decode(data: &[u8]) -> (r: Result<Vec<u8>, Error>)
    ensures
        r is Ok <==> spec_decompressed(data@) is Some,
        r is Ok ==> r->Ok_0@ == spec_decompressed(data@)->Some_0,
        forall|level: u32, orig: Seq<u8>| data@ == #[trigger] spec_compressed(level, orig) ==> r is Ok && r->Ok_0@ == orig,
        r matches Err(e) ==> e matches Error::DecodeFailed { codec: c, detail: _ }
            && c == Codec::Lz4,
{
    match decode_raw(data) {
        Ok(v) => Ok(v),
        Err(detail) => Err(Error::DecodeFailed { codec: Codec::Lz4, detail }),
    }
}

} // verus!
