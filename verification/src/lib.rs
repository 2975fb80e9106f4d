//! A common interface for encoding and decoding byte buffers through a fixed
//! catalogue of compression and transform codecs, selected at call time by a
//! [`Codec`] identifier and a normalized [`Quality`] level.

use vstd::prelude::*;

pub mod codecs;

verus! {

/// The unified error taxonomy across all backends.
#[derive(Debug, Clone, PartialEq)]
pub enum Error {
    /// A string failed to parse as a codec name; carries the offending string.
    UnknownCodec(String),
    /// A string failed to parse as a quality name; carries the offending string.
    UnknownQuality(String),
    /// The requested codec's backend is not compiled into this build.
    CodecDisabled(Codec),
    /// The backend encoder reported a failure; `detail` preserves its
    /// message. The in-memory backends of this build report none, so this
    /// variant is reserved for the taxonomy.
    EncodeFailed { codec: Codec, detail: String },
    /// The backend decoder reported a failure, including malformed input.
    DecodeFailed { codec: Codec, detail: String },
}

/// A value to represent an encoding.
#[derive(Copy, Clone, PartialEq, Eq, Debug, Structural)]
pub enum Codec {
    /// The `base58` encoding.
    Base58,
    /// The `bincode` encoding.
    BinCode,
    /// The `brotli` encoding.
    Brotli,
    /// The `bzip2` encoding.
    Bzip2,
    /// The `deflate` encoding.
    Deflate,
    /// The `gzip` encoding.
    Gzip,
    /// The `lz4` encoding.
    Lz4,
    /// The `xz` encoding (also known as `lzma`).
    Xz,
    /// The `zlib` encoding.
    Zlib,
    /// The `zstd` encoding.
    Zstd,
    /// The `identity` encoding.
    Identity,
}

/// A value to represent an encoding quality.
#[derive(Copy, Clone, PartialEq, Eq, Debug, Structural)]
pub enum Quality {
    Default,
    Level1,
    Level2,
    Level3,
    Level4,
    Level5,
    Level6,
    Level7,
    Level8,
    Level9,
    Maximum,
}

/// The canonical lowercase name of each codec.
pub open spec fn spec_codec_name(codec: Codec) -> Seq<char> {
    match codec {
        Codec::Base58 => "base58"@,
        Codec::BinCode => "bincode"@,
        Codec::Brotli => "brotli"@,
        Codec::Bzip2 => "bzip2"@,
        Codec::Deflate => "deflate"@,
        Codec::Gzip => "gzip"@,
        Codec::Lz4 => "lz4"@,
        Codec::Xz => "xz"@,
        Codec::Zlib => "zlib"@,
        Codec::Zstd => "zstd"@,
        Codec::Identity => "identity"@,
    }
}

/// The codec a name denotes, if any; parsing is exact and case-sensitive.
pub open spec fn spec_codec_of_name(s: Seq<char>) -> Option<Codec> {
    if s == "base58"@ {
        Some(Codec::Base58)
    } else if s == "bincode"@ {
        Some(Codec::BinCode)
    } else if s == "brotli"@ {
        Some(Codec::Brotli)
    } else if s == "bzip2"@ {
        Some(Codec::Bzip2)
    } else if s == "deflate"@ {
        Some(Codec::Deflate)
    } else if s == "gzip"@ {
        Some(Codec::Gzip)
    } else if s == "lz4"@ {
        Some(Codec::Lz4)
    } else if s == "xz"@ {
        Some(Codec::Xz)
    } else if s == "zlib"@ {
        Some(Codec::Zlib)
    } else if s == "zstd"@ {
        Some(Codec::Zstd)
    } else if s == "identity"@ {
        Some(Codec::Identity)
    } else {
        None
    }
}

impl Codec {
    /// The stable lowercase name of this codec.
    pub fn to_string(&self) -> (r: String)
        ensures
            r@ == spec_codec_name(*self),
    {
        match self {
            Codec::Base58 => "base58".to_owned(),
            Codec::BinCode => "bincode".to_owned(),
            Codec::Brotli => "brotli".to_owned(),
            Codec::Bzip2 => "bzip2".to_owned(),
            Codec::Deflate => "deflate".to_owned(),
            Codec::Gzip => "gzip".to_owned(),
            Codec::Lz4 => "lz4".to_owned(),
            Codec::Xz => "xz".to_owned(),
            Codec::Zlib => "zlib".to_owned(),
            Codec::Zstd => "zstd".to_owned(),
            Codec::Identity => "identity".to_owned(),
        }
    }

    /// Parse a codec from its stable lowercase name. Any other string fails
    /// with [`Error::UnknownCodec`] carrying the offending input.
    pub fn parse(s: &str) -> (r: Result<Codec, Error>)
        ensures
            spec_codec_of_name(s@) matches Some(codec) ==> (r matches Ok(parsed)
                && parsed == codec),
            spec_codec_of_name(s@) is None ==> (r matches Err(e)
                && e matches Error::UnknownCodec(name) && name@ == s@),
    {
        let owned = s.to_owned();
        if owned == "base58".to_owned() {
            Ok(Codec::Base58)
        } else if owned == "bincode".to_owned() {
            Ok(Codec::BinCode)
        } else if owned == "brotli".to_owned() {
            Ok(Codec::Brotli)
        } else if owned == "bzip2".to_owned() {
            Ok(Codec::Bzip2)
        } else if owned == "deflate".to_owned() {
            Ok(Codec::Deflate)
        } else if owned == "gzip".to_owned() {
            Ok(Codec::Gzip)
        } else if owned == "lz4".to_owned() {
            Ok(Codec::Lz4)
        } else if owned == "xz".to_owned() {
            Ok(Codec::Xz)
        } else if owned == "zlib".to_owned() {
            Ok(Codec::Zlib)
        } else if owned == "zstd".to_owned() {
            Ok(Codec::Zstd)
        } else if owned == "identity".to_owned() {
            Ok(Codec::Identity)
        } else {
            Err(Error::UnknownCodec(owned))
        }
    }
}

/// Every codec's canonical name parses back to that codec: display and parse
/// are mutually inverse over the whole enumeration.
pub proof fn lemma_codec_name_round_trip(codec: Codec)
    ensures
        spec_codec_of_name(spec_codec_name(codec)) == Some(codec),
{
    reveal_strlit("base58");
    reveal_strlit("bincode");
    reveal_strlit("brotli");
    reveal_strlit("bzip2");
    reveal_strlit("deflate");
    reveal_strlit("gzip");
    reveal_strlit("lz4");
    reveal_strlit("xz");
    reveal_strlit("zlib");
    reveal_strlit("zstd");
    reveal_strlit("identity");
    assert("base58"@.len() == 6);
    assert("bincode"@.len() == 7);
    assert("brotli"@.len() == 6);
    assert("bzip2"@.len() == 5);
    assert("deflate"@.len() == 7);
    assert("gzip"@.len() == 4);
    assert("lz4"@.len() == 3);
    assert("xz"@.len() == 2);
    assert("zlib"@.len() == 4);
    assert("zstd"@.len() == 4);
    assert("identity"@.len() == 8);
    assert("base58"@[1] == 'a' && "brotli"@[1] == 'r');
    assert("bincode"@[0] == 'b' && "deflate"@[0] == 'd');
    assert("gzip"@[0] == 'g' && "zlib"@[0] == 'z' && "zstd"@[0] == 'z');
    assert("zlib"@[1] == 'l' && "zstd"@[1] == 's');
}

/// The canonical lowercase name of each quality level.
pub open spec fn spec_quality_name(quality: Quality) -> Seq<char> {
    match quality {
        Quality::Default => "default"@,
        Quality::Level1 => "level1"@,
        Quality::Level2 => "level2"@,
        Quality::Level3 => "level3"@,
        Quality::Level4 => "level4"@,
        Quality::Level5 => "level5"@,
        Quality::Level6 => "level6"@,
        Quality::Level7 => "level7"@,
        Quality::Level8 => "level8"@,
        Quality::Level9 => "level9"@,
        Quality::Maximum => "maximum"@,
    }
}

/// The quality level a name denotes, if any; parsing is exact and
/// case-sensitive.
pub open spec fn spec_quality_of_name(s: Seq<char>) -> Option<Quality> {
    if s == "default"@ {
        Some(Quality::Default)
    } else if s == "level1"@ {
        Some(Quality::Level1)
    } else if s == "level2"@ {
        Some(Quality::Level2)
    } else if s == "level3"@ {
        Some(Quality::Level3)
    } else if s == "level4"@ {
        Some(Quality::Level4)
    } else if s == "level5"@ {
        Some(Quality::Level5)
    } else if s == "level6"@ {
        Some(Quality::Level6)
    } else if s == "level7"@ {
        Some(Quality::Level7)
    } else if s == "level8"@ {
        Some(Quality::Level8)
    } else if s == "level9"@ {
        Some(Quality::Level9)
    } else if s == "maximum"@ {
        Some(Quality::Maximum)
    } else {
        None
    }
}

impl Quality {
    /// The stable lowercase name of this quality level.
    pub fn to_string(&self) -> (r: String)
        ensures
            r@ == spec_quality_name(*self),
    {
        match self {
            Quality::Default => "default".to_owned(),
            Quality::Level1 => "level1".to_owned(),
            Quality::Level2 => "level2".to_owned(),
            Quality::Level3 => "level3".to_owned(),
            Quality::Level4 => "level4".to_owned(),
            Quality::Level5 => "level5".to_owned(),
            Quality::Level6 => "level6".to_owned(),
            Quality::Level7 => "level7".to_owned(),
            Quality::Level8 => "level8".to_owned(),
            Quality::Level9 => "level9".to_owned(),
            Quality::Maximum => "maximum".to_owned(),
        }
    }

    /// Parse a quality level from its stable lowercase name. Any other string
    /// fails with [`Error::UnknownQuality`] carrying the offending input.
    pub fn parse(s: &str) -> (r: Result<Quality, Error>)
        ensures
            spec_quality_of_name(s@) matches Some(quality) ==> (r matches Ok(parsed)
                && parsed == quality),
            spec_quality_of_name(s@) is None ==> (r matches Err(e)
                && e matches Error::UnknownQuality(name) && name@ == s@),
    {
        let owned = s.to_owned();
        if owned == "default".to_owned() {
            Ok(Quality::Default)
        } else if owned == "level1".to_owned() {
            Ok(Quality::Level1)
        } else if owned == "level2".to_owned() {
            Ok(Quality::Level2)
        } else if owned == "level3".to_owned() {
            Ok(Quality::Level3)
        } else if owned == "level4".to_owned() {
            Ok(Quality::Level4)
        } else if owned == "level5".to_owned() {
            Ok(Quality::Level5)
        } else if owned == "level6".to_owned() {
            Ok(Quality::Level6)
        } else if owned == "level7".to_owned() {
            Ok(Quality::Level7)
        } else if owned == "level8".to_owned() {
            Ok(Quality::Level8)
        } else if owned == "level9".to_owned() {
            Ok(Quality::Level9)
        } else if owned == "maximum".to_owned() {
            Ok(Quality::Maximum)
        } else {
            Err(Error::UnknownQuality(owned))
        }
    }
}

/// Every quality level's canonical name parses back to that level: display
/// and parse are mutually inverse over the whole enumeration.
pub proof fn lemma_quality_name_round_trip(quality: Quality)
    ensures
        spec_quality_of_name(spec_quality_name(quality)) == Some(quality),
{
    reveal_strlit("default");
    reveal_strlit("level1");
    reveal_strlit("level2");
    reveal_strlit("level3");
    reveal_strlit("level4");
    reveal_strlit("level5");
    reveal_strlit("level6");
    reveal_strlit("level7");
    reveal_strlit("level8");
    reveal_strlit("level9");
    reveal_strlit("maximum");
    assert("default"@.len() == 7);
    assert("maximum"@.len() == 7);
    assert("default"@[0] == 'd' && "maximum"@[0] == 'm');
    assert("level1"@.len() == 6);
    assert("level2"@.len() == 6);
    assert("level3"@.len() == 6);
    assert("level4"@.len() == 6);
    assert("level5"@.len() == 6);
    assert("level6"@.len() == 6);
    assert("level7"@.len() == 6);
    assert("level8"@.len() == 6);
    assert("level9"@.len() == 6);
    assert("level1"@[5] == '1');
    assert("level2"@[5] == '2');
    assert("level3"@[5] == '3');
    assert("level4"@[5] == '4');
    assert("level5"@[5] == '5');
    assert("level6"@[5] == '6');
    assert("level7"@[5] == '7');
    assert("level8"@[5] == '8');
    assert("level9"@[5] == '9');
}

/// Which codecs have their backend compiled into this build.
///
/// `Identity` is unconditionally enabled; every other entry reflects whether
/// the backend library is linked in. In this build every backend is present.
pub open spec fn spec_codec_enabled(codec: Codec) -> bool {
    match codec {
        Codec::Base58 => true,
        Codec::BinCode => true,
        Codec::Brotli => true,
        Codec::Bzip2 => true,
        Codec::Deflate => true,
        Codec::Gzip => true,
        Codec::Lz4 => true,
        Codec::Xz => true,
        Codec::Zlib => true,
        Codec::Zstd => true,
        Codec::Identity => true,
    }
}

/// Query the build-time enablement set.
pub fn is_codec_enabled(codec: Codec) -> (enabled: bool)
    ensures
        enabled == spec_codec_enabled(codec),
        codec == Codec::Identity ==> enabled,
{
    match codec {
        Codec::Base58 => true,
        Codec::BinCode => true,
        Codec::Brotli => true,
        Codec::Bzip2 => true,
        Codec::Deflate => true,
        Codec::Gzip => true,
        Codec::Lz4 => true,
        Codec::Xz => true,
        Codec::Zlib => true,
        Codec::Zstd => true,
        Codec::Identity => true,
    }
}

/// The bytes that encoding `data` with `codec` at `quality` produces.
///
/// For `Identity` this is `data` itself; for every other codec it is the
/// backend's output at the native parameter its quality adapter selects.
pub open spec fn spec_encoded(data: Seq<u8>, codec: Codec, quality: Quality) -> Seq<u8> {
    match codec {
        Codec::Base58 => codecs::base58::spec_encoded_bytes(data),
        Codec::BinCode => codecs::bincode::spec_encoded_bytes(data),
        Codec::Brotli => codecs::brotli::spec_compressed(
            codecs::brotli::spec_quality_to_codec(quality),
            data,
        ),
        Codec::Bzip2 => codecs::bzip2::spec_compressed(
            codecs::bzip2::spec_quality_to_codec(quality),
            data,
        ),
        Codec::Deflate => codecs::deflate::spec_compressed(
            codecs::deflate::spec_quality_to_codec(quality),
            data,
        ),
        Codec::Gzip => codecs::gzip::spec_compressed(
            codecs::gzip::spec_quality_to_codec(quality),
            data,
        ),
        Codec::Lz4 => codecs::lz4::spec_compressed(
            codecs::lz4::spec_quality_to_codec(quality),
            data,
        ),
        Codec::Xz => codecs::xz::spec_compressed(
            codecs::xz::spec_quality_to_codec(quality),
            data,
        ),
        Codec::Zlib => codecs::zlib::spec_compressed(
            codecs::zlib::spec_quality_to_codec(quality),
            data,
        ),
        Codec::Zstd => codecs::zstd::spec_compressed(
            codecs::zstd::spec_quality_to_codec(quality),
            data,
        ),
        Codec::Identity => data,
    }
}

/// What decoding `data` with `codec` yields, if the codec accepts the input.
///
/// `Identity` accepts everything verbatim; `bincode`'s acceptance and result
/// are stated exactly; for every other codec they are the backend decoder's
/// own, named per adapter.
pub open spec fn spec_decoded(data: Seq<u8>, codec: Codec) -> Option<Seq<u8>> {
    match codec {
        Codec::Base58 => codecs::base58::spec_decoded_bytes(data),
        Codec::BinCode => if codecs::bincode::spec_well_formed(data) {
            Some(codecs::bincode::spec_decoded(data))
        } else {
            None
        },
        Codec::Brotli => codecs::brotli::spec_decompressed(data),
        Codec::Bzip2 => codecs::bzip2::spec_decompressed(data),
        Codec::Deflate => codecs::deflate::spec_decompressed(data),
        Codec::Gzip => codecs::gzip::spec_decompressed(data),
        Codec::Lz4 => codecs::lz4::spec_decompressed(data),
        Codec::Xz => codecs::xz::spec_decompressed(data),
        Codec::Zlib => codecs::zlib::spec_decompressed(data),
        Codec::Zstd => codecs::zstd::spec_decompressed(data),
        Codec::Identity => Some(data),
    }
}

/// Encode `data` with the chosen codec and quality.
///
/// `Identity` returns a verbatim copy. A codec whose backend is not compiled
/// in fails with [`Error::CodecDisabled`] before any work is attempted.
/// Every enabled codec encodes wholly in memory and succeeds, returning
/// exactly the bytes `spec_encoded` names.
pub fn encode(data: &[u8], codec: Codec, quality: Quality) -> (r: Result<Vec<u8>, Error>)
    ensures
        codec == Codec::Identity ==> (r matches Ok(v) && v@ == data@),
        spec_codec_enabled(codec) ==> (r matches Ok(v) && v@ == spec_encoded(
            data@,
            codec,
            quality,
        )),
        !spec_codec_enabled(codec) ==> (r matches Err(e) && e matches Error::CodecDisabled(c)
            && c == codec),
{
    if !is_codec_enabled(codec) {
        return Err(Error::CodecDisabled(codec));
    }
    match codec {
        Codec::Base58 => Ok(codecs::base58::encode(data, quality)),
        Codec::BinCode => Ok(codecs::bincode::encode(data, quality)),
        Codec::Brotli => Ok(codecs::brotli::encode(data, quality)),
        Codec::Bzip2 => Ok(codecs::bzip2::encode(data, quality)),
        Codec::Deflate => Ok(codecs::deflate::encode(data, quality)),
        Codec::Gzip => Ok(codecs::gzip::encode(data, quality)),
        Codec::Lz4 => Ok(codecs::lz4::encode(data, quality)),
        Codec::Xz => Ok(codecs::xz::encode(data, quality)),
        Codec::Zlib => Ok(codecs::zlib::encode(data, quality)),
        Codec::Zstd => Ok(codecs::zstd::encode(data, quality)),
        Codec::Identity => Ok(vstd::slice::slice_to_vec(data)),
    }
}

/// Decode `data` with the chosen codec.
///
/// `Identity` returns a verbatim copy and cannot fail. A codec whose backend
/// is not compiled in fails with [`Error::CodecDisabled`] before any work is
/// attempted. An enabled codec succeeds exactly on the inputs it accepts,
/// with the bytes `spec_decoded` names — in particular, whatever that codec
/// encoded decodes back to the original bytes — and fails on any other input
/// with [`Error::DecodeFailed`] for that codec.
pub fn decode(data: &[u8], codec: Codec) -> (r: Result<Vec<u8>, Error>)
    ensures
        codec == Codec::Identity ==> (r matches Ok(v) && v@ == data@),
        spec_codec_enabled(codec) ==> (r is Ok <==> spec_decoded(data@, codec) is Some),
        spec_codec_enabled(codec) && r is Ok ==> r->Ok_0@ == spec_decoded(data@, codec)->Some_0,
        forall|quality: Quality, orig: Seq<u8>|
            spec_codec_enabled(codec) && data@ == #[trigger] spec_encoded(orig, codec, quality)
                ==> r is Ok && r->Ok_0@ == orig,
        !spec_codec_enabled(codec) ==> (r matches Err(e) && e matches Error::CodecDisabled(c)
            && c == codec),
        spec_codec_enabled(codec) ==> (r matches Err(e) ==> (e matches Error::DecodeFailed {
            codec: c,
            detail: _,
        } && c == codec)),
{
    if !is_codec_enabled(codec) {
        return Err(Error::CodecDisabled(codec));
    }
    match codec {
        Codec::Base58 => codecs::base58::decode(data),
        Codec::BinCode => codecs::bincode::decode(data),
        Codec::Brotli => codecs::brotli::decode(data),
        Codec::Bzip2 => codecs::bzip2::decode(data),
        Codec::Deflate => codecs::deflate::decode(data),
        Codec::Gzip => codecs::gzip::decode(data),
        Codec::Lz4 => codecs::lz4::decode(data),
        Codec::Xz => codecs::xz::decode(data),
        Codec::Zlib => codecs::zlib::decode(data),
        Codec::Zstd => codecs::zstd::decode(data),
        Codec::Identity => Ok(vstd::slice::slice_to_vec(data)),
    }
}

/// Encoded output is a function of the input bytes, the codec and the
/// quality alone: two successful `encode` calls on the same arguments return
/// byte-identical output.
pub proof fn lemma_encode_deterministic(
    data: Seq<u8>,
    codec: Codec,
    quality: Quality,
    out1: Seq<u8>,
    out2: Seq<u8>,
)
    requires
        out1 == spec_encoded(data, codec, quality),
        out2 == spec_encoded(data, codec, quality),
    ensures
        out1 == out2,
{
}

/// Decoding is deterministic as well: which inputs a codec accepts, and what
/// they decode to, are functions of the input bytes and the codec alone, so
/// two `decode` calls on the same arguments agree on acceptance and, on
/// success, return byte-identical output.
pub proof fn lemma_decode_deterministic(
    data: Seq<u8>,
    codec: Codec,
    out1: Option<Seq<u8>>,
    out2: Option<Seq<u8>>,
)
    requires
        out1 == spec_decoded(data, codec),
        out2 == spec_decoded(data, codec),
    ensures
        out1 == out2,
{
}

} // verus!
