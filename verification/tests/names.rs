//! String names: stable display, exact parsing, and rejection of unknown
//! names for both enumerations.

use smush::{Codec, Error, Quality};

const ALL_CODECS: [Codec; 11] = [
    Codec::Base58,
    Codec::BinCode,
    Codec::Brotli,
    Codec::Bzip2,
    Codec::Deflate,
    Codec::Gzip,
    Codec::Lz4,
    Codec::Xz,
    Codec::Zlib,
    Codec::Zstd,
    Codec::Identity,
];

const ALL_QUALITIES: [Quality; 11] = [
    Quality::Default,
    Quality::Level1,
    Quality::Level2,
    Quality::Level3,
    Quality::Level4,
    Quality::Level5,
    Quality::Level6,
    Quality::Level7,
    Quality::Level8,
    Quality::Level9,
    Quality::Maximum,
];

#[test]
fn codec_names_are_stable() {
    let expected = [
        "base58", "bincode", "brotli", "bzip2", "deflate", "gzip", "lz4", "xz", "zlib", "zstd",
        "identity",
    ];
    for (codec, name) in ALL_CODECS.iter().zip(expected.iter()) {
        assert_eq!(codec.to_string(), *name);
    }
}

#[test]
fn quality_names_are_stable() {
    let expected = [
        "default", "level1", "level2", "level3", "level4", "level5", "level6", "level7", "level8",
        "level9", "maximum",
    ];
    for (quality, name) in ALL_QUALITIES.iter().zip(expected.iter()) {
        assert_eq!(quality.to_string(), *name);
    }
}

#[test]
fn codec_name_round_trip() {
    for codec in ALL_CODECS.iter() {
        let name = codec.to_string();
        let parsed = Codec::parse(&name).unwrap();
        assert_eq!(parsed, *codec);
    }
}

#[test]
fn quality_name_round_trip() {
    for quality in ALL_QUALITIES.iter() {
        let name = quality.to_string();
        let parsed = Quality::parse(&name).unwrap();
        assert_eq!(parsed, *quality);
    }
}

#[test]
fn unknown_codec_is_rejected() {
    match Codec::parse("not-a-codec") {
        Err(Error::UnknownCodec(name)) => assert_eq!(name, "not-a-codec"),
        other => panic!("expected UnknownCodec, got {:?}", other),
    }
}

#[test]
fn codec_parsing_is_case_sensitive() {
    match Codec::parse("Zstd") {
        Err(Error::UnknownCodec(name)) => assert_eq!(name, "Zstd"),
        other => panic!("expected UnknownCodec, got {:?}", other),
    }
}

#[test]
fn unknown_quality_is_rejected() {
    match Quality::parse("not-a-level") {
        Err(Error::UnknownQuality(name)) => assert_eq!(name, "not-a-level"),
        other => panic!("expected UnknownQuality, got {:?}", other),
    }
}
