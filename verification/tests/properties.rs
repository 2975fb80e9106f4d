//! Behavioural properties of the dispatcher: identity exactness, enablement,
//! round trips across qualities and empty input, determinism, representation
//! change, the exact serialization formats, and decode failures.

use smush::codecs;
use smush::{decode, encode, is_codec_enabled, Codec, Error, Quality};

const TEST_DATA: &[u8] = b"Lorem ipsum dolor sit amet, consectetur adipiscing elit, sed do eiusmod
tempor incididunt ut labore et dolore magna aliqua. Ut enim ad minim veniam,
quis nostrud exercitation ullamco laboris nisi ut aliquip ex ea commodo
consequat. Duis aute irure dolor in reprehenderit in voluptate velit esse
cillum dolore eu fugiat nulla pariatur. Excepteur sint occaecat cupidatat non
proident, sunt in culpa qui officia deserunt mollit anim id est laborum.

Sed ut perspiciatis unde omnis iste natus error sit voluptatem accusantium
doloremque laudantium, totam rem aperiam, eaque ipsa quae ab illo inventore
veritatis et quasi architecto beatae vitae dicta sunt explicabo. Nemo enim
ipsam voluptatem quia voluptas sit aspernatur aut odit aut fugit, sed quia
consequuntur magni dolores eos qui ratione voluptatem sequi nesciunt.
";

const ALL_CODECS: [Codec; 11] = [
    Codec::Base58,
    Codec::BinCode,
    Codec::Brotli,
    Codec::Bzip2,
    Codec::Deflate,
    Codec::Gzip,
    Codec::Lz4,
    Codec::Xz,
    Codec::Zlib,
    Codec::Zstd,
    Codec::Identity,
];

const ALL_QUALITIES: [Quality; 11] = [
    Quality::Default,
    Quality::Level1,
    Quality::Level2,
    Quality::Level3,
    Quality::Level4,
    Quality::Level5,
    Quality::Level6,
    Quality::Level7,
    Quality::Level8,
    Quality::Level9,
    Quality::Maximum,
];

fn assert_round_trip(data: &[u8], codec: Codec) {
    for quality in ALL_QUALITIES.iter() {
        let encoded = encode(data, codec, *quality).unwrap();
        let decoded = decode(&encoded, codec).unwrap();
        assert_eq!(decoded, data);
    }
}

#[test]
fn round_trip_base58_all_qualities() {
    assert_round_trip(TEST_DATA, Codec::Base58);
    assert_round_trip(&[], Codec::Base58);
}

#[test]
fn round_trip_bincode_all_qualities() {
    assert_round_trip(TEST_DATA, Codec::BinCode);
    assert_round_trip(&[], Codec::BinCode);
}

#[test]
fn round_trip_brotli_all_qualities() {
    assert_round_trip(TEST_DATA, Codec::Brotli);
    assert_round_trip(&[], Codec::Brotli);
}

#[test]
fn round_trip_bzip2_all_qualities() {
    assert_round_trip(TEST_DATA, Codec::Bzip2);
    assert_round_trip(&[], Codec::Bzip2);
}

#[test]
fn round_trip_deflate_all_qualities() {
    assert_round_trip(TEST_DATA, Codec::Deflate);
    assert_round_trip(&[], Codec::Deflate);
}

#[test]
fn round_trip_gzip_all_qualities() {
    assert_round_trip(TEST_DATA, Codec::Gzip);
    assert_round_trip(&[], Codec::Gzip);
}

#[test]
fn round_trip_lz4_all_qualities() {
    assert_round_trip(TEST_DATA, Codec::Lz4);
    assert_round_trip(&[], Codec::Lz4);
}

#[test]
fn round_trip_xz_all_qualities() {
    assert_round_trip(TEST_DATA, Codec::Xz);
    assert_round_trip(&[], Codec::Xz);
}

#[test]
fn round_trip_zlib_all_qualities() {
    assert_round_trip(TEST_DATA, Codec::Zlib);
    assert_round_trip(&[], Codec::Zlib);
}

#[test]
fn round_trip_zstd_all_qualities() {
    assert_round_trip(TEST_DATA, Codec::Zstd);
    assert_round_trip(&[], Codec::Zstd);
}

#[test]
fn round_trip_identity_all_qualities() {
    assert_round_trip(TEST_DATA, Codec::Identity);
    assert_round_trip(&[], Codec::Identity);
}

#[test]
fn identity_is_exact_for_every_quality() {
    for quality in ALL_QUALITIES.iter() {
        let encoded = encode(TEST_DATA, Codec::Identity, *quality).unwrap();
        assert_eq!(encoded, TEST_DATA);
    }
    let decoded = decode(TEST_DATA, Codec::Identity).unwrap();
    assert_eq!(decoded, TEST_DATA);
}

#[test]
fn every_codec_is_enabled_in_this_build() {
    for codec in ALL_CODECS.iter() {
        assert!(is_codec_enabled(*codec));
    }
}

#[test]
fn identity_is_always_enabled() {
    assert!(is_codec_enabled(Codec::Identity));
}

#[test]
fn non_identity_codecs_change_representation() {
    for codec in ALL_CODECS.iter() {
        if *codec != Codec::Identity {
            for quality in [Quality::Level1, Quality::Default, Quality::Maximum].iter() {
                let encoded = encode(TEST_DATA, *codec, *quality).unwrap();
                assert_ne!(encoded.as_slice(), TEST_DATA, "codec {:?} quality {:?}", codec, quality);
            }
        }
    }
}

#[test]
fn encoding_is_deterministic() {
    for codec in ALL_CODECS.iter() {
        for quality in [Quality::Default, Quality::Level1, Quality::Maximum].iter() {
            let first = encode(TEST_DATA, *codec, *quality).unwrap();
            let second = encode(TEST_DATA, *codec, *quality).unwrap();
            assert_eq!(first, second, "codec {:?} quality {:?}", codec, quality);
        }
    }
}

#[test]
fn bincode_layout_is_length_then_bytes() {
    let encoded = encode(&[1, 2, 3], Codec::BinCode, Quality::Default).unwrap();
    assert_eq!(encoded, vec![3, 0, 0, 0, 0, 0, 0, 0, 1, 2, 3]);
}

#[test]
fn base58_uses_the_bitcoin_alphabet() {
    let decoded = decode(b"he11owor1d", Codec::Base58).unwrap();
    assert_eq!(decoded, vec![0x04, 0x30, 0x5e, 0x2b, 0x24, 0x73, 0xf0, 0x58]);
    let encoded = encode(&decoded, Codec::Base58, Quality::Default).unwrap();
    assert_eq!(encoded.as_slice(), b"he11owor1d");
}

#[test]
fn malformed_input_fails_to_decode() {
    let garbage: &[u8] = b"not valid data";
    for codec in ALL_CODECS.iter() {
        if *codec != Codec::Identity {
            match decode(garbage, *codec) {
                Err(Error::DecodeFailed { codec: failed, detail }) => {
                    assert_eq!(failed, *codec);
                    assert!(!detail.is_empty());
                }
                other => panic!("codec {:?}: expected DecodeFailed, got {:?}", codec, other),
            }
        }
    }
}

#[test]
fn quality_adapters_map_the_documented_ranges() {
    assert_eq!(codecs::bzip2::quality_to_codec(Quality::Default), 6);
    assert_eq!(codecs::bzip2::quality_to_codec(Quality::Level1), 1);
    assert_eq!(codecs::bzip2::quality_to_codec(Quality::Level9), 9);
    assert_eq!(codecs::bzip2::quality_to_codec(Quality::Maximum), 9);
    assert_eq!(codecs::zstd::quality_to_codec(Quality::Default), 0);
    assert_eq!(codecs::zstd::quality_to_codec(Quality::Level5), 5);
    assert_eq!(codecs::zstd::quality_to_codec(Quality::Maximum), 11);
    assert_eq!(codecs::brotli::quality_to_codec(Quality::Default), 9);
    assert_eq!(codecs::brotli::quality_to_codec(Quality::Maximum), 11);
    assert_eq!(codecs::deflate::quality_to_codec(Quality::Default), 6);
    assert_eq!(codecs::gzip::quality_to_codec(Quality::Maximum), 9);
    assert_eq!(codecs::zlib::quality_to_codec(Quality::Level3), 3);
    assert_eq!(codecs::lz4::quality_to_codec(Quality::Default), 0);
    assert_eq!(codecs::lz4::quality_to_codec(Quality::Maximum), 16);
    assert_eq!(codecs::xz::quality_to_codec(Quality::Default), 6);
    assert_eq!(codecs::xz::quality_to_codec(Quality::Maximum), 9);
}
