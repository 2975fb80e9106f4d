//! Encode and decode round trips for every codec in the catalogue, on a
//! multi-paragraph text buffer.

use smush::{decode, encode, Codec, Quality};

const TEST_DATA: &[u8] = b"Lorem ipsum dolor sit amet, consectetur adipiscing elit, sed do eiusmod
tempor incididunt ut labore et dolore magna aliqua. Ut enim ad minim veniam,
quis nostrud exercitation ullamco laboris nisi ut aliquip ex ea commodo
consequat. Duis aute irure dolor in reprehenderit in voluptate velit esse
cillum dolore eu fugiat nulla pariatur. Excepteur sint occaecat cupidatat non
proident, sunt in culpa qui officia deserunt mollit anim id est laborum.

Sed ut perspiciatis unde omnis iste natus error sit voluptatem accusantium
doloremque laudantium, totam rem aperiam, eaque ipsa quae ab illo inventore
veritatis et quasi architecto beatae vitae dicta sunt explicabo. Nemo enim
ipsam voluptatem quia voluptas sit aspernatur aut odit aut fugit, sed quia
consequuntur magni dolores eos qui ratione voluptatem sequi nesciunt.

Neque porro quisquam est, qui dolorem ipsum quia dolor sit amet, consectetur,
adipisci velit, sed quia non numquam eius modi tempora incidunt ut labore et
dolore magnam aliquam quaerat voluptatem. Ut enim ad minima veniam, quis
nostrum exercitationem ullam corporis suscipit laboriosam, nisi ut aliquid ex
ea commodi consequatur? Quis autem vel eum iure reprehenderit qui in ea
voluptate velit esse quam nihil molestiae consequatur, vel illum qui dolorem
eum fugiat quo voluptas nulla pariatur?

At vero eos et accusamus et iusto odio dignissimos ducimus qui blanditiis
praesentium voluptatum deleniti atque corrupti quos dolores et quas molestias
excepturi sint occaecati cupiditate non provident, similique sunt in culpa
qui officia deserunt mollitia animi, id est laborum et dolorum fuga. Et harum
quidem rerum facilis est et expedita distinctio.
";

#[test]
fn encode_identity() {
    let encoded = encode(TEST_DATA, Codec::Identity, Quality::Default).unwrap();
    assert_eq!(&TEST_DATA, &encoded.as_slice());
}

#[test]
fn encode_base58() {
    encode(TEST_DATA, Codec::Base58, Quality::Default).unwrap();
}

#[test]
fn encode_bincode() {
    encode(TEST_DATA, Codec::BinCode, Quality::Default).unwrap();
}

#[test]
fn encode_brotli() {
    encode(TEST_DATA, Codec::Brotli, Quality::Default).unwrap();
}

#[test]
fn encode_bzip2() {
    encode(TEST_DATA, Codec::Bzip2, Quality::Default).unwrap();
}

#[test]
fn encode_deflate() {
    encode(TEST_DATA, Codec::Deflate, Quality::Default).unwrap();
}

#[test]
fn encode_gzip() {
    encode(TEST_DATA, Codec::Gzip, Quality::Default).unwrap();
}

#[test]
fn encode_lz4() {
    encode(TEST_DATA, Codec::Lz4, Quality::Default).unwrap();
}

#[test]
fn encode_xz() {
    encode(TEST_DATA, Codec::Xz, Quality::Default).unwrap();
}

#[test]
fn encode_zlib() {
    encode(TEST_DATA, Codec::Zlib, Quality::Default).unwrap();
}

#[test]
fn encode_zstd() {
    encode(TEST_DATA, Codec::Zstd, Quality::Default).unwrap();
}

#[test]
fn decode_identity() {
    let encoded = encode(TEST_DATA, Codec::Identity, Quality::Default).unwrap();
    assert_eq!(&encoded, &TEST_DATA);
    let decoded = decode(&encoded, Codec::Identity).unwrap();
    assert_eq!(decoded, TEST_DATA);
}

#[test]
fn decode_base58() {
    let encoded = encode(TEST_DATA, Codec::Base58, Quality::Default).unwrap();
    let decoded = decode(&encoded, Codec::Base58).unwrap();
    assert_eq!(decoded, TEST_DATA);
}

#[test]
fn decode_bincode() {
    let encoded = encode(TEST_DATA, Codec::BinCode, Quality::Default).unwrap();
    let decoded = decode(&encoded, Codec::BinCode).unwrap();
    assert_eq!(decoded, TEST_DATA);
}

#[test]
fn decode_brotli() {
    let encoded = encode(TEST_DATA, Codec::Brotli, Quality::Default).unwrap();
    let decoded = decode(&encoded, Codec::Brotli).unwrap();
    assert_eq!(decoded, TEST_DATA);
}

#[test]
fn decode_bzip2() {
    let encoded = encode(TEST_DATA, Codec::Bzip2, Quality::Default).unwrap();
    let decoded = decode(&encoded, Codec::Bzip2).unwrap();
    assert_eq!(decoded, TEST_DATA);
}

#[test]
fn decode_deflate() {
    let encoded = encode(TEST_DATA, Codec::Deflate, Quality::Default).unwrap();
    let decoded = decode(&encoded, Codec::Deflate).unwrap();
    assert_eq!(decoded, TEST_DATA);
}

#[test]
fn decode_gzip() {
    let encoded = encode(TEST_DATA, Codec::Gzip, Quality::Default).unwrap();
    let decoded = decode(&encoded, Codec::Gzip).unwrap();
    assert_eq!(decoded, TEST_DATA);
}

#[test]
fn decode_lz4() {
    let encoded = encode(TEST_DATA, Codec::Lz4, Quality::Default).unwrap();
    let decoded = decode(&encoded, Codec::Lz4).unwrap();
    assert_eq!(decoded, TEST_DATA);
}

#[test]
fn decode_xz() {
    let encoded = encode(TEST_DATA, Codec::Xz, Quality::Default).unwrap();
    let decoded = decode(&encoded, Codec::Xz).unwrap();
    assert_eq!(decoded, TEST_DATA);
}

#[test]
fn decode_zlib() {
    let encoded = encode(TEST_DATA, Codec::Zlib, Quality::Default).unwrap();
    let decoded = decode(&encoded, Codec::Zlib).unwrap();
    assert_eq!(decoded, TEST_DATA);
}

#[test]
fn decode_zstd() {
    let encoded = encode(TEST_DATA, Codec::Zstd, Quality::Default).unwrap();
    let decoded = decode(&encoded, Codec::Zstd).unwrap();
    assert_eq!(decoded, TEST_DATA);
}
