use oma::checksum::{Checksum, ChecksumError};
use oma::hexcode::{decode_hex, encode_hex};
use sha2::Digest;

const ABC_SHA256: &str = "ba7816bf8f01cfea414140de5dae2223b00361a396177a9cb410ff61f20015ad";
const ABC_SHA512: &str = "ddaf35a193617abacc417349ae20413112e6fa4e89a97ea20a9eeee64b55d39a2192992a274fc1a836ba3c23a3feebbd454d4423643ce80e2a9ac94fa54ca49f";

#[test]
fn hex_encode_known_bytes() {
    assert_eq!(encode_hex(&[0xbe, 0xef]), "beef");
    assert_eq!(encode_hex(&[]), "");
    assert_eq!(encode_hex(&[0x00, 0x0f, 0xa0]), "000fa0");
}

#[test]
fn hex_decode_known_strings() {
    assert_eq!(decode_hex("beef"), Some(vec![0xbe, 0xef]));
    assert_eq!(decode_hex(""), Some(vec![]));
    assert_eq!(decode_hex("BEEF"), Some(vec![0xbe, 0xef]));
}

#[test]
fn hex_decode_rejects_odd_length() {
    assert_eq!(decode_hex("abc"), None);
}

#[test]
fn hex_decode_rejects_non_hex() {
    assert_eq!(decode_hex("zz"), None);
    assert_eq!(decode_hex("0g"), None);
}

#[test]
fn hex_round_trip_against_reference() {
    let data: Vec<u8> = (0u16..=255).map(|b| b as u8).collect();
    let ours = encode_hex(&data);
    assert_eq!(ours, hex::encode(&data));
    assert_eq!(decode_hex(&ours), Some(data));
}

#[test]
fn from_sha256_str_accepts_valid_digest() {
    let c = Checksum::from_sha256_str(ABC_SHA256).unwrap();
    match &c {
        Checksum::Sha256(d) => assert_eq!(d.len(), 32),
        _ => panic!("wrong algorithm"),
    }
    assert!(c.cmp_data(b"abc"));
}

#[test]
fn from_sha256_str_rejects_bad_length() {
    assert_eq!(Checksum::from_sha256_str("abcd"), Err(ChecksumError::BadLength));
    let long = "0".repeat(65);
    assert_eq!(Checksum::from_sha256_str(&long), Err(ChecksumError::BadLength));
}

#[test]
fn from_sha256_str_rejects_non_hex_of_right_length() {
    let bad = "g".repeat(64);
    assert_eq!(Checksum::from_sha256_str(&bad), Err(ChecksumError::HexError));
}

#[test]
fn validator_accepts_true_digest_in_arbitrary_chunks() {
    let content = b"the quick brown fox jumps over the lazy dog, twice at least";
    let c = Checksum::from_sha256_data(content);
    for chunk_size in [1usize, 2, 3, 7, 16, content.len()] {
        let mut v = c.get_validator();
        for chunk in content.chunks(chunk_size) {
            v.update(chunk);
        }
        assert!(v.finish(), "chunk size {chunk_size} failed");
    }
}

#[test]
fn validator_rejects_single_byte_mutation() {
    let content = b"some artifact bytes".to_vec();
    let c = Checksum::from_sha256_data(&content);
    for i in 0..content.len() {
        let mut mutated = content.clone();
        mutated[i] ^= 0x01;
        let mut v = c.get_validator();
        v.update(&mutated);
        assert!(!v.finish(), "mutation at byte {i} was not noticed");
    }
}

#[test]
fn validator_rejects_truncated_and_extended_content() {
    let content = b"payload";
    let c = Checksum::from_sha256_data(content);
    let mut v = c.get_validator();
    v.update(b"payloa");
    assert!(!v.finish());
    let mut v = c.get_validator();
    v.update(b"payload!");
    assert!(!v.finish());
}

#[test]
fn sha512_validator_verifies() {
    let digest = decode_hex(ABC_SHA512).unwrap();
    let c = Checksum::Sha512(digest);
    let mut v = c.get_validator();
    v.update(b"a");
    v.update(b"bc");
    assert!(v.finish());
    assert!(c.cmp_data(b"abc"));
    assert!(!c.cmp_data(b"abd"));
}

#[test]
fn display_string_renders_algorithm_and_lowercase_hex() {
    let c = Checksum::from_sha256_data(b"abc");
    assert_eq!(c.display_string(), format!("sha256::{ABC_SHA256}"));
    let c = Checksum::Sha512(decode_hex(ABC_SHA512).unwrap());
    assert_eq!(c.display_string(), format!("sha512::{ABC_SHA512}"));
}

#[test]
fn cmp_data_matches_parsed_expectation() {
    let c = Checksum::from_sha256_str(ABC_SHA256).unwrap();
    assert!(c.cmp_data(b"abc"));
    assert!(!c.cmp_data(b"abx"));
    assert!(!c.cmp_data(b""));
}

#[test]
fn from_sha256_data_agrees_with_reference_sha2() {
    let data = b"cross-check me";
    let c = Checksum::from_sha256_data(data);
    match c {
        Checksum::Sha256(d) => {
            assert_eq!(d, sha2::Sha256::digest(data).to_vec());
        },
        _ => panic!("wrong algorithm"),
    }
}
