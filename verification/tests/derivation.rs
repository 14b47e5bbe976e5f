use node_id::key::EncodedKey;
use node_id::key::EnrPublicKey;
use node_id::record::Enr;
use node_id::NodeId;

const DIGEST_OF_NOTHING: [u8; 32] = [
    0xc5, 0xd2, 0x46, 0x01, 0x86, 0xf7, 0x23, 0x3c, 0x92, 0x7e, 0x7d, 0xb2, 0xdc, 0xc7, 0x03, 0xc0,
    0xe5, 0x00, 0xb6, 0x53, 0xca, 0x82, 0x27, 0x3b, 0x7b, 0xfa, 0xd8, 0x04, 0x5d, 0x85, 0xa4, 0x70,
];

const DIGEST_OF_ABC: [u8; 32] = [
    0x4e, 0x03, 0x65, 0x7a, 0xea, 0x45, 0xa9, 0x4f, 0xc7, 0xd4, 0x7b, 0xa8, 0x26, 0xc8, 0xd6, 0x67,
    0xc0, 0xd1, 0xe6, 0xe3, 0x3a, 0x64, 0xa0, 0x36, 0xec, 0x44, 0xf5, 0x8f, 0xa1, 0x2d, 0x6c, 0x45,
];

fn sample_encoding() -> Vec<u8> {
    let mut bytes = vec![0x04u8];
    for i in 0..64u8 {
        bytes.push(i.wrapping_mul(3).wrapping_add(5));
    }
    bytes
}

#[test]
fn derivation_of_the_empty_encoding() {
    assert_eq!(NodeId::from_encoded_key(&[]).raw(), DIGEST_OF_NOTHING);
}

#[test]
fn derivation_of_a_known_input() {
    assert_eq!(NodeId::from_encoded_key(b"abc").raw(), DIGEST_OF_ABC);
}

#[test]
fn derivation_does_not_hand_the_input_back() {
    let input = [0x11u8; 32];
    assert_ne!(NodeId::from_encoded_key(&input).raw(), input);
}

#[test]
fn derivation_is_repeatable() {
    let encoding = sample_encoding();
    let first = NodeId::from_encoded_key(&encoding);
    let second = NodeId::from_encoded_key(&encoding);
    assert_eq!(first, second);
    let key = EncodedKey::new(encoding.clone());
    assert_eq!(NodeId::from_public_key(&key), first);
    assert_eq!(NodeId::from_public_key(&key), first);
}

#[test]
fn other_keys_give_other_identifiers() {
    let encoding = sample_encoding();
    let mut changed = encoding.clone();
    changed[64] ^= 1;
    assert_ne!(NodeId::from_encoded_key(&encoding), NodeId::from_encoded_key(&changed));
    let mut longer = encoding.clone();
    longer.push(0);
    assert_ne!(NodeId::from_encoded_key(&encoding), NodeId::from_encoded_key(&longer));
}

#[test]
fn encoded_key_gives_its_bytes() {
    let encoding = sample_encoding();
    let key = EncodedKey::new(encoding.clone());
    assert_eq!(key.encode_uncompressed(), encoding);
    assert_eq!(EncodedKey::new(Vec::new()).encode_uncompressed(), Vec::<u8>::new());
}

#[test]
fn public_key_derivation_hashes_the_encoding() {
    let key = EncodedKey::new(b"abc".to_vec());
    assert_eq!(NodeId::from_public_key(&key).raw(), DIGEST_OF_ABC);
    let empty = EncodedKey::new(Vec::new());
    assert_eq!(NodeId::from_public_key(&empty).raw(), DIGEST_OF_NOTHING);
}

#[test]
fn record_reports_the_identifier_of_its_key() {
    let encoding = sample_encoding();
    let expected = NodeId::from_public_key(&EncodedKey::new(encoding.clone()));
    let enr = Enr::new(EncodedKey::new(encoding.clone()));
    assert_eq!(enr.node_id(), expected);
    assert_eq!(enr.public_key().encode_uncompressed(), encoding);
}

#[test]
fn record_converts_owned_and_borrowed_alike() {
    let enr = Enr::new(EncodedKey::new(b"abc".to_vec()));
    let borrowed = NodeId::from(&enr);
    let again = NodeId::from(&enr);
    let owned = NodeId::from(enr);
    assert_eq!(borrowed, owned);
    assert_eq!(borrowed, again);
    assert_eq!(owned.raw(), DIGEST_OF_ABC);
}

#[test]
fn derived_identifier_in_short_form() {
    assert_eq!(NodeId::from_encoded_key(&[]).to_string(), "0xc5d2..a470");
}
