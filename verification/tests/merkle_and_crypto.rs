//! The canonical encodings, the Merkle-root reconstruction and the operator
//! signature check, exercised on concrete values with real hashing and real
//! secp256k1 keys.

use bridge_core::crypto::compress_public_key;
use bridge_core::crypto::keccak256;
use bridge_core::crypto::verify_ecdsa_signature;
use bridge_core::error::BridgeError;
use bridge_core::merkle::ContentNode;
use bridge_core::merkle::Data;
use bridge_core::merkle::TransferData;
use bridge_core::merkle::amount_bytes;
use bridge_core::merkle::get_merkle_root;
use bridge_core::merkle::hash_lt;
use bridge_core::processor::nul_trim;

fn secret() -> libsecp256k1::SecretKey {
    libsecp256k1::SecretKey::parse(&[
        11, 22, 33, 44, 55, 66, 77, 88, 99, 11, 22, 33, 44, 55, 66, 77, 88, 99, 11, 22, 33, 44,
        55, 66, 77, 88, 99, 11, 22, 33, 44, 55,
    ])
    .expect("a fixed valid secret key")
}

fn operator_key() -> [u8; 33] {
    libsecp256k1::PublicKey::from_secret_key(&secret()).serialize_compressed()
}

fn sign(message32: &[u8; 32]) -> ([u8; 64], u8) {
    let msg = libsecp256k1::Message::parse(message32);
    let (sig, rid) = libsecp256k1::sign(&msg, &secret());
    (sig.serialize(), rid.serialize())
}

#[test]
fn amount_bytes_pads_big_endian() {
    let bytes = amount_bytes(1_000_000);
    assert_eq!(bytes.len(), 32);
    for i in 0..24 {
        assert_eq!(bytes[i], 0);
    }
    // 1_000_000 = 0x0f4240, big-endian in the low eight bytes.
    assert_eq!(&bytes[24..32], &[0, 0, 0, 0, 0, 0x0f, 0x42, 0x40]);
}

#[test]
fn amount_bytes_distinguishes_values() {
    assert_ne!(amount_bytes(1), amount_bytes(256));
    assert_ne!(amount_bytes(0), amount_bytes(u64::MAX));
}

#[test]
fn empty_path_returns_the_leaf() {
    let leaf = [42u8; 32];
    let root = get_merkle_root(&leaf, &Vec::new());
    assert_eq!(root, leaf);
}

#[test]
fn sibling_position_does_not_matter() {
    // Combining a leaf with one sibling must equal the keccak of the sorted
    // pair, whichever argument order is used.
    let a = [1u8; 32];
    let b = [2u8; 32];
    let root_from_a = get_merkle_root(&a, &vec![b]);
    let root_from_b = get_merkle_root(&b, &vec![a]);
    assert_eq!(root_from_a, root_from_b);
    let mut sorted = Vec::new();
    sorted.extend_from_slice(&a);
    sorted.extend_from_slice(&b);
    assert_eq!(root_from_a, keccak256(&sorted));
}

#[test]
fn hash_order_is_big_endian() {
    let mut low = [0u8; 32];
    let mut high = [0u8; 32];
    low[31] = 1;
    high[0] = 1;
    assert!(hash_lt(&low, &high));
    assert!(!hash_lt(&high, &low));
    assert!(!hash_lt(&low, &low));
}

#[test]
fn native_leaf_matches_manual_hash() {
    let origin = [9u8; 32];
    let receiver = [8u8; 32];
    let program = [7u8; 32];
    let op = Data::get_operation(&TransferData::new_native_transfer(5));
    let node = ContentNode::new(origin, receiver, program, op);
    let leaf = node.hash();
    let mut manual = amount_bytes(5);
    manual.extend_from_slice(&origin);
    manual.extend_from_slice(b"Solana");
    manual.extend_from_slice(&receiver);
    manual.extend_from_slice(&program);
    // Cross-check against the host SDK directly: the wrapper must really hash.
    let expected = solana_program::keccak::hash(&manual).to_bytes();
    assert_eq!(leaf, expected);
    assert_ne!(&leaf[..], &manual[..32]);
}

#[test]
fn ft_operation_interleaves_fields() {
    let op = Data::get_operation(&TransferData::new_ft_transfer(
        [3u8; 32],
        7,
        b"Name".to_vec(),
        b"SYM".to_vec(),
        b"uri".to_vec(),
        9,
    ));
    let mut manual: Vec<u8> = Vec::new();
    manual.extend_from_slice(&[3u8; 32]);
    manual.extend_from_slice(b"Name");
    manual.extend_from_slice(b"uri");
    manual.extend_from_slice(&amount_bytes(7));
    manual.extend_from_slice(b"SYM");
    manual.push(9);
    assert_eq!(op, manual);
}

#[test]
fn nul_trim_strips_padding() {
    let padded = b"\0\0Token\0\0\0".to_vec();
    assert_eq!(nul_trim(&padded), b"Token".to_vec());
    assert_eq!(nul_trim(&b"\0\0\0".to_vec()), Vec::<u8>::new());
    assert_eq!(nul_trim(&b"plain".to_vec()), b"plain".to_vec());
}

#[test]
fn signature_of_the_operator_verifies() {
    let message32 = keccak256(&b"an authorized operation".to_vec());
    let (sig, rid) = sign(&message32);
    let mut message = Vec::new();
    message.extend_from_slice(&message32);
    assert_eq!(verify_ecdsa_signature(&message, &sig, rid, &operator_key()), Ok(()));
}

#[test]
fn signature_of_another_key_is_wrong() {
    let message32 = keccak256(&b"an authorized operation".to_vec());
    let (sig, rid) = sign(&message32);
    let other = libsecp256k1::PublicKey::from_secret_key(
        &libsecp256k1::SecretKey::parse(&[42u8; 32]).expect("a valid key"),
    )
    .serialize_compressed();
    let mut message = Vec::new();
    message.extend_from_slice(&message32);
    assert_eq!(
        verify_ecdsa_signature(&message, &sig, rid, &other),
        Err(BridgeError::WrongSignature)
    );
}

#[test]
fn unrecoverable_signature_is_invalid() {
    let message32 = keccak256(&b"an authorized operation".to_vec());
    let (sig, _) = sign(&message32);
    let mut message = Vec::new();
    message.extend_from_slice(&message32);
    // A recovery id outside the accepted range makes recovery fail.
    assert_eq!(
        verify_ecdsa_signature(&message, &sig, 7, &operator_key()),
        Err(BridgeError::InvalidSignature)
    );
}

#[test]
fn compression_matches_the_reference_form() {
    let pk = libsecp256k1::PublicKey::from_secret_key(&secret());
    let uncompressed: [u8; 65] = pk.serialize();
    let mut coords = [0u8; 64];
    coords.copy_from_slice(&uncompressed[1..65]);
    assert_eq!(compress_public_key(&coords), pk.serialize_compressed());
}

#[test]
fn error_codes_follow_the_declaration_order() {
    assert_eq!(BridgeError::AlreadyInUse.code(), 0);
    assert_eq!(BridgeError::WrongSeeds.code(), 6);
    assert_eq!(BridgeError::WrongSignature.code(), 15);
    assert_eq!(BridgeError::InvalidSignature.code(), 16);
    assert_eq!(BridgeError::NotSupported.code(), 30);
}
