//! Hashing and operator-signature verification.
//!
//! Keccak-256 and secp256k1 public-key recovery are done by the host chain's
//! SDK; each call stands behind a trusted wrapper whose result is named by an
//! uninterpreted spec function of the arguments alone. Everything downstream
//! of the two calls — compressing the recovered key and comparing it with the
//! stored operator key — is verified.

use vstd::prelude::*;
use crate::error::BridgeError;

verus! {

/// What keccak-256 returns on the given bytes. Stated only by name: the
/// digest is a pure function of the input, computed by the outside crate.
pub uninterp spec fn keccak256_spec(data: Seq<u8>) -> Seq<u8>;

/// Relies on `solana_program::keccak::hash`: the keccak-256 digest of the
/// input bytes, a 32-byte value depending on the input alone.
#[verifier::external_body]
pub fn keccak256(data: &Vec<u8>) -> (r: [u8; 32])
    ensures
        r@ == keccak256_spec(data@),
{
    solana_program::keccak::hash(data.as_slice()).to_bytes()
}

/// What secp256k1 public-key recovery returns for the given message bytes,
/// recovery id and 64-byte signature: `None` where the inputs are rejected,
/// else the recovered key's 64 coordinate bytes (x, then y). A pure function
/// of its arguments.
pub uninterp spec fn secp256k1_recover_spec(
    message: Seq<u8>,
    recovery_id: u8,
    signature: Seq<u8>,
) -> Option<Seq<u8>>;

/// Relies on `solana_program::secp256k1_recover::secp256k1_recover`: recovers
/// the public key that signed `message`, returning its 64 coordinate bytes,
/// or nothing where the message, recovery id or signature is rejected.
#[verifier::external_body]
pub fn recover_uncompressed_key(message: &Vec<u8>, recovery_id: u8, signature: &[u8; 64]) -> (r:
    Option<[u8; 64]>)
    ensures
        match r {
            Some(k) => secp256k1_recover_spec(message@, recovery_id, signature@) == Some(k@),
            None => secp256k1_recover_spec(message@, recovery_id, signature@) is None,
        },
{
    match solana_program::secp256k1_recover::secp256k1_recover(
        message.as_slice(),
        recovery_id,
        signature.as_slice(),
    ) {
        Ok(key) => Some(key.to_bytes()),
        Err(_) => None,
    }
}

/// The 33-byte compressed form of a 64-byte uncompressed secp256k1 key: one
/// parity prefix byte (2 for an even y coordinate, 3 for an odd one) followed
/// by the 32 x-coordinate bytes.
pub open spec fn compressed_key_spec(k: Seq<u8>) -> Seq<u8>
    recommends
        k.len() == 64,
{
    seq![if k[63] % 2 == 1 { 3u8 } else { 2u8 }] + k.subrange(0, 32)
}

/// Compresses a recovered 64-byte public key to the stored 33-byte form.
pub fn compress_public_key(k: &[u8; 64]) -> (r: [u8; 33])
    ensures
        r@ == compressed_key_spec(k@),
{
    let mut out: [u8; 33] = [0u8; 33];
    out[0] = if k[63] % 2 == 1 {
        3u8
    } else {
        2u8
    };
    let mut i: usize = 0;
    while i < 32
        invariant
            i <= 32,
            out@[0] == (if k@[63] % 2 == 1 {
                3u8
            } else {
                2u8
            }),
            forall|j: int| 0 <= j < i ==> out@[j + 1] == k@[j],
        decreases 32 - i,
    {
        out[i + 1] = k[i];
        i = i + 1;
    }
    proof {
        assert(out@ =~= compressed_key_spec(k@));
    }
    out
}

/// Whether the stored operator key authorized the message: recovery succeeds
/// and the recovered key, compressed, equals the stored key byte for byte.
pub open spec fn signature_valid(
    message: Seq<u8>,
    signature: Seq<u8>,
    recovery_id: u8,
    target_key: Seq<u8>,
) -> bool {
    match secp256k1_recover_spec(message, recovery_id, signature) {
        Some(k) => compressed_key_spec(k) == target_key,
        None => false,
    }
}

/// The exact outcome of checking a signature against a stored key: nothing
/// where the stored key signed the message; `InvalidSignature` where recovery
/// fails; `WrongSignature` where another key signed.
pub open spec fn signature_error_of(
    message: Seq<u8>,
    signature: Seq<u8>,
    recovery_id: u8,
    target_key: Seq<u8>,
) -> Option<BridgeError> {
    match secp256k1_recover_spec(message, recovery_id, signature) {
        None => Some(BridgeError::InvalidSignature),
        Some(k) => {
            if compressed_key_spec(k) == target_key {
                None
            } else {
                Some(BridgeError::WrongSignature)
            }
        },
    }
}

/// Recovers the signer of `message` and requires it to be `target_key`.
/// Recovery failure is `InvalidSignature`; a recovered key that differs from
/// the stored one is `WrongSignature`.
pub fn verify_ecdsa_signature(message: &Vec<u8>, sig: &[u8; 64], reid: u8, target_key: &[u8; 33])
    -> (r: Result<(), BridgeError>)
    ensures
        r is Ok <==> signature_valid(message@, sig@, reid, target_key@),
        r == (match signature_error_of(message@, sig@, reid, target_key@) {
            None => Ok::<(), BridgeError>(()),
            Some(e) => Err(e),
        }),
        r == Err::<(), BridgeError>(BridgeError::InvalidSignature) <==> secp256k1_recover_spec(
            message@,
            reid,
            sig@,
        ) is None,
        r == Err::<(), BridgeError>(BridgeError::WrongSignature) <==> (secp256k1_recover_spec(
            message@,
            reid,
            sig@,
        ) matches Some(k) && compressed_key_spec(k) != target_key@),
{
    match recover_uncompressed_key(message, reid, sig) {
        None => Err(BridgeError::InvalidSignature),
        Some(recovered) => {
            let compressed = compress_public_key(&recovered);
            if crate::codec::bytes_equal(compressed.as_slice(), target_key.as_slice()) {
                Ok(())
            } else {
                Err(BridgeError::WrongSignature)
            }
        },
    }
}

} // verus!
