//! The upgrade admin's stored record.

use vstd::prelude::*;
use crate::codec::dec_bool;
use crate::codec::dec_raw;
use crate::codec::dec_u64;
use crate::codec::enc_bool;
use crate::codec::enc_u64;
use crate::codec::lemma_dec_u64;
use crate::codec::lemma_subrange_chunk;

verus! {

/// Allocated size of the upgrade admin account: the 33-byte operator key,
/// the governed program's identity, the nonce, and the initialization flag.
pub const MAX_ADMIN_SIZE: usize = 33 + 32 + 8 + 1;

/// The upgrade admin singleton: the operator's key, the program it governs,
/// a nonce advanced by every upgrade, and the initialization flag.
pub struct UpgradeAdmin {
    pub public_key: [u8; 33],
    pub contract: [u8; 32],
    pub nonce: u64,
    pub is_initialized: bool,
}

/// The mathematical value of an upgrade admin record.
pub struct UpgradeAdminView {
    pub public_key: Seq<u8>,
    pub contract: Seq<u8>,
    pub nonce: u64,
    pub is_initialized: bool,
}

impl View for UpgradeAdmin {
    type V = UpgradeAdminView;

    open spec fn view(&self) -> UpgradeAdminView {
        UpgradeAdminView {
            public_key: self.public_key@,
            contract: self.contract@,
            nonce: self.nonce,
            is_initialized: self.is_initialized,
        }
    }
}

impl UpgradeAdminView {
    /// Field sizes of a well-formed record.
    pub open spec fn wf(self) -> bool {
        self.public_key.len() == 33 && self.contract.len() == 32
    }
}

/// The stored layout: the key, the contract, the nonce, the flag, 74 bytes.
pub open spec fn enc_upgrade_admin(a: UpgradeAdminView) -> Seq<u8>
    recommends
        a.wf(),
{
    a.public_key + a.contract + enc_u64(a.nonce) + enc_bool(a.is_initialized)
}

pub open spec fn dec_upgrade_admin(s: Seq<u8>, i: int) -> Option<(UpgradeAdminView, int)> {
    match dec_raw(s, i, 33) {
        Some((pk, j)) => match dec_raw(s, j, 32) {
            Some((contract, k)) => match dec_u64(s, k) {
                Some((nonce, l)) => match dec_bool(s, l) {
                    Some((b, m)) => Some(
                        (
                            UpgradeAdminView {
                                public_key: pk,
                                contract,
                                nonce,
                                is_initialized: b,
                            },
                            m,
                        ),
                    ),
                    None => None,
                },
                None => None,
            },
            None => None,
        },
        None => None,
    }
}

/// Serializes an upgrade admin record into its stored 74-byte layout.
pub fn pack_upgrade_admin(a: &UpgradeAdmin) -> (r: Vec<u8>)
    ensures
        r@ == enc_upgrade_admin(a@),
        r@.len() == MAX_ADMIN_SIZE,
{
    let mut out: Vec<u8> = Vec::new();
    crate::codec::write_arr(&mut out, a.public_key.as_slice());
    crate::codec::write_arr(&mut out, a.contract.as_slice());
    crate::codec::write_u64(&mut out, a.nonce);
    crate::codec::write_bool(&mut out, a.is_initialized);
    proof {
        vstd::bytes::lemma_auto_spec_u64_to_from_le_bytes();
        assert(out@ =~= enc_upgrade_admin(a@));
    }
    out
}

/// Reads an upgrade admin record from the head of account data; trailing
/// bytes are ignored.
pub fn unpack_upgrade_admin(data: &Vec<u8>) -> (r: Option<UpgradeAdmin>)
    ensures
        match r {
            Some(a) => dec_upgrade_admin(data@, 0) matches Some((v, _)) && a@ == v,
            None => dec_upgrade_admin(data@, 0) is None,
        },
{
    match crate::codec::read_bytes33(data, 0) {
        Some((pk, j)) => match crate::codec::read_bytes32(data, j) {
            Some((contract, k)) => match crate::codec::read_u64(data, k) {
                Some((nonce, l)) => match crate::codec::read_bool(data, l) {
                    Some((b, _)) => Some(
                        UpgradeAdmin { public_key: pk, contract, nonce, is_initialized: b },
                    ),
                    None => None,
                },
                None => None,
            },
            None => None,
        },
        None => None,
    }
}

/// Decoding an encoded upgrade admin record embedded in a buffer yields the
/// record back.
pub proof fn lemma_dec_upgrade_admin(s: Seq<u8>, i: int, a: UpgradeAdminView)
    requires
        0 <= i,
        a.wf(),
        i + 74 <= s.len(),
        s.subrange(i, i + 74) == enc_upgrade_admin(a),
    ensures
        dec_upgrade_admin(s, i) == Some((a, i + 74)),
{
    vstd::bytes::lemma_auto_spec_u64_to_from_le_bytes();
    let e = enc_upgrade_admin(a);
    lemma_subrange_chunk(s, i, e, 0, 33);
    assert(e.subrange(0, 33) =~= a.public_key);
    lemma_subrange_chunk(s, i, e, 33, 32);
    assert(e.subrange(33, 65) =~= a.contract);
    lemma_subrange_chunk(s, i, e, 65, 8);
    assert(e.subrange(65, 73) =~= enc_u64(a.nonce));
    lemma_dec_u64(s, i + 65, a.nonce);
    lemma_subrange_chunk(s, i, e, 73, 1);
    assert(e.subrange(73, 74) =~= enc_bool(a.is_initialized));
    crate::codec::lemma_dec_bool(s, i + 73, a.is_initialized);
}

} // verus!
