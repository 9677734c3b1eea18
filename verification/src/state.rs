//! The bridge's stored account records: the admin singleton and the
//! withdrawal receipts, with their exact byte layout.

use vstd::prelude::*;
use crate::codec::dec_bool;
use crate::codec::dec_opt_key;
use crate::codec::dec_raw;
use crate::codec::dec_u64;
use crate::codec::dec_u8;
use crate::codec::enc_bool;
use crate::codec::enc_opt_key;
use crate::codec::enc_u64;
use crate::codec::enc_u8;
use crate::codec::view_opt_key;

verus! {

/// Longest accepted destination-network name, in bytes.
pub const MAX_NETWORKS_SIZE: usize = 20;

/// Longest accepted external receiver address, in bytes.
pub const MAX_ADDRESS_SIZE: usize = 100;

/// Stored size of the bridge admin record: a 33-byte compressed operator key,
/// the 32-byte commission program identity, and the initialization flag.
pub const BRIDGE_ADMIN_SIZE: usize = 33 + 32 + 1;

/// Allocated size of a withdrawal receipt account: the token-type tag, the
/// optional mint, the amount, the origin, the receiver, the initialization
/// flag, and slack for the bounded network and address strings.
pub const WITHDRAW_SIZE: usize = 1 + 1 + 32 + 8 + 32 + 32 + 1 + 20 + 100;

/// The kind of asset an operation moves.
#[derive(Clone, Copy, Debug, PartialEq, Eq, Structural)]
pub enum TokenType {
    Native,
    NFT,
    FT,
}

/// The tag byte of a token type: its position in the declaration.
pub open spec fn token_type_tag(t: TokenType) -> u8 {
    match t {
        TokenType::Native => 0,
        TokenType::NFT => 1,
        TokenType::FT => 2,
    }
}

pub open spec fn enc_token_type(t: TokenType) -> Seq<u8> {
    enc_u8(token_type_tag(t))
}

pub open spec fn dec_token_type(s: Seq<u8>, i: int) -> Option<(TokenType, int)> {
    match dec_u8(s, i) {
        Some((tag, j)) => {
            if tag == 0 {
                Some((TokenType::Native, j))
            } else if tag == 1 {
                Some((TokenType::NFT, j))
            } else if tag == 2 {
                Some((TokenType::FT, j))
            } else {
                None
            }
        },
        None => None,
    }
}

pub fn write_token_type(out: &mut Vec<u8>, t: TokenType)
    ensures
        final(out)@ == old(out)@ + enc_token_type(t),
{
    match t {
        TokenType::Native => crate::codec::write_u8(out, 0),
        TokenType::NFT => crate::codec::write_u8(out, 1),
        TokenType::FT => crate::codec::write_u8(out, 2),
    }
}

pub fn read_token_type(data: &Vec<u8>, pos: usize) -> (r: Option<(TokenType, usize)>)
    ensures
        match r {
            Some((v, end)) => dec_token_type(data@, pos as int) == Some((v, end as int)),
            None => dec_token_type(data@, pos as int) is None,
        },
{
    match crate::codec::read_u8(data, pos) {
        Some((tag, j)) => {
            if tag == 0 {
                Some((TokenType::Native, j))
            } else if tag == 1 {
                Some((TokenType::NFT, j))
            } else if tag == 2 {
                Some((TokenType::FT, j))
            } else {
                None
            }
        },
        None => None,
    }
}

pub proof fn lemma_dec_token_type(s: Seq<u8>, i: int, t: TokenType)
    requires
        0 <= i,
        i + 1 <= s.len(),
        s.subrange(i, i + 1) == enc_token_type(t),
    ensures
        dec_token_type(s, i) == Some((t, i + 1)),
{
    assert(s[i] == enc_token_type(t)[0]);
}

// ===== the bridge admin record =====

/// The bridge admin singleton: the operator's compressed secp256k1 public
/// key, the identity of the partner commission program, and whether the
/// record has been initialized.
pub struct BridgeAdmin {
    pub public_key: [u8; 33],
    pub commission_program: [u8; 32],
    pub is_initialized: bool,
}

/// The mathematical value of a bridge admin record.
pub struct BridgeAdminView {
    pub public_key: Seq<u8>,
    pub commission_program: Seq<u8>,
    pub is_initialized: bool,
}

impl View for BridgeAdmin {
    type V = BridgeAdminView;

    open spec fn view(&self) -> BridgeAdminView {
        BridgeAdminView {
            public_key: self.public_key@,
            commission_program: self.commission_program@,
            is_initialized: self.is_initialized,
        }
    }
}

impl BridgeAdminView {
    /// Field sizes of a well-formed record.
    pub open spec fn wf(self) -> bool {
        self.public_key.len() == 33 && self.commission_program.len() == 32
    }
}

/// The stored layout: the key, the commission program, the flag, 66 bytes.
pub open spec fn enc_bridge_admin(a: BridgeAdminView) -> Seq<u8>
    recommends
        a.wf(),
{
    a.public_key + a.commission_program + enc_bool(a.is_initialized)
}

pub open spec fn dec_bridge_admin(s: Seq<u8>, i: int) -> Option<(BridgeAdminView, int)> {
    match dec_raw(s, i, 33) {
        Some((pk, j)) => match dec_raw(s, j, 32) {
            Some((cp, k)) => match dec_bool(s, k) {
                Some((b, l)) => Some(
                    (
                        BridgeAdminView {
                            public_key: pk,
                            commission_program: cp,
                            is_initialized: b,
                        },
                        l,
                    ),
                ),
                None => None,
            },
            None => None,
        },
        None => None,
    }
}

/// Serializes a bridge admin record into its stored 66-byte layout.
pub fn pack_bridge_admin(a: &BridgeAdmin) -> (r: Vec<u8>)
    ensures
        r@ == enc_bridge_admin(a@),
        r@.len() == BRIDGE_ADMIN_SIZE,
{
    let mut out: Vec<u8> = Vec::new();
    crate::codec::write_arr(&mut out, a.public_key.as_slice());
    crate::codec::write_arr(&mut out, a.commission_program.as_slice());
    crate::codec::write_bool(&mut out, a.is_initialized);
    proof {
        assert(out@ =~= enc_bridge_admin(a@));
    }
    out
}

/// Reads a bridge admin record from the head of account data; trailing bytes
/// are ignored.
pub fn unpack_bridge_admin(data: &Vec<u8>) -> (r: Option<BridgeAdmin>)
    ensures
        match r {
            Some(a) => dec_bridge_admin(data@, 0) matches Some((v, _)) && a@ == v,
            None => dec_bridge_admin(data@, 0) is None,
        },
{
    match crate::codec::read_bytes33(data, 0) {
        Some((pk, j)) => match crate::codec::read_bytes32(data, j) {
            Some((cp, k)) => match crate::codec::read_bool(data, k) {
                Some((b, _)) => Some(
                    BridgeAdmin { public_key: pk, commission_program: cp, is_initialized: b },
                ),
                None => None,
            },
            None => None,
        },
        None => None,
    }
}

/// Decoding an encoded bridge admin record embedded in a buffer yields the
/// record back.
pub proof fn lemma_dec_bridge_admin(s: Seq<u8>, i: int, a: BridgeAdminView)
    requires
        0 <= i,
        a.wf(),
        i + 66 <= s.len(),
        s.subrange(i, i + 66) == enc_bridge_admin(a),
    ensures
        dec_bridge_admin(s, i) == Some((a, i + 66)),
{
    let e = enc_bridge_admin(a);
    assert(s.subrange(i, i + 33) =~= a.public_key) by {
        assert(forall|j: int|
            0 <= j < 33 ==> s.subrange(i, i + 33)[j] == s[i + j] && s[i + j] == e[j]);
    }
    assert(s.subrange(i + 33, i + 65) =~= a.commission_program) by {
        assert(forall|j: int|
            #![trigger s.subrange(i + 33, i + 65)[j]]
            0 <= j < 32 ==> s.subrange(i + 33, i + 65)[j] == s[i + 33 + j] && s[i + 33 + j] == e[33
                + j]);
    }
    assert(s.subrange(i + 65, i + 66) =~= enc_bool(a.is_initialized)) by {
        assert(s[i + 65] == e[65]);
    }
    crate::codec::lemma_dec_bool(s, i + 65, a.is_initialized);
}

// ===== the withdrawal receipt =====

/// A withdrawal receipt: written once at the address derived from the
/// external event's origin fingerprint; its existence is the replay guard.
pub struct Withdraw {
    pub token_type: TokenType,
    pub mint: Option<[u8; 32]>,
    pub amount: u64,
    /// Fingerprint of the external deposit event.
    pub origin: [u8; 32],
    pub receiver_address: [u8; 32],
    pub is_initialized: bool,
}

/// The mathematical value of a withdrawal receipt.
pub struct WithdrawView {
    pub token_type: TokenType,
    pub mint: Option<Seq<u8>>,
    pub amount: u64,
    pub origin: Seq<u8>,
    pub receiver_address: Seq<u8>,
    pub is_initialized: bool,
}

impl View for Withdraw {
    type V = WithdrawView;

    open spec fn view(&self) -> WithdrawView {
        WithdrawView {
            token_type: self.token_type,
            mint: view_opt_key(self.mint),
            amount: self.amount,
            origin: self.origin@,
            receiver_address: self.receiver_address@,
            is_initialized: self.is_initialized,
        }
    }
}

impl WithdrawView {
    /// Field sizes of a well-formed record.
    pub open spec fn wf(self) -> bool {
        &&& (self.mint matches Some(m) ==> m.len() == 32)
        &&& self.origin.len() == 32
        &&& self.receiver_address.len() == 32
    }
}

/// The stored layout: the token-type tag, the optional mint, the amount, the
/// origin, the receiver, the flag.
pub open spec fn enc_withdraw(w: WithdrawView) -> Seq<u8>
    recommends
        w.wf(),
{
    enc_token_type(w.token_type) + enc_opt_key(w.mint) + enc_u64(w.amount) + w.origin
        + w.receiver_address + enc_bool(w.is_initialized)
}

pub open spec fn dec_withdraw(s: Seq<u8>, i: int) -> Option<(WithdrawView, int)> {
    match dec_token_type(s, i) {
        Some((tt, j)) => match dec_opt_key(s, j) {
            Some((mint, k)) => match dec_u64(s, k) {
                Some((amount, l)) => match dec_raw(s, l, 32) {
                    Some((origin, m)) => match dec_raw(s, m, 32) {
                        Some((receiver, n)) => match dec_bool(s, n) {
                            Some((b, o)) => Some(
                                (
                                    WithdrawView {
                                        token_type: tt,
                                        mint: mint,
                                        amount: amount,
                                        origin: origin,
                                        receiver_address: receiver,
                                        is_initialized: b,
                                    },
                                    o,
                                ),
                            ),
                            None => None,
                        },
                        None => None,
                    },
                    None => None,
                },
                None => None,
            },
            None => None,
        },
        None => None,
    }
}

/// Serializes a withdrawal receipt into its stored layout.
pub fn pack_withdraw(w: &Withdraw) -> (r: Vec<u8>)
    ensures
        r@ == enc_withdraw(w@),
{
    let mut out: Vec<u8> = Vec::new();
    write_token_type(&mut out, w.token_type);
    crate::codec::write_opt_key(&mut out, &w.mint);
    crate::codec::write_u64(&mut out, w.amount);
    crate::codec::write_arr(&mut out, w.origin.as_slice());
    crate::codec::write_arr(&mut out, w.receiver_address.as_slice());
    crate::codec::write_bool(&mut out, w.is_initialized);
    proof {
        assert(out@ =~= enc_withdraw(w@));
    }
    out
}

/// Reads a withdrawal receipt from the head of account data; trailing bytes
/// are ignored.
pub fn unpack_withdraw(data: &Vec<u8>) -> (r: Option<Withdraw>)
    ensures
        match r {
            Some(w) => dec_withdraw(data@, 0) matches Some((v, _)) && w@ == v,
            None => dec_withdraw(data@, 0) is None,
        },
{
    match read_token_type(data, 0) {
        Some((tt, j)) => match crate::codec::read_opt_key(data, j) {
            Some((mint, k)) => match crate::codec::read_u64(data, k) {
                Some((amount, l)) => match crate::codec::read_bytes32(data, l) {
                    Some((origin, m)) => match crate::codec::read_bytes32(data, m) {
                        Some((receiver, n)) => match crate::codec::read_bool(data, n) {
                            Some((b, _)) => Some(
                                Withdraw {
                                    token_type: tt,
                                    mint: mint,
                                    amount: amount,
                                    origin: origin,
                                    receiver_address: receiver,
                                    is_initialized: b,
                                },
                            ),
                            None => None,
                        },
                        None => None,
                    },
                    None => None,
                },
                None => None,
            },
            None => None,
        },
        None => None,
    }
}

/// Decoding an encoded withdrawal receipt embedded in a buffer yields the
/// record back.
pub proof fn lemma_dec_withdraw(s: Seq<u8>, i: int, w: WithdrawView)
    requires
        0 <= i,
        w.wf(),
        i + enc_withdraw(w).len() <= s.len(),
        s.subrange(i, i + enc_withdraw(w).len()) == enc_withdraw(w),
    ensures
        dec_withdraw(s, i) == Some((w, i + enc_withdraw(w).len())),
{
    vstd::bytes::lemma_auto_spec_u64_to_from_le_bytes();
    let e = enc_withdraw(w);
    let mlen = enc_opt_key(w.mint).len() as int;
    assert(s.subrange(i, i + 1) =~= enc_token_type(w.token_type)) by {
        assert(s[i] == e[0]);
    }
    lemma_dec_token_type(s, i, w.token_type);
    assert(s.subrange(i + 1, i + 1 + mlen) =~= enc_opt_key(w.mint)) by {
        assert(forall|j: int|
            #![trigger s.subrange(i + 1, i + 1 + mlen)[j]]
            0 <= j < mlen ==> s.subrange(i + 1, i + 1 + mlen)[j] == s[i + 1 + j] && s[i + 1 + j]
                == e[1 + j]);
    }
    crate::codec::lemma_dec_opt_key(s, i + 1, w.mint);
    let p = i + 1 + mlen;
    assert(s.subrange(p, p + 8) =~= enc_u64(w.amount)) by {
        assert(forall|j: int|
            #![trigger s.subrange(p, p + 8)[j]]
            0 <= j < 8 ==> s.subrange(p, p + 8)[j] == s[p + j] && s[p + j] == e[1 + mlen + j]);
    }
    crate::codec::lemma_dec_u64(s, p, w.amount);
    assert(s.subrange(p + 8, p + 40) =~= w.origin) by {
        assert(forall|j: int|
            #![trigger s.subrange(p + 8, p + 40)[j]]
            0 <= j < 32 ==> s.subrange(p + 8, p + 40)[j] == s[p + 8 + j] && s[p + 8 + j] == e[1
                + mlen + 8 + j]);
    }
    assert(s.subrange(p + 40, p + 72) =~= w.receiver_address) by {
        assert(forall|j: int|
            #![trigger s.subrange(p + 40, p + 72)[j]]
            0 <= j < 32 ==> s.subrange(p + 40, p + 72)[j] == s[p + 40 + j] && s[p + 40 + j] == e[1
                + mlen + 40 + j]);
    }
    assert(s.subrange(p + 72, p + 73) =~= enc_bool(w.is_initialized)) by {
        assert(s[p + 72] == e[1 + mlen + 72]);
    }
    crate::codec::lemma_dec_bool(s, p + 72, w.is_initialized);
}

/// Whether account bytes hold an already-written (initialized) withdrawal
/// receipt: the replay guard a second withdrawal for the same origin fails on.
pub open spec fn withdraw_spent(data: Seq<u8>) -> bool {
    dec_withdraw(data, 0) matches Some((w, _)) && w.is_initialized
}

/// The receipt a successful withdrawal writes marks its origin as spent.
pub proof fn lemma_written_receipt_is_spent(w: WithdrawView)
    requires
        w.wf(),
        w.is_initialized,
    ensures
        withdraw_spent(enc_withdraw(w)),
{
    let e = enc_withdraw(w);
    assert(e.subrange(0, e.len() as int) =~= e);
    lemma_dec_withdraw(e, 0, w);
}

} // verus!
