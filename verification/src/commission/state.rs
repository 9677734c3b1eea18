//! The commission engine's stored state: the acceptable-token list and its
//! four per-operation nonces.

use vstd::prelude::*;
use crate::codec::dec_bool;
use crate::codec::dec_u64;
use crate::codec::enc_bool;
use crate::codec::enc_u64;
use crate::codec::lemma_dec_u64;
use crate::codec::lemma_subrange_chunk;
use crate::commission::instruction::CommissionTokenArg;
use crate::commission::instruction::CommissionTokenArgView;
use crate::commission::instruction::dec_fee_list;
use crate::commission::instruction::enc_fee_items;
use crate::commission::instruction::enc_fee_list;
use crate::commission::instruction::fee_list_wf;
use crate::commission::instruction::lemma_dec_fee_list;
use crate::commission::instruction::view_fee_vec;

verus! {

/// Allocated size of the commission admin account: ten fee-token entries of
/// up to 33 token bytes and 8 amount bytes each, with an 8-byte per-entry
/// allowance, the four nonces, and the initialization flag.
pub const MAX_ADMIN_SIZE: usize = 10 * (33 + 8 + 8) + 4 * 8 + 1;

/// The kind of an operator-signed fee-list operation; its tag byte opens the
/// operation's leaf.
#[derive(Clone, Copy, Debug, PartialEq, Eq, Structural)]
pub enum OperationType {
    AddToken,
    RemoveToken,
    UpdateToken,
    WithdrawToken,
}

/// The tag byte of an operation: its position in the declaration.
pub open spec fn operation_tag_spec(op: OperationType) -> u8 {
    match op {
        OperationType::AddToken => 0,
        OperationType::RemoveToken => 1,
        OperationType::UpdateToken => 2,
        OperationType::WithdrawToken => 3,
    }
}

impl OperationType {
    /// The tag byte of this operation.
    pub fn tag(&self) -> (r: u8)
        ensures
            r == operation_tag_spec(*self),
    {
        match self {
            OperationType::AddToken => 0,
            OperationType::RemoveToken => 1,
            OperationType::UpdateToken => 2,
            OperationType::WithdrawToken => 3,
        }
    }
}

/// One stored fee-token entry: the token and the fee amount charged in it.
pub struct CommissionToken {
    pub token: crate::commission::CommissionToken,
    pub amount: u64,
}

impl View for CommissionToken {
    type V = CommissionTokenArgView;

    open spec fn view(&self) -> CommissionTokenArgView {
        CommissionTokenArgView { token: self.token@, amount: self.amount }
    }
}

impl CommissionToken {
    /// Builds a stored entry from the instruction's argument form.
    pub fn from(value: &CommissionTokenArg) -> (r: CommissionToken)
        ensures
            r@ == value@,
    {
        CommissionToken { token: value.token.clone_token(), amount: value.amount }
    }
}

impl crate::commission::CommissionToken {
    /// A field-for-field copy of the token.
    pub fn clone_token(&self) -> (r: crate::commission::CommissionToken)
        ensures
            r@ == self@,
    {
        match self {
            crate::commission::CommissionToken::Native => crate::commission::CommissionToken::Native,
            crate::commission::CommissionToken::FT(k) => crate::commission::CommissionToken::FT(
                *k,
            ),
            crate::commission::CommissionToken::NFT(k) => crate::commission::CommissionToken::NFT(
                *k,
            ),
        }
    }
}

/// The view of a stored fee-token list.
pub open spec fn view_token_vec(v: Seq<CommissionToken>) -> Seq<CommissionTokenArgView> {
    Seq::new(v.len(), |i: int| v[i]@)
}

/// The commission admin singleton: the acceptable fee tokens, one nonce per
/// operator-signed operation kind, and the initialization flag.
pub struct CommissionAdmin {
    pub acceptable_tokens: Vec<CommissionToken>,
    pub add_token_nonce: u64,
    pub update_token_nonce: u64,
    pub remove_token_nonce: u64,
    pub withdraw_token_nonce: u64,
    pub is_initialized: bool,
}

/// The mathematical value of the commission admin record.
pub struct CommissionAdminView {
    pub acceptable_tokens: Seq<CommissionTokenArgView>,
    pub add_token_nonce: u64,
    pub update_token_nonce: u64,
    pub remove_token_nonce: u64,
    pub withdraw_token_nonce: u64,
    pub is_initialized: bool,
}

impl View for CommissionAdmin {
    type V = CommissionAdminView;

    open spec fn view(&self) -> CommissionAdminView {
        CommissionAdminView {
            acceptable_tokens: view_token_vec(self.acceptable_tokens@),
            add_token_nonce: self.add_token_nonce,
            update_token_nonce: self.update_token_nonce,
            remove_token_nonce: self.remove_token_nonce,
            withdraw_token_nonce: self.withdraw_token_nonce,
            is_initialized: self.is_initialized,
        }
    }
}

impl CommissionAdminView {
    pub open spec fn wf(self) -> bool {
        fee_list_wf(self.acceptable_tokens) && self.acceptable_tokens.len() <= u32::MAX
    }
}

/// The stored layout: the fee-token list, the four nonces in declaration
/// order, the flag.
pub open spec fn enc_commission_admin(a: CommissionAdminView) -> Seq<u8>
    recommends
        a.wf(),
{
    enc_fee_list(a.acceptable_tokens) + enc_u64(a.add_token_nonce) + enc_u64(a.update_token_nonce)
        + enc_u64(a.remove_token_nonce) + enc_u64(a.withdraw_token_nonce) + enc_bool(
        a.is_initialized,
    )
}

pub open spec fn dec_commission_admin(s: Seq<u8>, i: int) -> Option<(CommissionAdminView, int)> {
    match dec_fee_list(s, i) {
        Some((tokens, j)) => match dec_u64(s, j) {
            Some((add, k)) => match dec_u64(s, k) {
                Some((update, l)) => match dec_u64(s, l) {
                    Some((remove, m)) => match dec_u64(s, m) {
                        Some((withdraw, n)) => match dec_bool(s, n) {
                            Some((b, o)) => Some(
                                (
                                    CommissionAdminView {
                                        acceptable_tokens: tokens,
                                        add_token_nonce: add,
                                        update_token_nonce: update,
                                        remove_token_nonce: remove,
                                        withdraw_token_nonce: withdraw,
                                        is_initialized: b,
                                    },
                                    o,
                                ),
                            ),
                            None => None,
                        },
                        None => None,
                    },
                    None => None,
                },
                None => None,
            },
            None => None,
        },
        None => None,
    }
}

/// Serializes the commission admin record into its stored layout.
pub fn pack_commission_admin(a: &CommissionAdmin) -> (r: Vec<u8>)
    requires
        a@.wf(),
    ensures
        r@ == enc_commission_admin(a@),
{
    let mut out: Vec<u8> = Vec::new();
    crate::codec::write_u32(&mut out, a.acceptable_tokens.len() as u32);
    let ghost whole = view_token_vec(a.acceptable_tokens@);
    let mut i: usize = 0;
    proof {
        assert(whole.skip(0) =~= whole);
        assert(enc_fee_items(whole.skip(a.acceptable_tokens@.len() as int)) =~= Seq::<u8>::empty());
    }
    while i < a.acceptable_tokens.len()
        invariant
            i <= a.acceptable_tokens@.len(),
            whole == view_token_vec(a.acceptable_tokens@),
            out@ + enc_fee_items(whole.skip(i as int)) == enc_fee_list(whole),
        decreases a.acceptable_tokens@.len() - i,
    {
        let ghost rest = whole.skip(i as int);
        let entry = &a.acceptable_tokens[i];
        crate::commission::write_commission_token(&mut out, &entry.token);
        crate::codec::write_u64(&mut out, entry.amount);
        proof {
            assert(rest[0] == a.acceptable_tokens@[i as int]@);
            assert(rest.skip(1) =~= whole.skip(i + 1));
            assert(out@ + enc_fee_items(whole.skip(i + 1)) =~= enc_fee_list(whole));
        }
        i = i + 1;
    }
    proof {
        assert(out@ =~= out@ + enc_fee_items(whole.skip(a.acceptable_tokens@.len() as int)));
        assert(out@ == enc_fee_list(whole));
    }
    crate::codec::write_u64(&mut out, a.add_token_nonce);
    crate::codec::write_u64(&mut out, a.update_token_nonce);
    crate::codec::write_u64(&mut out, a.remove_token_nonce);
    crate::codec::write_u64(&mut out, a.withdraw_token_nonce);
    crate::codec::write_bool(&mut out, a.is_initialized);
    proof {
        assert(out@ =~= enc_commission_admin(a@));
    }
    out
}

/// Reads a commission admin record from the head of account data; trailing
/// bytes are ignored.
pub fn unpack_commission_admin(data: &Vec<u8>) -> (r: Option<CommissionAdmin>)
    ensures
        match r {
            Some(a) => dec_commission_admin(data@, 0) matches Some((v, _)) && a@ == v,
            None => dec_commission_admin(data@, 0) is None,
        },
{
    match crate::commission::instruction::read_fee_list(data, 0) {
        Some((tokens, j)) => match crate::codec::read_u64(data, j) {
            Some((add, k)) => match crate::codec::read_u64(data, k) {
                Some((update, l)) => match crate::codec::read_u64(data, l) {
                    Some((remove, m)) => match crate::codec::read_u64(data, m) {
                        Some((withdraw, n)) => match crate::codec::read_bool(data, n) {
                            Some((b, _)) => {
                                let mut stored: Vec<CommissionToken> = Vec::new();
                                let mut i: usize = 0;
                                while i < tokens.len()
                                    invariant
                                        i <= tokens@.len(),
                                        stored@.len() == i,
                                        forall|k2: int|
                                            0 <= k2 < i ==> stored@[k2]@ == tokens@[k2]@,
                                    decreases tokens@.len() - i,
                                {
                                    stored.push(CommissionToken::from(&tokens[i]));
                                    i = i + 1;
                                }
                                proof {
                                    assert(view_token_vec(stored@) =~= view_fee_vec(tokens@));
                                }
                                Some(
                                    CommissionAdmin {
                                        acceptable_tokens: stored,
                                        add_token_nonce: add,
                                        update_token_nonce: update,
                                        remove_token_nonce: remove,
                                        withdraw_token_nonce: withdraw,
                                        is_initialized: b,
                                    },
                                )
                            },
                            None => None,
                        },
                        None => None,
                    },
                    None => None,
                },
                None => None,
            },
            None => None,
        },
        None => None,
    }
}

/// Decoding an encoded commission admin record embedded in a buffer yields
/// the record back.
pub proof fn lemma_dec_commission_admin(s: Seq<u8>, i: int, a: CommissionAdminView)
    requires
        0 <= i,
        a.wf(),
        i + enc_commission_admin(a).len() <= s.len(),
        s.subrange(i, i + enc_commission_admin(a).len()) == enc_commission_admin(a),
    ensures
        dec_commission_admin(s, i) == Some((a, i + enc_commission_admin(a).len())),
{
    vstd::bytes::lemma_auto_spec_u64_to_from_le_bytes();
    vstd::bytes::lemma_auto_spec_u32_to_from_le_bytes();
    let e = enc_commission_admin(a);
    let nl = enc_fee_list(a.acceptable_tokens).len() as int;
    lemma_subrange_chunk(s, i, e, 0, nl);
    assert(e.subrange(0, nl) =~= enc_fee_list(a.acceptable_tokens));
    lemma_dec_fee_list(s, i, a.acceptable_tokens);
    lemma_subrange_chunk(s, i, e, nl, 8);
    assert(e.subrange(nl, nl + 8) =~= enc_u64(a.add_token_nonce));
    lemma_dec_u64(s, i + nl, a.add_token_nonce);
    lemma_subrange_chunk(s, i, e, nl + 8, 8);
    assert(e.subrange(nl + 8, nl + 16) =~= enc_u64(a.update_token_nonce));
    lemma_dec_u64(s, i + nl + 8, a.update_token_nonce);
    lemma_subrange_chunk(s, i, e, nl + 16, 8);
    assert(e.subrange(nl + 16, nl + 24) =~= enc_u64(a.remove_token_nonce));
    lemma_dec_u64(s, i + nl + 16, a.remove_token_nonce);
    lemma_subrange_chunk(s, i, e, nl + 24, 8);
    assert(e.subrange(nl + 24, nl + 32) =~= enc_u64(a.withdraw_token_nonce));
    lemma_dec_u64(s, i + nl + 24, a.withdraw_token_nonce);
    lemma_subrange_chunk(s, i, e, nl + 32, 1);
    assert(e.subrange(nl + 32, nl + 33) =~= enc_bool(a.is_initialized));
    crate::codec::lemma_dec_bool(s, i + nl + 32, a.is_initialized);
}

} // verus!
