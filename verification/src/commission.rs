//! The commission engine: a parallel admin that charges a fee for every
//! deposit, keeps the set of acceptable fee tokens, and lets the operator
//! mutate that set under per-operation nonces.

pub mod instruction;
pub mod merkle;
pub mod processor;
pub mod state;

use vstd::prelude::*;
use crate::codec::dec_raw;
use crate::codec::dec_u64;
use crate::codec::dec_u8;
use crate::codec::enc_u64;
use crate::codec::lemma_dec_u64;
use crate::codec::lemma_subrange_chunk;
use crate::state::TokenType;
use crate::state::dec_token_type;
use crate::state::enc_token_type;

verus! {

/// The token a commission is paid in: the native coin, or a fungible or
/// non-fungible token named by its mint.
pub enum CommissionToken {
    Native,
    FT([u8; 32]),
    NFT([u8; 32]),
}

pub enum CommissionTokenView {
    Native,
    FT(Seq<u8>),
    NFT(Seq<u8>),
}

impl View for CommissionToken {
    type V = CommissionTokenView;

    open spec fn view(&self) -> CommissionTokenView {
        match self {
            CommissionToken::Native => CommissionTokenView::Native,
            CommissionToken::FT(k) => CommissionTokenView::FT(k@),
            CommissionToken::NFT(k) => CommissionTokenView::NFT(k@),
        }
    }
}

impl CommissionTokenView {
    pub open spec fn wf(self) -> bool {
        match self {
            CommissionTokenView::Native => true,
            CommissionTokenView::FT(k) => k.len() == 32,
            CommissionTokenView::NFT(k) => k.len() == 32,
        }
    }
}

impl CommissionToken {
    /// Structural equality of two commission tokens.
    pub fn equals(&self, other: &CommissionToken) -> (r: bool)
        ensures
            r <==> self@ == other@,
    {
        match (self, other) {
            (CommissionToken::Native, CommissionToken::Native) => true,
            (CommissionToken::FT(a), CommissionToken::FT(b)) => crate::codec::bytes_equal(
                a.as_slice(),
                b.as_slice(),
            ),
            (CommissionToken::NFT(a), CommissionToken::NFT(b)) => crate::codec::bytes_equal(
                a.as_slice(),
                b.as_slice(),
            ),
            _ => false,
        }
    }
}

pub open spec fn enc_commission_token(t: CommissionTokenView) -> Seq<u8>
    recommends
        t.wf(),
{
    match t {
        CommissionTokenView::Native => seq![0u8],
        CommissionTokenView::FT(k) => seq![1u8] + k,
        CommissionTokenView::NFT(k) => seq![2u8] + k,
    }
}

pub open spec fn dec_commission_token(s: Seq<u8>, i: int) -> Option<(CommissionTokenView, int)> {
    match dec_u8(s, i) {
        Some((tag, j)) => {
            if tag == 0 {
                Some((CommissionTokenView::Native, j))
            } else if tag == 1 {
                match dec_raw(s, j, 32) {
                    Some((k, l)) => Some((CommissionTokenView::FT(k), l)),
                    None => None,
                }
            } else if tag == 2 {
                match dec_raw(s, j, 32) {
                    Some((k, l)) => Some((CommissionTokenView::NFT(k), l)),
                    None => None,
                }
            } else {
                None
            }
        },
        None => None,
    }
}

pub fn write_commission_token(out: &mut Vec<u8>, t: &CommissionToken)
    ensures
        final(out)@ == old(out)@ + enc_commission_token(t@),
{
    match t {
        CommissionToken::Native => {
            crate::codec::write_u8(out, 0);
        },
        CommissionToken::FT(k) => {
            crate::codec::write_u8(out, 1);
            crate::codec::write_arr(out, k.as_slice());
            proof {
                assert(out@ =~= old(out)@ + enc_commission_token(t@));
            }
        },
        CommissionToken::NFT(k) => {
            crate::codec::write_u8(out, 2);
            crate::codec::write_arr(out, k.as_slice());
            proof {
                assert(out@ =~= old(out)@ + enc_commission_token(t@));
            }
        },
    }
}

pub fn read_commission_token(data: &Vec<u8>, pos: usize) -> (r: Option<(CommissionToken, usize)>)
    ensures
        match r {
            Some((v, end)) => dec_commission_token(data@, pos as int) == Some((v@, end as int)),
            None => dec_commission_token(data@, pos as int) is None,
        },
{
    match crate::codec::read_u8(data, pos) {
        Some((tag, j)) => {
            if tag == 0 {
                Some((CommissionToken::Native, j))
            } else if tag == 1 {
                match crate::codec::read_bytes32(data, j) {
                    Some((k, l)) => Some((CommissionToken::FT(k), l)),
                    None => None,
                }
            } else if tag == 2 {
                match crate::codec::read_bytes32(data, j) {
                    Some((k, l)) => Some((CommissionToken::NFT(k), l)),
                    None => None,
                }
            } else {
                None
            }
        },
        None => None,
    }
}

pub proof fn lemma_dec_commission_token(s: Seq<u8>, i: int, t: CommissionTokenView)
    requires
        0 <= i,
        t.wf(),
        i + enc_commission_token(t).len() <= s.len(),
        s.subrange(i, i + enc_commission_token(t).len()) == enc_commission_token(t),
    ensures
        dec_commission_token(s, i) == Some((t, i + enc_commission_token(t).len())),
{
    let e = enc_commission_token(t);
    assert(s[i] == e[0]);
    match t {
        CommissionTokenView::Native => {
        },
        CommissionTokenView::FT(k) => {
            lemma_subrange_chunk(s, i, e, 1, 32);
            assert(e.subrange(1, 33) =~= k);
        },
        CommissionTokenView::NFT(k) => {
            lemma_subrange_chunk(s, i, e, 1, 32);
            assert(e.subrange(1, 33) =~= k);
        },
    }
}

/// Arguments of a commission charge: the token the fee is paid in, and the
/// kind and amount of the deposit it pays for.
pub struct CommissionArgs {
    pub token: CommissionToken,
    pub deposit_token: TokenType,
    pub deposit_token_amount: u64,
}

pub struct CommissionArgsView {
    pub token: CommissionTokenView,
    pub deposit_token: TokenType,
    pub deposit_token_amount: u64,
}

impl View for CommissionArgs {
    type V = CommissionArgsView;

    open spec fn view(&self) -> CommissionArgsView {
        CommissionArgsView {
            token: self.token@,
            deposit_token: self.deposit_token,
            deposit_token_amount: self.deposit_token_amount,
        }
    }
}

impl CommissionArgsView {
    pub open spec fn wf(self) -> bool {
        self.token.wf()
    }
}

pub open spec fn enc_commission_args(a: CommissionArgsView) -> Seq<u8>
    recommends
        a.wf(),
{
    enc_commission_token(a.token) + enc_token_type(a.deposit_token) + enc_u64(
        a.deposit_token_amount,
    )
}

pub open spec fn dec_commission_args(s: Seq<u8>, i: int) -> Option<(CommissionArgsView, int)> {
    match dec_commission_token(s, i) {
        Some((t, j)) => match dec_token_type(s, j) {
            Some((dt, k)) => match dec_u64(s, k) {
                Some((amount, l)) => Some(
                    (
                        CommissionArgsView {
                            token: t,
                            deposit_token: dt,
                            deposit_token_amount: amount,
                        },
                        l,
                    ),
                ),
                None => None,
            },
            None => None,
        },
        None => None,
    }
}

impl CommissionArgs {
    pub fn encode(&self, out: &mut Vec<u8>)
        ensures
            final(out)@ == old(out)@ + enc_commission_args(self@),
    {
        write_commission_token(out, &self.token);
        crate::state::write_token_type(out, self.deposit_token);
        crate::codec::write_u64(out, self.deposit_token_amount);
        proof {
            assert(out@ =~= old(out)@ + enc_commission_args(self@));
        }
    }

    pub fn decode(data: &Vec<u8>, pos: usize) -> (r: Option<(CommissionArgs, usize)>)
        ensures
            match r {
                Some((v, end)) => dec_commission_args(data@, pos as int) == Some((v@, end as int)),
                None => dec_commission_args(data@, pos as int) is None,
            },
    {
        match read_commission_token(data, pos) {
            Some((t, j)) => match crate::state::read_token_type(data, j) {
                Some((dt, k)) => match crate::codec::read_u64(data, k) {
                    Some((amount, l)) => Some(
                        (
                            CommissionArgs {
                                token: t,
                                deposit_token: dt,
                                deposit_token_amount: amount,
                            },
                            l,
                        ),
                    ),
                    None => None,
                },
                None => None,
            },
            None => None,
        }
    }
}

pub proof fn lemma_dec_commission_args(s: Seq<u8>, i: int, a: CommissionArgsView)
    requires
        0 <= i,
        a.wf(),
        i + enc_commission_args(a).len() <= s.len(),
        s.subrange(i, i + enc_commission_args(a).len()) == enc_commission_args(a),
    ensures
        dec_commission_args(s, i) == Some((a, i + enc_commission_args(a).len())),
{
    vstd::bytes::lemma_auto_spec_u64_to_from_le_bytes();
    let e = enc_commission_args(a);
    let nt = enc_commission_token(a.token).len() as int;
    lemma_subrange_chunk(s, i, e, 0, nt);
    assert(e.subrange(0, nt) =~= enc_commission_token(a.token));
    lemma_dec_commission_token(s, i, a.token);
    lemma_subrange_chunk(s, i, e, nt, 1);
    assert(e.subrange(nt, nt + 1) =~= enc_token_type(a.deposit_token));
    crate::state::lemma_dec_token_type(s, i + nt, a.deposit_token);
    lemma_subrange_chunk(s, i, e, nt + 1, 8);
    assert(e.subrange(nt + 1, nt + 9) =~= enc_u64(a.deposit_token_amount));
    lemma_dec_u64(s, i + nt + 1, a.deposit_token_amount);
}

} // verus!
