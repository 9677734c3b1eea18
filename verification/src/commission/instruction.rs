//! The commission engine's instruction payloads.

use vstd::prelude::*;
use crate::codec::dec_key_list;
use crate::codec::dec_raw;
use crate::codec::dec_u32;
use crate::codec::dec_u64;
use crate::codec::dec_u8;
use crate::codec::enc_key_list;
use crate::codec::enc_u32;
use crate::codec::enc_u64;
use crate::codec::enc_u8;
use crate::codec::key_list_wf;
use crate::codec::lemma_dec_key_list;
use crate::codec::lemma_dec_u32;
use crate::codec::lemma_dec_u64;
use crate::codec::lemma_dec_u8;
use crate::codec::lemma_subrange_chunk;
use crate::commission::CommissionArgs;
use crate::commission::CommissionArgsView;
use crate::commission::CommissionToken;
use crate::commission::CommissionTokenView;
use crate::commission::dec_commission_args;
use crate::commission::dec_commission_token;
use crate::commission::enc_commission_args;
use crate::commission::enc_commission_token;
use crate::commission::lemma_dec_commission_args;
use crate::commission::lemma_dec_commission_token;

verus! {

/// Most entries the acceptable-token list may hold.
pub const MAX_TOKENS_COUNT: usize = 10;

/// One fee-token entry: the token and the fee amount charged in it.
pub struct CommissionTokenArg {
    pub token: CommissionToken,
    pub amount: u64,
}

/// The mathematical value of a fee-token entry; the stored list holds entries
/// with the same value.
pub struct CommissionTokenArgView {
    pub token: CommissionTokenView,
    pub amount: u64,
}

impl View for CommissionTokenArg {
    type V = CommissionTokenArgView;

    open spec fn view(&self) -> CommissionTokenArgView {
        CommissionTokenArgView { token: self.token@, amount: self.amount }
    }
}

impl CommissionTokenArgView {
    pub open spec fn wf(self) -> bool {
        self.token.wf()
    }
}

pub open spec fn enc_fee_entry(e: CommissionTokenArgView) -> Seq<u8>
    recommends
        e.wf(),
{
    enc_commission_token(e.token) + enc_u64(e.amount)
}

pub open spec fn dec_fee_entry(s: Seq<u8>, i: int) -> Option<(CommissionTokenArgView, int)> {
    match dec_commission_token(s, i) {
        Some((t, j)) => match dec_u64(s, j) {
            Some((amount, k)) => Some((CommissionTokenArgView { token: t, amount }, k)),
            None => None,
        },
        None => None,
    }
}

impl CommissionTokenArg {
    pub fn encode(&self, out: &mut Vec<u8>)
        ensures
            final(out)@ == old(out)@ + enc_fee_entry(self@),
    {
        crate::commission::write_commission_token(out, &self.token);
        crate::codec::write_u64(out, self.amount);
        proof {
            assert(out@ =~= old(out)@ + enc_fee_entry(self@));
        }
    }

    pub fn decode(data: &Vec<u8>, pos: usize) -> (r: Option<(CommissionTokenArg, usize)>)
        ensures
            match r {
                Some((v, end)) => dec_fee_entry(data@, pos as int) == Some((v@, end as int)),
                None => dec_fee_entry(data@, pos as int) is None,
            },
    {
        match crate::commission::read_commission_token(data, pos) {
            Some((t, j)) => match crate::codec::read_u64(data, j) {
                Some((amount, k)) => Some((CommissionTokenArg { token: t, amount }, k)),
                None => None,
            },
            None => None,
        }
    }
}

pub proof fn lemma_dec_fee_entry(s: Seq<u8>, i: int, e: CommissionTokenArgView)
    requires
        0 <= i,
        e.wf(),
        i + enc_fee_entry(e).len() <= s.len(),
        s.subrange(i, i + enc_fee_entry(e).len()) == enc_fee_entry(e),
    ensures
        dec_fee_entry(s, i) == Some((e, i + enc_fee_entry(e).len())),
{
    vstd::bytes::lemma_auto_spec_u64_to_from_le_bytes();
    let enc = enc_fee_entry(e);
    let nt = enc_commission_token(e.token).len() as int;
    lemma_subrange_chunk(s, i, enc, 0, nt);
    assert(enc.subrange(0, nt) =~= enc_commission_token(e.token));
    lemma_dec_commission_token(s, i, e.token);
    lemma_subrange_chunk(s, i, enc, nt, 8);
    assert(enc.subrange(nt, nt + 8) =~= enc_u64(e.amount));
    lemma_dec_u64(s, i + nt, e.amount);
}

// ===== lists of fee-token entries =====

/// The view of a list of fee-token entries.
pub open spec fn view_fee_vec(v: Seq<CommissionTokenArg>) -> Seq<CommissionTokenArgView> {
    Seq::new(v.len(), |i: int| v[i]@)
}

pub open spec fn fee_list_wf(p: Seq<CommissionTokenArgView>) -> bool {
    forall|k: int| 0 <= k < p.len() ==> (#[trigger] p[k]).wf()
}

pub open spec fn enc_fee_items(p: Seq<CommissionTokenArgView>) -> Seq<u8>
    decreases p.len(),
{
    if p.len() == 0 {
        Seq::<u8>::empty()
    } else {
        enc_fee_entry(p[0]) + enc_fee_items(p.skip(1))
    }
}

/// A length-prefixed list of fee-token entries.
pub open spec fn enc_fee_list(p: Seq<CommissionTokenArgView>) -> Seq<u8>
    recommends
        fee_list_wf(p),
        p.len() <= u32::MAX,
{
    enc_u32(p.len() as u32) + enc_fee_items(p)
}

pub open spec fn dec_fee_items(s: Seq<u8>, i: int, n: int) -> Option<
    (Seq<CommissionTokenArgView>, int),
>
    decreases n,
{
    if n <= 0 {
        Some((Seq::<CommissionTokenArgView>::empty(), i))
    } else {
        match dec_fee_entry(s, i) {
            Some((e, j)) => match dec_fee_items(s, j, n - 1) {
                Some((rest, l)) => Some((seq![e] + rest, l)),
                None => None,
            },
            None => None,
        }
    }
}

pub open spec fn dec_fee_list(s: Seq<u8>, i: int) -> Option<(Seq<CommissionTokenArgView>, int)> {
    match dec_u32(s, i) {
        Some((n, j)) => dec_fee_items(s, j, n as int),
        None => None,
    }
}

pub fn write_fee_list(out: &mut Vec<u8>, p: &Vec<CommissionTokenArg>)
    requires
        p@.len() <= u32::MAX,
    ensures
        final(out)@ == old(out)@ + enc_fee_list(view_fee_vec(p@)),
{
    crate::codec::write_u32(out, p.len() as u32);
    let ghost whole = view_fee_vec(p@);
    let mut i: usize = 0;
    proof {
        assert(whole.skip(0) =~= whole);
        assert(enc_fee_items(whole.skip(p@.len() as int)) =~= Seq::<u8>::empty());
    }
    while i < p.len()
        invariant
            i <= p@.len(),
            whole == view_fee_vec(p@),
            out@ + enc_fee_items(whole.skip(i as int)) == old(out)@ + enc_fee_list(whole),
        decreases p@.len() - i,
    {
        let ghost rest = whole.skip(i as int);
        p[i].encode(out);
        proof {
            assert(rest[0] == p@[i as int]@);
            assert(rest.skip(1) =~= whole.skip(i + 1));
            assert(out@ + enc_fee_items(whole.skip(i + 1)) =~= old(out)@ + enc_fee_list(whole));
        }
        i = i + 1;
    }
    proof {
        assert(out@ =~= out@ + enc_fee_items(whole.skip(p@.len() as int)));
    }
}

pub fn read_fee_list(data: &Vec<u8>, pos: usize) -> (r: Option<(Vec<CommissionTokenArg>, usize)>)
    ensures
        match r {
            Some((v, end)) => dec_fee_list(data@, pos as int) == Some(
                (view_fee_vec(v@), end as int),
            ),
            None => dec_fee_list(data@, pos as int) is None,
        },
{
    match crate::codec::read_u32(data, pos) {
        Some((n, j)) => {
            let mut v: Vec<CommissionTokenArg> = Vec::new();
            let mut i: u32 = 0;
            let mut at: usize = j;
            while i < n
                invariant
                    i <= n,
                    v@.len() == i,
                    dec_u32(data@, pos as int) == Some((n, j as int)),
                    dec_fee_items(data@, j as int, n as int) == (match dec_fee_items(
                        data@,
                        at as int,
                        n as int - i as int,
                    ) {
                        Some((rest, end)) => Some((view_fee_vec(v@) + rest, end)),
                        None => None::<(Seq<CommissionTokenArgView>, int)>,
                    }),
                decreases n - i,
            {
                let ghost prefix = view_fee_vec(v@);
                match CommissionTokenArg::decode(data, at) {
                    Some((e, next)) => {
                        v.push(e);
                        proof {
                            assert(view_fee_vec(v@) =~= prefix + seq![e@]);
                            assert(forall|rest: Seq<CommissionTokenArgView>|
                                (prefix + seq![e@]) + rest =~= prefix + (seq![e@] + rest));
                        }
                        at = next;
                    },
                    None => {
                        return None;
                    },
                }
                i = i + 1;
            }
            proof {
                assert(dec_fee_items(data@, at as int, 0) == Some(
                    (Seq::<CommissionTokenArgView>::empty(), at as int),
                ));
                assert(view_fee_vec(v@) + Seq::<CommissionTokenArgView>::empty() =~= view_fee_vec(
                    v@,
                ));
            }
            Some((v, at))
        },
        None => None,
    }
}

pub proof fn lemma_dec_fee_items(s: Seq<u8>, i: int, p: Seq<CommissionTokenArgView>)
    requires
        0 <= i,
        fee_list_wf(p),
        i + enc_fee_items(p).len() <= s.len(),
        s.subrange(i, i + enc_fee_items(p).len()) == enc_fee_items(p),
    ensures
        dec_fee_items(s, i, p.len() as int) == Some((p, i + enc_fee_items(p).len())),
    decreases p.len(),
{
    if p.len() == 0 {
        assert(p =~= Seq::<CommissionTokenArgView>::empty());
    } else {
        let e = enc_fee_items(p);
        let head = enc_fee_entry(p[0]);
        let tail = p.skip(1);
        let etail = enc_fee_items(tail);
        assert(fee_list_wf(tail));
        lemma_subrange_chunk(s, i, e, 0, head.len() as int);
        assert(e.subrange(0, head.len() as int) =~= head);
        lemma_dec_fee_entry(s, i, p[0]);
        lemma_subrange_chunk(s, i, e, head.len() as int, etail.len() as int);
        assert(e.subrange(head.len() as int, head.len() + etail.len() as int) =~= etail);
        lemma_dec_fee_items(s, i + head.len(), tail);
        assert(seq![p[0]] + tail =~= p);
    }
}

pub proof fn lemma_dec_fee_list(s: Seq<u8>, i: int, p: Seq<CommissionTokenArgView>)
    requires
        0 <= i,
        fee_list_wf(p),
        p.len() <= u32::MAX,
        i + enc_fee_list(p).len() <= s.len(),
        s.subrange(i, i + enc_fee_list(p).len()) == enc_fee_list(p),
    ensures
        dec_fee_list(s, i) == Some((p, i + enc_fee_list(p).len())),
{
    vstd::bytes::lemma_auto_spec_u32_to_from_le_bytes();
    let e = enc_fee_list(p);
    let items = enc_fee_items(p);
    lemma_subrange_chunk(s, i, e, 0, 4);
    assert(e.subrange(0, 4) =~= enc_u32(p.len() as u32));
    lemma_dec_u32(s, i, p.len() as u32);
    lemma_subrange_chunk(s, i, e, 4, items.len() as int);
    assert(e.subrange(4, 4 + items.len() as int) =~= items);
    lemma_dec_fee_items(s, i + 4, p);
}

// ===== argument structs =====

/// Arguments of the commission admin's creation: the initial fee-token list.
pub struct InitializeAdminArgs {
    pub acceptable_tokens: Vec<CommissionTokenArg>,
}

pub struct InitializeAdminArgsView {
    pub acceptable_tokens: Seq<CommissionTokenArgView>,
}

impl View for InitializeAdminArgs {
    type V = InitializeAdminArgsView;

    open spec fn view(&self) -> InitializeAdminArgsView {
        InitializeAdminArgsView { acceptable_tokens: view_fee_vec(self.acceptable_tokens@) }
    }
}

impl InitializeAdminArgsView {
    pub open spec fn wf(self) -> bool {
        fee_list_wf(self.acceptable_tokens) && self.acceptable_tokens.len() <= u32::MAX
    }
}

pub open spec fn enc_commission_init_args(a: InitializeAdminArgsView) -> Seq<u8>
    recommends
        a.wf(),
{
    enc_fee_list(a.acceptable_tokens)
}

pub open spec fn dec_commission_init_args(s: Seq<u8>, i: int) -> Option<
    (InitializeAdminArgsView, int),
> {
    match dec_fee_list(s, i) {
        Some((p, j)) => Some((InitializeAdminArgsView { acceptable_tokens: p }, j)),
        None => None,
    }
}

impl InitializeAdminArgs {
    pub fn encode(&self, out: &mut Vec<u8>)
        requires
            self@.wf(),
        ensures
            final(out)@ == old(out)@ + enc_commission_init_args(self@),
    {
        write_fee_list(out, &self.acceptable_tokens);
    }

    pub fn decode(data: &Vec<u8>, pos: usize) -> (r: Option<(InitializeAdminArgs, usize)>)
        ensures
            match r {
                Some((v, end)) => dec_commission_init_args(data@, pos as int) == Some(
                    (v@, end as int),
                ),
                None => dec_commission_init_args(data@, pos as int) is None,
            },
    {
        match read_fee_list(data, pos) {
            Some((p, j)) => Some((InitializeAdminArgs { acceptable_tokens: p }, j)),
            None => None,
        }
    }
}

/// Arguments of an operator-signed fee-list mutation.
pub struct FeeTokenArgs {
    /// Signature over the Merkle root of the operation leaf.
    pub signature: [u8; 64],
    pub recovery_id: u8,
    pub path: Vec<[u8; 32]>,
    pub token: CommissionTokenArg,
}

pub struct FeeTokenArgsView {
    pub signature: Seq<u8>,
    pub recovery_id: u8,
    pub path: Seq<Seq<u8>>,
    pub token: CommissionTokenArgView,
}

impl View for FeeTokenArgs {
    type V = FeeTokenArgsView;

    open spec fn view(&self) -> FeeTokenArgsView {
        FeeTokenArgsView {
            signature: self.signature@,
            recovery_id: self.recovery_id,
            path: self.path.deep_view(),
            token: self.token@,
        }
    }
}

impl FeeTokenArgsView {
    pub open spec fn wf(self) -> bool {
        &&& self.signature.len() == 64
        &&& key_list_wf(self.path)
        &&& self.path.len() <= u32::MAX
        &&& self.token.wf()
    }
}

pub open spec fn enc_fee_token_args(a: FeeTokenArgsView) -> Seq<u8>
    recommends
        a.wf(),
{
    a.signature + enc_u8(a.recovery_id) + enc_key_list(a.path) + enc_fee_entry(a.token)
}

pub open spec fn dec_fee_token_args(s: Seq<u8>, i: int) -> Option<(FeeTokenArgsView, int)> {
    match dec_raw(s, i, 64) {
        Some((sig, j)) => match dec_u8(s, j) {
            Some((rid, k)) => match dec_key_list(s, k) {
                Some((path, l)) => match dec_fee_entry(s, l) {
                    Some((t, m)) => Some(
                        (FeeTokenArgsView { signature: sig, recovery_id: rid, path, token: t }, m),
                    ),
                    None => None,
                },
                None => None,
            },
            None => None,
        },
        None => None,
    }
}

impl FeeTokenArgs {
    pub fn encode(&self, out: &mut Vec<u8>)
        requires
            self@.wf(),
        ensures
            final(out)@ == old(out)@ + enc_fee_token_args(self@),
    {
        crate::codec::write_arr(out, self.signature.as_slice());
        crate::codec::write_u8(out, self.recovery_id);
        crate::codec::write_key_list(out, &self.path);
        self.token.encode(out);
        proof {
            assert(out@ =~= old(out)@ + enc_fee_token_args(self@));
        }
    }

    pub fn decode(data: &Vec<u8>, pos: usize) -> (r: Option<(FeeTokenArgs, usize)>)
        ensures
            match r {
                Some((v, end)) => dec_fee_token_args(data@, pos as int) == Some((v@, end as int)),
                None => dec_fee_token_args(data@, pos as int) is None,
            },
    {
        match crate::codec::read_bytes64(data, pos) {
            Some((sig, j)) => match crate::codec::read_u8(data, j) {
                Some((rid, k)) => match crate::codec::read_key_list(data, k) {
                    Some((path, l)) => match CommissionTokenArg::decode(data, l) {
                        Some((t, m)) => Some(
                            (
                                FeeTokenArgs {
                                    signature: sig,
                                    recovery_id: rid,
                                    path,
                                    token: t,
                                },
                                m,
                            ),
                        ),
                        None => None,
                    },
                    None => None,
                },
                None => None,
            },
            None => None,
        }
    }
}

pub proof fn lemma_dec_fee_token_args(s: Seq<u8>, i: int, a: FeeTokenArgsView)
    requires
        0 <= i,
        a.wf(),
        i + enc_fee_token_args(a).len() <= s.len(),
        s.subrange(i, i + enc_fee_token_args(a).len()) == enc_fee_token_args(a),
    ensures
        dec_fee_token_args(s, i) == Some((a, i + enc_fee_token_args(a).len())),
{
    vstd::bytes::lemma_auto_spec_u32_to_from_le_bytes();
    let e = enc_fee_token_args(a);
    let np = enc_key_list(a.path).len() as int;
    let nt = enc_fee_entry(a.token).len() as int;
    lemma_subrange_chunk(s, i, e, 0, 64);
    assert(e.subrange(0, 64) =~= a.signature);
    lemma_subrange_chunk(s, i, e, 64, 1);
    assert(e.subrange(64, 65) =~= enc_u8(a.recovery_id));
    lemma_dec_u8(s, i + 64, a.recovery_id);
    lemma_subrange_chunk(s, i, e, 65, np);
    assert(e.subrange(65, 65 + np) =~= enc_key_list(a.path));
    lemma_dec_key_list(s, i + 65, a.path);
    lemma_subrange_chunk(s, i, e, 65 + np, nt);
    assert(e.subrange(65 + np, 65 + np + nt) =~= enc_fee_entry(a.token));
    lemma_dec_fee_entry(s, i + 65 + np, a.token);
}

/// Arguments of an operator-signed withdrawal of collected fees.
pub struct WithdrawArgs {
    pub signature: [u8; 64],
    pub recovery_id: u8,
    pub path: Vec<[u8; 32]>,
    pub token: CommissionTokenArg,
    pub withdraw_amount: u64,
}

pub struct CommissionWithdrawArgsView {
    pub signature: Seq<u8>,
    pub recovery_id: u8,
    pub path: Seq<Seq<u8>>,
    pub token: CommissionTokenArgView,
    pub withdraw_amount: u64,
}

impl View for WithdrawArgs {
    type V = CommissionWithdrawArgsView;

    open spec fn view(&self) -> CommissionWithdrawArgsView {
        CommissionWithdrawArgsView {
            signature: self.signature@,
            recovery_id: self.recovery_id,
            path: self.path.deep_view(),
            token: self.token@,
            withdraw_amount: self.withdraw_amount,
        }
    }
}

impl CommissionWithdrawArgsView {
    pub open spec fn wf(self) -> bool {
        &&& self.signature.len() == 64
        &&& key_list_wf(self.path)
        &&& self.path.len() <= u32::MAX
        &&& self.token.wf()
    }
}

pub open spec fn enc_commission_withdraw_args(a: CommissionWithdrawArgsView) -> Seq<u8>
    recommends
        a.wf(),
{
    a.signature + enc_u8(a.recovery_id) + enc_key_list(a.path) + enc_fee_entry(a.token) + enc_u64(
        a.withdraw_amount,
    )
}

pub open spec fn dec_commission_withdraw_args(s: Seq<u8>, i: int) -> Option<
    (CommissionWithdrawArgsView, int),
> {
    match dec_raw(s, i, 64) {
        Some((sig, j)) => match dec_u8(s, j) {
            Some((rid, k)) => match dec_key_list(s, k) {
                Some((path, l)) => match dec_fee_entry(s, l) {
                    Some((t, m)) => match dec_u64(s, m) {
                        Some((wa, n)) => Some(
                            (
                                CommissionWithdrawArgsView {
                                    signature: sig,
                                    recovery_id: rid,
                                    path,
                                    token: t,
                                    withdraw_amount: wa,
                                },
                                n,
                            ),
                        ),
                        None => None,
                    },
                    None => None,
                },
                None => None,
            },
            None => None,
        },
        None => None,
    }
}

impl WithdrawArgs {
    pub fn encode(&self, out: &mut Vec<u8>)
        requires
            self@.wf(),
        ensures
            final(out)@ == old(out)@ + enc_commission_withdraw_args(self@),
    {
        crate::codec::write_arr(out, self.signature.as_slice());
        crate::codec::write_u8(out, self.recovery_id);
        crate::codec::write_key_list(out, &self.path);
        self.token.encode(out);
        crate::codec::write_u64(out, self.withdraw_amount);
        proof {
            assert(out@ =~= old(out)@ + enc_commission_withdraw_args(self@));
        }
    }

    pub fn decode(data: &Vec<u8>, pos: usize) -> (r: Option<(WithdrawArgs, usize)>)
        ensures
            match r {
                Some((v, end)) => dec_commission_withdraw_args(data@, pos as int) == Some(
                    (v@, end as int),
                ),
                None => dec_commission_withdraw_args(data@, pos as int) is None,
            },
    {
        match crate::codec::read_bytes64(data, pos) {
            Some((sig, j)) => match crate::codec::read_u8(data, j) {
                Some((rid, k)) => match crate::codec::read_key_list(data, k) {
                    Some((path, l)) => match CommissionTokenArg::decode(data, l) {
                        Some((t, m)) => match crate::codec::read_u64(data, m) {
                            Some((wa, n)) => Some(
                                (
                                    WithdrawArgs {
                                        signature: sig,
                                        recovery_id: rid,
                                        path,
                                        token: t,
                                        withdraw_amount: wa,
                                    },
                                    n,
                                ),
                            ),
                            None => None,
                        },
                        None => None,
                    },
                    None => None,
                },
                None => None,
            },
            None => None,
        }
    }
}

pub proof fn lemma_dec_commission_withdraw_args(s: Seq<u8>, i: int, a: CommissionWithdrawArgsView)
    requires
        0 <= i,
        a.wf(),
        i + enc_commission_withdraw_args(a).len() <= s.len(),
        s.subrange(i, i + enc_commission_withdraw_args(a).len()) == enc_commission_withdraw_args(a),
    ensures
        dec_commission_withdraw_args(s, i) == Some((a, i + enc_commission_withdraw_args(a).len())),
{
    vstd::bytes::lemma_auto_spec_u32_to_from_le_bytes();
    vstd::bytes::lemma_auto_spec_u64_to_from_le_bytes();
    let e = enc_commission_withdraw_args(a);
    let np = enc_key_list(a.path).len() as int;
    let nt = enc_fee_entry(a.token).len() as int;
    lemma_subrange_chunk(s, i, e, 0, 64);
    assert(e.subrange(0, 64) =~= a.signature);
    lemma_subrange_chunk(s, i, e, 64, 1);
    assert(e.subrange(64, 65) =~= enc_u8(a.recovery_id));
    lemma_dec_u8(s, i + 64, a.recovery_id);
    lemma_subrange_chunk(s, i, e, 65, np);
    assert(e.subrange(65, 65 + np) =~= enc_key_list(a.path));
    lemma_dec_key_list(s, i + 65, a.path);
    lemma_subrange_chunk(s, i, e, 65 + np, nt);
    assert(e.subrange(65 + np, 65 + np + nt) =~= enc_fee_entry(a.token));
    lemma_dec_fee_entry(s, i + 65 + np, a.token);
    lemma_subrange_chunk(s, i, e, 65 + np + nt, 8);
    assert(e.subrange(65 + np + nt, 73 + np + nt) =~= enc_u64(a.withdraw_amount));
    lemma_dec_u64(s, i + 65 + np + nt, a.withdraw_amount);
}

// ===== the instruction union =====

/// One externally invoked commission instruction. The first payload byte
/// selects the variant.
pub enum CommissionInstruction {
    InitializeAdmin(InitializeAdminArgs),
    ChargeCommission(CommissionArgs),
    AddFeeToken(FeeTokenArgs),
    RemoveFeeToken(FeeTokenArgs),
    UpdateFeeToken(FeeTokenArgs),
    Withdraw(WithdrawArgs),
}

pub enum CommissionInstructionView {
    InitializeAdmin(InitializeAdminArgsView),
    ChargeCommission(CommissionArgsView),
    AddFeeToken(FeeTokenArgsView),
    RemoveFeeToken(FeeTokenArgsView),
    UpdateFeeToken(FeeTokenArgsView),
    Withdraw(CommissionWithdrawArgsView),
}

impl View for CommissionInstruction {
    type V = CommissionInstructionView;

    open spec fn view(&self) -> CommissionInstructionView {
        match self {
            CommissionInstruction::InitializeAdmin(a) => CommissionInstructionView::InitializeAdmin(
                a@,
            ),
            CommissionInstruction::ChargeCommission(a) => {
                CommissionInstructionView::ChargeCommission(a@)
            },
            CommissionInstruction::AddFeeToken(a) => CommissionInstructionView::AddFeeToken(a@),
            CommissionInstruction::RemoveFeeToken(a) => CommissionInstructionView::RemoveFeeToken(
                a@,
            ),
            CommissionInstruction::UpdateFeeToken(a) => CommissionInstructionView::UpdateFeeToken(
                a@,
            ),
            CommissionInstruction::Withdraw(a) => CommissionInstructionView::Withdraw(a@),
        }
    }
}

impl CommissionInstructionView {
    pub open spec fn wf(self) -> bool {
        match self {
            CommissionInstructionView::InitializeAdmin(a) => a.wf(),
            CommissionInstructionView::ChargeCommission(a) => a.wf(),
            CommissionInstructionView::AddFeeToken(a) => a.wf(),
            CommissionInstructionView::RemoveFeeToken(a) => a.wf(),
            CommissionInstructionView::UpdateFeeToken(a) => a.wf(),
            CommissionInstructionView::Withdraw(a) => a.wf(),
        }
    }
}

pub open spec fn enc_commission_instruction(v: CommissionInstructionView) -> Seq<u8>
    recommends
        v.wf(),
{
    match v {
        CommissionInstructionView::InitializeAdmin(a) => seq![0u8] + enc_commission_init_args(a),
        CommissionInstructionView::ChargeCommission(a) => seq![1u8] + enc_commission_args(a),
        CommissionInstructionView::AddFeeToken(a) => seq![2u8] + enc_fee_token_args(a),
        CommissionInstructionView::RemoveFeeToken(a) => seq![3u8] + enc_fee_token_args(a),
        CommissionInstructionView::UpdateFeeToken(a) => seq![4u8] + enc_fee_token_args(a),
        CommissionInstructionView::Withdraw(a) => seq![5u8] + enc_commission_withdraw_args(a),
    }
}

pub open spec fn dec_commission_instruction(s: Seq<u8>, i: int) -> Option<
    (CommissionInstructionView, int),
> {
    match dec_u8(s, i) {
        Some((tag, j)) => {
            if tag == 0 {
                match dec_commission_init_args(s, j) {
                    Some((a, k)) => Some((CommissionInstructionView::InitializeAdmin(a), k)),
                    None => None,
                }
            } else if tag == 1 {
                match dec_commission_args(s, j) {
                    Some((a, k)) => Some((CommissionInstructionView::ChargeCommission(a), k)),
                    None => None,
                }
            } else if tag == 2 {
                match dec_fee_token_args(s, j) {
                    Some((a, k)) => Some((CommissionInstructionView::AddFeeToken(a), k)),
                    None => None,
                }
            } else if tag == 3 {
                match dec_fee_token_args(s, j) {
                    Some((a, k)) => Some((CommissionInstructionView::RemoveFeeToken(a), k)),
                    None => None,
                }
            } else if tag == 4 {
                match dec_fee_token_args(s, j) {
                    Some((a, k)) => Some((CommissionInstructionView::UpdateFeeToken(a), k)),
                    None => None,
                }
            } else if tag == 5 {
                match dec_commission_withdraw_args(s, j) {
                    Some((a, k)) => Some((CommissionInstructionView::Withdraw(a), k)),
                    None => None,
                }
            } else {
                None
            }
        },
        None => None,
    }
}

impl CommissionInstruction {
    /// Serializes the instruction: the variant's tag byte, then its payload.
    pub fn pack(&self) -> (r: Vec<u8>)
        requires
            self@.wf(),
        ensures
            r@ == enc_commission_instruction(self@),
    {
        let mut out: Vec<u8> = Vec::new();
        match self {
            CommissionInstruction::InitializeAdmin(a) => {
                crate::codec::write_u8(&mut out, 0);
                a.encode(&mut out);
            },
            CommissionInstruction::ChargeCommission(a) => {
                crate::codec::write_u8(&mut out, 1);
                a.encode(&mut out);
            },
            CommissionInstruction::AddFeeToken(a) => {
                crate::codec::write_u8(&mut out, 2);
                a.encode(&mut out);
            },
            CommissionInstruction::RemoveFeeToken(a) => {
                crate::codec::write_u8(&mut out, 3);
                a.encode(&mut out);
            },
            CommissionInstruction::UpdateFeeToken(a) => {
                crate::codec::write_u8(&mut out, 4);
                a.encode(&mut out);
            },
            CommissionInstruction::Withdraw(a) => {
                crate::codec::write_u8(&mut out, 5);
                a.encode(&mut out);
            },
        }
        proof {
            assert(out@ =~= enc_commission_instruction(self@));
        }
        out
    }

    /// Parses an instruction payload; every byte must be consumed.
    pub fn unpack(data: &Vec<u8>) -> (r: Option<CommissionInstruction>)
        ensures
            match r {
                Some(v) => dec_commission_instruction(data@, 0) == Some((v@, data@.len() as int)),
                None => !(dec_commission_instruction(data@, 0) matches Some((_, end)) && end
                    == data@.len()),
            },
    {
        let parsed: Option<(CommissionInstruction, usize)> = match crate::codec::read_u8(data, 0) {
            Some((tag, j)) => {
                if tag == 0 {
                    match InitializeAdminArgs::decode(data, j) {
                        Some((a, k)) => Some((CommissionInstruction::InitializeAdmin(a), k)),
                        None => None,
                    }
                } else if tag == 1 {
                    match CommissionArgs::decode(data, j) {
                        Some((a, k)) => Some((CommissionInstruction::ChargeCommission(a), k)),
                        None => None,
                    }
                } else if tag == 2 {
                    match FeeTokenArgs::decode(data, j) {
                        Some((a, k)) => Some((CommissionInstruction::AddFeeToken(a), k)),
                        None => None,
                    }
                } else if tag == 3 {
                    match FeeTokenArgs::decode(data, j) {
                        Some((a, k)) => Some((CommissionInstruction::RemoveFeeToken(a), k)),
                        None => None,
                    }
                } else if tag == 4 {
                    match FeeTokenArgs::decode(data, j) {
                        Some((a, k)) => Some((CommissionInstruction::UpdateFeeToken(a), k)),
                        None => None,
                    }
                } else if tag == 5 {
                    match WithdrawArgs::decode(data, j) {
                        Some((a, k)) => Some((CommissionInstruction::Withdraw(a), k)),
                        None => None,
                    }
                } else {
                    None
                }
            },
            None => None,
        };
        match parsed {
            Some((v, end)) => {
                if end == data.len() {
                    Some(v)
                } else {
                    None
                }
            },
            None => None,
        }
    }
}

/// Decoding a packed commission instruction yields the instruction back,
/// whole.
pub proof fn lemma_dec_commission_instruction(v: CommissionInstructionView)
    requires
        v.wf(),
    ensures
        dec_commission_instruction(enc_commission_instruction(v), 0) == Some(
            (v, enc_commission_instruction(v).len() as int),
        ),
{
    let e = enc_commission_instruction(v);
    assert(e.subrange(0, e.len() as int) =~= e);
    match v {
        CommissionInstructionView::InitializeAdmin(a) => {
            assert(e.subrange(1, e.len() as int) =~= enc_fee_list(a.acceptable_tokens));
            lemma_dec_fee_list(e, 1, a.acceptable_tokens);
        },
        CommissionInstructionView::ChargeCommission(a) => {
            assert(e.subrange(1, e.len() as int) =~= enc_commission_args(a));
            lemma_dec_commission_args(e, 1, a);
        },
        CommissionInstructionView::AddFeeToken(a) => {
            assert(e.subrange(1, e.len() as int) =~= enc_fee_token_args(a));
            lemma_dec_fee_token_args(e, 1, a);
        },
        CommissionInstructionView::RemoveFeeToken(a) => {
            assert(e.subrange(1, e.len() as int) =~= enc_fee_token_args(a));
            lemma_dec_fee_token_args(e, 1, a);
        },
        CommissionInstructionView::UpdateFeeToken(a) => {
            assert(e.subrange(1, e.len() as int) =~= enc_fee_token_args(a));
            lemma_dec_fee_token_args(e, 1, a);
        },
        CommissionInstructionView::Withdraw(a) => {
            assert(e.subrange(1, e.len() as int) =~= enc_commission_withdraw_args(a));
            lemma_dec_commission_withdraw_args(e, 1, a);
        },
    }
}

} // verus!
