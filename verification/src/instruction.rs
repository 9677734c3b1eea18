//! The bridge's instruction payloads: one tagged union whose first byte
//! selects the variant, with every argument struct encoded field by field in
//! declaration order.

use vstd::prelude::*;
use crate::codec::dec_bytes;
use crate::codec::dec_key_list;
use crate::codec::dec_opt_bytes;
use crate::codec::dec_opt_key;
use crate::codec::dec_raw;
use crate::codec::dec_u64;
use crate::codec::dec_u8;
use crate::codec::enc_bytes;
use crate::codec::enc_key_list;
use crate::codec::enc_opt_bytes;
use crate::codec::enc_opt_key;
use crate::codec::enc_u64;
use crate::codec::enc_u8;
use crate::codec::key_list_wf;
use crate::codec::lemma_dec_bytes;
use crate::codec::lemma_dec_key_list;
use crate::codec::lemma_dec_opt_bytes;
use crate::codec::lemma_dec_opt_key;
use crate::codec::lemma_dec_u64;
use crate::codec::lemma_dec_u8;
use crate::codec::lemma_subrange_chunk;
use crate::codec::view_opt_bytes;
use crate::codec::view_opt_key;
use crate::error::BridgeError;
use crate::state::MAX_ADDRESS_SIZE;
use crate::state::MAX_NETWORKS_SIZE;

verus! {

/// Longest accepted token name in a metadata record, in bytes.
pub const MAX_NAME_LENGTH: usize = 32;

/// Longest accepted token symbol in a metadata record, in bytes.
pub const MAX_SYMBOL_LENGTH: usize = 10;

/// Longest accepted metadata URI, in bytes.
pub const MAX_URI_LENGTH: usize = 200;

// ===== InitializeAdmin =====

/// Arguments of the admin-creation instruction.
pub struct InitializeAdminArgs {
    /// The operator's compressed secp256k1 public key.
    pub public_key: [u8; 33],
    /// The 32-byte seeds value the admin address is derived from.
    pub seeds: [u8; 32],
}

pub struct InitializeAdminArgsView {
    pub public_key: Seq<u8>,
    pub seeds: Seq<u8>,
}

impl View for InitializeAdminArgs {
    type V = InitializeAdminArgsView;

    open spec fn view(&self) -> InitializeAdminArgsView {
        InitializeAdminArgsView { public_key: self.public_key@, seeds: self.seeds@ }
    }
}

pub open spec fn enc_initialize_admin_args(a: InitializeAdminArgsView) -> Seq<u8> {
    a.public_key + a.seeds
}

pub open spec fn dec_initialize_admin_args(s: Seq<u8>, i: int) -> Option<
    (InitializeAdminArgsView, int),
> {
    match dec_raw(s, i, 33) {
        Some((pk, j)) => match dec_raw(s, j, 32) {
            Some((seeds, k)) => Some((InitializeAdminArgsView { public_key: pk, seeds }, k)),
            None => None,
        },
        None => None,
    }
}

impl InitializeAdminArgs {
    pub fn encode(&self, out: &mut Vec<u8>)
        ensures
            final(out)@ == old(out)@ + enc_initialize_admin_args(self@),
    {
        crate::codec::write_arr(out, self.public_key.as_slice());
        crate::codec::write_arr(out, self.seeds.as_slice());
        proof {
            assert(out@ =~= old(out)@ + enc_initialize_admin_args(self@));
        }
    }

    pub fn decode(data: &Vec<u8>, pos: usize) -> (r: Option<(InitializeAdminArgs, usize)>)
        ensures
            match r {
                Some((v, end)) => dec_initialize_admin_args(data@, pos as int) == Some(
                    (v@, end as int),
                ),
                None => dec_initialize_admin_args(data@, pos as int) is None,
            },
    {
        match crate::codec::read_bytes33(data, pos) {
            Some((pk, j)) => match crate::codec::read_bytes32(data, j) {
                Some((seeds, k)) => Some((InitializeAdminArgs { public_key: pk, seeds }, k)),
                None => None,
            },
            None => None,
        }
    }
}

pub proof fn lemma_dec_initialize_admin_args(s: Seq<u8>, i: int, a: InitializeAdminArgsView)
    requires
        0 <= i,
        a.public_key.len() == 33,
        a.seeds.len() == 32,
        i + 65 <= s.len(),
        s.subrange(i, i + 65) == enc_initialize_admin_args(a),
    ensures
        dec_initialize_admin_args(s, i) == Some((a, i + 65)),
{
    let e = enc_initialize_admin_args(a);
    lemma_subrange_chunk(s, i, e, 0, 33);
    assert(e.subrange(0, 33) =~= a.public_key);
    lemma_subrange_chunk(s, i, e, 33, 32);
    assert(e.subrange(33, 65) =~= a.seeds);
}

// ===== TransferOwnership =====

/// Arguments of the key-rotation instruction: the new key, signed by the old
/// one.
pub struct TransferOwnershipArgs {
    pub new_public_key: [u8; 33],
    /// Signature over the raw new public key, by the old key.
    pub signature: [u8; 64],
    pub recovery_id: u8,
    pub seeds: [u8; 32],
}

pub struct TransferOwnershipArgsView {
    pub new_public_key: Seq<u8>,
    pub signature: Seq<u8>,
    pub recovery_id: u8,
    pub seeds: Seq<u8>,
}

impl View for TransferOwnershipArgs {
    type V = TransferOwnershipArgsView;

    open spec fn view(&self) -> TransferOwnershipArgsView {
        TransferOwnershipArgsView {
            new_public_key: self.new_public_key@,
            signature: self.signature@,
            recovery_id: self.recovery_id,
            seeds: self.seeds@,
        }
    }
}

pub open spec fn enc_transfer_ownership_args(a: TransferOwnershipArgsView) -> Seq<u8> {
    a.new_public_key + a.signature + enc_u8(a.recovery_id) + a.seeds
}

pub open spec fn dec_transfer_ownership_args(s: Seq<u8>, i: int) -> Option<
    (TransferOwnershipArgsView, int),
> {
    match dec_raw(s, i, 33) {
        Some((pk, j)) => match dec_raw(s, j, 64) {
            Some((sig, k)) => match dec_u8(s, k) {
                Some((rid, l)) => match dec_raw(s, l, 32) {
                    Some((seeds, m)) => Some(
                        (
                            TransferOwnershipArgsView {
                                new_public_key: pk,
                                signature: sig,
                                recovery_id: rid,
                                seeds,
                            },
                            m,
                        ),
                    ),
                    None => None,
                },
                None => None,
            },
            None => None,
        },
        None => None,
    }
}

impl TransferOwnershipArgs {
    pub fn encode(&self, out: &mut Vec<u8>)
        ensures
            final(out)@ == old(out)@ + enc_transfer_ownership_args(self@),
    {
        crate::codec::write_arr(out, self.new_public_key.as_slice());
        crate::codec::write_arr(out, self.signature.as_slice());
        crate::codec::write_u8(out, self.recovery_id);
        crate::codec::write_arr(out, self.seeds.as_slice());
        proof {
            assert(out@ =~= old(out)@ + enc_transfer_ownership_args(self@));
        }
    }

    pub fn decode(data: &Vec<u8>, pos: usize) -> (r: Option<(TransferOwnershipArgs, usize)>)
        ensures
            match r {
                Some((v, end)) => dec_transfer_ownership_args(data@, pos as int) == Some(
                    (v@, end as int),
                ),
                None => dec_transfer_ownership_args(data@, pos as int) is None,
            },
    {
        match crate::codec::read_bytes33(data, pos) {
            Some((pk, j)) => match crate::codec::read_bytes64(data, j) {
                Some((sig, k)) => match crate::codec::read_u8(data, k) {
                    Some((rid, l)) => match crate::codec::read_bytes32(data, l) {
                        Some((seeds, m)) => Some(
                            (
                                TransferOwnershipArgs {
                                    new_public_key: pk,
                                    signature: sig,
                                    recovery_id: rid,
                                    seeds,
                                },
                                m,
                            ),
                        ),
                        None => None,
                    },
                    None => None,
                },
                None => None,
            },
            None => None,
        }
    }
}

pub proof fn lemma_dec_transfer_ownership_args(s: Seq<u8>, i: int, a: TransferOwnershipArgsView)
    requires
        0 <= i,
        a.new_public_key.len() == 33,
        a.signature.len() == 64,
        a.seeds.len() == 32,
        i + 130 <= s.len(),
        s.subrange(i, i + 130) == enc_transfer_ownership_args(a),
    ensures
        dec_transfer_ownership_args(s, i) == Some((a, i + 130)),
{
    let e = enc_transfer_ownership_args(a);
    lemma_subrange_chunk(s, i, e, 0, 33);
    assert(e.subrange(0, 33) =~= a.new_public_key);
    lemma_subrange_chunk(s, i, e, 33, 64);
    assert(e.subrange(33, 97) =~= a.signature);
    lemma_subrange_chunk(s, i, e, 97, 1);
    assert(e.subrange(97, 98) =~= enc_u8(a.recovery_id));
    lemma_dec_u8(s, i + 97, a.recovery_id);
    lemma_subrange_chunk(s, i, e, 98, 32);
    assert(e.subrange(98, 130) =~= a.seeds);
}

// ===== deposits =====

/// Arguments of a native-coin deposit.
pub struct DepositNativeArgs {
    pub amount: u64,
    /// Name of the destination network, UTF-8 bytes.
    pub network_to: Vec<u8>,
    /// Receiver address on the destination network, UTF-8 bytes.
    pub receiver_address: Vec<u8>,
    pub seeds: [u8; 32],
    pub bundle_data: Option<Vec<u8>>,
    pub bundle_seed: Option<[u8; 32]>,
}

pub struct DepositNativeArgsView {
    pub amount: u64,
    pub network_to: Seq<u8>,
    pub receiver_address: Seq<u8>,
    pub seeds: Seq<u8>,
    pub bundle_data: Option<Seq<u8>>,
    pub bundle_seed: Option<Seq<u8>>,
}

impl View for DepositNativeArgs {
    type V = DepositNativeArgsView;

    open spec fn view(&self) -> DepositNativeArgsView {
        DepositNativeArgsView {
            amount: self.amount,
            network_to: self.network_to@,
            receiver_address: self.receiver_address@,
            seeds: self.seeds@,
            bundle_data: view_opt_bytes(self.bundle_data),
            bundle_seed: view_opt_key(self.bundle_seed),
        }
    }
}

impl DepositNativeArgsView {
    pub open spec fn wf(self) -> bool {
        &&& self.network_to.len() <= u32::MAX
        &&& self.receiver_address.len() <= u32::MAX
        &&& self.seeds.len() == 32
        &&& (self.bundle_data matches Some(b) ==> b.len() <= u32::MAX)
        &&& (self.bundle_seed matches Some(k) ==> k.len() == 32)
    }

    /// The bounds a deposit must meet: a bounded receiver and network name,
    /// and a positive amount.
    pub open spec fn valid(self) -> bool {
        &&& self.receiver_address.len() <= MAX_ADDRESS_SIZE
        &&& self.network_to.len() <= MAX_NETWORKS_SIZE
        &&& self.amount > 0
    }
}

pub open spec fn enc_deposit_native_args(a: DepositNativeArgsView) -> Seq<u8>
    recommends
        a.wf(),
{
    enc_u64(a.amount) + enc_bytes(a.network_to) + enc_bytes(a.receiver_address) + a.seeds
        + enc_opt_bytes(a.bundle_data) + enc_opt_key(a.bundle_seed)
}

pub open spec fn dec_deposit_native_args(s: Seq<u8>, i: int) -> Option<
    (DepositNativeArgsView, int),
> {
    match dec_u64(s, i) {
        Some((amount, j)) => match dec_bytes(s, j) {
            Some((network, k)) => match dec_bytes(s, k) {
                Some((receiver, l)) => match dec_raw(s, l, 32) {
                    Some((seeds, m)) => match dec_opt_bytes(s, m) {
                        Some((bd, n)) => match dec_opt_key(s, n) {
                            Some((bs, o)) => Some(
                                (
                                    DepositNativeArgsView {
                                        amount,
                                        network_to: network,
                                        receiver_address: receiver,
                                        seeds,
                                        bundle_data: bd,
                                        bundle_seed: bs,
                                    },
                                    o,
                                ),
                            ),
                            None => None,
                        },
                        None => None,
                    },
                    None => None,
                },
                None => None,
            },
            None => None,
        },
        None => None,
    }
}

impl DepositNativeArgs {
    pub fn encode(&self, out: &mut Vec<u8>)
        requires
            self@.wf(),
        ensures
            final(out)@ == old(out)@ + enc_deposit_native_args(self@),
    {
        crate::codec::write_u64(out, self.amount);
        crate::codec::write_bytes(out, &self.network_to);
        crate::codec::write_bytes(out, &self.receiver_address);
        crate::codec::write_arr(out, self.seeds.as_slice());
        crate::codec::write_opt_bytes(out, &self.bundle_data);
        crate::codec::write_opt_key(out, &self.bundle_seed);
        proof {
            assert(out@ =~= old(out)@ + enc_deposit_native_args(self@));
        }
    }

    pub fn decode(data: &Vec<u8>, pos: usize) -> (r: Option<(DepositNativeArgs, usize)>)
        ensures
            match r {
                Some((v, end)) => dec_deposit_native_args(data@, pos as int) == Some(
                    (v@, end as int),
                ),
                None => dec_deposit_native_args(data@, pos as int) is None,
            },
    {
        match crate::codec::read_u64(data, pos) {
            Some((amount, j)) => match crate::codec::read_bytes(data, j) {
                Some((network, k)) => match crate::codec::read_bytes(data, k) {
                    Some((receiver, l)) => match crate::codec::read_bytes32(data, l) {
                        Some((seeds, m)) => match crate::codec::read_opt_bytes(data, m) {
                            Some((bd, n)) => match crate::codec::read_opt_key(data, n) {
                                Some((bs, o)) => Some(
                                    (
                                        DepositNativeArgs {
                                            amount,
                                            network_to: network,
                                            receiver_address: receiver,
                                            seeds,
                                            bundle_data: bd,
                                            bundle_seed: bs,
                                        },
                                        o,
                                    ),
                                ),
                                None => None,
                            },
                            None => None,
                        },
                        None => None,
                    },
                    None => None,
                },
                None => None,
            },
            None => None,
        }
    }

    /// Rejects over-long receiver or network names and a zero amount.
    pub fn validate(&self) -> (r: Result<(), BridgeError>)
        ensures
            r is Ok <==> self@.valid(),
            r is Err ==> r == Err::<(), BridgeError>(BridgeError::WrongArgsSize),
    {
        if self.receiver_address.len() > MAX_ADDRESS_SIZE || self.network_to.len()
            > MAX_NETWORKS_SIZE || self.amount == 0 {
            return Err(BridgeError::WrongArgsSize);
        }
        Ok(())
    }
}

pub proof fn lemma_dec_deposit_native_args(s: Seq<u8>, i: int, a: DepositNativeArgsView)
    requires
        0 <= i,
        a.wf(),
        i + enc_deposit_native_args(a).len() <= s.len(),
        s.subrange(i, i + enc_deposit_native_args(a).len()) == enc_deposit_native_args(a),
    ensures
        dec_deposit_native_args(s, i) == Some((a, i + enc_deposit_native_args(a).len())),
{
    vstd::bytes::lemma_auto_spec_u64_to_from_le_bytes();
    vstd::bytes::lemma_auto_spec_u32_to_from_le_bytes();
    let e = enc_deposit_native_args(a);
    let n1 = 4 + a.network_to.len() as int;
    let n2 = 4 + a.receiver_address.len() as int;
    let n3 = enc_opt_bytes(a.bundle_data).len() as int;
    let n4 = enc_opt_key(a.bundle_seed).len() as int;
    lemma_subrange_chunk(s, i, e, 0, 8);
    assert(e.subrange(0, 8) =~= enc_u64(a.amount));
    lemma_dec_u64(s, i, a.amount);
    lemma_subrange_chunk(s, i, e, 8, n1);
    assert(e.subrange(8, 8 + n1) =~= enc_bytes(a.network_to));
    lemma_dec_bytes(s, i + 8, a.network_to);
    lemma_subrange_chunk(s, i, e, 8 + n1, n2);
    assert(e.subrange(8 + n1, 8 + n1 + n2) =~= enc_bytes(a.receiver_address));
    lemma_dec_bytes(s, i + 8 + n1, a.receiver_address);
    lemma_subrange_chunk(s, i, e, 8 + n1 + n2, 32);
    assert(e.subrange(8 + n1 + n2, 8 + n1 + n2 + 32) =~= a.seeds);
    lemma_subrange_chunk(s, i, e, 40 + n1 + n2, n3);
    assert(e.subrange(40 + n1 + n2, 40 + n1 + n2 + n3) =~= enc_opt_bytes(a.bundle_data));
    lemma_dec_opt_bytes(s, i + 40 + n1 + n2, a.bundle_data);
    lemma_subrange_chunk(s, i, e, 40 + n1 + n2 + n3, n4);
    assert(e.subrange(40 + n1 + n2 + n3, 40 + n1 + n2 + n3 + n4) =~= enc_opt_key(a.bundle_seed));
    lemma_dec_opt_key(s, i + 40 + n1 + n2 + n3, a.bundle_seed);
}

/// Arguments of a fungible-token deposit.
pub struct DepositFTArgs {
    pub amount: u64,
    pub network_to: Vec<u8>,
    pub receiver_address: Vec<u8>,
    pub seeds: [u8; 32],
    /// Present where the mint is a bridge-minted mirror, derived from this seed.
    pub token_seed: Option<[u8; 32]>,
    pub bundle_data: Option<Vec<u8>>,
    pub bundle_seed: Option<[u8; 32]>,
}

pub struct DepositFTArgsView {
    pub amount: u64,
    pub network_to: Seq<u8>,
    pub receiver_address: Seq<u8>,
    pub seeds: Seq<u8>,
    pub token_seed: Option<Seq<u8>>,
    pub bundle_data: Option<Seq<u8>>,
    pub bundle_seed: Option<Seq<u8>>,
}

impl View for DepositFTArgs {
    type V = DepositFTArgsView;

    open spec fn view(&self) -> DepositFTArgsView {
        DepositFTArgsView {
            amount: self.amount,
            network_to: self.network_to@,
            receiver_address: self.receiver_address@,
            seeds: self.seeds@,
            token_seed: view_opt_key(self.token_seed),
            bundle_data: view_opt_bytes(self.bundle_data),
            bundle_seed: view_opt_key(self.bundle_seed),
        }
    }
}

impl DepositFTArgsView {
    pub open spec fn wf(self) -> bool {
        &&& self.network_to.len() <= u32::MAX
        &&& self.receiver_address.len() <= u32::MAX
        &&& self.seeds.len() == 32
        &&& (self.token_seed matches Some(k) ==> k.len() == 32)
        &&& (self.bundle_data matches Some(b) ==> b.len() <= u32::MAX)
        &&& (self.bundle_seed matches Some(k) ==> k.len() == 32)
    }

    /// The bounds a deposit must meet: a bounded receiver and network name,
    /// and a positive amount.
    pub open spec fn valid(self) -> bool {
        &&& self.receiver_address.len() <= MAX_ADDRESS_SIZE
        &&& self.network_to.len() <= MAX_NETWORKS_SIZE
        &&& self.amount > 0
    }
}

pub open spec fn enc_deposit_ft_args(a: DepositFTArgsView) -> Seq<u8>
    recommends
        a.wf(),
{
    enc_u64(a.amount) + enc_bytes(a.network_to) + enc_bytes(a.receiver_address) + a.seeds
        + enc_opt_key(a.token_seed) + enc_opt_bytes(a.bundle_data) + enc_opt_key(a.bundle_seed)
}

pub open spec fn dec_deposit_ft_args(s: Seq<u8>, i: int) -> Option<(DepositFTArgsView, int)> {
    match dec_u64(s, i) {
        Some((amount, j)) => match dec_bytes(s, j) {
            Some((network, k)) => match dec_bytes(s, k) {
                Some((receiver, l)) => match dec_raw(s, l, 32) {
                    Some((seeds, m)) => match dec_opt_key(s, m) {
                        Some((ts, n)) => match dec_opt_bytes(s, n) {
                            Some((bd, o)) => match dec_opt_key(s, o) {
                                Some((bs, p)) => Some(
                                    (
                                        DepositFTArgsView {
                                            amount,
                                            network_to: network,
                                            receiver_address: receiver,
                                            seeds,
                                            token_seed: ts,
                                            bundle_data: bd,
                                            bundle_seed: bs,
                                        },
                                        p,
                                    ),
                                ),
                                None => None,
                            },
                            None => None,
                        },
                        None => None,
                    },
                    None => None,
                },
                None => None,
            },
            None => None,
        },
        None => None,
    }
}

impl DepositFTArgs {
    pub fn encode(&self, out: &mut Vec<u8>)
        requires
            self@.wf(),
        ensures
            final(out)@ == old(out)@ + enc_deposit_ft_args(self@),
    {
        crate::codec::write_u64(out, self.amount);
        crate::codec::write_bytes(out, &self.network_to);
        crate::codec::write_bytes(out, &self.receiver_address);
        crate::codec::write_arr(out, self.seeds.as_slice());
        crate::codec::write_opt_key(out, &self.token_seed);
        crate::codec::write_opt_bytes(out, &self.bundle_data);
        crate::codec::write_opt_key(out, &self.bundle_seed);
        proof {
            assert(out@ =~= old(out)@ + enc_deposit_ft_args(self@));
        }
    }

    pub fn decode(data: &Vec<u8>, pos: usize) -> (r: Option<(DepositFTArgs, usize)>)
        ensures
            match r {
                Some((v, end)) => dec_deposit_ft_args(data@, pos as int) == Some((v@, end as int)),
                None => dec_deposit_ft_args(data@, pos as int) is None,
            },
    {
        match crate::codec::read_u64(data, pos) {
            Some((amount, j)) => match crate::codec::read_bytes(data, j) {
                Some((network, k)) => match crate::codec::read_bytes(data, k) {
                    Some((receiver, l)) => match crate::codec::read_bytes32(data, l) {
                        Some((seeds, m)) => match crate::codec::read_opt_key(data, m) {
                            Some((ts, n)) => match crate::codec::read_opt_bytes(data, n) {
                                Some((bd, o)) => match crate::codec::read_opt_key(data, o) {
                                    Some((bs, p)) => Some(
                                        (
                                            DepositFTArgs {
                                                amount,
                                                network_to: network,
                                                receiver_address: receiver,
                                                seeds,
                                                token_seed: ts,
                                                bundle_data: bd,
                                                bundle_seed: bs,
                                            },
                                            p,
                                        ),
                                    ),
                                    None => None,
                                },
                                None => None,
                            },
                            None => None,
                        },
                        None => None,
                    },
                    None => None,
                },
                None => None,
            },
            None => None,
        }
    }

    /// Rejects over-long receiver or network names and a zero amount.
    pub fn validate(&self) -> (r: Result<(), BridgeError>)
        ensures
            r is Ok <==> self@.valid(),
            r is Err ==> r == Err::<(), BridgeError>(BridgeError::WrongArgsSize),
    {
        if self.receiver_address.len() > MAX_ADDRESS_SIZE || self.network_to.len()
            > MAX_NETWORKS_SIZE || self.amount == 0 {
            return Err(BridgeError::WrongArgsSize);
        }
        Ok(())
    }
}

pub proof fn lemma_dec_deposit_ft_args(s: Seq<u8>, i: int, a: DepositFTArgsView)
    requires
        0 <= i,
        a.wf(),
        i + enc_deposit_ft_args(a).len() <= s.len(),
        s.subrange(i, i + enc_deposit_ft_args(a).len()) == enc_deposit_ft_args(a),
    ensures
        dec_deposit_ft_args(s, i) == Some((a, i + enc_deposit_ft_args(a).len())),
{
    vstd::bytes::lemma_auto_spec_u64_to_from_le_bytes();
    vstd::bytes::lemma_auto_spec_u32_to_from_le_bytes();
    let e = enc_deposit_ft_args(a);
    let n1 = 4 + a.network_to.len() as int;
    let n2 = 4 + a.receiver_address.len() as int;
    let nt = enc_opt_key(a.token_seed).len() as int;
    let n3 = enc_opt_bytes(a.bundle_data).len() as int;
    let n4 = enc_opt_key(a.bundle_seed).len() as int;
    lemma_subrange_chunk(s, i, e, 0, 8);
    assert(e.subrange(0, 8) =~= enc_u64(a.amount));
    lemma_dec_u64(s, i, a.amount);
    lemma_subrange_chunk(s, i, e, 8, n1);
    assert(e.subrange(8, 8 + n1) =~= enc_bytes(a.network_to));
    lemma_dec_bytes(s, i + 8, a.network_to);
    lemma_subrange_chunk(s, i, e, 8 + n1, n2);
    assert(e.subrange(8 + n1, 8 + n1 + n2) =~= enc_bytes(a.receiver_address));
    lemma_dec_bytes(s, i + 8 + n1, a.receiver_address);
    lemma_subrange_chunk(s, i, e, 8 + n1 + n2, 32);
    assert(e.subrange(8 + n1 + n2, 8 + n1 + n2 + 32) =~= a.seeds);
    lemma_subrange_chunk(s, i, e, 40 + n1 + n2, nt);
    assert(e.subrange(40 + n1 + n2, 40 + n1 + n2 + nt) =~= enc_opt_key(a.token_seed));
    lemma_dec_opt_key(s, i + 40 + n1 + n2, a.token_seed);
    lemma_subrange_chunk(s, i, e, 40 + n1 + n2 + nt, n3);
    assert(e.subrange(40 + n1 + n2 + nt, 40 + n1 + n2 + nt + n3) =~= enc_opt_bytes(a.bundle_data));
    lemma_dec_opt_bytes(s, i + 40 + n1 + n2 + nt, a.bundle_data);
    lemma_subrange_chunk(s, i, e, 40 + n1 + n2 + nt + n3, n4);
    assert(e.subrange(40 + n1 + n2 + nt + n3, 40 + n1 + n2 + nt + n3 + n4) =~= enc_opt_key(
        a.bundle_seed,
    ));
    lemma_dec_opt_key(s, i + 40 + n1 + n2 + nt + n3, a.bundle_seed);
}

/// Arguments of a non-fungible-token deposit; the moved amount is fixed at
/// one.
pub struct DepositNFTArgs {
    pub network_to: Vec<u8>,
    pub receiver_address: Vec<u8>,
    pub seeds: [u8; 32],
    /// Present where the mint is a bridge-minted mirror, derived from this seed.
    pub token_seed: Option<[u8; 32]>,
    pub bundle_data: Option<Vec<u8>>,
    pub bundle_seed: Option<[u8; 32]>,
}

pub struct DepositNFTArgsView {
    pub network_to: Seq<u8>,
    pub receiver_address: Seq<u8>,
    pub seeds: Seq<u8>,
    pub token_seed: Option<Seq<u8>>,
    pub bundle_data: Option<Seq<u8>>,
    pub bundle_seed: Option<Seq<u8>>,
}

impl View for DepositNFTArgs {
    type V = DepositNFTArgsView;

    open spec fn view(&self) -> DepositNFTArgsView {
        DepositNFTArgsView {
            network_to: self.network_to@,
            receiver_address: self.receiver_address@,
            seeds: self.seeds@,
            token_seed: view_opt_key(self.token_seed),
            bundle_data: view_opt_bytes(self.bundle_data),
            bundle_seed: view_opt_key(self.bundle_seed),
        }
    }
}

impl DepositNFTArgsView {
    pub open spec fn wf(self) -> bool {
        &&& self.network_to.len() <= u32::MAX
        &&& self.receiver_address.len() <= u32::MAX
        &&& self.seeds.len() == 32
        &&& (self.token_seed matches Some(k) ==> k.len() == 32)
        &&& (self.bundle_data matches Some(b) ==> b.len() <= u32::MAX)
        &&& (self.bundle_seed matches Some(k) ==> k.len() == 32)
    }

    /// The bounds a deposit must meet: a bounded receiver and network name.
    pub open spec fn valid(self) -> bool {
        &&& self.receiver_address.len() <= MAX_ADDRESS_SIZE
        &&& self.network_to.len() <= MAX_NETWORKS_SIZE
    }
}

pub open spec fn enc_deposit_nft_args(a: DepositNFTArgsView) -> Seq<u8>
    recommends
        a.wf(),
{
    enc_bytes(a.network_to) + enc_bytes(a.receiver_address) + a.seeds + enc_opt_key(a.token_seed)
        + enc_opt_bytes(a.bundle_data) + enc_opt_key(a.bundle_seed)
}

pub open spec fn dec_deposit_nft_args(s: Seq<u8>, i: int) -> Option<(DepositNFTArgsView, int)> {
    match dec_bytes(s, i) {
        Some((network, k)) => match dec_bytes(s, k) {
            Some((receiver, l)) => match dec_raw(s, l, 32) {
                Some((seeds, m)) => match dec_opt_key(s, m) {
                    Some((ts, n)) => match dec_opt_bytes(s, n) {
                        Some((bd, o)) => match dec_opt_key(s, o) {
                            Some((bs, p)) => Some(
                                (
                                    DepositNFTArgsView {
                                        network_to: network,
                                        receiver_address: receiver,
                                        seeds,
                                        token_seed: ts,
                                        bundle_data: bd,
                                        bundle_seed: bs,
                                    },
                                    p,
                                ),
                            ),
                            None => None,
                        },
                        None => None,
                    },
                    None => None,
                },
                None => None,
            },
            None => None,
        },
        None => None,
    }
}

impl DepositNFTArgs {
    pub fn encode(&self, out: &mut Vec<u8>)
        requires
            self@.wf(),
        ensures
            final(out)@ == old(out)@ + enc_deposit_nft_args(self@),
    {
        crate::codec::write_bytes(out, &self.network_to);
        crate::codec::write_bytes(out, &self.receiver_address);
        crate::codec::write_arr(out, self.seeds.as_slice());
        crate::codec::write_opt_key(out, &self.token_seed);
        crate::codec::write_opt_bytes(out, &self.bundle_data);
        crate::codec::write_opt_key(out, &self.bundle_seed);
        proof {
            assert(out@ =~= old(out)@ + enc_deposit_nft_args(self@));
        }
    }

    pub fn decode(data: &Vec<u8>, pos: usize) -> (r: Option<(DepositNFTArgs, usize)>)
        ensures
            match r {
                Some((v, end)) => dec_deposit_nft_args(data@, pos as int) == Some((v@, end as int)),
                None => dec_deposit_nft_args(data@, pos as int) is None,
            },
    {
        match crate::codec::read_bytes(data, pos) {
            Some((network, k)) => match crate::codec::read_bytes(data, k) {
                Some((receiver, l)) => match crate::codec::read_bytes32(data, l) {
                    Some((seeds, m)) => match crate::codec::read_opt_key(data, m) {
                        Some((ts, n)) => match crate::codec::read_opt_bytes(data, n) {
                            Some((bd, o)) => match crate::codec::read_opt_key(data, o) {
                                Some((bs, p)) => Some(
                                    (
                                        DepositNFTArgs {
                                            network_to: network,
                                            receiver_address: receiver,
                                            seeds,
                                            token_seed: ts,
                                            bundle_data: bd,
                                            bundle_seed: bs,
                                        },
                                        p,
                                    ),
                                ),
                                None => None,
                            },
                            None => None,
                        },
                        None => None,
                    },
                    None => None,
                },
                None => None,
            },
            None => None,
        }
    }

    /// Rejects over-long receiver or network names.
    pub fn validate(&self) -> (r: Result<(), BridgeError>)
        ensures
            r is Ok <==> self@.valid(),
            r is Err ==> r == Err::<(), BridgeError>(BridgeError::WrongArgsSize),
    {
        if self.receiver_address.len() > MAX_ADDRESS_SIZE || self.network_to.len()
            > MAX_NETWORKS_SIZE {
            return Err(BridgeError::WrongArgsSize);
        }
        Ok(())
    }
}

pub proof fn lemma_dec_deposit_nft_args(s: Seq<u8>, i: int, a: DepositNFTArgsView)
    requires
        0 <= i,
        a.wf(),
        i + enc_deposit_nft_args(a).len() <= s.len(),
        s.subrange(i, i + enc_deposit_nft_args(a).len()) == enc_deposit_nft_args(a),
    ensures
        dec_deposit_nft_args(s, i) == Some((a, i + enc_deposit_nft_args(a).len())),
{
    vstd::bytes::lemma_auto_spec_u32_to_from_le_bytes();
    let e = enc_deposit_nft_args(a);
    let n1 = 4 + a.network_to.len() as int;
    let n2 = 4 + a.receiver_address.len() as int;
    let nt = enc_opt_key(a.token_seed).len() as int;
    let n3 = enc_opt_bytes(a.bundle_data).len() as int;
    let n4 = enc_opt_key(a.bundle_seed).len() as int;
    lemma_subrange_chunk(s, i, e, 0, n1);
    assert(e.subrange(0, n1) =~= enc_bytes(a.network_to));
    lemma_dec_bytes(s, i, a.network_to);
    lemma_subrange_chunk(s, i, e, n1, n2);
    assert(e.subrange(n1, n1 + n2) =~= enc_bytes(a.receiver_address));
    lemma_dec_bytes(s, i + n1, a.receiver_address);
    lemma_subrange_chunk(s, i, e, n1 + n2, 32);
    assert(e.subrange(n1 + n2, n1 + n2 + 32) =~= a.seeds);
    lemma_subrange_chunk(s, i, e, 32 + n1 + n2, nt);
    assert(e.subrange(32 + n1 + n2, 32 + n1 + n2 + nt) =~= enc_opt_key(a.token_seed));
    lemma_dec_opt_key(s, i + 32 + n1 + n2, a.token_seed);
    lemma_subrange_chunk(s, i, e, 32 + n1 + n2 + nt, n3);
    assert(e.subrange(32 + n1 + n2 + nt, 32 + n1 + n2 + nt + n3) =~= enc_opt_bytes(a.bundle_data));
    lemma_dec_opt_bytes(s, i + 32 + n1 + n2 + nt, a.bundle_data);
    lemma_subrange_chunk(s, i, e, 32 + n1 + n2 + nt + n3, n4);
    assert(e.subrange(32 + n1 + n2 + nt + n3, 32 + n1 + n2 + nt + n3 + n4) =~= enc_opt_key(
        a.bundle_seed,
    ));
    lemma_dec_opt_key(s, i + 32 + n1 + n2 + nt + n3, a.bundle_seed);
}

// ===== metadata carried by a withdrawal =====

/// Operator-signed metadata of a bridge-minted mirror: what the mint and its
/// metadata record are created with.
pub struct SignedMetadata {
    pub name: Vec<u8>,
    pub symbol: Vec<u8>,
    pub uri: Vec<u8>,
    pub decimals: u8,
}

pub struct SignedMetadataView {
    pub name: Seq<u8>,
    pub symbol: Seq<u8>,
    pub uri: Seq<u8>,
    pub decimals: u8,
}

impl View for SignedMetadata {
    type V = SignedMetadataView;

    open spec fn view(&self) -> SignedMetadataView {
        SignedMetadataView {
            name: self.name@,
            symbol: self.symbol@,
            uri: self.uri@,
            decimals: self.decimals,
        }
    }
}

impl SignedMetadataView {
    pub open spec fn wf(self) -> bool {
        &&& self.name.len() <= u32::MAX
        &&& self.symbol.len() <= u32::MAX
        &&& self.uri.len() <= u32::MAX
    }

    /// The metadata-layer length ceilings.
    pub open spec fn valid(self) -> bool {
        &&& self.name.len() <= MAX_NAME_LENGTH
        &&& self.symbol.len() <= MAX_SYMBOL_LENGTH
        &&& self.uri.len() <= MAX_URI_LENGTH
    }
}

pub open spec fn enc_signed_metadata(m: SignedMetadataView) -> Seq<u8>
    recommends
        m.wf(),
{
    enc_bytes(m.name) + enc_bytes(m.symbol) + enc_bytes(m.uri) + enc_u8(m.decimals)
}

pub open spec fn dec_signed_metadata(s: Seq<u8>, i: int) -> Option<(SignedMetadataView, int)> {
    match dec_bytes(s, i) {
        Some((name, j)) => match dec_bytes(s, j) {
            Some((symbol, k)) => match dec_bytes(s, k) {
                Some((uri, l)) => match dec_u8(s, l) {
                    Some((d, m)) => Some((SignedMetadataView { name, symbol, uri, decimals: d }, m)),
                    None => None,
                },
                None => None,
            },
            None => None,
        },
        None => None,
    }
}

impl SignedMetadata {
    pub fn encode(&self, out: &mut Vec<u8>)
        requires
            self@.wf(),
        ensures
            final(out)@ == old(out)@ + enc_signed_metadata(self@),
    {
        crate::codec::write_bytes(out, &self.name);
        crate::codec::write_bytes(out, &self.symbol);
        crate::codec::write_bytes(out, &self.uri);
        crate::codec::write_u8(out, self.decimals);
        proof {
            assert(out@ =~= old(out)@ + enc_signed_metadata(self@));
        }
    }

    pub fn decode(data: &Vec<u8>, pos: usize) -> (r: Option<(SignedMetadata, usize)>)
        ensures
            match r {
                Some((v, end)) => dec_signed_metadata(data@, pos as int) == Some((v@, end as int)),
                None => dec_signed_metadata(data@, pos as int) is None,
            },
    {
        match crate::codec::read_bytes(data, pos) {
            Some((name, j)) => match crate::codec::read_bytes(data, j) {
                Some((symbol, k)) => match crate::codec::read_bytes(data, k) {
                    Some((uri, l)) => match crate::codec::read_u8(data, l) {
                        Some((d, m)) => Some((SignedMetadata { name, symbol, uri, decimals: d }, m)),
                        None => None,
                    },
                    None => None,
                },
                None => None,
            },
            None => None,
        }
    }

    /// Rejects names, symbols and URIs over the metadata-layer ceilings.
    pub fn validate(&self) -> (r: Result<(), BridgeError>)
        ensures
            r is Ok <==> self@.valid(),
            r is Err ==> r == Err::<(), BridgeError>(BridgeError::WrongArgsSize),
    {
        if self.name.len() > MAX_NAME_LENGTH || self.symbol.len() > MAX_SYMBOL_LENGTH
            || self.uri.len() > MAX_URI_LENGTH {
            return Err(BridgeError::WrongArgsSize);
        }
        Ok(())
    }
}

pub proof fn lemma_dec_signed_metadata(s: Seq<u8>, i: int, m: SignedMetadataView)
    requires
        0 <= i,
        m.wf(),
        i + enc_signed_metadata(m).len() <= s.len(),
        s.subrange(i, i + enc_signed_metadata(m).len()) == enc_signed_metadata(m),
    ensures
        dec_signed_metadata(s, i) == Some((m, i + enc_signed_metadata(m).len())),
{
    vstd::bytes::lemma_auto_spec_u32_to_from_le_bytes();
    let e = enc_signed_metadata(m);
    let n1 = 4 + m.name.len() as int;
    let n2 = 4 + m.symbol.len() as int;
    let n3 = 4 + m.uri.len() as int;
    lemma_subrange_chunk(s, i, e, 0, n1);
    assert(e.subrange(0, n1) =~= enc_bytes(m.name));
    lemma_dec_bytes(s, i, m.name);
    lemma_subrange_chunk(s, i, e, n1, n2);
    assert(e.subrange(n1, n1 + n2) =~= enc_bytes(m.symbol));
    lemma_dec_bytes(s, i + n1, m.symbol);
    lemma_subrange_chunk(s, i, e, n1 + n2, n3);
    assert(e.subrange(n1 + n2, n1 + n2 + n3) =~= enc_bytes(m.uri));
    lemma_dec_bytes(s, i + n1 + n2, m.uri);
    lemma_subrange_chunk(s, i, e, n1 + n2 + n3, 1);
    assert(e.subrange(n1 + n2 + n3, n1 + n2 + n3 + 1) =~= enc_u8(m.decimals));
    lemma_dec_u8(s, i + n1 + n2 + n3, m.decimals);
}

/// The view of optional signed metadata.
pub open spec fn view_opt_meta(o: Option<SignedMetadata>) -> Option<SignedMetadataView> {
    match o {
        Some(m) => Some(m@),
        None => None,
    }
}

pub open spec fn enc_opt_meta(o: Option<SignedMetadataView>) -> Seq<u8>
    recommends
        o matches Some(m) ==> m.wf(),
{
    match o {
        None => seq![0u8],
        Some(m) => seq![1u8] + enc_signed_metadata(m),
    }
}

pub open spec fn dec_opt_meta(s: Seq<u8>, i: int) -> Option<(Option<SignedMetadataView>, int)> {
    match dec_u8(s, i) {
        Some((tag, j)) => {
            if tag == 0 {
                Some((None, j))
            } else if tag == 1 {
                match dec_signed_metadata(s, j) {
                    Some((m, l)) => Some((Some(m), l)),
                    None => None,
                }
            } else {
                None
            }
        },
        None => None,
    }
}

pub fn write_opt_meta(out: &mut Vec<u8>, o: &Option<SignedMetadata>)
    requires
        o matches Some(m) ==> m@.wf(),
    ensures
        final(out)@ == old(out)@ + enc_opt_meta(view_opt_meta(*o)),
{
    match o {
        None => {
            crate::codec::write_u8(out, 0);
        },
        Some(m) => {
            crate::codec::write_u8(out, 1);
            m.encode(out);
            proof {
                assert(out@ =~= old(out)@ + enc_opt_meta(view_opt_meta(*o)));
            }
        },
    }
}

pub fn read_opt_meta(data: &Vec<u8>, pos: usize) -> (r: Option<(Option<SignedMetadata>, usize)>)
    ensures
        match r {
            Some((v, end)) => dec_opt_meta(data@, pos as int) == Some(
                (view_opt_meta(v), end as int),
            ),
            None => dec_opt_meta(data@, pos as int) is None,
        },
{
    match crate::codec::read_u8(data, pos) {
        Some((tag, j)) => {
            if tag == 0 {
                Some((None, j))
            } else if tag == 1 {
                match SignedMetadata::decode(data, j) {
                    Some((m, l)) => Some((Some(m), l)),
                    None => None,
                }
            } else {
                None
            }
        },
        None => None,
    }
}

pub proof fn lemma_dec_opt_meta(s: Seq<u8>, i: int, o: Option<SignedMetadataView>)
    requires
        0 <= i,
        o matches Some(m) ==> m.wf(),
        i + enc_opt_meta(o).len() <= s.len(),
        s.subrange(i, i + enc_opt_meta(o).len()) == enc_opt_meta(o),
    ensures
        dec_opt_meta(s, i) == Some((o, i + enc_opt_meta(o).len())),
{
    let e = enc_opt_meta(o);
    match o {
        None => {
            assert(s[i] == e[0]);
        },
        Some(m) => {
            assert(s[i] == e[0]);
            lemma_subrange_chunk(s, i, e, 1, enc_signed_metadata(m).len() as int);
            assert(e.subrange(1, 1 + enc_signed_metadata(m).len() as int) =~= enc_signed_metadata(
                m,
            ));
            lemma_dec_signed_metadata(s, i + 1, m);
        },
    }
}

// ===== withdrawals =====

/// Arguments of a withdrawal: the external event's fingerprint, the amount,
/// the operator signature over the Merkle root, and the sibling path.
pub struct WithdrawArgs {
    /// Fingerprint of the external deposit event.
    pub origin: [u8; 32],
    pub amount: u64,
    /// Signature over the Merkle root.
    pub signature: [u8; 64],
    pub recovery_id: u8,
    /// The ordered sibling list from the leaf to the root.
    pub path: Vec<[u8; 32]>,
    pub seeds: [u8; 32],
    /// Present where the mint is a bridge-minted mirror, derived from this seed.
    pub token_seed: Option<[u8; 32]>,
    /// Present where a mirror mint may need to be created first.
    pub signed_meta: Option<SignedMetadata>,
}

pub struct WithdrawArgsView {
    pub origin: Seq<u8>,
    pub amount: u64,
    pub signature: Seq<u8>,
    pub recovery_id: u8,
    pub path: Seq<Seq<u8>>,
    pub seeds: Seq<u8>,
    pub token_seed: Option<Seq<u8>>,
    pub signed_meta: Option<SignedMetadataView>,
}

impl View for WithdrawArgs {
    type V = WithdrawArgsView;

    open spec fn view(&self) -> WithdrawArgsView {
        WithdrawArgsView {
            origin: self.origin@,
            amount: self.amount,
            signature: self.signature@,
            recovery_id: self.recovery_id,
            path: self.path.deep_view(),
            seeds: self.seeds@,
            token_seed: view_opt_key(self.token_seed),
            signed_meta: view_opt_meta(self.signed_meta),
        }
    }
}

impl WithdrawArgsView {
    pub open spec fn wf(self) -> bool {
        &&& self.origin.len() == 32
        &&& self.signature.len() == 64
        &&& key_list_wf(self.path)
        &&& self.path.len() <= u32::MAX
        &&& self.seeds.len() == 32
        &&& (self.token_seed matches Some(k) ==> k.len() == 32)
        &&& (self.signed_meta matches Some(m) ==> m.wf())
    }

    /// The one argument bound of a withdrawal: a positive amount.
    pub open spec fn valid(self) -> bool {
        self.amount > 0
    }
}

pub open spec fn enc_withdraw_args(a: WithdrawArgsView) -> Seq<u8>
    recommends
        a.wf(),
{
    a.origin + enc_u64(a.amount) + a.signature + enc_u8(a.recovery_id) + enc_key_list(a.path)
        + a.seeds + enc_opt_key(a.token_seed) + enc_opt_meta(a.signed_meta)
}

pub open spec fn dec_withdraw_args(s: Seq<u8>, i: int) -> Option<(WithdrawArgsView, int)> {
    match dec_raw(s, i, 32) {
        Some((origin, j)) => match dec_u64(s, j) {
            Some((amount, k)) => match dec_raw(s, k, 64) {
                Some((sig, l)) => match dec_u8(s, l) {
                    Some((rid, m)) => match dec_key_list(s, m) {
                        Some((path, n)) => match dec_raw(s, n, 32) {
                            Some((seeds, o)) => match dec_opt_key(s, o) {
                                Some((ts, p)) => match dec_opt_meta(s, p) {
                                    Some((sm, q)) => Some(
                                        (
                                            WithdrawArgsView {
                                                origin,
                                                amount,
                                                signature: sig,
                                                recovery_id: rid,
                                                path,
                                                seeds,
                                                token_seed: ts,
                                                signed_meta: sm,
                                            },
                                            q,
                                        ),
                                    ),
                                    None => None,
                                },
                                None => None,
                            },
                            None => None,
                        },
                        None => None,
                    },
                    None => None,
                },
                None => None,
            },
            None => None,
        },
        None => None,
    }
}

impl WithdrawArgs {
    pub fn encode(&self, out: &mut Vec<u8>)
        requires
            self@.wf(),
        ensures
            final(out)@ == old(out)@ + enc_withdraw_args(self@),
    {
        crate::codec::write_arr(out, self.origin.as_slice());
        crate::codec::write_u64(out, self.amount);
        crate::codec::write_arr(out, self.signature.as_slice());
        crate::codec::write_u8(out, self.recovery_id);
        crate::codec::write_key_list(out, &self.path);
        crate::codec::write_arr(out, self.seeds.as_slice());
        crate::codec::write_opt_key(out, &self.token_seed);
        write_opt_meta(out, &self.signed_meta);
        proof {
            assert(out@ =~= old(out)@ + enc_withdraw_args(self@));
        }
    }

    pub fn decode(data: &Vec<u8>, pos: usize) -> (r: Option<(WithdrawArgs, usize)>)
        ensures
            match r {
                Some((v, end)) => dec_withdraw_args(data@, pos as int) == Some((v@, end as int)),
                None => dec_withdraw_args(data@, pos as int) is None,
            },
    {
        match crate::codec::read_bytes32(data, pos) {
            Some((origin, j)) => match crate::codec::read_u64(data, j) {
                Some((amount, k)) => match crate::codec::read_bytes64(data, k) {
                    Some((sig, l)) => match crate::codec::read_u8(data, l) {
                        Some((rid, m)) => match crate::codec::read_key_list(data, m) {
                            Some((path, n)) => match crate::codec::read_bytes32(data, n) {
                                Some((seeds, o)) => match crate::codec::read_opt_key(data, o) {
                                    Some((ts, p)) => match read_opt_meta(data, p) {
                                        Some((sm, q)) => Some(
                                            (
                                                WithdrawArgs {
                                                    origin,
                                                    amount,
                                                    signature: sig,
                                                    recovery_id: rid,
                                                    path,
                                                    seeds,
                                                    token_seed: ts,
                                                    signed_meta: sm,
                                                },
                                                q,
                                            ),
                                        ),
                                        None => None,
                                    },
                                    None => None,
                                },
                                None => None,
                            },
                            None => None,
                        },
                        None => None,
                    },
                    None => None,
                },
                None => None,
            },
            None => None,
        }
    }

    /// Rejects a zero amount.
    pub fn validate(&self) -> (r: Result<(), BridgeError>)
        ensures
            r is Ok <==> self@.valid(),
            r is Err ==> r == Err::<(), BridgeError>(BridgeError::WrongArgsSize),
    {
        if self.amount == 0 {
            return Err(BridgeError::WrongArgsSize);
        }
        Ok(())
    }
}

pub proof fn lemma_dec_withdraw_args(s: Seq<u8>, i: int, a: WithdrawArgsView)
    requires
        0 <= i,
        a.wf(),
        i + enc_withdraw_args(a).len() <= s.len(),
        s.subrange(i, i + enc_withdraw_args(a).len()) == enc_withdraw_args(a),
    ensures
        dec_withdraw_args(s, i) == Some((a, i + enc_withdraw_args(a).len())),
{
    vstd::bytes::lemma_auto_spec_u64_to_from_le_bytes();
    vstd::bytes::lemma_auto_spec_u32_to_from_le_bytes();
    let e = enc_withdraw_args(a);
    let np = enc_key_list(a.path).len() as int;
    let nt = enc_opt_key(a.token_seed).len() as int;
    let nm = enc_opt_meta(a.signed_meta).len() as int;
    lemma_subrange_chunk(s, i, e, 0, 32);
    assert(e.subrange(0, 32) =~= a.origin);
    lemma_subrange_chunk(s, i, e, 32, 8);
    assert(e.subrange(32, 40) =~= enc_u64(a.amount));
    lemma_dec_u64(s, i + 32, a.amount);
    lemma_subrange_chunk(s, i, e, 40, 64);
    assert(e.subrange(40, 104) =~= a.signature);
    lemma_subrange_chunk(s, i, e, 104, 1);
    assert(e.subrange(104, 105) =~= enc_u8(a.recovery_id));
    lemma_dec_u8(s, i + 104, a.recovery_id);
    lemma_subrange_chunk(s, i, e, 105, np);
    assert(e.subrange(105, 105 + np) =~= enc_key_list(a.path));
    lemma_dec_key_list(s, i + 105, a.path);
    lemma_subrange_chunk(s, i, e, 105 + np, 32);
    assert(e.subrange(105 + np, 137 + np) =~= a.seeds);
    lemma_subrange_chunk(s, i, e, 137 + np, nt);
    assert(e.subrange(137 + np, 137 + np + nt) =~= enc_opt_key(a.token_seed));
    lemma_dec_opt_key(s, i + 137 + np, a.token_seed);
    lemma_subrange_chunk(s, i, e, 137 + np + nt, nm);
    assert(e.subrange(137 + np + nt, 137 + np + nt + nm) =~= enc_opt_meta(a.signed_meta));
    lemma_dec_opt_meta(s, i + 137 + np + nt, a.signed_meta);
}

// ===== collection creation =====

/// Arguments of the collection-creation instruction.
pub struct MintCollectionArgs {
    pub data: SignedMetadata,
    pub seeds: [u8; 32],
    /// The seed the collection mint's address is derived from.
    pub token_seed: [u8; 32],
}

pub struct MintCollectionArgsView {
    pub data: SignedMetadataView,
    pub seeds: Seq<u8>,
    pub token_seed: Seq<u8>,
}

impl View for MintCollectionArgs {
    type V = MintCollectionArgsView;

    open spec fn view(&self) -> MintCollectionArgsView {
        MintCollectionArgsView {
            data: self.data@,
            seeds: self.seeds@,
            token_seed: self.token_seed@,
        }
    }
}

impl MintCollectionArgsView {
    pub open spec fn wf(self) -> bool {
        &&& self.data.wf()
        &&& self.seeds.len() == 32
        &&& self.token_seed.len() == 32
    }

    /// The bounds the carried metadata must meet.
    pub open spec fn valid(self) -> bool {
        self.data.valid()
    }
}

pub open spec fn enc_mint_collection_args(a: MintCollectionArgsView) -> Seq<u8>
    recommends
        a.wf(),
{
    enc_signed_metadata(a.data) + a.seeds + a.token_seed
}

pub open spec fn dec_mint_collection_args(s: Seq<u8>, i: int) -> Option<
    (MintCollectionArgsView, int),
> {
    match dec_signed_metadata(s, i) {
        Some((m, j)) => match dec_raw(s, j, 32) {
            Some((seeds, k)) => match dec_raw(s, k, 32) {
                Some((ts, l)) => Some(
                    (MintCollectionArgsView { data: m, seeds, token_seed: ts }, l),
                ),
                None => None,
            },
            None => None,
        },
        None => None,
    }
}

impl MintCollectionArgs {
    pub fn encode(&self, out: &mut Vec<u8>)
        requires
            self@.wf(),
        ensures
            final(out)@ == old(out)@ + enc_mint_collection_args(self@),
    {
        self.data.encode(out);
        crate::codec::write_arr(out, self.seeds.as_slice());
        crate::codec::write_arr(out, self.token_seed.as_slice());
        proof {
            assert(out@ =~= old(out)@ + enc_mint_collection_args(self@));
        }
    }

    pub fn decode(data: &Vec<u8>, pos: usize) -> (r: Option<(MintCollectionArgs, usize)>)
        ensures
            match r {
                Some((v, end)) => dec_mint_collection_args(data@, pos as int) == Some(
                    (v@, end as int),
                ),
                None => dec_mint_collection_args(data@, pos as int) is None,
            },
    {
        match SignedMetadata::decode(data, pos) {
            Some((m, j)) => match crate::codec::read_bytes32(data, j) {
                Some((seeds, k)) => match crate::codec::read_bytes32(data, k) {
                    Some((ts, l)) => Some(
                        (MintCollectionArgs { data: m, seeds, token_seed: ts }, l),
                    ),
                    None => None,
                },
                None => None,
            },
            None => None,
        }
    }

    /// Rejects metadata over the length ceilings.
    pub fn validate(&self) -> (r: Result<(), BridgeError>)
        ensures
            r is Ok <==> self@.valid(),
            r is Err ==> r == Err::<(), BridgeError>(BridgeError::WrongArgsSize),
    {
        self.data.validate()
    }
}

pub proof fn lemma_dec_mint_collection_args(s: Seq<u8>, i: int, a: MintCollectionArgsView)
    requires
        0 <= i,
        a.wf(),
        i + enc_mint_collection_args(a).len() <= s.len(),
        s.subrange(i, i + enc_mint_collection_args(a).len()) == enc_mint_collection_args(a),
    ensures
        dec_mint_collection_args(s, i) == Some((a, i + enc_mint_collection_args(a).len())),
{
    vstd::bytes::lemma_auto_spec_u32_to_from_le_bytes();
    let e = enc_mint_collection_args(a);
    let nd = enc_signed_metadata(a.data).len() as int;
    lemma_subrange_chunk(s, i, e, 0, nd);
    assert(e.subrange(0, nd) =~= enc_signed_metadata(a.data));
    lemma_dec_signed_metadata(s, i, a.data);
    lemma_subrange_chunk(s, i, e, nd, 32);
    assert(e.subrange(nd, nd + 32) =~= a.seeds);
    lemma_subrange_chunk(s, i, e, nd + 32, 32);
    assert(e.subrange(nd + 32, nd + 64) =~= a.token_seed);
}

// ===== the instruction union =====

/// One externally invoked bridge instruction. The first payload byte selects
/// the variant.
pub enum BridgeInstruction {
    InitializeAdmin(InitializeAdminArgs),
    TransferOwnership(TransferOwnershipArgs),
    DepositNative(DepositNativeArgs),
    DepositFT(DepositFTArgs),
    DepositNFT(DepositNFTArgs),
    WithdrawNative(WithdrawArgs),
    WithdrawFT(WithdrawArgs),
    WithdrawNFT(WithdrawArgs),
    MintCollection(MintCollectionArgs),
}

pub enum BridgeInstructionView {
    InitializeAdmin(InitializeAdminArgsView),
    TransferOwnership(TransferOwnershipArgsView),
    DepositNative(DepositNativeArgsView),
    DepositFT(DepositFTArgsView),
    DepositNFT(DepositNFTArgsView),
    WithdrawNative(WithdrawArgsView),
    WithdrawFT(WithdrawArgsView),
    WithdrawNFT(WithdrawArgsView),
    MintCollection(MintCollectionArgsView),
}

impl View for BridgeInstruction {
    type V = BridgeInstructionView;

    open spec fn view(&self) -> BridgeInstructionView {
        match self {
            BridgeInstruction::InitializeAdmin(a) => BridgeInstructionView::InitializeAdmin(a@),
            BridgeInstruction::TransferOwnership(a) => BridgeInstructionView::TransferOwnership(
                a@,
            ),
            BridgeInstruction::DepositNative(a) => BridgeInstructionView::DepositNative(a@),
            BridgeInstruction::DepositFT(a) => BridgeInstructionView::DepositFT(a@),
            BridgeInstruction::DepositNFT(a) => BridgeInstructionView::DepositNFT(a@),
            BridgeInstruction::WithdrawNative(a) => BridgeInstructionView::WithdrawNative(a@),
            BridgeInstruction::WithdrawFT(a) => BridgeInstructionView::WithdrawFT(a@),
            BridgeInstruction::WithdrawNFT(a) => BridgeInstructionView::WithdrawNFT(a@),
            BridgeInstruction::MintCollection(a) => BridgeInstructionView::MintCollection(a@),
        }
    }
}

impl BridgeInstructionView {
    pub open spec fn wf(self) -> bool {
        match self {
            BridgeInstructionView::InitializeAdmin(a) => a.public_key.len() == 33 && a.seeds.len()
                == 32,
            BridgeInstructionView::TransferOwnership(a) => a.new_public_key.len() == 33
                && a.signature.len() == 64 && a.seeds.len() == 32,
            BridgeInstructionView::DepositNative(a) => a.wf(),
            BridgeInstructionView::DepositFT(a) => a.wf(),
            BridgeInstructionView::DepositNFT(a) => a.wf(),
            BridgeInstructionView::WithdrawNative(a) => a.wf(),
            BridgeInstructionView::WithdrawFT(a) => a.wf(),
            BridgeInstructionView::WithdrawNFT(a) => a.wf(),
            BridgeInstructionView::MintCollection(a) => a.wf(),
        }
    }
}

pub open spec fn enc_bridge_instruction(v: BridgeInstructionView) -> Seq<u8>
    recommends
        v.wf(),
{
    match v {
        BridgeInstructionView::InitializeAdmin(a) => seq![0u8] + enc_initialize_admin_args(a),
        BridgeInstructionView::TransferOwnership(a) => seq![1u8] + enc_transfer_ownership_args(a),
        BridgeInstructionView::DepositNative(a) => seq![2u8] + enc_deposit_native_args(a),
        BridgeInstructionView::DepositFT(a) => seq![3u8] + enc_deposit_ft_args(a),
        BridgeInstructionView::DepositNFT(a) => seq![4u8] + enc_deposit_nft_args(a),
        BridgeInstructionView::WithdrawNative(a) => seq![5u8] + enc_withdraw_args(a),
        BridgeInstructionView::WithdrawFT(a) => seq![6u8] + enc_withdraw_args(a),
        BridgeInstructionView::WithdrawNFT(a) => seq![7u8] + enc_withdraw_args(a),
        BridgeInstructionView::MintCollection(a) => seq![8u8] + enc_mint_collection_args(a),
    }
}

pub open spec fn dec_bridge_instruction(s: Seq<u8>, i: int) -> Option<
    (BridgeInstructionView, int),
> {
    match dec_u8(s, i) {
        Some((tag, j)) => {
            if tag == 0 {
                match dec_initialize_admin_args(s, j) {
                    Some((a, k)) => Some((BridgeInstructionView::InitializeAdmin(a), k)),
                    None => None,
                }
            } else if tag == 1 {
                match dec_transfer_ownership_args(s, j) {
                    Some((a, k)) => Some((BridgeInstructionView::TransferOwnership(a), k)),
                    None => None,
                }
            } else if tag == 2 {
                match dec_deposit_native_args(s, j) {
                    Some((a, k)) => Some((BridgeInstructionView::DepositNative(a), k)),
                    None => None,
                }
            } else if tag == 3 {
                match dec_deposit_ft_args(s, j) {
                    Some((a, k)) => Some((BridgeInstructionView::DepositFT(a), k)),
                    None => None,
                }
            } else if tag == 4 {
                match dec_deposit_nft_args(s, j) {
                    Some((a, k)) => Some((BridgeInstructionView::DepositNFT(a), k)),
                    None => None,
                }
            } else if tag == 5 {
                match dec_withdraw_args(s, j) {
                    Some((a, k)) => Some((BridgeInstructionView::WithdrawNative(a), k)),
                    None => None,
                }
            } else if tag == 6 {
                match dec_withdraw_args(s, j) {
                    Some((a, k)) => Some((BridgeInstructionView::WithdrawFT(a), k)),
                    None => None,
                }
            } else if tag == 7 {
                match dec_withdraw_args(s, j) {
                    Some((a, k)) => Some((BridgeInstructionView::WithdrawNFT(a), k)),
                    None => None,
                }
            } else if tag == 8 {
                match dec_mint_collection_args(s, j) {
                    Some((a, k)) => Some((BridgeInstructionView::MintCollection(a), k)),
                    None => None,
                }
            } else {
                None
            }
        },
        None => None,
    }
}

impl BridgeInstruction {
    /// Serializes the instruction: the variant's tag byte, then its payload.
    pub fn pack(&self) -> (r: Vec<u8>)
        requires
            self@.wf(),
        ensures
            r@ == enc_bridge_instruction(self@),
    {
        let mut out: Vec<u8> = Vec::new();
        match self {
            BridgeInstruction::InitializeAdmin(a) => {
                crate::codec::write_u8(&mut out, 0);
                a.encode(&mut out);
            },
            BridgeInstruction::TransferOwnership(a) => {
                crate::codec::write_u8(&mut out, 1);
                a.encode(&mut out);
            },
            BridgeInstruction::DepositNative(a) => {
                crate::codec::write_u8(&mut out, 2);
                a.encode(&mut out);
            },
            BridgeInstruction::DepositFT(a) => {
                crate::codec::write_u8(&mut out, 3);
                a.encode(&mut out);
            },
            BridgeInstruction::DepositNFT(a) => {
                crate::codec::write_u8(&mut out, 4);
                a.encode(&mut out);
            },
            BridgeInstruction::WithdrawNative(a) => {
                crate::codec::write_u8(&mut out, 5);
                a.encode(&mut out);
            },
            BridgeInstruction::WithdrawFT(a) => {
                crate::codec::write_u8(&mut out, 6);
                a.encode(&mut out);
            },
            BridgeInstruction::WithdrawNFT(a) => {
                crate::codec::write_u8(&mut out, 7);
                a.encode(&mut out);
            },
            BridgeInstruction::MintCollection(a) => {
                crate::codec::write_u8(&mut out, 8);
                a.encode(&mut out);
            },
        }
        proof {
            assert(out@ =~= enc_bridge_instruction(self@));
        }
        out
    }

    /// Parses an instruction payload; every byte must be consumed.
    pub fn unpack(data: &Vec<u8>) -> (r: Option<BridgeInstruction>)
        ensures
            match r {
                Some(v) => dec_bridge_instruction(data@, 0) == Some((v@, data@.len() as int)),
                None => !(dec_bridge_instruction(data@, 0) matches Some((_, end)) && end
                    == data@.len()),
            },
    {
        let parsed: Option<(BridgeInstruction, usize)> = match crate::codec::read_u8(data, 0) {
            Some((tag, j)) => {
                if tag == 0 {
                    match InitializeAdminArgs::decode(data, j) {
                        Some((a, k)) => Some((BridgeInstruction::InitializeAdmin(a), k)),
                        None => None,
                    }
                } else if tag == 1 {
                    match TransferOwnershipArgs::decode(data, j) {
                        Some((a, k)) => Some((BridgeInstruction::TransferOwnership(a), k)),
                        None => None,
                    }
                } else if tag == 2 {
                    match DepositNativeArgs::decode(data, j) {
                        Some((a, k)) => Some((BridgeInstruction::DepositNative(a), k)),
                        None => None,
                    }
                } else if tag == 3 {
                    match DepositFTArgs::decode(data, j) {
                        Some((a, k)) => Some((BridgeInstruction::DepositFT(a), k)),
                        None => None,
                    }
                } else if tag == 4 {
                    match DepositNFTArgs::decode(data, j) {
                        Some((a, k)) => Some((BridgeInstruction::DepositNFT(a), k)),
                        None => None,
                    }
                } else if tag == 5 {
                    match WithdrawArgs::decode(data, j) {
                        Some((a, k)) => Some((BridgeInstruction::WithdrawNative(a), k)),
                        None => None,
                    }
                } else if tag == 6 {
                    match WithdrawArgs::decode(data, j) {
                        Some((a, k)) => Some((BridgeInstruction::WithdrawFT(a), k)),
                        None => None,
                    }
                } else if tag == 7 {
                    match WithdrawArgs::decode(data, j) {
                        Some((a, k)) => Some((BridgeInstruction::WithdrawNFT(a), k)),
                        None => None,
                    }
                } else if tag == 8 {
                    match MintCollectionArgs::decode(data, j) {
                        Some((a, k)) => Some((BridgeInstruction::MintCollection(a), k)),
                        None => None,
                    }
                } else {
                    None
                }
            },
            None => None,
        };
        match parsed {
            Some((v, end)) => {
                if end == data.len() {
                    Some(v)
                } else {
                    None
                }
            },
            None => None,
        }
    }
}

/// Decoding a packed instruction yields the instruction back, whole.
pub proof fn lemma_dec_bridge_instruction(v: BridgeInstructionView)
    requires
        v.wf(),
    ensures
        dec_bridge_instruction(enc_bridge_instruction(v), 0) == Some(
            (v, enc_bridge_instruction(v).len() as int),
        ),
{
    let e = enc_bridge_instruction(v);
    assert(e.subrange(0, e.len() as int) =~= e);
    match v {
        BridgeInstructionView::InitializeAdmin(a) => {
            assert(e.subrange(1, e.len() as int) =~= enc_initialize_admin_args(a));
            lemma_dec_initialize_admin_args(e, 1, a);
        },
        BridgeInstructionView::TransferOwnership(a) => {
            assert(e.subrange(1, e.len() as int) =~= enc_transfer_ownership_args(a));
            lemma_dec_transfer_ownership_args(e, 1, a);
        },
        BridgeInstructionView::DepositNative(a) => {
            assert(e.subrange(1, e.len() as int) =~= enc_deposit_native_args(a));
            lemma_dec_deposit_native_args(e, 1, a);
        },
        BridgeInstructionView::DepositFT(a) => {
            assert(e.subrange(1, e.len() as int) =~= enc_deposit_ft_args(a));
            lemma_dec_deposit_ft_args(e, 1, a);
        },
        BridgeInstructionView::DepositNFT(a) => {
            assert(e.subrange(1, e.len() as int) =~= enc_deposit_nft_args(a));
            lemma_dec_deposit_nft_args(e, 1, a);
        },
        BridgeInstructionView::WithdrawNative(a) => {
            assert(e.subrange(1, e.len() as int) =~= enc_withdraw_args(a));
            lemma_dec_withdraw_args(e, 1, a);
        },
        BridgeInstructionView::WithdrawFT(a) => {
            assert(e.subrange(1, e.len() as int) =~= enc_withdraw_args(a));
            lemma_dec_withdraw_args(e, 1, a);
        },
        BridgeInstructionView::WithdrawNFT(a) => {
            assert(e.subrange(1, e.len() as int) =~= enc_withdraw_args(a));
            lemma_dec_withdraw_args(e, 1, a);
        },
        BridgeInstructionView::MintCollection(a) => {
            assert(e.subrange(1, e.len() as int) =~= enc_mint_collection_args(a));
            lemma_dec_mint_collection_args(e, 1, a);
        },
    }
}

} // verus!
