//! The upgrade admin's instruction payloads.

use vstd::prelude::*;
use crate::codec::dec_raw;
use crate::codec::dec_u8;
use crate::codec::enc_u8;
use crate::codec::lemma_dec_u8;
use crate::codec::lemma_subrange_chunk;

verus! {

/// Arguments of the upgrade admin's creation.
pub struct InitializeAdminArgs {
    /// The operator's compressed secp256k1 public key.
    pub public_key: [u8; 33],
    /// The identity of the program this admin governs.
    pub contract: [u8; 32],
}

pub struct UpgradeInitArgsView {
    pub public_key: Seq<u8>,
    pub contract: Seq<u8>,
}

impl View for InitializeAdminArgs {
    type V = UpgradeInitArgsView;

    open spec fn view(&self) -> UpgradeInitArgsView {
        UpgradeInitArgsView { public_key: self.public_key@, contract: self.contract@ }
    }
}

pub open spec fn enc_upgrade_init_args(a: UpgradeInitArgsView) -> Seq<u8> {
    a.public_key + a.contract
}

pub open spec fn dec_upgrade_init_args(s: Seq<u8>, i: int) -> Option<(UpgradeInitArgsView, int)> {
    match dec_raw(s, i, 33) {
        Some((pk, j)) => match dec_raw(s, j, 32) {
            Some((contract, k)) => Some((UpgradeInitArgsView { public_key: pk, contract }, k)),
            None => None,
        },
        None => None,
    }
}

impl InitializeAdminArgs {
    pub fn encode(&self, out: &mut Vec<u8>)
        ensures
            final(out)@ == old(out)@ + enc_upgrade_init_args(self@),
    {
        crate::codec::write_arr(out, self.public_key.as_slice());
        crate::codec::write_arr(out, self.contract.as_slice());
        proof {
            assert(out@ =~= old(out)@ + enc_upgrade_init_args(self@));
        }
    }

    pub fn decode(data: &Vec<u8>, pos: usize) -> (r: Option<(InitializeAdminArgs, usize)>)
        ensures
            match r {
                Some((v, end)) => dec_upgrade_init_args(data@, pos as int) == Some(
                    (v@, end as int),
                ),
                None => dec_upgrade_init_args(data@, pos as int) is None,
            },
    {
        match crate::codec::read_bytes33(data, pos) {
            Some((pk, j)) => match crate::codec::read_bytes32(data, j) {
                Some((contract, k)) => Some((InitializeAdminArgs { public_key: pk, contract }, k)),
                None => None,
            },
            None => None,
        }
    }
}

pub proof fn lemma_dec_upgrade_init_args(s: Seq<u8>, i: int, a: UpgradeInitArgsView)
    requires
        0 <= i,
        a.public_key.len() == 33,
        a.contract.len() == 32,
        i + 65 <= s.len(),
        s.subrange(i, i + 65) == enc_upgrade_init_args(a),
    ensures
        dec_upgrade_init_args(s, i) == Some((a, i + 65)),
{
    let e = enc_upgrade_init_args(a);
    lemma_subrange_chunk(s, i, e, 0, 33);
    assert(e.subrange(0, 33) =~= a.public_key);
    lemma_subrange_chunk(s, i, e, 33, 32);
    assert(e.subrange(33, 65) =~= a.contract);
}

/// Arguments of the upgrade admin's key rotation: the new key, signed by the
/// old one over its keccak digest.
pub struct TransferOwnershipArgs {
    pub new_public_key: [u8; 33],
    pub signature: [u8; 64],
    pub recovery_id: u8,
}

pub struct UpgradeTransferArgsView {
    pub new_public_key: Seq<u8>,
    pub signature: Seq<u8>,
    pub recovery_id: u8,
}

impl View for TransferOwnershipArgs {
    type V = UpgradeTransferArgsView;

    open spec fn view(&self) -> UpgradeTransferArgsView {
        UpgradeTransferArgsView {
            new_public_key: self.new_public_key@,
            signature: self.signature@,
            recovery_id: self.recovery_id,
        }
    }
}

pub open spec fn enc_upgrade_transfer_args(a: UpgradeTransferArgsView) -> Seq<u8> {
    a.new_public_key + a.signature + enc_u8(a.recovery_id)
}

pub open spec fn dec_upgrade_transfer_args(s: Seq<u8>, i: int) -> Option<
    (UpgradeTransferArgsView, int),
> {
    match dec_raw(s, i, 33) {
        Some((pk, j)) => match dec_raw(s, j, 64) {
            Some((sig, k)) => match dec_u8(s, k) {
                Some((rid, l)) => Some(
                    (
                        UpgradeTransferArgsView {
                            new_public_key: pk,
                            signature: sig,
                            recovery_id: rid,
                        },
                        l,
                    ),
                ),
                None => None,
            },
            None => None,
        },
        None => None,
    }
}

impl TransferOwnershipArgs {
    pub fn encode(&self, out: &mut Vec<u8>)
        ensures
            final(out)@ == old(out)@ + enc_upgrade_transfer_args(self@),
    {
        crate::codec::write_arr(out, self.new_public_key.as_slice());
        crate::codec::write_arr(out, self.signature.as_slice());
        crate::codec::write_u8(out, self.recovery_id);
        proof {
            assert(out@ =~= old(out)@ + enc_upgrade_transfer_args(self@));
        }
    }

    pub fn decode(data: &Vec<u8>, pos: usize) -> (r: Option<(TransferOwnershipArgs, usize)>)
        ensures
            match r {
                Some((v, end)) => dec_upgrade_transfer_args(data@, pos as int) == Some(
                    (v@, end as int),
                ),
                None => dec_upgrade_transfer_args(data@, pos as int) is None,
            },
    {
        match crate::codec::read_bytes33(data, pos) {
            Some((pk, j)) => match crate::codec::read_bytes64(data, j) {
                Some((sig, k)) => match crate::codec::read_u8(data, k) {
                    Some((rid, l)) => Some(
                        (
                            TransferOwnershipArgs {
                                new_public_key: pk,
                                signature: sig,
                                recovery_id: rid,
                            },
                            l,
                        ),
                    ),
                    None => None,
                },
                None => None,
            },
            None => None,
        }
    }
}

pub proof fn lemma_dec_upgrade_transfer_args(s: Seq<u8>, i: int, a: UpgradeTransferArgsView)
    requires
        0 <= i,
        a.new_public_key.len() == 33,
        a.signature.len() == 64,
        i + 98 <= s.len(),
        s.subrange(i, i + 98) == enc_upgrade_transfer_args(a),
    ensures
        dec_upgrade_transfer_args(s, i) == Some((a, i + 98)),
{
    let e = enc_upgrade_transfer_args(a);
    lemma_subrange_chunk(s, i, e, 0, 33);
    assert(e.subrange(0, 33) =~= a.new_public_key);
    lemma_subrange_chunk(s, i, e, 33, 64);
    assert(e.subrange(33, 97) =~= a.signature);
    lemma_subrange_chunk(s, i, e, 97, 1);
    assert(e.subrange(97, 98) =~= enc_u8(a.recovery_id));
    lemma_dec_u8(s, i + 97, a.recovery_id);
}

/// Arguments of an operator-authorized upgrade.
pub struct UpgradeArgs {
    /// Signature over the upgrade message, which binds the staged buffer's
    /// exact contents.
    pub signature: [u8; 64],
    pub recovery_id: u8,
}

pub struct UpgradeArgsView {
    pub signature: Seq<u8>,
    pub recovery_id: u8,
}

impl View for UpgradeArgs {
    type V = UpgradeArgsView;

    open spec fn view(&self) -> UpgradeArgsView {
        UpgradeArgsView { signature: self.signature@, recovery_id: self.recovery_id }
    }
}

pub open spec fn enc_upgrade_args(a: UpgradeArgsView) -> Seq<u8> {
    a.signature + enc_u8(a.recovery_id)
}

pub open spec fn dec_upgrade_args(s: Seq<u8>, i: int) -> Option<(UpgradeArgsView, int)> {
    match dec_raw(s, i, 64) {
        Some((sig, j)) => match dec_u8(s, j) {
            Some((rid, k)) => Some((UpgradeArgsView { signature: sig, recovery_id: rid }, k)),
            None => None,
        },
        None => None,
    }
}

impl UpgradeArgs {
    pub fn encode(&self, out: &mut Vec<u8>)
        ensures
            final(out)@ == old(out)@ + enc_upgrade_args(self@),
    {
        crate::codec::write_arr(out, self.signature.as_slice());
        crate::codec::write_u8(out, self.recovery_id);
        proof {
            assert(out@ =~= old(out)@ + enc_upgrade_args(self@));
        }
    }

    pub fn decode(data: &Vec<u8>, pos: usize) -> (r: Option<(UpgradeArgs, usize)>)
        ensures
            match r {
                Some((v, end)) => dec_upgrade_args(data@, pos as int) == Some((v@, end as int)),
                None => dec_upgrade_args(data@, pos as int) is None,
            },
    {
        match crate::codec::read_bytes64(data, pos) {
            Some((sig, j)) => match crate::codec::read_u8(data, j) {
                Some((rid, k)) => Some((UpgradeArgs { signature: sig, recovery_id: rid }, k)),
                None => None,
            },
            None => None,
        }
    }
}

pub proof fn lemma_dec_upgrade_args(s: Seq<u8>, i: int, a: UpgradeArgsView)
    requires
        0 <= i,
        a.signature.len() == 64,
        i + 65 <= s.len(),
        s.subrange(i, i + 65) == enc_upgrade_args(a),
    ensures
        dec_upgrade_args(s, i) == Some((a, i + 65)),
{
    let e = enc_upgrade_args(a);
    lemma_subrange_chunk(s, i, e, 0, 64);
    assert(e.subrange(0, 64) =~= a.signature);
    lemma_subrange_chunk(s, i, e, 64, 1);
    assert(e.subrange(64, 65) =~= enc_u8(a.recovery_id));
    lemma_dec_u8(s, i + 64, a.recovery_id);
}

/// One externally invoked upgrade-admin instruction. The first payload byte
/// selects the variant.
pub enum UpgradeInstruction {
    InitializeAdmin(InitializeAdminArgs),
    TransferOwnership(TransferOwnershipArgs),
    Upgrade(UpgradeArgs),
}

pub enum UpgradeInstructionView {
    InitializeAdmin(UpgradeInitArgsView),
    TransferOwnership(UpgradeTransferArgsView),
    Upgrade(UpgradeArgsView),
}

impl View for UpgradeInstruction {
    type V = UpgradeInstructionView;

    open spec fn view(&self) -> UpgradeInstructionView {
        match self {
            UpgradeInstruction::InitializeAdmin(a) => UpgradeInstructionView::InitializeAdmin(a@),
            UpgradeInstruction::TransferOwnership(a) => UpgradeInstructionView::TransferOwnership(
                a@,
            ),
            UpgradeInstruction::Upgrade(a) => UpgradeInstructionView::Upgrade(a@),
        }
    }
}

impl UpgradeInstructionView {
    pub open spec fn wf(self) -> bool {
        match self {
            UpgradeInstructionView::InitializeAdmin(a) => a.public_key.len() == 33
                && a.contract.len() == 32,
            UpgradeInstructionView::TransferOwnership(a) => a.new_public_key.len() == 33
                && a.signature.len() == 64,
            UpgradeInstructionView::Upgrade(a) => a.signature.len() == 64,
        }
    }
}

pub open spec fn enc_upgrade_instruction(v: UpgradeInstructionView) -> Seq<u8>
    recommends
        v.wf(),
{
    match v {
        UpgradeInstructionView::InitializeAdmin(a) => seq![0u8] + enc_upgrade_init_args(a),
        UpgradeInstructionView::TransferOwnership(a) => seq![1u8] + enc_upgrade_transfer_args(a),
        UpgradeInstructionView::Upgrade(a) => seq![2u8] + enc_upgrade_args(a),
    }
}

pub open spec fn dec_upgrade_instruction(s: Seq<u8>, i: int) -> Option<
    (UpgradeInstructionView, int),
> {
    match dec_u8(s, i) {
        Some((tag, j)) => {
            if tag == 0 {
                match dec_upgrade_init_args(s, j) {
                    Some((a, k)) => Some((UpgradeInstructionView::InitializeAdmin(a), k)),
                    None => None,
                }
            } else if tag == 1 {
                match dec_upgrade_transfer_args(s, j) {
                    Some((a, k)) => Some((UpgradeInstructionView::TransferOwnership(a), k)),
                    None => None,
                }
            } else if tag == 2 {
                match dec_upgrade_args(s, j) {
                    Some((a, k)) => Some((UpgradeInstructionView::Upgrade(a), k)),
                    None => None,
                }
            } else {
                None
            }
        },
        None => None,
    }
}

impl UpgradeInstruction {
    /// Serializes the instruction: the variant's tag byte, then its payload.
    pub fn pack(&self) -> (r: Vec<u8>)
        requires
            self@.wf(),
        ensures
            r@ == enc_upgrade_instruction(self@),
    {
        let mut out: Vec<u8> = Vec::new();
        match self {
            UpgradeInstruction::InitializeAdmin(a) => {
                crate::codec::write_u8(&mut out, 0);
                a.encode(&mut out);
            },
            UpgradeInstruction::TransferOwnership(a) => {
                crate::codec::write_u8(&mut out, 1);
                a.encode(&mut out);
            },
            UpgradeInstruction::Upgrade(a) => {
                crate::codec::write_u8(&mut out, 2);
                a.encode(&mut out);
            },
        }
        proof {
            assert(out@ =~= enc_upgrade_instruction(self@));
        }
        out
    }

    /// Parses an instruction payload; every byte must be consumed.
    pub fn unpack(data: &Vec<u8>) -> (r: Option<UpgradeInstruction>)
        ensures
            match r {
                Some(v) => dec_upgrade_instruction(data@, 0) == Some((v@, data@.len() as int)),
                None => !(dec_upgrade_instruction(data@, 0) matches Some((_, end)) && end
                    == data@.len()),
            },
    {
        let parsed: Option<(UpgradeInstruction, usize)> = match crate::codec::read_u8(data, 0) {
            Some((tag, j)) => {
                if tag == 0 {
                    match InitializeAdminArgs::decode(data, j) {
                        Some((a, k)) => Some((UpgradeInstruction::InitializeAdmin(a), k)),
                        None => None,
                    }
                } else if tag == 1 {
                    match TransferOwnershipArgs::decode(data, j) {
                        Some((a, k)) => Some((UpgradeInstruction::TransferOwnership(a), k)),
                        None => None,
                    }
                } else if tag == 2 {
                    match UpgradeArgs::decode(data, j) {
                        Some((a, k)) => Some((UpgradeInstruction::Upgrade(a), k)),
                        None => None,
                    }
                } else {
                    None
                }
            },
            None => None,
        };
        match parsed {
            Some((v, end)) => {
                if end == data.len() {
                    Some(v)
                } else {
                    None
                }
            },
            None => None,
        }
    }
}

/// Decoding a packed upgrade instruction yields the instruction back, whole.
pub proof fn lemma_dec_upgrade_instruction(v: UpgradeInstructionView)
    requires
        v.wf(),
    ensures
        dec_upgrade_instruction(enc_upgrade_instruction(v), 0) == Some(
            (v, enc_upgrade_instruction(v).len() as int),
        ),
{
    let e = enc_upgrade_instruction(v);
    assert(e.subrange(0, e.len() as int) =~= e);
    match v {
        UpgradeInstructionView::InitializeAdmin(a) => {
            assert(e.subrange(1, e.len() as int) =~= enc_upgrade_init_args(a));
            lemma_dec_upgrade_init_args(e, 1, a);
        },
        UpgradeInstructionView::TransferOwnership(a) => {
            assert(e.subrange(1, e.len() as int) =~= enc_upgrade_transfer_args(a));
            lemma_dec_upgrade_transfer_args(e, 1, a);
        },
        UpgradeInstructionView::Upgrade(a) => {
            assert(e.subrange(1, e.len() as int) =~= enc_upgrade_args(a));
            lemma_dec_upgrade_args(e, 1, a);
        },
    }
}

} // verus!
