//! The canonical leaf of an operator-signed commission operation.

use vstd::prelude::*;
use crate::codec::view_opt_key;
use crate::commission::CommissionTokenView;
use crate::commission::instruction::CommissionTokenArgView;
use crate::commission::state::CommissionToken;
use crate::commission::state::OperationType;
use crate::commission::state::operation_tag_spec;
use crate::crypto::keccak256;
use crate::crypto::keccak256_spec;
use crate::merkle::amount_bytes;
use crate::merkle::amount_bytes_spec;
use crate::solana_network_bytes;
use crate::solana_network_spec;

verus! {

/// The content hashed into a commission-operation leaf: the operation's
/// current nonce, the receiver where fees leave the engine, the engine's own
/// program identity, the fixed network name, the operation tag, and the fee
/// token with its amount.
pub struct Content {
    pub nonce: u64,
    pub receiver: Option<[u8; 32]>,
    pub contract: [u8; 32],
    /// The fixed ASCII network identifier.
    pub network: Vec<u8>,
    pub operation_type: OperationType,
    pub token: CommissionToken,
}

/// The exact bytes a commission-operation leaf hashes:
/// `amount_bytes(nonce) || receiver? || contract || "Solana" || op_tag ||
/// (mint for a fungible or non-fungible fee token) || amount_bytes(amount)`.
pub open spec fn commission_content_bytes(
    nonce: u64,
    receiver: Option<Seq<u8>>,
    contract: Seq<u8>,
    network: Seq<u8>,
    op: OperationType,
    token: CommissionTokenArgView,
) -> Seq<u8> {
    amount_bytes_spec(nonce) + (match receiver {
        Some(k) => k,
        None => Seq::<u8>::empty(),
    }) + contract + network + seq![operation_tag_spec(op)] + (match token.token {
        CommissionTokenView::Native => Seq::<u8>::empty(),
        CommissionTokenView::FT(mint) => mint,
        CommissionTokenView::NFT(mint) => mint,
    }) + amount_bytes_spec(token.amount)
}

impl Content {
    /// The bytes this content hashes.
    pub open spec fn leaf_bytes_spec(&self) -> Seq<u8> {
        commission_content_bytes(
            self.nonce,
            view_opt_key(self.receiver),
            self.contract@,
            self.network@,
            self.operation_type,
            self.token@,
        )
    }

    /// The leaf hash.
    pub open spec fn hash_spec(&self) -> Seq<u8> {
        keccak256_spec(self.leaf_bytes_spec())
    }

    pub fn new(
        nonce: u64,
        receiver: Option<[u8; 32]>,
        contract: [u8; 32],
        operation_type: OperationType,
        token: CommissionToken,
    ) -> (r: Content)
        ensures
            r.nonce == nonce,
            r.receiver == receiver,
            r.contract == contract,
            r.network@ == solana_network_spec(),
            r.operation_type == operation_type,
            r.token@ == token@,
    {
        Content { nonce, receiver, contract, network: solana_network_bytes(), operation_type, token }
    }

    /// Hashes the canonical leaf bytes.
    pub fn hash(&self) -> (r: [u8; 32])
        ensures
            r@ == self.hash_spec(),
    {
        let mut bytes: Vec<u8> = Vec::new();
        let mut nonce_bytes = amount_bytes(self.nonce);
        bytes.append(&mut nonce_bytes);
        if let Some(receiver) = &self.receiver {
            crate::codec::write_arr(&mut bytes, receiver.as_slice());
        }
        crate::codec::write_arr(&mut bytes, self.contract.as_slice());
        crate::codec::write_arr(&mut bytes, self.network.as_slice());
        bytes.push(self.operation_type.tag());
        match &self.token.token {
            crate::commission::CommissionToken::Native => {
            },
            crate::commission::CommissionToken::FT(mint) => {
                crate::codec::write_arr(&mut bytes, mint.as_slice());
            },
            crate::commission::CommissionToken::NFT(mint) => {
                crate::codec::write_arr(&mut bytes, mint.as_slice());
            },
        }
        let mut amount = amount_bytes(self.token.amount);
        bytes.append(&mut amount);
        proof {
            assert(bytes@ =~= self.leaf_bytes_spec());
        }
        keccak256(&bytes)
    }
}

} // verus!
