//! Verified core of a cross-chain token bridge.
//!
//! The bridge lets assets (the native coin, fungible tokens, non-fungible
//! tokens) move between an external chain and the local chain. An off-chain
//! operator quorum authorizes withdrawals and fee-list changes by signing
//! Merkle roots with a secp256k1 key held on-chain; this crate holds the
//! canonical byte codec, the Merkle-root reconstruction, the signature
//! check, and the pure decision logic of every instruction processor.

use vstd::prelude::*;

pub mod codec;
pub mod commission;
pub mod crypto;
pub mod error;
pub mod instruction;
pub mod merkle;
pub mod pda;
pub mod processor;
pub mod state;
pub mod upgrade;

verus! {

/// ASCII identifier of the destination network that every hashed payload names.
pub open spec fn solana_network_spec() -> Seq<u8> {
    seq![83u8, 111u8, 108u8, 97u8, 110u8, 97u8]
}

/// The bytes of the fixed network identifier, `"Solana"` in ASCII.
pub fn solana_network_bytes() -> (r: Vec<u8>)
    ensures
        r@ == solana_network_spec(),
{
    let mut v: Vec<u8> = Vec::new();
    v.push(83u8);
    v.push(111u8);
    v.push(108u8);
    v.push(97u8);
    v.push(110u8);
    v.push(97u8);
    proof {
        assert(v@ =~= solana_network_spec());
    }
    v
}

/// ASCII bytes of the fixed seed string under which the commission admin's
/// address is derived, `"commission_admin"`.
pub open spec fn commission_admin_seed_spec() -> Seq<u8> {
    seq![
        99u8,
        111u8,
        109u8,
        109u8,
        105u8,
        115u8,
        115u8,
        105u8,
        111u8,
        110u8,
        95u8,
        97u8,
        100u8,
        109u8,
        105u8,
        110u8,
    ]
}

/// The bytes of the commission admin's fixed PDA seed, `"commission_admin"`.
pub fn commission_admin_seed() -> (r: Vec<u8>)
    ensures
        r@ == commission_admin_seed_spec(),
{
    let mut v: Vec<u8> = Vec::new();
    v.push(99u8);
    v.push(111u8);
    v.push(109u8);
    v.push(109u8);
    v.push(105u8);
    v.push(115u8);
    v.push(115u8);
    v.push(105u8);
    v.push(111u8);
    v.push(110u8);
    v.push(95u8);
    v.push(97u8);
    v.push(100u8);
    v.push(109u8);
    v.push(105u8);
    v.push(110u8);
    proof {
        assert(v@ =~= commission_admin_seed_spec());
    }
    v
}

/// ASCII bytes of the fixed seed string under which the upgrade admin's
/// address is derived, `"upgrade_admin"`.
pub open spec fn upgrade_admin_seed_spec() -> Seq<u8> {
    seq![117u8, 112u8, 103u8, 114u8, 97u8, 100u8, 101u8, 95u8, 97u8, 100u8, 109u8, 105u8, 110u8]
}

/// The bytes of the upgrade admin's fixed PDA seed, `"upgrade_admin"`.
pub fn upgrade_admin_seed() -> (r: Vec<u8>)
    ensures
        r@ == upgrade_admin_seed_spec(),
{
    let mut v: Vec<u8> = Vec::new();
    v.push(117u8);
    v.push(112u8);
    v.push(103u8);
    v.push(114u8);
    v.push(97u8);
    v.push(100u8);
    v.push(101u8);
    v.push(95u8);
    v.push(97u8);
    v.push(100u8);
    v.push(109u8);
    v.push(105u8);
    v.push(110u8);
    proof {
        assert(v@ =~= upgrade_admin_seed_spec());
    }
    v
}

/// The seed list of the bridge admin's address: the one 32-byte seeds value.
pub open spec fn bridge_admin_seeds_spec(seeds: Seq<u8>) -> Seq<Seq<u8>> {
    seq![seeds]
}

/// The seed list of the commission admin's address: the fixed seed string and
/// the bridge admin's address.
pub open spec fn commission_admin_seeds_spec(bridge_admin: Seq<u8>) -> Seq<Seq<u8>> {
    seq![commission_admin_seed_spec(), bridge_admin]
}

/// The seed list of the upgrade admin's address: the fixed seed string and
/// the governed program's identity.
pub open spec fn upgrade_admin_seeds_spec(contract: Seq<u8>) -> Seq<Seq<u8>> {
    seq![upgrade_admin_seed_spec(), contract]
}

/// Derives the bridge admin address for a 32-byte seeds value.
pub fn derive_bridge_admin_address(seeds: &[u8; 32], program_id: &[u8; 32]) -> (r: Option<
    [u8; 32],
>)
    ensures
        match r {
            Some(k) => crate::pda::pda_address(bridge_admin_seeds_spec(seeds@), program_id@)
                == Some(k@),
            None => crate::pda::pda_address(bridge_admin_seeds_spec(seeds@), program_id@) is None,
        },
{
    let mut seed_list: Vec<Vec<u8>> = Vec::new();
    let mut seed: Vec<u8> = Vec::new();
    crate::codec::write_arr(&mut seed, seeds.as_slice());
    seed_list.push(seed);
    proof {
        assert(seed_list.deep_view() =~~= bridge_admin_seeds_spec(seeds@));
    }
    crate::pda::derive_pda(&seed_list, program_id)
}

/// Derives the commission admin address under the given commission program.
pub fn derive_commission_admin_address(bridge_admin: &[u8; 32], commission_program: &[u8; 32])
    -> (r: Option<[u8; 32]>)
    ensures
        match r {
            Some(k) => crate::pda::pda_address(
                commission_admin_seeds_spec(bridge_admin@),
                commission_program@,
            ) == Some(k@),
            None => crate::pda::pda_address(
                commission_admin_seeds_spec(bridge_admin@),
                commission_program@,
            ) is None,
        },
{
    let mut seed_list: Vec<Vec<u8>> = Vec::new();
    seed_list.push(commission_admin_seed());
    let mut key_seed: Vec<u8> = Vec::new();
    crate::codec::write_arr(&mut key_seed, bridge_admin.as_slice());
    seed_list.push(key_seed);
    proof {
        assert(seed_list.deep_view() =~~= commission_admin_seeds_spec(bridge_admin@));
    }
    crate::pda::derive_pda(&seed_list, commission_program)
}

} // verus!
