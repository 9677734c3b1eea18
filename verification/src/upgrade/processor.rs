//! The upgrade admin's decision logic.

use vstd::prelude::*;
use crate::error::BridgeError;
use crate::pda::pda_address;
use crate::processor::BridgeAction;
use crate::processor::BridgeActionView;
use crate::processor::view_actions;
use crate::upgrade::instruction::UpgradeArgs;
use crate::upgrade::state::UpgradeAdmin;
use crate::upgrade::state::UpgradeAdminView;
use crate::upgrade::state::dec_upgrade_admin;

verus! {

/// The upgrade admin record held in account bytes, where the bytes hold one.
pub open spec fn stored_upgrade_admin(data: Seq<u8>) -> Option<UpgradeAdminView> {
    match dec_upgrade_admin(data, 0) {
        Some((a, _)) => Some(a),
        None => None,
    }
}

/// Whether account bytes hold an initialized upgrade admin record.
pub open spec fn upgrade_admin_ready(data: Seq<u8>) -> bool {
    stored_upgrade_admin(data) matches Some(a) && a.is_initialized
}

/// Whether the presented upgrade admin account is the program-derived address
/// of the fixed seed and the governed program's identity.
pub open spec fn upgrade_admin_pda_ok(
    contract: Seq<u8>,
    program_id: Seq<u8>,
    admin_key: Seq<u8>,
) -> bool {
    pda_address(crate::upgrade_admin_seeds_spec(contract), program_id) == Some(admin_key)
}

/// Derives the upgrade admin address for a governed program.
pub fn derive_upgrade_admin_address(contract: &[u8; 32], program_id: &[u8; 32]) -> (r: Option<
    [u8; 32],
>)
    ensures
        match r {
            Some(k) => pda_address(crate::upgrade_admin_seeds_spec(contract@), program_id@)
                == Some(k@),
            None => pda_address(crate::upgrade_admin_seeds_spec(contract@), program_id@) is None,
        },
{
    let mut seed_list: Vec<Vec<u8>> = Vec::new();
    seed_list.push(crate::upgrade_admin_seed());
    let mut key_seed: Vec<u8> = Vec::new();
    crate::codec::write_arr(&mut key_seed, contract.as_slice());
    seed_list.push(key_seed);
    proof {
        assert(seed_list.deep_view() =~~= crate::upgrade_admin_seeds_spec(contract@));
    }
    crate::pda::derive_pda(&seed_list, program_id)
}

/// Reads the upgrade admin account: the record, or `NotInitialized` where the
/// bytes hold none or an uninitialized one.
fn load_ready_upgrade_admin(data: &Vec<u8>) -> (r: Result<UpgradeAdmin, BridgeError>)
    ensures
        r matches Ok(a) ==> stored_upgrade_admin(data@) == Some(a@) && a@.is_initialized,
        r is Err ==> r == Err::<UpgradeAdmin, BridgeError>(BridgeError::NotInitialized)
            && !upgrade_admin_ready(data@),
        upgrade_admin_ready(data@) ==> r is Ok,
{
    match crate::upgrade::state::unpack_upgrade_admin(data) {
        Some(a) => {
            if a.is_initialized {
                Ok(a)
            } else {
                Err(BridgeError::NotInitialized)
            }
        },
        None => Err(BridgeError::NotInitialized),
    }
}

/// The exact outcome of the upgrade admin's creation.
pub open spec fn upgrade_init_outcome(
    program_id: Seq<u8>,
    upgrade_admin_key: Seq<u8>,
    upgrade_admin_data: Seq<u8>,
    public_key: Seq<u8>,
    contract: Seq<u8>,
) -> Result<(UpgradeAdminView, Seq<BridgeActionView>), BridgeError> {
    if !upgrade_admin_pda_ok(contract, program_id, upgrade_admin_key) {
        Err(BridgeError::WrongAdmin)
    } else if upgrade_admin_ready(upgrade_admin_data) {
        Err(BridgeError::AlreadyInUse)
    } else {
        Ok(
            (
                UpgradeAdminView { public_key, contract, nonce: 0, is_initialized: true },
                seq![
                    BridgeActionView::CreateAccount {
                        address: upgrade_admin_key,
                        size: crate::upgrade::state::MAX_ADMIN_SIZE as u64,
                        owner: program_id,
                        seeds: crate::upgrade_admin_seeds_spec(contract),
                    },
                ],
            ),
        )
    }
}

/// Creates the upgrade admin for a governed program; its nonce starts at
/// zero.
pub fn process_init_admin(
    program_id: &[u8; 32],
    upgrade_admin_key: &[u8; 32],
    upgrade_admin_data: &Vec<u8>,
    public_key: &[u8; 33],
    contract: &[u8; 32],
) -> (r: Result<(UpgradeAdmin, Vec<BridgeAction>), BridgeError>)
    ensures
        ({
            let o = upgrade_init_outcome(
                program_id@,
                upgrade_admin_key@,
                upgrade_admin_data@,
                public_key@,
                contract@,
            );
            match r {
                Ok((admin, actions)) => o == Ok::<
                    (UpgradeAdminView, Seq<BridgeActionView>),
                    BridgeError,
                >((admin@, view_actions(actions@))),
                Err(e) => o == Err::<(UpgradeAdminView, Seq<BridgeActionView>), BridgeError>(e),
            }
        }),
{
    match derive_upgrade_admin_address(contract, program_id) {
        Some(derived) => {
            if !crate::codec::bytes_equal(derived.as_slice(), upgrade_admin_key.as_slice()) {
                return Err(BridgeError::WrongAdmin);
            }
        },
        None => {
            return Err(BridgeError::WrongAdmin);
        },
    }
    match crate::upgrade::state::unpack_upgrade_admin(upgrade_admin_data) {
        Some(stored) => {
            if stored.is_initialized {
                return Err(BridgeError::AlreadyInUse);
            }
        },
        None => {
        },
    }
    let admin = UpgradeAdmin {
        public_key: *public_key,
        contract: *contract,
        nonce: 0,
        is_initialized: true,
    };
    let mut seed_list: Vec<Vec<u8>> = Vec::new();
    seed_list.push(crate::upgrade_admin_seed());
    let mut key_seed: Vec<u8> = Vec::new();
    crate::codec::write_arr(&mut key_seed, contract.as_slice());
    seed_list.push(key_seed);
    proof {
        assert(seed_list.deep_view() =~~= crate::upgrade_admin_seeds_spec(contract@));
    }
    let mut actions: Vec<BridgeAction> = Vec::new();
    actions.push(
        BridgeAction::CreateAccount {
            address: *upgrade_admin_key,
            size: crate::upgrade::state::MAX_ADMIN_SIZE as u64,
            owner: *program_id,
            seeds: seed_list,
        },
    );
    proof {
        assert(view_actions(actions@) =~= seq![
            BridgeActionView::CreateAccount {
                address: upgrade_admin_key@,
                size: crate::upgrade::state::MAX_ADMIN_SIZE as u64,
                owner: program_id@,
                seeds: crate::upgrade_admin_seeds_spec(contract@),
            },
        ]);
    }
    Ok((admin, actions))
}

/// The exact outcome of the upgrade admin's key rotation: the new key signed
/// by the stored one over the new key's keccak digest.
pub open spec fn upgrade_transfer_outcome(
    program_id: Seq<u8>,
    upgrade_admin_key: Seq<u8>,
    upgrade_admin_data: Seq<u8>,
    new_public_key: Seq<u8>,
    signature: Seq<u8>,
    recovery_id: u8,
) -> Result<UpgradeAdminView, BridgeError> {
    if !upgrade_admin_ready(upgrade_admin_data) {
        Err(BridgeError::NotInitialized)
    } else {
        let admin = stored_upgrade_admin(upgrade_admin_data)->Some_0;
        if !upgrade_admin_pda_ok(admin.contract, program_id, upgrade_admin_key) {
            Err(BridgeError::WrongSeeds)
        } else {
            match crate::crypto::signature_error_of(
                crate::crypto::keccak256_spec(new_public_key),
                signature,
                recovery_id,
                admin.public_key,
            ) {
                Some(e) => Err(e),
                None => Ok(UpgradeAdminView { public_key: new_public_key, ..admin }),
            }
        }
    }
}

/// Rotates the upgrade admin's operator key.
pub fn process_transfer_ownership(
    program_id: &[u8; 32],
    upgrade_admin_key: &[u8; 32],
    upgrade_admin_data: &Vec<u8>,
    new_public_key: &[u8; 33],
    signature: &[u8; 64],
    recovery_id: u8,
) -> (r: Result<UpgradeAdmin, BridgeError>)
    ensures
        ({
            let o = upgrade_transfer_outcome(
                program_id@,
                upgrade_admin_key@,
                upgrade_admin_data@,
                new_public_key@,
                signature@,
                recovery_id,
            );
            match r {
                Ok(admin) => o == Ok::<UpgradeAdminView, BridgeError>(admin@),
                Err(e) => o == Err::<UpgradeAdminView, BridgeError>(e),
            }
        }),
{
    let mut admin = match load_ready_upgrade_admin(upgrade_admin_data) {
        Ok(a) => a,
        Err(e) => {
            return Err(e);
        },
    };
    match derive_upgrade_admin_address(&admin.contract, program_id) {
        Some(derived) => {
            if !crate::codec::bytes_equal(derived.as_slice(), upgrade_admin_key.as_slice()) {
                return Err(BridgeError::WrongSeeds);
            }
        },
        None => {
            return Err(BridgeError::WrongSeeds);
        },
    }
    let mut key_bytes: Vec<u8> = Vec::new();
    crate::codec::write_arr(&mut key_bytes, new_public_key.as_slice());
    let digest = crate::crypto::keccak256(&key_bytes);
    let mut message: Vec<u8> = Vec::new();
    crate::codec::write_arr(&mut message, digest.as_slice());
    match crate::crypto::verify_ecdsa_signature(
        &message,
        signature,
        recovery_id,
        &admin.public_key,
    ) {
        Ok(()) => {
            admin.public_key = *new_public_key;
            Ok(admin)
        },
        Err(e) => Err(e),
    }
}

/// The message an operator signs to authorize an upgrade: the keccak digest
/// of the staged buffer's contents, the fixed network name, the padded
/// current nonce and the program identity, hashed once more.
pub open spec fn upgrade_message(nonce: u64, buffer_data: Seq<u8>, program_id: Seq<u8>) -> Seq<
    u8,
> {
    crate::crypto::keccak256_spec(
        crate::crypto::keccak256_spec(buffer_data) + crate::solana_network_spec()
            + crate::merkle::amount_bytes_spec(nonce) + program_id,
    )
}

/// The exact outcome of an operator-authorized upgrade.
pub open spec fn upgrade_outcome(
    program_id: Seq<u8>,
    upgrade_admin_key: Seq<u8>,
    upgrade_admin_data: Seq<u8>,
    upgrade_program_key: Seq<u8>,
    buffer_key: Seq<u8>,
    buffer_data: Seq<u8>,
    spill_key: Seq<u8>,
    args: crate::upgrade::instruction::UpgradeArgsView,
) -> Result<(UpgradeAdminView, Seq<BridgeActionView>), BridgeError> {
    if !upgrade_admin_pda_ok(upgrade_program_key, program_id, upgrade_admin_key) {
        Err(BridgeError::WrongSeeds)
    } else if !upgrade_admin_ready(upgrade_admin_data) {
        Err(BridgeError::NotInitialized)
    } else {
        let admin = stored_upgrade_admin(upgrade_admin_data)->Some_0;
        match crate::crypto::signature_error_of(
            upgrade_message(admin.nonce, buffer_data, program_id),
            args.signature,
            args.recovery_id,
            admin.public_key,
        ) {
            Some(e) => Err(e),
            None => {
                if admin.nonce == u64::MAX {
                    Err(BridgeError::WrongNonce)
                } else {
                    Ok(
                        (
                            UpgradeAdminView { nonce: (admin.nonce + 1) as u64, ..admin },
                            seq![
                                BridgeActionView::UpgradeProgram {
                                    program: upgrade_program_key,
                                    buffer: buffer_key,
                                    spill: spill_key,
                                    authority: upgrade_admin_key,
                                },
                            ],
                        ),
                    )
                }
            },
        }
    }
}

/// Performs an operator-authorized upgrade: the signature binds the staged
/// buffer's exact contents and the current nonce; success replaces the
/// governed program's code and advances the nonce by exactly one.
pub fn process_upgrade(
    program_id: &[u8; 32],
    upgrade_admin_key: &[u8; 32],
    upgrade_admin_data: &Vec<u8>,
    upgrade_program_key: &[u8; 32],
    buffer_key: &[u8; 32],
    buffer_data: &Vec<u8>,
    spill_key: &[u8; 32],
    args: &UpgradeArgs,
) -> (r: Result<(UpgradeAdmin, Vec<BridgeAction>), BridgeError>)
    ensures
        ({
            let o = upgrade_outcome(
                program_id@,
                upgrade_admin_key@,
                upgrade_admin_data@,
                upgrade_program_key@,
                buffer_key@,
                buffer_data@,
                spill_key@,
                args@,
            );
            match r {
                Ok((admin, actions)) => o == Ok::<
                    (UpgradeAdminView, Seq<BridgeActionView>),
                    BridgeError,
                >((admin@, view_actions(actions@))),
                Err(e) => o == Err::<(UpgradeAdminView, Seq<BridgeActionView>), BridgeError>(e),
            }
        }),
{
    match derive_upgrade_admin_address(upgrade_program_key, program_id) {
        Some(derived) => {
            if !crate::codec::bytes_equal(derived.as_slice(), upgrade_admin_key.as_slice()) {
                return Err(BridgeError::WrongSeeds);
            }
        },
        None => {
            return Err(BridgeError::WrongSeeds);
        },
    }
    let mut admin = match load_ready_upgrade_admin(upgrade_admin_data) {
        Ok(a) => a,
        Err(e) => {
            return Err(e);
        },
    };
    let buffer_digest = crate::crypto::keccak256(buffer_data);
    let mut message_bytes: Vec<u8> = Vec::new();
    crate::codec::write_arr(&mut message_bytes, buffer_digest.as_slice());
    let mut network = crate::solana_network_bytes();
    message_bytes.append(&mut network);
    let mut nonce_bytes = crate::merkle::amount_bytes(admin.nonce);
    message_bytes.append(&mut nonce_bytes);
    crate::codec::write_arr(&mut message_bytes, program_id.as_slice());
    proof {
        assert(message_bytes@ =~= crate::crypto::keccak256_spec(buffer_data@)
            + crate::solana_network_spec() + crate::merkle::amount_bytes_spec(admin.nonce)
            + program_id@);
    }
    let digest = crate::crypto::keccak256(&message_bytes);
    let mut message: Vec<u8> = Vec::new();
    crate::codec::write_arr(&mut message, digest.as_slice());
    if let Err(e) = crate::crypto::verify_ecdsa_signature(
        &message,
        &args.signature,
        args.recovery_id,
        &admin.public_key,
    ) {
        return Err(e);
    }
    if admin.nonce == u64::MAX {
        return Err(BridgeError::WrongNonce);
    }
    admin.nonce = admin.nonce + 1;
    let mut actions: Vec<BridgeAction> = Vec::new();
    actions.push(
        BridgeAction::UpgradeProgram {
            program: *upgrade_program_key,
            buffer: *buffer_key,
            spill: *spill_key,
            authority: *upgrade_admin_key,
        },
    );
    proof {
        assert(view_actions(actions@) =~= seq![
            BridgeActionView::UpgradeProgram {
                program: upgrade_program_key@,
                buffer: buffer_key@,
                spill: spill_key@,
                authority: upgrade_admin_key@,
            },
        ]);
    }
    Ok((admin, actions))
}

} // verus!
