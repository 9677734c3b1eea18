//! The commission engine's decision logic: one pure function per
//! instruction, returning the new admin record to store and the transfers to
//! perform, or the error that aborts the instruction.

use vstd::prelude::*;
use crate::commission::CommissionToken;
use crate::commission::CommissionTokenView;
use crate::commission::instruction::CommissionTokenArgView;
use crate::commission::instruction::FeeTokenArgs;
use crate::commission::instruction::MAX_TOKENS_COUNT;
use crate::commission::instruction::WithdrawArgs;
use crate::commission::merkle::Content;
use crate::commission::merkle::commission_content_bytes;
use crate::commission::state::CommissionAdmin;
use crate::commission::state::CommissionAdminView;
use crate::commission::state::OperationType;
use crate::commission::state::dec_commission_admin;
use crate::commission::state::view_token_vec;
use crate::error::BridgeError;
use crate::pda::pda_address;
use crate::processor::BridgeAction;
use crate::processor::BridgeActionView;
use crate::processor::admin_ready;
use crate::processor::stored_admin;
use crate::processor::view_actions;

verus! {

/// The commission admin record held in account bytes, where the bytes hold
/// one.
pub open spec fn stored_commission_admin(data: Seq<u8>) -> Option<CommissionAdminView> {
    match dec_commission_admin(data, 0) {
        Some((a, _)) => Some(a),
        None => None,
    }
}

/// Whether account bytes hold an initialized commission admin record.
pub open spec fn commission_admin_ready(data: Seq<u8>) -> bool {
    stored_commission_admin(data) matches Some(a) && a.is_initialized
}

/// Whether the presented commission admin account is the program-derived
/// address of the fixed seed and the bridge admin's identity.
pub open spec fn commission_admin_pda_ok(
    bridge_admin_key: Seq<u8>,
    program_id: Seq<u8>,
    commission_admin_key: Seq<u8>,
) -> bool {
    pda_address(crate::commission_admin_seeds_spec(bridge_admin_key), program_id) == Some(
        commission_admin_key,
    )
}

/// Reads the commission admin account: the record, or `NotInitialized` where
/// the bytes hold none or an uninitialized one.
fn load_ready_commission_admin(data: &Vec<u8>) -> (r: Result<CommissionAdmin, BridgeError>)
    ensures
        r matches Ok(a) ==> stored_commission_admin(data@) == Some(a@) && a@.is_initialized,
        r is Err ==> r == Err::<CommissionAdmin, BridgeError>(BridgeError::NotInitialized)
            && !commission_admin_ready(data@),
        commission_admin_ready(data@) ==> r is Ok,
{
    match crate::commission::state::unpack_commission_admin(data) {
        Some(a) => {
            if a.is_initialized {
                Ok(a)
            } else {
                Err(BridgeError::NotInitialized)
            }
        },
        None => Err(BridgeError::NotInitialized),
    }
}

// ===== admin creation =====

/// The exact outcome of the commission admin's creation.
pub open spec fn commission_init_outcome(
    program_id: Seq<u8>,
    commission_admin_key: Seq<u8>,
    commission_admin_data: Seq<u8>,
    bridge_admin_key: Seq<u8>,
    acceptable_tokens: Seq<CommissionTokenArgView>,
) -> Result<(CommissionAdminView, Seq<BridgeActionView>), BridgeError> {
    if !commission_admin_pda_ok(bridge_admin_key, program_id, commission_admin_key) {
        Err(BridgeError::WrongAdmin)
    } else if acceptable_tokens.len() > MAX_TOKENS_COUNT {
        Err(BridgeError::WrongArgsSize)
    } else if commission_admin_ready(commission_admin_data) {
        Err(BridgeError::AlreadyInUse)
    } else {
        Ok(
            (
                CommissionAdminView {
                    acceptable_tokens: acceptable_tokens,
                    add_token_nonce: 0,
                    update_token_nonce: 0,
                    remove_token_nonce: 0,
                    withdraw_token_nonce: 0,
                    is_initialized: true,
                },
                seq![
                    BridgeActionView::CreateAccount {
                        address: commission_admin_key,
                        size: crate::commission::state::MAX_ADMIN_SIZE as u64,
                        owner: program_id,
                        seeds: crate::commission_admin_seeds_spec(bridge_admin_key),
                    },
                ],
            ),
        )
    }
}

/// Creates the commission admin with its initial fee-token list; the four
/// nonces start at zero.
pub fn process_init_admin(
    program_id: &[u8; 32],
    commission_admin_key: &[u8; 32],
    commission_admin_data: &Vec<u8>,
    bridge_admin_key: &[u8; 32],
    acceptable_tokens: Vec<crate::commission::instruction::CommissionTokenArg>,
) -> (r: Result<(CommissionAdmin, Vec<BridgeAction>), BridgeError>)
    ensures
        ({
            let o = commission_init_outcome(
                program_id@,
                commission_admin_key@,
                commission_admin_data@,
                bridge_admin_key@,
                crate::commission::instruction::view_fee_vec(acceptable_tokens@),
            );
            match r {
                Ok((admin, actions)) => o == Ok::<
                    (CommissionAdminView, Seq<BridgeActionView>),
                    BridgeError,
                >((admin@, view_actions(actions@))),
                Err(e) => o == Err::<(CommissionAdminView, Seq<BridgeActionView>), BridgeError>(e),
            }
        }),
{
    match crate::derive_commission_admin_address(bridge_admin_key, program_id) {
        Some(derived) => {
            if !crate::codec::bytes_equal(derived.as_slice(), commission_admin_key.as_slice()) {
                return Err(BridgeError::WrongAdmin);
            }
        },
        None => {
            return Err(BridgeError::WrongAdmin);
        },
    }
    if acceptable_tokens.len() > MAX_TOKENS_COUNT {
        return Err(BridgeError::WrongArgsSize);
    }
    match crate::commission::state::unpack_commission_admin(commission_admin_data) {
        Some(stored) => {
            if stored.is_initialized {
                return Err(BridgeError::AlreadyInUse);
            }
        },
        None => {
        },
    }
    let mut entries: Vec<crate::commission::state::CommissionToken> = Vec::new();
    let mut i: usize = 0;
    while i < acceptable_tokens.len()
        invariant
            i <= acceptable_tokens@.len(),
            entries@.len() == i,
            forall|j: int| 0 <= j < i ==> entries@[j]@ == acceptable_tokens@[j]@,
        decreases acceptable_tokens@.len() - i,
    {
        entries.push(crate::commission::state::CommissionToken::from(&acceptable_tokens[i]));
        i = i + 1;
    }
    let admin = CommissionAdmin {
        acceptable_tokens: entries,
        add_token_nonce: 0,
        update_token_nonce: 0,
        remove_token_nonce: 0,
        withdraw_token_nonce: 0,
        is_initialized: true,
    };
    let mut seed_list: Vec<Vec<u8>> = Vec::new();
    seed_list.push(crate::commission_admin_seed());
    let mut key_seed: Vec<u8> = Vec::new();
    crate::codec::write_arr(&mut key_seed, bridge_admin_key.as_slice());
    seed_list.push(key_seed);
    proof {
        assert(seed_list.deep_view() =~~= crate::commission_admin_seeds_spec(bridge_admin_key@));
    }
    let mut actions: Vec<BridgeAction> = Vec::new();
    actions.push(
        BridgeAction::CreateAccount {
            address: *commission_admin_key,
            size: crate::commission::state::MAX_ADMIN_SIZE as u64,
            owner: *program_id,
            seeds: seed_list,
        },
    );
    proof {
        assert(view_token_vec(admin.acceptable_tokens@)
            =~= crate::commission::instruction::view_fee_vec(acceptable_tokens@));
        assert(view_actions(actions@) =~= seq![
            BridgeActionView::CreateAccount {
                address: commission_admin_key@,
                size: crate::commission::state::MAX_ADMIN_SIZE as u64,
                owner: program_id@,
                seeds: crate::commission_admin_seeds_spec(bridge_admin_key@),
            },
        ]);
    }
    Ok((admin, actions))
}

// ===== charging =====

/// The first stored entry whose token equals the offered one.
pub open spec fn acceptable_entry(
    list: Seq<CommissionTokenArgView>,
    token: CommissionTokenView,
) -> Option<CommissionTokenArgView>
    decreases list.len(),
{
    if list.len() == 0 {
        None
    } else if list[0].token == token {
        Some(list[0])
    } else {
        acceptable_entry(list.skip(1), token)
    }
}

/// Finds the fee entry for the offered token; a token with no entry is not
/// acceptable to charge a commission in.
pub fn check_token_is_acceptable(
    list: &Vec<crate::commission::state::CommissionToken>,
    token: &CommissionToken,
) -> (r: Result<u64, BridgeError>)
    ensures
        match acceptable_entry(view_token_vec(list@), token@) {
            Some(entry) => r == Ok::<u64, BridgeError>(entry.amount),
            None => r == Err::<u64, BridgeError>(BridgeError::NotAcceptable),
        },
{
    let ghost whole = view_token_vec(list@);
    let mut i: usize = 0;
    proof {
        assert(whole.skip(0) =~= whole);
    }
    while i < list.len()
        invariant
            i <= list@.len(),
            whole == view_token_vec(list@),
            acceptable_entry(whole, token@) == acceptable_entry(whole.skip(i as int), token@),
        decreases list@.len() - i,
    {
        let ghost rest = whole.skip(i as int);
        proof {
            assert(rest[0] == whole[i as int]);
            assert(rest.skip(1) =~= whole.skip(i + 1));
        }
        if list[i].token.equals(token) {
            return Ok(list[i].amount);
        }
        i = i + 1;
    }
    proof {
        assert(whole.skip(list@.len() as int) =~= Seq::<CommissionTokenArgView>::empty());
    }
    Err(BridgeError::NotAcceptable)
}

/// The transfers a commission charge performs, by fee-token kind.
pub open spec fn charge_actions(
    token: CommissionTokenView,
    fee: u64,
    owner_key: Seq<u8>,
    commission_admin_key: Seq<u8>,
    owner_associated_key: Seq<u8>,
    commission_associated_key: Seq<u8>,
    commission_ata_empty: bool,
) -> Seq<BridgeActionView> {
    match token {
        CommissionTokenView::Native => seq![
            BridgeActionView::TransferNative {
                from: owner_key,
                to: commission_admin_key,
                amount: fee,
            },
        ],
        CommissionTokenView::FT(mint) => (if commission_ata_empty {
            seq![
                BridgeActionView::CreateAssociatedAccount {
                    payer: owner_key,
                    wallet: commission_admin_key,
                    mint: mint,
                },
            ]
        } else {
            Seq::<BridgeActionView>::empty()
        }) + seq![
            BridgeActionView::TransferTokens {
                source: owner_associated_key,
                destination: commission_associated_key,
                authority: owner_key,
                amount: fee,
            },
        ],
        CommissionTokenView::NFT(_) => Seq::<BridgeActionView>::empty(),
    }
}

/// The exact outcome of a commission charge.
pub open spec fn charge_commission_outcome(
    program_id: Seq<u8>,
    commission_admin_key: Seq<u8>,
    commission_admin_data: Seq<u8>,
    bridge_admin_key: Seq<u8>,
    owner_key: Seq<u8>,
    owner_associated_key: Seq<u8>,
    commission_associated_key: Seq<u8>,
    commission_ata_empty: bool,
    token: CommissionTokenView,
) -> Result<Seq<BridgeActionView>, BridgeError> {
    if !commission_admin_pda_ok(bridge_admin_key, program_id, commission_admin_key) {
        Err(BridgeError::WrongAdmin)
    } else if !commission_admin_ready(commission_admin_data) {
        Err(BridgeError::NotInitialized)
    } else {
        let admin = stored_commission_admin(commission_admin_data)->Some_0;
        match acceptable_entry(admin.acceptable_tokens, token) {
            None => Err(BridgeError::NotAcceptable),
            Some(entry) => {
                match token {
                    CommissionTokenView::Native => Ok(
                        charge_actions(
                            token,
                            entry.amount,
                            owner_key,
                            commission_admin_key,
                            owner_associated_key,
                            commission_associated_key,
                            commission_ata_empty,
                        ),
                    ),
                    CommissionTokenView::FT(mint) => {
                        if commission_associated_key
                            != crate::pda::associated_token_address_spec(
                            commission_admin_key,
                            mint,
                        ) {
                            Err(BridgeError::WrongTokenAccount)
                        } else {
                            Ok(
                                charge_actions(
                                    token,
                                    entry.amount,
                                    owner_key,
                                    commission_admin_key,
                                    owner_associated_key,
                                    commission_associated_key,
                                    commission_ata_empty,
                                ),
                            )
                        }
                    },
                    CommissionTokenView::NFT(_) => Err(BridgeError::NotSupported),
                }
            },
        }
    }
}

/// Charges the fee for a deposit: the offered token must be on the
/// acceptable list; its configured fee amount moves from the owner to the
/// commission admin. Charging in a non-fungible token is not supported.
pub fn process_charge_commission(
    program_id: &[u8; 32],
    commission_admin_key: &[u8; 32],
    commission_admin_data: &Vec<u8>,
    bridge_admin_key: &[u8; 32],
    owner_key: &[u8; 32],
    owner_associated_key: &[u8; 32],
    commission_associated_key: &[u8; 32],
    commission_associated_data: &Vec<u8>,
    token: &CommissionToken,
) -> (r: Result<Vec<BridgeAction>, BridgeError>)
    ensures
        ({
            let o = charge_commission_outcome(
                program_id@,
                commission_admin_key@,
                commission_admin_data@,
                bridge_admin_key@,
                owner_key@,
                owner_associated_key@,
                commission_associated_key@,
                commission_associated_data@.len() == 0,
                token@,
            );
            match r {
                Ok(actions) => o == Ok::<Seq<BridgeActionView>, BridgeError>(
                    view_actions(actions@),
                ),
                Err(e) => o == Err::<Seq<BridgeActionView>, BridgeError>(e),
            }
        }),
{
    match crate::derive_commission_admin_address(bridge_admin_key, program_id) {
        Some(derived) => {
            if !crate::codec::bytes_equal(derived.as_slice(), commission_admin_key.as_slice()) {
                return Err(BridgeError::WrongAdmin);
            }
        },
        None => {
            return Err(BridgeError::WrongAdmin);
        },
    }
    let admin = match load_ready_commission_admin(commission_admin_data) {
        Ok(a) => a,
        Err(e) => {
            return Err(e);
        },
    };
    let fee = match check_token_is_acceptable(&admin.acceptable_tokens, token) {
        Ok(f) => f,
        Err(e) => {
            return Err(e);
        },
    };
    let mut actions: Vec<BridgeAction> = Vec::new();
    match token {
        CommissionToken::Native => {
            actions.push(
                BridgeAction::TransferNative {
                    from: *owner_key,
                    to: *commission_admin_key,
                    amount: fee,
                },
            );
        },
        CommissionToken::FT(mint) => {
            let expected_ata = crate::pda::associated_token_address(commission_admin_key, mint);
            if !crate::codec::bytes_equal(
                commission_associated_key.as_slice(),
                expected_ata.as_slice(),
            ) {
                return Err(BridgeError::WrongTokenAccount);
            }
            if commission_associated_data.len() == 0 {
                actions.push(
                    BridgeAction::CreateAssociatedAccount {
                        payer: *owner_key,
                        wallet: *commission_admin_key,
                        mint: *mint,
                    },
                );
            }
            actions.push(
                BridgeAction::TransferTokens {
                    source: *owner_associated_key,
                    destination: *commission_associated_key,
                    authority: *owner_key,
                    amount: fee,
                },
            );
        },
        CommissionToken::NFT(_) => {
            return Err(BridgeError::NotSupported);
        },
    }
    proof {
        assert(view_actions(actions@) =~= charge_actions(
            token@,
            fee,
            owner_key@,
            commission_admin_key@,
            owner_associated_key@,
            commission_associated_key@,
            commission_associated_data@.len() == 0,
        ));
    }
    Ok(actions)
}

// ===== operator-signed fee-list operations =====

/// The Merkle root an operator signs to authorize one commission operation:
/// the operation's leaf, hashed, then combined up the sibling path.
pub open spec fn commission_operation_root(
    nonce: u64,
    receiver: Option<Seq<u8>>,
    program_id: Seq<u8>,
    op: OperationType,
    token: CommissionTokenArgView,
    path: Seq<Seq<u8>>,
) -> Seq<u8> {
    crate::merkle::merkle_root_spec(
        crate::crypto::keccak256_spec(
            commission_content_bytes(
                nonce,
                receiver,
                program_id,
                crate::solana_network_spec(),
                op,
                token,
            ),
        ),
        path,
    )
}

/// The first index whose entry equals the given one, or the list's length.
pub open spec fn find_full_entry(
    list: Seq<CommissionTokenArgView>,
    entry: CommissionTokenArgView,
) -> int
    decreases list.len(),
{
    if list.len() == 0 {
        0
    } else if list[0] == entry {
        0
    } else {
        1 + find_full_entry(list.skip(1), entry)
    }
}

/// The first index whose entry's token equals the given one, or the list's
/// length.
pub open spec fn find_token_entry(
    list: Seq<CommissionTokenArgView>,
    token: CommissionTokenView,
) -> int
    decreases list.len(),
{
    if list.len() == 0 {
        0
    } else if list[0].token == token {
        0
    } else {
        1 + find_token_entry(list.skip(1), token)
    }
}

proof fn lemma_find_full_entry_bound(list: Seq<CommissionTokenArgView>, entry: CommissionTokenArgView)
    ensures
        0 <= find_full_entry(list, entry) <= list.len(),
    decreases list.len(),
{
    if list.len() > 0 && list[0] != entry {
        lemma_find_full_entry_bound(list.skip(1), entry);
    }
}

proof fn lemma_find_token_entry_bound(list: Seq<CommissionTokenArgView>, token: CommissionTokenView)
    ensures
        0 <= find_token_entry(list, token) <= list.len(),
    decreases list.len(),
{
    if list.len() > 0 && list[0].token != token {
        lemma_find_token_entry_bound(list.skip(1), token);
    }
}

/// The shared preamble of every operator-signed operation: the derived admin
/// address, both admins initialized, and the operator signature over the
/// operation's root under the current nonce. Where all of that holds the
/// operation applies its own mutation.
pub open spec fn fee_operation_preamble(
    program_id: Seq<u8>,
    commission_admin_key: Seq<u8>,
    commission_admin_data: Seq<u8>,
    bridge_admin_key: Seq<u8>,
    bridge_admin_data: Seq<u8>,
    receiver: Option<Seq<u8>>,
    op: OperationType,
    nonce: u64,
    token: CommissionTokenArgView,
    signature: Seq<u8>,
    recovery_id: u8,
    path: Seq<Seq<u8>>,
) -> Option<BridgeError> {
    if !commission_admin_pda_ok(bridge_admin_key, program_id, commission_admin_key) {
        Some(BridgeError::WrongAdmin)
    } else if !commission_admin_ready(commission_admin_data) {
        Some(BridgeError::NotInitialized)
    } else if !admin_ready(bridge_admin_data) {
        Some(BridgeError::NotInitialized)
    } else {
        let badmin = stored_admin(bridge_admin_data)->Some_0;
        let root = commission_operation_root(nonce, receiver, program_id, op, token, path);
        crate::crypto::signature_error_of(root, signature, recovery_id, badmin.public_key)
    }
}

/// The exact outcome of adding a fee token.
pub open spec fn add_token_outcome(
    program_id: Seq<u8>,
    commission_admin_key: Seq<u8>,
    commission_admin_data: Seq<u8>,
    bridge_admin_key: Seq<u8>,
    bridge_admin_data: Seq<u8>,
    args: crate::commission::instruction::FeeTokenArgsView,
) -> Result<CommissionAdminView, BridgeError> {
    let cadmin = stored_commission_admin(commission_admin_data)->Some_0;
    match fee_operation_preamble(
        program_id,
        commission_admin_key,
        commission_admin_data,
        bridge_admin_key,
        bridge_admin_data,
        None,
        OperationType::AddToken,
        cadmin.add_token_nonce,
        args.token,
        args.signature,
        args.recovery_id,
        args.path,
    ) {
        Some(e) => Err(e),
        None => {
            if cadmin.acceptable_tokens.len() >= MAX_TOKENS_COUNT {
                Err(BridgeError::WrongDataLen)
            } else if cadmin.add_token_nonce == u64::MAX {
                Err(BridgeError::WrongNonce)
            } else {
                Ok(
                    CommissionAdminView {
                        acceptable_tokens: cadmin.acceptable_tokens.push(args.token),
                        add_token_nonce: (cadmin.add_token_nonce + 1) as u64,
                        ..cadmin
                    },
                )
            }
        },
    }
}

/// Adds a fee token under an operator signature over the current add nonce;
/// success appends the entry and advances that nonce by exactly one.
pub fn process_add_token(
    program_id: &[u8; 32],
    commission_admin_key: &[u8; 32],
    commission_admin_data: &Vec<u8>,
    bridge_admin_key: &[u8; 32],
    bridge_admin_data: &Vec<u8>,
    args: &FeeTokenArgs,
) -> (r: Result<CommissionAdmin, BridgeError>)
    ensures
        ({
            let o = add_token_outcome(
                program_id@,
                commission_admin_key@,
                commission_admin_data@,
                bridge_admin_key@,
                bridge_admin_data@,
                args@,
            );
            match r {
                Ok(admin) => o == Ok::<CommissionAdminView, BridgeError>(admin@),
                Err(e) => o == Err::<CommissionAdminView, BridgeError>(e),
            }
        }),
{
    match crate::derive_commission_admin_address(bridge_admin_key, program_id) {
        Some(derived) => {
            if !crate::codec::bytes_equal(derived.as_slice(), commission_admin_key.as_slice()) {
                return Err(BridgeError::WrongAdmin);
            }
        },
        None => {
            return Err(BridgeError::WrongAdmin);
        },
    }
    let mut cadmin = match load_ready_commission_admin(commission_admin_data) {
        Ok(a) => a,
        Err(e) => {
            return Err(e);
        },
    };
    let badmin = match crate::processor::load_ready_admin(bridge_admin_data) {
        Ok(a) => a,
        Err(e) => {
            return Err(e);
        },
    };
    if let Err(e) = verify_fee_operation_signature(
        cadmin.add_token_nonce,
        None,
        program_id,
        OperationType::AddToken,
        &args.token,
        &args.signature,
        args.recovery_id,
        &args.path,
        &badmin.public_key,
    ) {
        return Err(e);
    }
    if cadmin.acceptable_tokens.len() >= MAX_TOKENS_COUNT {
        return Err(BridgeError::WrongDataLen);
    }
    if cadmin.add_token_nonce == u64::MAX {
        return Err(BridgeError::WrongNonce);
    }
    let ghost before = view_token_vec(cadmin.acceptable_tokens@);
    cadmin.acceptable_tokens.push(
        crate::commission::state::CommissionToken::from(&args.token),
    );
    cadmin.add_token_nonce = cadmin.add_token_nonce + 1;
    proof {
        assert(view_token_vec(cadmin.acceptable_tokens@) =~= before.push(args@.token));
    }
    Ok(cadmin)
}

/// Verifies the operator signature of one fee operation: builds the leaf
/// from the current nonce, the receiver where one is named, this program's
/// identity, the operation tag and the token entry, reconstructs the root
/// along the path, and checks the signature against the bridge operator key.
fn verify_fee_operation_signature(
    nonce: u64,
    receiver: Option<[u8; 32]>,
    program_id: &[u8; 32],
    op: OperationType,
    token: &crate::commission::instruction::CommissionTokenArg,
    signature: &[u8; 64],
    recovery_id: u8,
    path: &Vec<[u8; 32]>,
    public_key: &[u8; 33],
) -> (r: Result<(), BridgeError>)
    ensures
        r == (match crate::crypto::signature_error_of(
            commission_operation_root(
                nonce,
                crate::codec::view_opt_key(receiver),
                program_id@,
                op,
                token@,
                path.deep_view(),
            ),
            signature@,
            recovery_id,
            public_key@,
        ) {
            None => Ok::<(), BridgeError>(()),
            Some(e) => Err::<(), BridgeError>(e),
        }),
{
    let content = Content::new(
        nonce,
        receiver,
        *program_id,
        op,
        crate::commission::state::CommissionToken::from(token),
    );
    let leaf = content.hash();
    let root = crate::merkle::get_merkle_root(&leaf, path);
    proof {
        assert(path@.map_values(|p: [u8; 32]| p@) =~~= path.deep_view());
    }
    let mut message: Vec<u8> = Vec::new();
    crate::codec::write_arr(&mut message, root.as_slice());
    crate::crypto::verify_ecdsa_signature(&message, signature, recovery_id, public_key)
}

/// The exact outcome of removing a fee token: the first entry equal to the
/// signed one, token and amount both, leaves the list.
pub open spec fn remove_token_outcome(
    program_id: Seq<u8>,
    commission_admin_key: Seq<u8>,
    commission_admin_data: Seq<u8>,
    bridge_admin_key: Seq<u8>,
    bridge_admin_data: Seq<u8>,
    args: crate::commission::instruction::FeeTokenArgsView,
) -> Result<CommissionAdminView, BridgeError> {
    let cadmin = stored_commission_admin(commission_admin_data)->Some_0;
    match fee_operation_preamble(
        program_id,
        commission_admin_key,
        commission_admin_data,
        bridge_admin_key,
        bridge_admin_data,
        None,
        OperationType::RemoveToken,
        cadmin.remove_token_nonce,
        args.token,
        args.signature,
        args.recovery_id,
        args.path,
    ) {
        Some(e) => Err(e),
        None => {
            if cadmin.remove_token_nonce == u64::MAX {
                Err(BridgeError::WrongNonce)
            } else {
                let idx = find_full_entry(cadmin.acceptable_tokens, args.token);
                Ok(
                    CommissionAdminView {
                        acceptable_tokens: (if idx < cadmin.acceptable_tokens.len() {
                            cadmin.acceptable_tokens.remove(idx)
                        } else {
                            cadmin.acceptable_tokens
                        }),
                        remove_token_nonce: (cadmin.remove_token_nonce + 1) as u64,
                        ..cadmin
                    },
                )
            }
        },
    }
}

/// Removes a fee token under an operator signature over the current remove
/// nonce; success deletes the first fully matching entry and advances that
/// nonce by exactly one.
pub fn process_remove_token(
    program_id: &[u8; 32],
    commission_admin_key: &[u8; 32],
    commission_admin_data: &Vec<u8>,
    bridge_admin_key: &[u8; 32],
    bridge_admin_data: &Vec<u8>,
    args: &FeeTokenArgs,
) -> (r: Result<CommissionAdmin, BridgeError>)
    ensures
        ({
            let o = remove_token_outcome(
                program_id@,
                commission_admin_key@,
                commission_admin_data@,
                bridge_admin_key@,
                bridge_admin_data@,
                args@,
            );
            match r {
                Ok(admin) => o == Ok::<CommissionAdminView, BridgeError>(admin@),
                Err(e) => o == Err::<CommissionAdminView, BridgeError>(e),
            }
        }),
{
    match crate::derive_commission_admin_address(bridge_admin_key, program_id) {
        Some(derived) => {
            if !crate::codec::bytes_equal(derived.as_slice(), commission_admin_key.as_slice()) {
                return Err(BridgeError::WrongAdmin);
            }
        },
        None => {
            return Err(BridgeError::WrongAdmin);
        },
    }
    let mut cadmin = match load_ready_commission_admin(commission_admin_data) {
        Ok(a) => a,
        Err(e) => {
            return Err(e);
        },
    };
    let badmin = match crate::processor::load_ready_admin(bridge_admin_data) {
        Ok(a) => a,
        Err(e) => {
            return Err(e);
        },
    };
    if let Err(e) = verify_fee_operation_signature(
        cadmin.remove_token_nonce,
        None,
        program_id,
        OperationType::RemoveToken,
        &args.token,
        &args.signature,
        args.recovery_id,
        &args.path,
        &badmin.public_key,
    ) {
        return Err(e);
    }
    if cadmin.remove_token_nonce == u64::MAX {
        return Err(BridgeError::WrongNonce);
    }
    let ghost whole = view_token_vec(cadmin.acceptable_tokens@);
    proof {
        lemma_find_full_entry_bound(whole, args@.token);
        assert(whole.skip(0) =~= whole);
    }
    let mut i: usize = 0;
    let mut found: bool = false;
    while i < cadmin.acceptable_tokens.len() && !found
        invariant
            i <= whole.len(),
            whole == view_token_vec(cadmin.acceptable_tokens@),
            found ==> i == find_full_entry(whole, args@.token) && i < whole.len(),
            !found ==> find_full_entry(whole, args@.token) == i + find_full_entry(
                whole.skip(i as int),
                args@.token,
            ),
        decreases whole.len() - i, (if found { 0int } else { 1int }),
    {
        let ghost rest = whole.skip(i as int);
        proof {
            assert(rest[0] == whole[i as int]);
            assert(rest.skip(1) =~= whole.skip(i + 1));
        }
        let entry = &cadmin.acceptable_tokens[i];
        if entry.token.equals(&args.token.token) && entry.amount == args.token.amount {
            found = true;
        } else {
            i = i + 1;
        }
    }
    proof {
        if !found {
            assert(whole.skip(whole.len() as int) =~= Seq::<CommissionTokenArgView>::empty());
            assert(find_full_entry(whole, args@.token) == whole.len());
        }
    }
    let ghost before = view_token_vec(cadmin.acceptable_tokens@);
    if found {
        cadmin.acceptable_tokens.remove(i);
        proof {
            assert(view_token_vec(cadmin.acceptable_tokens@) =~= before.remove(i as int));
        }
    }
    cadmin.remove_token_nonce = cadmin.remove_token_nonce + 1;
    Ok(cadmin)
}

/// The exact outcome of updating a fee token: the first entry whose token
/// matches takes the signed amount.
pub open spec fn update_token_outcome(
    program_id: Seq<u8>,
    commission_admin_key: Seq<u8>,
    commission_admin_data: Seq<u8>,
    bridge_admin_key: Seq<u8>,
    bridge_admin_data: Seq<u8>,
    args: crate::commission::instruction::FeeTokenArgsView,
) -> Result<CommissionAdminView, BridgeError> {
    let cadmin = stored_commission_admin(commission_admin_data)->Some_0;
    match fee_operation_preamble(
        program_id,
        commission_admin_key,
        commission_admin_data,
        bridge_admin_key,
        bridge_admin_data,
        None,
        OperationType::UpdateToken,
        cadmin.update_token_nonce,
        args.token,
        args.signature,
        args.recovery_id,
        args.path,
    ) {
        Some(e) => Err(e),
        None => {
            if cadmin.update_token_nonce == u64::MAX {
                Err(BridgeError::WrongNonce)
            } else {
                let idx = find_token_entry(cadmin.acceptable_tokens, args.token.token);
                Ok(
                    CommissionAdminView {
                        acceptable_tokens: (if idx < cadmin.acceptable_tokens.len() {
                            cadmin.acceptable_tokens.update(
                                idx,
                                CommissionTokenArgView {
                                    token: cadmin.acceptable_tokens[idx].token,
                                    amount: args.token.amount,
                                },
                            )
                        } else {
                            cadmin.acceptable_tokens
                        }),
                        update_token_nonce: (cadmin.update_token_nonce + 1) as u64,
                        ..cadmin
                    },
                )
            }
        },
    }
}

/// Updates a fee token's amount under an operator signature over the current
/// update nonce; success overwrites the first matching entry's amount and
/// advances that nonce by exactly one.
pub fn process_update_token(
    program_id: &[u8; 32],
    commission_admin_key: &[u8; 32],
    commission_admin_data: &Vec<u8>,
    bridge_admin_key: &[u8; 32],
    bridge_admin_data: &Vec<u8>,
    args: &FeeTokenArgs,
) -> (r: Result<CommissionAdmin, BridgeError>)
    ensures
        ({
            let o = update_token_outcome(
                program_id@,
                commission_admin_key@,
                commission_admin_data@,
                bridge_admin_key@,
                bridge_admin_data@,
                args@,
            );
            match r {
                Ok(admin) => o == Ok::<CommissionAdminView, BridgeError>(admin@),
                Err(e) => o == Err::<CommissionAdminView, BridgeError>(e),
            }
        }),
{
    match crate::derive_commission_admin_address(bridge_admin_key, program_id) {
        Some(derived) => {
            if !crate::codec::bytes_equal(derived.as_slice(), commission_admin_key.as_slice()) {
                return Err(BridgeError::WrongAdmin);
            }
        },
        None => {
            return Err(BridgeError::WrongAdmin);
        },
    }
    let mut cadmin = match load_ready_commission_admin(commission_admin_data) {
        Ok(a) => a,
        Err(e) => {
            return Err(e);
        },
    };
    let badmin = match crate::processor::load_ready_admin(bridge_admin_data) {
        Ok(a) => a,
        Err(e) => {
            return Err(e);
        },
    };
    if let Err(e) = verify_fee_operation_signature(
        cadmin.update_token_nonce,
        None,
        program_id,
        OperationType::UpdateToken,
        &args.token,
        &args.signature,
        args.recovery_id,
        &args.path,
        &badmin.public_key,
    ) {
        return Err(e);
    }
    if cadmin.update_token_nonce == u64::MAX {
        return Err(BridgeError::WrongNonce);
    }
    let ghost whole = view_token_vec(cadmin.acceptable_tokens@);
    proof {
        lemma_find_token_entry_bound(whole, args@.token.token);
        assert(whole.skip(0) =~= whole);
    }
    let mut i: usize = 0;
    let mut found: bool = false;
    while i < cadmin.acceptable_tokens.len() && !found
        invariant
            i <= whole.len(),
            whole == view_token_vec(cadmin.acceptable_tokens@),
            found ==> i == find_token_entry(whole, args@.token.token) && i < whole.len(),
            !found ==> find_token_entry(whole, args@.token.token) == i + find_token_entry(
                whole.skip(i as int),
                args@.token.token,
            ),
        decreases whole.len() - i, (if found { 0int } else { 1int }),
    {
        let ghost rest = whole.skip(i as int);
        proof {
            assert(rest[0] == whole[i as int]);
            assert(rest.skip(1) =~= whole.skip(i + 1));
        }
        if cadmin.acceptable_tokens[i].token.equals(&args.token.token) {
            found = true;
        } else {
            i = i + 1;
        }
    }
    proof {
        if !found {
            assert(whole.skip(whole.len() as int) =~= Seq::<CommissionTokenArgView>::empty());
            assert(find_token_entry(whole, args@.token.token) == whole.len());
        }
    }
    let ghost before = view_token_vec(cadmin.acceptable_tokens@);
    if found {
        let kept = cadmin.acceptable_tokens[i].token.clone_token();
        cadmin.acceptable_tokens.set(
            i,
            crate::commission::state::CommissionToken { token: kept, amount: args.token.amount },
        );
        proof {
            assert(view_token_vec(cadmin.acceptable_tokens@) =~= before.update(
                i as int,
                CommissionTokenArgView {
                    token: before[i as int].token,
                    amount: args@.token.amount,
                },
            ));
        }
    }
    cadmin.update_token_nonce = cadmin.update_token_nonce + 1;
    Ok(cadmin)
}

/// The transfers a fee withdrawal performs, by fee-token kind.
pub open spec fn fee_withdraw_actions(
    token: CommissionTokenView,
    amount: u64,
    commission_admin_key: Seq<u8>,
    receiver_key: Seq<u8>,
    commission_associated_key: Seq<u8>,
    receiver_associated_key: Seq<u8>,
    receiver_ata_empty: bool,
) -> Seq<BridgeActionView> {
    match token {
        CommissionTokenView::Native => seq![
            BridgeActionView::TransferNative {
                from: commission_admin_key,
                to: receiver_key,
                amount: amount,
            },
        ],
        CommissionTokenView::FT(mint) => (if receiver_ata_empty {
            seq![
                BridgeActionView::CreateAssociatedAccount {
                    payer: receiver_key,
                    wallet: receiver_key,
                    mint: mint,
                },
            ]
        } else {
            Seq::<BridgeActionView>::empty()
        }) + seq![
            BridgeActionView::TransferTokens {
                source: commission_associated_key,
                destination: receiver_associated_key,
                authority: commission_admin_key,
                amount: amount,
            },
        ],
        CommissionTokenView::NFT(_) => Seq::<BridgeActionView>::empty(),
    }
}

/// The exact outcome of an operator-signed withdrawal of collected fees.
pub open spec fn fee_withdraw_outcome(
    program_id: Seq<u8>,
    commission_admin_key: Seq<u8>,
    commission_admin_data: Seq<u8>,
    bridge_admin_key: Seq<u8>,
    bridge_admin_data: Seq<u8>,
    receiver_key: Seq<u8>,
    receiver_associated_key: Seq<u8>,
    receiver_ata_empty: bool,
    commission_associated_key: Seq<u8>,
    args: crate::commission::instruction::CommissionWithdrawArgsView,
) -> Result<(CommissionAdminView, Seq<BridgeActionView>), BridgeError> {
    let cadmin = stored_commission_admin(commission_admin_data)->Some_0;
    match fee_operation_preamble(
        program_id,
        commission_admin_key,
        commission_admin_data,
        bridge_admin_key,
        bridge_admin_data,
        Some(receiver_key),
        OperationType::WithdrawToken,
        cadmin.withdraw_token_nonce,
        args.token,
        args.signature,
        args.recovery_id,
        args.path,
    ) {
        Some(e) => Err(e),
        None => {
            match args.token.token {
                CommissionTokenView::NFT(_) => Err(BridgeError::NotSupported),
                CommissionTokenView::FT(mint) => {
                    if commission_associated_key != crate::pda::associated_token_address_spec(
                        commission_admin_key,
                        mint,
                    ) {
                        Err(BridgeError::WrongTokenAccount)
                    } else if receiver_associated_key
                        != crate::pda::associated_token_address_spec(receiver_key, mint) {
                        Err(BridgeError::WrongTokenAccount)
                    } else if cadmin.withdraw_token_nonce == u64::MAX {
                        Err(BridgeError::WrongNonce)
                    } else {
                        Ok(
                            (
                                CommissionAdminView {
                                    withdraw_token_nonce: (cadmin.withdraw_token_nonce + 1) as u64,
                                    ..cadmin
                                },
                                fee_withdraw_actions(
                                    args.token.token,
                                    args.withdraw_amount,
                                    commission_admin_key,
                                    receiver_key,
                                    commission_associated_key,
                                    receiver_associated_key,
                                    receiver_ata_empty,
                                ),
                            ),
                        )
                    }
                },
                CommissionTokenView::Native => {
                    if cadmin.withdraw_token_nonce == u64::MAX {
                        Err(BridgeError::WrongNonce)
                    } else {
                        Ok(
                            (
                                CommissionAdminView {
                                    withdraw_token_nonce: (cadmin.withdraw_token_nonce + 1) as u64,
                                    ..cadmin
                                },
                                fee_withdraw_actions(
                                    args.token.token,
                                    args.withdraw_amount,
                                    commission_admin_key,
                                    receiver_key,
                                    commission_associated_key,
                                    receiver_associated_key,
                                    receiver_ata_empty,
                                ),
                            ),
                        )
                    }
                },
            }
        },
    }
}

/// Pays collected fees out to a receiver under an operator signature over
/// the current withdraw nonce; success moves the signed amount and advances
/// that nonce by exactly one.
pub fn process_withdraw(
    program_id: &[u8; 32],
    commission_admin_key: &[u8; 32],
    commission_admin_data: &Vec<u8>,
    bridge_admin_key: &[u8; 32],
    bridge_admin_data: &Vec<u8>,
    receiver_key: &[u8; 32],
    receiver_associated_key: &[u8; 32],
    receiver_associated_data: &Vec<u8>,
    commission_associated_key: &[u8; 32],
    args: &WithdrawArgs,
) -> (r: Result<(CommissionAdmin, Vec<BridgeAction>), BridgeError>)
    ensures
        ({
            let o = fee_withdraw_outcome(
                program_id@,
                commission_admin_key@,
                commission_admin_data@,
                bridge_admin_key@,
                bridge_admin_data@,
                receiver_key@,
                receiver_associated_key@,
                receiver_associated_data@.len() == 0,
                commission_associated_key@,
                args@,
            );
            match r {
                Ok((admin, actions)) => o == Ok::<
                    (CommissionAdminView, Seq<BridgeActionView>),
                    BridgeError,
                >((admin@, view_actions(actions@))),
                Err(e) => o == Err::<(CommissionAdminView, Seq<BridgeActionView>), BridgeError>(e),
            }
        }),
{
    match crate::derive_commission_admin_address(bridge_admin_key, program_id) {
        Some(derived) => {
            if !crate::codec::bytes_equal(derived.as_slice(), commission_admin_key.as_slice()) {
                return Err(BridgeError::WrongAdmin);
            }
        },
        None => {
            return Err(BridgeError::WrongAdmin);
        },
    }
    let mut cadmin = match load_ready_commission_admin(commission_admin_data) {
        Ok(a) => a,
        Err(e) => {
            return Err(e);
        },
    };
    let badmin = match crate::processor::load_ready_admin(bridge_admin_data) {
        Ok(a) => a,
        Err(e) => {
            return Err(e);
        },
    };
    if let Err(e) = verify_fee_operation_signature(
        cadmin.withdraw_token_nonce,
        Some(*receiver_key),
        program_id,
        OperationType::WithdrawToken,
        &args.token,
        &args.signature,
        args.recovery_id,
        &args.path,
        &badmin.public_key,
    ) {
        return Err(e);
    }
    let mut actions: Vec<BridgeAction> = Vec::new();
    match &args.token.token {
        CommissionToken::Native => {
            if cadmin.withdraw_token_nonce == u64::MAX {
                return Err(BridgeError::WrongNonce);
            }
            actions.push(
                BridgeAction::TransferNative {
                    from: *commission_admin_key,
                    to: *receiver_key,
                    amount: args.withdraw_amount,
                },
            );
        },
        CommissionToken::FT(mint) => {
            let expected_commission_ata = crate::pda::associated_token_address(
                commission_admin_key,
                mint,
            );
            if !crate::codec::bytes_equal(
                commission_associated_key.as_slice(),
                expected_commission_ata.as_slice(),
            ) {
                return Err(BridgeError::WrongTokenAccount);
            }
            let expected_receiver_ata = crate::pda::associated_token_address(receiver_key, mint);
            if !crate::codec::bytes_equal(
                receiver_associated_key.as_slice(),
                expected_receiver_ata.as_slice(),
            ) {
                return Err(BridgeError::WrongTokenAccount);
            }
            if cadmin.withdraw_token_nonce == u64::MAX {
                return Err(BridgeError::WrongNonce);
            }
            if receiver_associated_data.len() == 0 {
                actions.push(
                    BridgeAction::CreateAssociatedAccount {
                        payer: *receiver_key,
                        wallet: *receiver_key,
                        mint: *mint,
                    },
                );
            }
            actions.push(
                BridgeAction::TransferTokens {
                    source: *commission_associated_key,
                    destination: *receiver_associated_key,
                    authority: *commission_admin_key,
                    amount: args.withdraw_amount,
                },
            );
        },
        CommissionToken::NFT(_) => {
            return Err(BridgeError::NotSupported);
        },
    }
    cadmin.withdraw_token_nonce = cadmin.withdraw_token_nonce + 1;
    proof {
        assert(view_actions(actions@) =~= fee_withdraw_actions(
            args@.token.token,
            args.withdraw_amount,
            commission_admin_key@,
            receiver_key@,
            commission_associated_key@,
            receiver_associated_key@,
            receiver_associated_data@.len() == 0,
        ));
    }
    Ok((cadmin, actions))
}

} // verus!
