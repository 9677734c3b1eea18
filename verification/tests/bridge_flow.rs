//! End-to-end native flows of the bridge state machine: admin creation, the
//! charged deposit, the operator-signed withdrawal, and the replay guard.

use bridge_core::commission::CommissionArgs;
use bridge_core::commission::CommissionToken;
use bridge_core::commission::instruction::CommissionInstruction;
use bridge_core::crypto::keccak256;
use bridge_core::derive_bridge_admin_address;
use bridge_core::derive_commission_admin_address;
use bridge_core::error::BridgeError;
use bridge_core::instruction::DepositNativeArgs;
use bridge_core::instruction::WithdrawArgs;
use bridge_core::merkle::amount_bytes;
use bridge_core::processor::BridgeAction;
use bridge_core::processor::PrevInstruction;
use bridge_core::processor::find_single_seed_pda;
use bridge_core::processor::process_deposit_native;
use bridge_core::processor::process_init_admin;
use bridge_core::processor::process_transfer_ownership;
use bridge_core::processor::process_withdraw_native;
use bridge_core::state::BridgeAdmin;
use bridge_core::state::TokenType;
use bridge_core::state::pack_bridge_admin;
use bridge_core::state::pack_withdraw;

fn secret() -> libsecp256k1::SecretKey {
    libsecp256k1::SecretKey::parse(&[13u8; 32]).expect("a fixed valid secret key")
}

fn operator_key() -> [u8; 33] {
    libsecp256k1::PublicKey::from_secret_key(&secret()).serialize_compressed()
}

fn sign(message32: &[u8; 32]) -> ([u8; 64], u8) {
    let msg = libsecp256k1::Message::parse(message32);
    let (sig, rid) = libsecp256k1::sign(&msg, &secret());
    (sig.serialize(), rid.serialize())
}

const PROGRAM_ID: [u8; 32] = [11u8; 32];
const OWNER: [u8; 32] = [22u8; 32];

/// A seeds value whose derived bridge admin address exists, with the address.
fn admin_setup() -> ([u8; 32], [u8; 32]) {
    let mut b: u8 = 0;
    loop {
        let seeds = [b; 32];
        if let Some(addr) = derive_bridge_admin_address(&seeds, &PROGRAM_ID) {
            return (seeds, addr);
        }
        b += 1;
    }
}

/// A commission program identity whose derived commission admin exists.
fn commission_setup(bridge_admin: &[u8; 32]) -> ([u8; 32], [u8; 32]) {
    let mut b: u8 = 100;
    loop {
        let cp = [b; 32];
        if let Some(addr) = derive_commission_admin_address(bridge_admin, &cp) {
            return (cp, addr);
        }
        b += 1;
    }
}

fn admin_data(commission_program: &[u8; 32]) -> Vec<u8> {
    pack_bridge_admin(&BridgeAdmin {
        public_key: operator_key(),
        commission_program: *commission_program,
        is_initialized: true,
    })
}

fn charge_prev(
    commission_program: &[u8; 32],
    commission_admin: &[u8; 32],
    kind: TokenType,
    amount: u64,
) -> PrevInstruction {
    let data = CommissionInstruction::ChargeCommission(CommissionArgs {
        token: CommissionToken::Native,
        deposit_token: kind,
        deposit_token_amount: amount,
    })
    .pack();
    PrevInstruction {
        program_id: *commission_program,
        first_account: Some(*commission_admin),
        data,
    }
}

fn native_leaf(amount: u64, origin: &[u8; 32], receiver: &[u8; 32]) -> [u8; 32] {
    let mut bytes = amount_bytes(amount);
    bytes.extend_from_slice(origin);
    bytes.extend_from_slice(b"Solana");
    bytes.extend_from_slice(receiver);
    bytes.extend_from_slice(&PROGRAM_ID);
    keccak256(&bytes)
}

#[test]
fn happy_path_native_deposit_and_withdraw() {
    let (seeds, bridge_admin) = admin_setup();
    let (commission_program, commission_admin) = commission_setup(&bridge_admin);

    // Create the admin.
    let (admin, actions) = process_init_admin(
        &PROGRAM_ID,
        &bridge_admin,
        &Vec::new(),
        &seeds,
        &operator_key(),
        &commission_program,
    )
    .expect("a fresh admin account must initialize");
    assert!(admin.is_initialized);
    assert_eq!(actions.len(), 1);
    let data = pack_bridge_admin(&admin);

    // Deposit a million native units with a matching charge before it.
    let prev = charge_prev(&commission_program, &commission_admin, TokenType::Native, 1_000_000);
    let args = DepositNativeArgs {
        amount: 1_000_000,
        network_to: b"Ethereum".to_vec(),
        receiver_address: b"0xabc0000000000000000000000000000000000000".to_vec(),
        seeds,
        bundle_data: None,
        bundle_seed: None,
    };
    let actions = process_deposit_native(&PROGRAM_ID, &bridge_admin, &data, &OWNER, &prev, &args)
        .expect("a charged deposit must pass");
    assert_eq!(actions.len(), 1);
    match &actions[0] {
        BridgeAction::TransferNative { from, to, amount } => {
            assert_eq!(*from, OWNER);
            assert_eq!(*to, bridge_admin);
            assert_eq!(*amount, 1_000_000);
        }
        _ => panic!("the deposit must transfer native units to the bridge"),
    }

    // Withdraw the same amount under an operator signature over the root of
    // a single-leaf tree.
    let origin = [5u8; 32];
    let root = native_leaf(1_000_000, &origin, &OWNER);
    let (signature, recovery_id) = sign(&root);
    let withdraw_key = find_single_seed_pda(&origin, &PROGRAM_ID);
    let wargs = WithdrawArgs {
        origin,
        amount: 1_000_000,
        signature,
        recovery_id,
        path: Vec::new(),
        seeds,
        token_seed: None,
        signed_meta: None,
    };
    let (receipt, actions) = process_withdraw_native(
        &PROGRAM_ID,
        &bridge_admin,
        &data,
        2_000_000,
        &OWNER,
        &withdraw_key,
        &Vec::new(),
        &wargs,
    )
    .expect("a signed withdrawal must pay out");
    assert_eq!(receipt.token_type, TokenType::Native);
    assert_eq!(receipt.amount, 1_000_000);
    assert_eq!(receipt.origin, origin);
    assert_eq!(receipt.receiver_address, OWNER);
    assert!(receipt.is_initialized);
    assert_eq!(actions.len(), 2);
    match &actions[1] {
        BridgeAction::MoveLamports { from, to, amount } => {
            assert_eq!(*from, bridge_admin);
            assert_eq!(*to, OWNER);
            assert_eq!(*amount, 1_000_000);
        }
        _ => panic!("the withdrawal must move the balance to the owner"),
    }

    // Replay: the receipt now sits at the origin's address.
    let receipt_bytes = pack_withdraw(&receipt);
    let replay = process_withdraw_native(
        &PROGRAM_ID,
        &bridge_admin,
        &data,
        2_000_000,
        &OWNER,
        &withdraw_key,
        &receipt_bytes,
        &wargs,
    );
    assert_eq!(replay.err(), Some(BridgeError::AlreadyInUse));
}

#[test]
fn wrong_seeds_are_rejected_everywhere() {
    let (seeds, bridge_admin) = admin_setup();
    let (commission_program, commission_admin) = commission_setup(&bridge_admin);
    let data = admin_data(&commission_program);
    let wrong_admin = [250u8; 32];
    assert_eq!(
        process_init_admin(
            &PROGRAM_ID,
            &wrong_admin,
            &Vec::new(),
            &seeds,
            &operator_key(),
            &commission_program,
        )
        .err(),
        Some(BridgeError::WrongSeeds)
    );
    let prev = charge_prev(&commission_program, &commission_admin, TokenType::Native, 5);
    let args = DepositNativeArgs {
        amount: 5,
        network_to: b"Ethereum".to_vec(),
        receiver_address: b"0xabc".to_vec(),
        seeds,
        bundle_data: None,
        bundle_seed: None,
    };
    assert_eq!(
        process_deposit_native(&PROGRAM_ID, &wrong_admin, &data, &OWNER, &prev, &args).err(),
        Some(BridgeError::WrongSeeds)
    );
}

#[test]
fn second_initialization_is_already_in_use() {
    let (seeds, bridge_admin) = admin_setup();
    let (commission_program, _) = commission_setup(&bridge_admin);
    let data = admin_data(&commission_program);
    assert_eq!(
        process_init_admin(
            &PROGRAM_ID,
            &bridge_admin,
            &data,
            &seeds,
            &operator_key(),
            &commission_program,
        )
        .err(),
        Some(BridgeError::AlreadyInUse)
    );
}

#[test]
fn uninitialized_admin_rejects_operations() {
    let (seeds, bridge_admin) = admin_setup();
    let (commission_program, commission_admin) = commission_setup(&bridge_admin);
    let stale = pack_bridge_admin(&BridgeAdmin {
        public_key: operator_key(),
        commission_program,
        is_initialized: false,
    });
    let prev = charge_prev(&commission_program, &commission_admin, TokenType::Native, 5);
    let args = DepositNativeArgs {
        amount: 5,
        network_to: b"Ethereum".to_vec(),
        receiver_address: b"0xabc".to_vec(),
        seeds,
        bundle_data: None,
        bundle_seed: None,
    };
    assert_eq!(
        process_deposit_native(&PROGRAM_ID, &bridge_admin, &stale, &OWNER, &prev, &args).err(),
        Some(BridgeError::NotInitialized)
    );
}

#[test]
fn charge_mismatch_fails_the_deposit() {
    let (seeds, bridge_admin) = admin_setup();
    let (commission_program, commission_admin) = commission_setup(&bridge_admin);
    let data = admin_data(&commission_program);
    let args = DepositNativeArgs {
        amount: 1000,
        network_to: b"Ethereum".to_vec(),
        receiver_address: b"0xabc".to_vec(),
        seeds,
        bundle_data: None,
        bundle_seed: None,
    };
    // The charge names a different amount.
    let prev = charge_prev(&commission_program, &commission_admin, TokenType::Native, 999);
    assert_eq!(
        process_deposit_native(&PROGRAM_ID, &bridge_admin, &data, &OWNER, &prev, &args).err(),
        Some(BridgeError::WrongCommissionArguments)
    );
    // The preceding instruction names another program.
    let mut other_program = prev.data.clone();
    let foreign = PrevInstruction {
        program_id: [99u8; 32],
        first_account: Some(commission_admin),
        data: std::mem::take(&mut other_program),
    };
    assert_eq!(
        process_deposit_native(&PROGRAM_ID, &bridge_admin, &data, &OWNER, &foreign, &args).err(),
        Some(BridgeError::WrongCommissionProgram)
    );
    // The charge is handed a different first account.
    let prev = charge_prev(&commission_program, &commission_admin, TokenType::Native, 1000);
    let misrouted = PrevInstruction {
        program_id: commission_program,
        first_account: Some([98u8; 32]),
        data: prev.data,
    };
    assert_eq!(
        process_deposit_native(&PROGRAM_ID, &bridge_admin, &data, &OWNER, &misrouted, &args).err(),
        Some(BridgeError::WrongCommissionAccount)
    );
}

#[test]
fn zero_amount_deposit_is_rejected() {
    let (seeds, bridge_admin) = admin_setup();
    let (commission_program, commission_admin) = commission_setup(&bridge_admin);
    let data = admin_data(&commission_program);
    let prev = charge_prev(&commission_program, &commission_admin, TokenType::Native, 0);
    let args = DepositNativeArgs {
        amount: 0,
        network_to: b"Ethereum".to_vec(),
        receiver_address: b"0xabc".to_vec(),
        seeds,
        bundle_data: None,
        bundle_seed: None,
    };
    assert_eq!(
        process_deposit_native(&PROGRAM_ID, &bridge_admin, &data, &OWNER, &prev, &args).err(),
        Some(BridgeError::WrongArgsSize)
    );
}

#[test]
fn withdrawal_guards_balance_nonce_and_signature() {
    let (seeds, bridge_admin) = admin_setup();
    let (commission_program, _) = commission_setup(&bridge_admin);
    let data = admin_data(&commission_program);
    let origin = [6u8; 32];
    let root = native_leaf(500, &origin, &OWNER);
    let (signature, recovery_id) = sign(&root);
    let withdraw_key = find_single_seed_pda(&origin, &PROGRAM_ID);
    let wargs = WithdrawArgs {
        origin,
        amount: 500,
        signature,
        recovery_id,
        path: Vec::new(),
        seeds,
        token_seed: None,
        signed_meta: None,
    };
    // The bridge holds too little.
    assert_eq!(
        process_withdraw_native(
            &PROGRAM_ID,
            &bridge_admin,
            &data,
            499,
            &OWNER,
            &withdraw_key,
            &Vec::new(),
            &wargs,
        )
        .err(),
        Some(BridgeError::WrongBalance)
    );
    // The receipt account is not the origin's derived address.
    assert_eq!(
        process_withdraw_native(
            &PROGRAM_ID,
            &bridge_admin,
            &data,
            1000,
            &OWNER,
            &[77u8; 32],
            &Vec::new(),
            &wargs,
        )
        .err(),
        Some(BridgeError::WrongNonce)
    );
    // A signature over a different amount recovers another key.
    let other_root = native_leaf(501, &origin, &OWNER);
    let (bad_sig, bad_rid) = sign(&other_root);
    let bad = WithdrawArgs { signature: bad_sig, recovery_id: bad_rid, ..wargs };
    assert_eq!(
        process_withdraw_native(
            &PROGRAM_ID,
            &bridge_admin,
            &data,
            1000,
            &OWNER,
            &withdraw_key,
            &Vec::new(),
            &bad,
        )
        .err(),
        Some(BridgeError::WrongSignature)
    );
}

#[test]
fn ownership_transfer_checks_the_raw_key_message() {
    let (seeds, bridge_admin) = admin_setup();
    let (commission_program, _) = commission_setup(&bridge_admin);
    let data = admin_data(&commission_program);
    let new_key = libsecp256k1::PublicKey::from_secret_key(
        &libsecp256k1::SecretKey::parse(&[55u8; 32]).expect("a valid key"),
    )
    .serialize_compressed();
    // The message of this operation is the raw 33-byte key; key recovery
    // accepts only 32-byte digests, so recovery fails and the rotation is
    // rejected as an invalid signature.
    let digest = keccak256(&new_key.to_vec());
    let (signature, recovery_id) = sign(&digest);
    assert_eq!(
        process_transfer_ownership(
            &PROGRAM_ID,
            &bridge_admin,
            &data,
            &seeds,
            &new_key,
            &signature,
            recovery_id,
        )
        .err(),
        Some(BridgeError::InvalidSignature)
    );
}
