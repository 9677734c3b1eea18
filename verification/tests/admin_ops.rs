//! Collection creation, the upgrade admin, and the remaining guard errors.

use bridge_core::commission::instruction::CommissionTokenArg;
use bridge_core::commission::instruction::FeeTokenArgs;
use bridge_core::commission::state::CommissionAdmin;
use bridge_core::commission::state::pack_commission_admin;
use bridge_core::crypto::keccak256;
use bridge_core::derive_bridge_admin_address;
use bridge_core::derive_commission_admin_address;
use bridge_core::error::BridgeError;
use bridge_core::instruction::MintCollectionArgs;
use bridge_core::instruction::SignedMetadata;
use bridge_core::merkle::amount_bytes;
use bridge_core::pda::associated_token_address;
use bridge_core::processor::BridgeAction;
use bridge_core::processor::find_single_seed_pda;
use bridge_core::processor::process_create_collection;
use bridge_core::state::BridgeAdmin;
use bridge_core::state::pack_bridge_admin;
use bridge_core::upgrade::instruction::UpgradeArgs;
use bridge_core::upgrade::processor::derive_upgrade_admin_address;
use bridge_core::upgrade::processor::process_transfer_ownership;
use bridge_core::upgrade::processor::process_upgrade;
use bridge_core::upgrade::state::UpgradeAdmin;
use bridge_core::upgrade::state::pack_upgrade_admin;

const PROGRAM_ID: [u8; 32] = [14u8; 32];

fn secret() -> libsecp256k1::SecretKey {
    libsecp256k1::SecretKey::parse(&[23u8; 32]).expect("a fixed valid secret key")
}

fn operator_key() -> [u8; 33] {
    libsecp256k1::PublicKey::from_secret_key(&secret()).serialize_compressed()
}

fn sign(message32: &[u8; 32]) -> ([u8; 64], u8) {
    let msg = libsecp256k1::Message::parse(message32);
    let (sig, rid) = libsecp256k1::sign(&msg, &secret());
    (sig.serialize(), rid.serialize())
}

fn admin_setup() -> ([u8; 32], [u8; 32]) {
    let mut b: u8 = 0;
    loop {
        let seeds = [b; 32];
        if let Some(addr) = derive_bridge_admin_address(&seeds, &PROGRAM_ID) {
            return (seeds, addr);
        }
        b += 1;
    }
}

fn admin_data() -> Vec<u8> {
    pack_bridge_admin(&BridgeAdmin {
        public_key: operator_key(),
        commission_program: [44u8; 32],
        is_initialized: true,
    })
}

#[test]
fn collection_creation_mints_one_unit_to_the_bridge() {
    let (seeds, bridge_admin) = admin_setup();
    let data = admin_data();
    let token_seed = [2u8; 32];
    let mint = find_single_seed_pda(&token_seed, &PROGRAM_ID);
    let bridge_ata = associated_token_address(&bridge_admin, &mint);
    let args = MintCollectionArgs {
        data: SignedMetadata {
            name: b"Gallery".to_vec(),
            symbol: b"GAL".to_vec(),
            uri: b"https://example.test/gallery".to_vec(),
            decimals: 0,
        },
        seeds,
        token_seed,
    };
    let actions = process_create_collection(
        &PROGRAM_ID,
        &bridge_admin,
        &data,
        &mint,
        &bridge_ata,
        &[3u8; 32],
        &[4u8; 32],
        &[5u8; 32],
        &args,
    )
    .expect("a collection must be creatable by the bridge");
    assert_eq!(actions.len(), 5);
    assert!(
        matches!(&actions[1], BridgeAction::InitializeMint { decimals, .. } if *decimals == 0)
    );
    assert!(
        matches!(&actions[3], BridgeAction::MintTokens { amount, .. } if *amount == 1)
    );

    // The wrong associated account and the wrong mint are each refused.
    assert_eq!(
        process_create_collection(
            &PROGRAM_ID,
            &bridge_admin,
            &data,
            &mint,
            &[9u8; 32],
            &[3u8; 32],
            &[4u8; 32],
            &[5u8; 32],
            &args,
        )
        .err(),
        Some(BridgeError::WrongTokenAccount)
    );
    let other_mint = [10u8; 32];
    let other_ata = associated_token_address(&bridge_admin, &other_mint);
    assert_eq!(
        process_create_collection(
            &PROGRAM_ID,
            &bridge_admin,
            &data,
            &other_mint,
            &other_ata,
            &[3u8; 32],
            &[4u8; 32],
            &[5u8; 32],
            &args,
        )
        .err(),
        Some(BridgeError::WrongTokenSeed)
    );
}

fn upgrade_setup() -> ([u8; 32], [u8; 32]) {
    let mut b: u8 = 0;
    loop {
        let contract = [b; 32];
        if let Some(addr) = derive_upgrade_admin_address(&contract, &PROGRAM_ID) {
            return (contract, addr);
        }
        b += 1;
    }
}

#[test]
fn upgrade_is_bound_to_the_buffer_and_the_nonce() {
    let (contract, upgrade_admin) = upgrade_setup();
    let data = pack_upgrade_admin(&UpgradeAdmin {
        public_key: operator_key(),
        contract,
        nonce: 3,
        is_initialized: true,
    });
    let buffer = b"the staged program bytes".to_vec();
    let mut message = Vec::new();
    message.extend_from_slice(&keccak256(&buffer));
    message.extend_from_slice(b"Solana");
    message.extend_from_slice(&amount_bytes(3));
    message.extend_from_slice(&PROGRAM_ID);
    let digest = keccak256(&message);
    let (signature, recovery_id) = sign(&digest);
    let args = UpgradeArgs { signature, recovery_id };
    let (admin, actions) = process_upgrade(
        &PROGRAM_ID,
        &upgrade_admin,
        &data,
        &contract,
        &[6u8; 32],
        &buffer,
        &[7u8; 32],
        &args,
    )
    .expect("the signed buffer must upgrade");
    assert_eq!(admin.nonce, 4);
    assert_eq!(actions.len(), 1);
    assert!(matches!(&actions[0], BridgeAction::UpgradeProgram { .. }));

    // Different buffer contents make a different message.
    let other = b"other bytes".to_vec();
    assert_eq!(
        process_upgrade(
            &PROGRAM_ID,
            &upgrade_admin,
            &data,
            &contract,
            &[6u8; 32],
            &other,
            &[7u8; 32],
            &args,
        )
        .err(),
        Some(BridgeError::WrongSignature)
    );
}

#[test]
fn upgrade_admin_key_rotation_hashes_the_new_key() {
    let (contract, upgrade_admin) = upgrade_setup();
    let data = pack_upgrade_admin(&UpgradeAdmin {
        public_key: operator_key(),
        contract,
        nonce: 0,
        is_initialized: true,
    });
    let new_key = libsecp256k1::PublicKey::from_secret_key(
        &libsecp256k1::SecretKey::parse(&[77u8; 32]).expect("a valid key"),
    )
    .serialize_compressed();
    let digest = keccak256(&new_key.to_vec());
    let (signature, recovery_id) = sign(&digest);
    let admin = process_transfer_ownership(
        &PROGRAM_ID,
        &upgrade_admin,
        &data,
        &new_key,
        &signature,
        recovery_id,
    )
    .expect("the signed rotation must pass");
    assert_eq!(admin.public_key, new_key);
    assert_eq!(admin.contract, contract);
}

#[test]
fn wrong_commission_admin_account_is_refused() {
    let commission_program = [44u8; 32];
    let mut b: u8 = 0;
    let (bridge_admin, _) = loop {
        let candidate = [b; 32];
        if let Some(addr) = derive_commission_admin_address(&candidate, &commission_program) {
            break (candidate, addr);
        }
        b += 1;
    };
    let args = FeeTokenArgs {
        signature: [0u8; 64],
        recovery_id: 0,
        path: Vec::new(),
        token: CommissionTokenArg {
            token: bridge_core::commission::CommissionToken::Native,
            amount: 1,
        },
    };
    assert_eq!(
        bridge_core::commission::processor::process_add_token(
            &commission_program,
            &[251u8; 32],
            &Vec::new(),
            &bridge_admin,
            &Vec::new(),
            &args,
        )
        .err(),
        Some(BridgeError::WrongAdmin)
    );
}

#[test]
fn saturated_nonce_is_refused() {
    let commission_program = [44u8; 32];
    let mut b: u8 = 0;
    let (bridge_admin, commission_admin) = loop {
        let candidate = [b; 32];
        if let Some(addr) = derive_commission_admin_address(&candidate, &commission_program) {
            break (candidate, addr);
        }
        b += 1;
    };
    let bdata = pack_bridge_admin(&BridgeAdmin {
        public_key: operator_key(),
        commission_program,
        is_initialized: true,
    });
    let cdata = pack_commission_admin(&CommissionAdmin {
        acceptable_tokens: Vec::new(),
        add_token_nonce: u64::MAX,
        update_token_nonce: 0,
        remove_token_nonce: 0,
        withdraw_token_nonce: 0,
        is_initialized: true,
    });
    let token = CommissionTokenArg {
        token: bridge_core::commission::CommissionToken::Native,
        amount: 1,
    };
    let content = bridge_core::commission::merkle::Content::new(
        u64::MAX,
        None,
        commission_program,
        bridge_core::commission::state::OperationType::AddToken,
        bridge_core::commission::state::CommissionToken::from(&token),
    );
    let (signature, recovery_id) = sign(&content.hash());
    let args = FeeTokenArgs { signature, recovery_id, path: Vec::new(), token };
    assert_eq!(
        bridge_core::commission::processor::process_add_token(
            &commission_program,
            &commission_admin,
            &cdata,
            &bridge_admin,
            &bdata,
            &args,
        )
        .err(),
        Some(BridgeError::WrongNonce)
    );
}
