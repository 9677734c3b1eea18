//! The commission engine on concrete values: creation, charging, and the
//! operator-signed fee-list mutations with their per-operation nonces.

use bridge_core::commission::CommissionToken;
use bridge_core::commission::instruction::CommissionTokenArg;
use bridge_core::commission::instruction::FeeTokenArgs;
use bridge_core::commission::instruction::WithdrawArgs;
use bridge_core::commission::merkle::Content;
use bridge_core::commission::processor::check_token_is_acceptable;
use bridge_core::commission::processor::process_add_token;
use bridge_core::commission::processor::process_charge_commission;
use bridge_core::commission::processor::process_init_admin;
use bridge_core::commission::processor::process_remove_token;
use bridge_core::commission::processor::process_update_token;
use bridge_core::commission::processor::process_withdraw;
use bridge_core::commission::state::CommissionAdmin;
use bridge_core::commission::state::OperationType;
use bridge_core::commission::state::pack_commission_admin;
use bridge_core::derive_commission_admin_address;
use bridge_core::error::BridgeError;
use bridge_core::pda::associated_token_address;
use bridge_core::processor::BridgeAction;
use bridge_core::state::BridgeAdmin;
use bridge_core::state::pack_bridge_admin;

const COMMISSION_PROGRAM: [u8; 32] = [44u8; 32];
const OWNER: [u8; 32] = [22u8; 32];

fn secret() -> libsecp256k1::SecretKey {
    libsecp256k1::SecretKey::parse(&[17u8; 32]).expect("a fixed valid secret key")
}

fn operator_key() -> [u8; 33] {
    libsecp256k1::PublicKey::from_secret_key(&secret()).serialize_compressed()
}

fn sign(message32: &[u8; 32]) -> ([u8; 64], u8) {
    let msg = libsecp256k1::Message::parse(message32);
    let (sig, rid) = libsecp256k1::sign(&msg, &secret());
    (sig.serialize(), rid.serialize())
}

/// A bridge admin identity whose derived commission admin exists, with the
/// derived address.
fn setup() -> ([u8; 32], [u8; 32]) {
    let mut b: u8 = 0;
    loop {
        let bridge_admin = [b; 32];
        if let Some(addr) = derive_commission_admin_address(&bridge_admin, &COMMISSION_PROGRAM) {
            return (bridge_admin, addr);
        }
        b += 1;
    }
}

fn bridge_admin_data() -> Vec<u8> {
    pack_bridge_admin(&BridgeAdmin {
        public_key: operator_key(),
        commission_program: COMMISSION_PROGRAM,
        is_initialized: true,
    })
}

fn fresh_admin(entries: Vec<bridge_core::commission::state::CommissionToken>) -> CommissionAdmin {
    CommissionAdmin {
        acceptable_tokens: entries,
        add_token_nonce: 0,
        update_token_nonce: 0,
        remove_token_nonce: 0,
        withdraw_token_nonce: 0,
        is_initialized: true,
    }
}

fn signed_op(
    nonce: u64,
    receiver: Option<[u8; 32]>,
    op: OperationType,
    token: &CommissionTokenArg,
) -> ([u8; 64], u8) {
    let content = Content::new(
        nonce,
        receiver,
        COMMISSION_PROGRAM,
        op,
        bridge_core::commission::state::CommissionToken::from(token),
    );
    sign(&content.hash())
}

#[test]
fn fee_token_add_succeeds_once_and_rejects_the_replay() {
    let (bridge_admin, commission_admin) = setup();
    let bdata = bridge_admin_data();

    // Create the commission admin with an empty list.
    let (admin, _) = process_init_admin(
        &COMMISSION_PROGRAM,
        &commission_admin,
        &Vec::new(),
        &bridge_admin,
        Vec::new(),
    )
    .expect("a fresh commission admin must initialize");
    assert_eq!(admin.add_token_nonce, 0);
    assert_eq!(admin.acceptable_tokens.len(), 0);
    let cdata = pack_commission_admin(&admin);

    // A signed add of a fungible fee token passes and bumps the nonce.
    let token = CommissionTokenArg { token: CommissionToken::FT([3u8; 32]), amount: 500 };
    let (signature, recovery_id) = signed_op(0, None, OperationType::AddToken, &token);
    let args = FeeTokenArgs { signature, recovery_id, path: Vec::new(), token };
    let admin2 = process_add_token(
        &COMMISSION_PROGRAM,
        &commission_admin,
        &cdata,
        &bridge_admin,
        &bdata,
        &args,
    )
    .expect("a signed add must pass");
    assert_eq!(admin2.add_token_nonce, 1);
    assert_eq!(admin2.acceptable_tokens.len(), 1);
    assert_eq!(admin2.acceptable_tokens[0].amount, 500);

    // The identical payload against the advanced nonce recovers another key.
    let cdata2 = pack_commission_admin(&admin2);
    let replay = process_add_token(
        &COMMISSION_PROGRAM,
        &commission_admin,
        &cdata2,
        &bridge_admin,
        &bdata,
        &args,
    );
    assert_eq!(replay.err(), Some(BridgeError::WrongSignature));
}

#[test]
fn charge_requires_an_acceptable_token() {
    let (bridge_admin, commission_admin) = setup();
    let admin = fresh_admin(vec![bridge_core::commission::state::CommissionToken {
        token: CommissionToken::Native,
        amount: 100,
    }]);
    let cdata = pack_commission_admin(&admin);
    // The configured native fee is charged.
    let actions = process_charge_commission(
        &COMMISSION_PROGRAM,
        &commission_admin,
        &cdata,
        &bridge_admin,
        &OWNER,
        &[1u8; 32],
        &[2u8; 32],
        &Vec::new(),
        &CommissionToken::Native,
    )
    .expect("a listed token must charge");
    assert_eq!(actions.len(), 1);
    match &actions[0] {
        BridgeAction::TransferNative { from, to, amount } => {
            assert_eq!(*from, OWNER);
            assert_eq!(*to, commission_admin);
            assert_eq!(*amount, 100);
        }
        _ => panic!("a native charge must transfer native units"),
    }
    // A token off the list is not acceptable.
    assert_eq!(
        process_charge_commission(
            &COMMISSION_PROGRAM,
            &commission_admin,
            &cdata,
            &bridge_admin,
            &OWNER,
            &[1u8; 32],
            &[2u8; 32],
            &Vec::new(),
            &CommissionToken::FT([9u8; 32]),
        )
        .err(),
        Some(BridgeError::NotAcceptable)
    );
}

#[test]
fn charging_in_a_nonfungible_token_is_not_supported() {
    let (bridge_admin, commission_admin) = setup();
    let nft = CommissionToken::NFT([8u8; 32]);
    let admin = fresh_admin(vec![bridge_core::commission::state::CommissionToken {
        token: CommissionToken::NFT([8u8; 32]),
        amount: 1,
    }]);
    let cdata = pack_commission_admin(&admin);
    assert_eq!(
        process_charge_commission(
            &COMMISSION_PROGRAM,
            &commission_admin,
            &cdata,
            &bridge_admin,
            &OWNER,
            &[1u8; 32],
            &[2u8; 32],
            &Vec::new(),
            &nft,
        )
        .err(),
        Some(BridgeError::NotSupported)
    );
}

#[test]
fn fungible_charge_creates_the_missing_account() {
    let (bridge_admin, commission_admin) = setup();
    let mint = [31u8; 32];
    let admin = fresh_admin(vec![bridge_core::commission::state::CommissionToken {
        token: CommissionToken::FT(mint),
        amount: 7,
    }]);
    let cdata = pack_commission_admin(&admin);
    let commission_ata = associated_token_address(&commission_admin, &mint);
    let owner_ata = associated_token_address(&OWNER, &mint);
    let actions = process_charge_commission(
        &COMMISSION_PROGRAM,
        &commission_admin,
        &cdata,
        &bridge_admin,
        &OWNER,
        &owner_ata,
        &commission_ata,
        &Vec::new(),
        &CommissionToken::FT(mint),
    )
    .expect("a listed fungible token must charge");
    assert_eq!(actions.len(), 2);
    match &actions[0] {
        BridgeAction::CreateAssociatedAccount { payer, wallet, mint: m } => {
            assert_eq!(*payer, OWNER);
            assert_eq!(*wallet, commission_admin);
            assert_eq!(*m, mint);
        }
        _ => panic!("the absent fee account must be created first"),
    }
    match &actions[1] {
        BridgeAction::TransferTokens { source, destination, authority, amount } => {
            assert_eq!(*source, owner_ata);
            assert_eq!(*destination, commission_ata);
            assert_eq!(*authority, OWNER);
            assert_eq!(*amount, 7);
        }
        _ => panic!("the fee must move to the commission account"),
    }
}

#[test]
fn update_overwrites_the_first_matching_amount() {
    let (bridge_admin, commission_admin) = setup();
    let bdata = bridge_admin_data();
    let mint = [3u8; 32];
    let admin = fresh_admin(vec![bridge_core::commission::state::CommissionToken {
        token: CommissionToken::FT(mint),
        amount: 500,
    }]);
    let cdata = pack_commission_admin(&admin);
    let token = CommissionTokenArg { token: CommissionToken::FT(mint), amount: 750 };
    let (signature, recovery_id) = signed_op(0, None, OperationType::UpdateToken, &token);
    let args = FeeTokenArgs { signature, recovery_id, path: Vec::new(), token };
    let admin2 = process_update_token(
        &COMMISSION_PROGRAM,
        &commission_admin,
        &cdata,
        &bridge_admin,
        &bdata,
        &args,
    )
    .expect("a signed update must pass");
    assert_eq!(admin2.update_token_nonce, 1);
    assert_eq!(admin2.acceptable_tokens[0].amount, 750);
}

#[test]
fn remove_deletes_the_fully_matching_entry() {
    let (bridge_admin, commission_admin) = setup();
    let bdata = bridge_admin_data();
    let mint = [3u8; 32];
    let admin = fresh_admin(vec![
        bridge_core::commission::state::CommissionToken {
            token: CommissionToken::Native,
            amount: 9,
        },
        bridge_core::commission::state::CommissionToken {
            token: CommissionToken::FT(mint),
            amount: 500,
        },
    ]);
    let cdata = pack_commission_admin(&admin);
    let token = CommissionTokenArg { token: CommissionToken::FT(mint), amount: 500 };
    let (signature, recovery_id) = signed_op(0, None, OperationType::RemoveToken, &token);
    let args = FeeTokenArgs { signature, recovery_id, path: Vec::new(), token };
    let admin2 = process_remove_token(
        &COMMISSION_PROGRAM,
        &commission_admin,
        &cdata,
        &bridge_admin,
        &bdata,
        &args,
    )
    .expect("a signed removal must pass");
    assert_eq!(admin2.remove_token_nonce, 1);
    assert_eq!(admin2.acceptable_tokens.len(), 1);
    assert!(matches!(admin2.acceptable_tokens[0].token, CommissionToken::Native));
}

#[test]
fn signed_withdrawal_pays_the_receiver_and_bumps_the_nonce() {
    let (bridge_admin, commission_admin) = setup();
    let bdata = bridge_admin_data();
    let receiver = [66u8; 32];
    let admin = fresh_admin(Vec::new());
    let cdata = pack_commission_admin(&admin);
    let token = CommissionTokenArg { token: CommissionToken::Native, amount: 0 };
    let (signature, recovery_id) = signed_op(0, Some(receiver), OperationType::WithdrawToken, &token);
    let args = WithdrawArgs {
        signature,
        recovery_id,
        path: Vec::new(),
        token,
        withdraw_amount: 1234,
    };
    let (admin2, actions) = process_withdraw(
        &COMMISSION_PROGRAM,
        &commission_admin,
        &cdata,
        &bridge_admin,
        &bdata,
        &receiver,
        &[1u8; 32],
        &Vec::new(),
        &[2u8; 32],
        &args,
    )
    .expect("a signed fee withdrawal must pass");
    assert_eq!(admin2.withdraw_token_nonce, 1);
    assert_eq!(actions.len(), 1);
    match &actions[0] {
        BridgeAction::TransferNative { from, to, amount } => {
            assert_eq!(*from, commission_admin);
            assert_eq!(*to, receiver);
            assert_eq!(*amount, 1234);
        }
        _ => panic!("the collected fees must move to the receiver"),
    }
}

#[test]
fn acceptable_lookup_returns_the_first_match() {
    let list = vec![
        bridge_core::commission::state::CommissionToken {
            token: CommissionToken::Native,
            amount: 1,
        },
        bridge_core::commission::state::CommissionToken {
            token: CommissionToken::Native,
            amount: 2,
        },
    ];
    assert_eq!(check_token_is_acceptable(&list, &CommissionToken::Native), Ok(1));
    assert_eq!(
        check_token_is_acceptable(&list, &CommissionToken::FT([1u8; 32])),
        Err(BridgeError::NotAcceptable)
    );
}

#[test]
fn eleventh_fee_token_is_refused() {
    let (bridge_admin, commission_admin) = setup();
    let bdata = bridge_admin_data();
    let mut entries = Vec::new();
    for i in 0..10u8 {
        entries.push(bridge_core::commission::state::CommissionToken {
            token: CommissionToken::FT([i; 32]),
            amount: 1,
        });
    }
    let admin = fresh_admin(entries);
    let cdata = pack_commission_admin(&admin);
    let token = CommissionTokenArg { token: CommissionToken::Native, amount: 1 };
    let (signature, recovery_id) = signed_op(0, None, OperationType::AddToken, &token);
    let args = FeeTokenArgs { signature, recovery_id, path: Vec::new(), token };
    assert_eq!(
        process_add_token(
            &COMMISSION_PROGRAM,
            &commission_admin,
            &cdata,
            &bridge_admin,
            &bdata,
            &args,
        )
        .err(),
        Some(BridgeError::WrongDataLen)
    );
}
