//! Round trips of the instruction payloads and the stored account records:
//! decoding an encoding yields the original value.

use bridge_core::commission::CommissionArgs;
use bridge_core::commission::CommissionToken;
use bridge_core::commission::instruction::CommissionInstruction;
use bridge_core::commission::instruction::CommissionTokenArg;
use bridge_core::commission::instruction::FeeTokenArgs;
use bridge_core::commission::state::CommissionAdmin;
use bridge_core::commission::state::pack_commission_admin;
use bridge_core::commission::state::unpack_commission_admin;
use bridge_core::instruction::BridgeInstruction;
use bridge_core::instruction::DepositNativeArgs;
use bridge_core::instruction::InitializeAdminArgs;
use bridge_core::instruction::MintCollectionArgs;
use bridge_core::instruction::SignedMetadata;
use bridge_core::instruction::TransferOwnershipArgs;
use bridge_core::instruction::WithdrawArgs;
use bridge_core::state::BridgeAdmin;
use bridge_core::state::TokenType;
use bridge_core::state::Withdraw;
use bridge_core::state::pack_bridge_admin;
use bridge_core::state::pack_withdraw;
use bridge_core::state::unpack_bridge_admin;
use bridge_core::state::unpack_withdraw;
use bridge_core::upgrade::instruction::UpgradeArgs;
use bridge_core::upgrade::instruction::UpgradeInstruction;
use bridge_core::upgrade::state::UpgradeAdmin;
use bridge_core::upgrade::state::pack_upgrade_admin;
use bridge_core::upgrade::state::unpack_upgrade_admin;

fn key(b: u8) -> [u8; 32] {
    [b; 32]
}

#[test]
fn bridge_initialize_admin_round_trip() {
    let instr = BridgeInstruction::InitializeAdmin(InitializeAdminArgs {
        public_key: [7u8; 33],
        seeds: key(1),
    });
    let bytes = instr.pack();
    assert_eq!(bytes[0], 0);
    match BridgeInstruction::unpack(&bytes) {
        Some(BridgeInstruction::InitializeAdmin(a)) => {
            assert_eq!(a.public_key, [7u8; 33]);
            assert_eq!(a.seeds, key(1));
        }
        _ => panic!("expected the initialize variant back"),
    }
}

#[test]
fn bridge_transfer_ownership_round_trip() {
    let instr = BridgeInstruction::TransferOwnership(TransferOwnershipArgs {
        new_public_key: [9u8; 33],
        signature: [3u8; 64],
        recovery_id: 1,
        seeds: key(2),
    });
    let bytes = instr.pack();
    assert_eq!(bytes[0], 1);
    match BridgeInstruction::unpack(&bytes) {
        Some(BridgeInstruction::TransferOwnership(a)) => {
            assert_eq!(a.new_public_key, [9u8; 33]);
            assert_eq!(a.signature, [3u8; 64]);
            assert_eq!(a.recovery_id, 1);
            assert_eq!(a.seeds, key(2));
        }
        _ => panic!("expected the transfer variant back"),
    }
}

#[test]
fn bridge_deposit_native_round_trip() {
    let instr = BridgeInstruction::DepositNative(DepositNativeArgs {
        amount: 1_000_000,
        network_to: b"Ethereum".to_vec(),
        receiver_address: b"0xabc".to_vec(),
        seeds: key(3),
        bundle_data: Some(vec![1, 2, 3]),
        bundle_seed: Some(key(4)),
    });
    let bytes = instr.pack();
    assert_eq!(bytes[0], 2);
    match BridgeInstruction::unpack(&bytes) {
        Some(BridgeInstruction::DepositNative(a)) => {
            assert_eq!(a.amount, 1_000_000);
            assert_eq!(a.network_to, b"Ethereum".to_vec());
            assert_eq!(a.receiver_address, b"0xabc".to_vec());
            assert_eq!(a.bundle_data, Some(vec![1, 2, 3]));
            assert_eq!(a.bundle_seed, Some(key(4)));
        }
        _ => panic!("expected the deposit variant back"),
    }
}

#[test]
fn bridge_withdraw_round_trip() {
    let instr = BridgeInstruction::WithdrawFT(WithdrawArgs {
        origin: key(5),
        amount: 77,
        signature: [8u8; 64],
        recovery_id: 0,
        path: vec![key(6), key(7)],
        seeds: key(8),
        token_seed: Some(key(9)),
        signed_meta: Some(SignedMetadata {
            name: b"Mirror".to_vec(),
            symbol: b"MIR".to_vec(),
            uri: b"https://example.test/mir".to_vec(),
            decimals: 6,
        }),
    });
    let bytes = instr.pack();
    assert_eq!(bytes[0], 6);
    match BridgeInstruction::unpack(&bytes) {
        Some(BridgeInstruction::WithdrawFT(a)) => {
            assert_eq!(a.origin, key(5));
            assert_eq!(a.amount, 77);
            assert_eq!(a.path, vec![key(6), key(7)]);
            assert_eq!(a.token_seed, Some(key(9)));
            let meta = a.signed_meta.expect("metadata must survive the trip");
            assert_eq!(meta.name, b"Mirror".to_vec());
            assert_eq!(meta.symbol, b"MIR".to_vec());
            assert_eq!(meta.decimals, 6);
        }
        _ => panic!("expected the withdraw variant back"),
    }
}

#[test]
fn bridge_mint_collection_round_trip() {
    let instr = BridgeInstruction::MintCollection(MintCollectionArgs {
        data: SignedMetadata {
            name: b"Collection".to_vec(),
            symbol: b"COL".to_vec(),
            uri: b"https://example.test/col".to_vec(),
            decimals: 0,
        },
        seeds: key(10),
        token_seed: key(11),
    });
    let bytes = instr.pack();
    assert_eq!(bytes[0], 8);
    match BridgeInstruction::unpack(&bytes) {
        Some(BridgeInstruction::MintCollection(a)) => {
            assert_eq!(a.data.name, b"Collection".to_vec());
            assert_eq!(a.seeds, key(10));
            assert_eq!(a.token_seed, key(11));
        }
        _ => panic!("expected the collection variant back"),
    }
}

#[test]
fn truncated_instruction_is_rejected() {
    let instr = BridgeInstruction::InitializeAdmin(InitializeAdminArgs {
        public_key: [7u8; 33],
        seeds: key(1),
    });
    let mut bytes = instr.pack();
    bytes.pop();
    assert!(BridgeInstruction::unpack(&bytes).is_none());
}

#[test]
fn trailing_bytes_are_rejected() {
    let instr = BridgeInstruction::InitializeAdmin(InitializeAdminArgs {
        public_key: [7u8; 33],
        seeds: key(1),
    });
    let mut bytes = instr.pack();
    bytes.push(0);
    assert!(BridgeInstruction::unpack(&bytes).is_none());
}

#[test]
fn commission_charge_round_trip() {
    let instr = CommissionInstruction::ChargeCommission(CommissionArgs {
        token: CommissionToken::FT(key(12)),
        deposit_token: TokenType::FT,
        deposit_token_amount: 500,
    });
    let bytes = instr.pack();
    assert_eq!(bytes[0], 1);
    match CommissionInstruction::unpack(&bytes) {
        Some(CommissionInstruction::ChargeCommission(a)) => {
            match a.token {
                CommissionToken::FT(mint) => assert_eq!(mint, key(12)),
                _ => panic!("expected a fungible fee token"),
            }
            assert_eq!(a.deposit_token, TokenType::FT);
            assert_eq!(a.deposit_token_amount, 500);
        }
        _ => panic!("expected the charge variant back"),
    }
}

#[test]
fn commission_add_fee_token_round_trip() {
    let instr = CommissionInstruction::AddFeeToken(FeeTokenArgs {
        signature: [4u8; 64],
        recovery_id: 1,
        path: vec![key(13)],
        token: CommissionTokenArg { token: CommissionToken::Native, amount: 250 },
    });
    let bytes = instr.pack();
    assert_eq!(bytes[0], 2);
    match CommissionInstruction::unpack(&bytes) {
        Some(CommissionInstruction::AddFeeToken(a)) => {
            assert_eq!(a.signature, [4u8; 64]);
            assert_eq!(a.path, vec![key(13)]);
            assert_eq!(a.token.amount, 250);
        }
        _ => panic!("expected the add variant back"),
    }
}

#[test]
fn upgrade_instruction_round_trip() {
    let instr = UpgradeInstruction::Upgrade(UpgradeArgs { signature: [2u8; 64], recovery_id: 0 });
    let bytes = instr.pack();
    assert_eq!(bytes[0], 2);
    match UpgradeInstruction::unpack(&bytes) {
        Some(UpgradeInstruction::Upgrade(a)) => {
            assert_eq!(a.signature, [2u8; 64]);
            assert_eq!(a.recovery_id, 0);
        }
        _ => panic!("expected the upgrade variant back"),
    }
}

#[test]
fn bridge_admin_record_round_trip() {
    let admin = BridgeAdmin {
        public_key: [5u8; 33],
        commission_program: key(14),
        is_initialized: true,
    };
    let bytes = pack_bridge_admin(&admin);
    assert_eq!(bytes.len(), 66);
    let back = unpack_bridge_admin(&bytes).expect("the record must decode");
    assert_eq!(back.public_key, [5u8; 33]);
    assert_eq!(back.commission_program, key(14));
    assert!(back.is_initialized);
}

#[test]
fn withdraw_record_round_trip() {
    let rec = Withdraw {
        token_type: TokenType::FT,
        mint: Some(key(15)),
        amount: 42,
        origin: key(16),
        receiver_address: key(17),
        is_initialized: true,
    };
    let bytes = pack_withdraw(&rec);
    let back = unpack_withdraw(&bytes).expect("the record must decode");
    assert_eq!(back.token_type, TokenType::FT);
    assert_eq!(back.mint, Some(key(15)));
    assert_eq!(back.amount, 42);
    assert_eq!(back.origin, key(16));
    assert_eq!(back.receiver_address, key(17));
    assert!(back.is_initialized);
}

#[test]
fn withdraw_record_decodes_with_trailing_slack() {
    let rec = Withdraw {
        token_type: TokenType::Native,
        mint: None,
        amount: 1,
        origin: key(18),
        receiver_address: key(19),
        is_initialized: true,
    };
    let mut bytes = pack_withdraw(&rec);
    while bytes.len() < 227 {
        bytes.push(0);
    }
    let back = unpack_withdraw(&bytes).expect("padding must not break decoding");
    assert_eq!(back.origin, key(18));
}

#[test]
fn commission_admin_record_round_trip() {
    let admin = CommissionAdmin {
        acceptable_tokens: vec![
            bridge_core::commission::state::CommissionToken {
                token: CommissionToken::Native,
                amount: 100,
            },
            bridge_core::commission::state::CommissionToken {
                token: CommissionToken::FT(key(20)),
                amount: 7,
            },
        ],
        add_token_nonce: 1,
        update_token_nonce: 2,
        remove_token_nonce: 3,
        withdraw_token_nonce: 4,
        is_initialized: true,
    };
    let bytes = pack_commission_admin(&admin);
    let back = unpack_commission_admin(&bytes).expect("the record must decode");
    assert_eq!(back.acceptable_tokens.len(), 2);
    assert_eq!(back.acceptable_tokens[0].amount, 100);
    match back.acceptable_tokens[1].token {
        CommissionToken::FT(mint) => assert_eq!(mint, key(20)),
        _ => panic!("expected a fungible fee token"),
    }
    assert_eq!(back.add_token_nonce, 1);
    assert_eq!(back.update_token_nonce, 2);
    assert_eq!(back.remove_token_nonce, 3);
    assert_eq!(back.withdraw_token_nonce, 4);
    assert!(back.is_initialized);
}

#[test]
fn upgrade_admin_record_round_trip() {
    let admin = UpgradeAdmin {
        public_key: [6u8; 33],
        contract: key(21),
        nonce: 9,
        is_initialized: true,
    };
    let bytes = pack_upgrade_admin(&admin);
    assert_eq!(bytes.len(), 74);
    let back = unpack_upgrade_admin(&bytes).expect("the record must decode");
    assert_eq!(back.public_key, [6u8; 33]);
    assert_eq!(back.contract, key(21));
    assert_eq!(back.nonce, 9);
    assert!(back.is_initialized);
}

#[test]
fn invalid_bool_byte_is_rejected() {
    let admin = BridgeAdmin {
        public_key: [5u8; 33],
        commission_program: key(14),
        is_initialized: true,
    };
    let mut bytes = pack_bridge_admin(&admin);
    bytes[65] = 2;
    assert!(unpack_bridge_admin(&bytes).is_none());
}
