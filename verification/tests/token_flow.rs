//! Token flows: the bridge-minted mirror roundtrip and the collection
//! metadata override of non-fungible withdrawals.

use bridge_core::commission::CommissionArgs;
use bridge_core::commission::CommissionToken;
use bridge_core::commission::instruction::CommissionInstruction;
use bridge_core::crypto::keccak256;
use bridge_core::derive_bridge_admin_address;
use bridge_core::derive_commission_admin_address;
use bridge_core::error::BridgeError;
use bridge_core::instruction::DepositFTArgs;
use bridge_core::instruction::SignedMetadata;
use bridge_core::instruction::WithdrawArgs;
use bridge_core::merkle::amount_bytes;
use bridge_core::pda::associated_token_address;
use bridge_core::pda::metadata_account_address;
use bridge_core::processor::BridgeAction;
use bridge_core::processor::PrevInstruction;
use bridge_core::processor::TokenMetadata;
use bridge_core::processor::find_single_seed_pda;
use bridge_core::processor::process_deposit_ft;
use bridge_core::processor::process_withdraw_ft;
use bridge_core::processor::process_withdraw_nft;
use bridge_core::state::BridgeAdmin;
use bridge_core::state::TokenType;
use bridge_core::state::pack_bridge_admin;

const PROGRAM_ID: [u8; 32] = [12u8; 32];
const OWNER: [u8; 32] = [23u8; 32];
const TOKEN_PROGRAM: [u8; 32] = [33u8; 32];

fn secret() -> libsecp256k1::SecretKey {
    libsecp256k1::SecretKey::parse(&[19u8; 32]).expect("a fixed valid secret key")
}

fn operator_key() -> [u8; 33] {
    libsecp256k1::PublicKey::from_secret_key(&secret()).serialize_compressed()
}

fn sign(message32: &[u8; 32]) -> ([u8; 64], u8) {
    let msg = libsecp256k1::Message::parse(message32);
    let (sig, rid) = libsecp256k1::sign(&msg, &secret());
    (sig.serialize(), rid.serialize())
}

fn admin_setup() -> ([u8; 32], [u8; 32]) {
    let mut b: u8 = 0;
    loop {
        let seeds = [b; 32];
        if let Some(addr) = derive_bridge_admin_address(&seeds, &PROGRAM_ID) {
            return (seeds, addr);
        }
        b += 1;
    }
}

fn commission_setup(bridge_admin: &[u8; 32]) -> ([u8; 32], [u8; 32]) {
    let mut b: u8 = 100;
    loop {
        let cp = [b; 32];
        if let Some(addr) = derive_commission_admin_address(bridge_admin, &cp) {
            return (cp, addr);
        }
        b += 1;
    }
}

fn admin_data(commission_program: &[u8; 32]) -> Vec<u8> {
    pack_bridge_admin(&BridgeAdmin {
        public_key: operator_key(),
        commission_program: *commission_program,
        is_initialized: true,
    })
}

/// An initialized 82-byte mint with the given decimals.
fn mint_bytes(decimals: u8) -> Vec<u8> {
    let mut data = vec![0u8; 82];
    data[44] = decimals;
    data[45] = 1;
    data
}

/// An initialized 165-byte token account holding the given balance.
fn token_account_bytes(amount: u64) -> Vec<u8> {
    let mut data = vec![0u8; 165];
    data[64..72].copy_from_slice(&amount.to_le_bytes());
    data[108] = 1;
    data
}

fn ft_leaf(
    mint: &[u8; 32],
    amount: u64,
    name: &[u8],
    symbol: &[u8],
    uri: &[u8],
    decimals: u8,
    origin: &[u8; 32],
    receiver: &[u8; 32],
) -> [u8; 32] {
    let mut bytes = Vec::new();
    bytes.extend_from_slice(mint);
    bytes.extend_from_slice(name);
    bytes.extend_from_slice(uri);
    bytes.extend_from_slice(&amount_bytes(amount));
    bytes.extend_from_slice(symbol);
    bytes.push(decimals);
    bytes.extend_from_slice(origin);
    bytes.extend_from_slice(b"Solana");
    bytes.extend_from_slice(receiver);
    bytes.extend_from_slice(&PROGRAM_ID);
    keccak256(&bytes)
}

fn nft_leaf(
    mint: &[u8; 32],
    collection: Option<&[u8; 32]>,
    name: &[u8],
    symbol: &[u8],
    uri: &[u8],
    origin: &[u8; 32],
    receiver: &[u8; 32],
) -> [u8; 32] {
    let mut bytes = Vec::new();
    if let Some(c) = collection {
        bytes.extend_from_slice(c);
    }
    bytes.extend_from_slice(name);
    bytes.extend_from_slice(mint);
    bytes.extend_from_slice(uri);
    bytes.extend_from_slice(symbol);
    bytes.extend_from_slice(origin);
    bytes.extend_from_slice(b"Solana");
    bytes.extend_from_slice(receiver);
    bytes.extend_from_slice(&PROGRAM_ID);
    keccak256(&bytes)
}

#[test]
fn mirror_mint_roundtrip() {
    let (seeds, bridge_admin) = admin_setup();
    let (commission_program, commission_admin) = commission_setup(&bridge_admin);
    let data = admin_data(&commission_program);
    let token_seed = [1u8; 32];
    let mint = find_single_seed_pda(&token_seed, &PROGRAM_ID);
    let metadata_key = metadata_account_address(&mint);
    let bridge_ata = associated_token_address(&bridge_admin, &mint);
    let owner_ata = associated_token_address(&OWNER, &mint);
    let meta = SignedMetadata {
        name: b"Mirror".to_vec(),
        symbol: b"MIR".to_vec(),
        uri: b"https://example.test/mir".to_vec(),
        decimals: 6,
    };

    // First withdrawal: the mint does not exist yet and is created from the
    // signed metadata; the whole amount is minted before the transfer.
    let origin1 = [2u8; 32];
    let leaf = ft_leaf(
        &mint,
        50,
        b"Mirror",
        b"MIR",
        b"https://example.test/mir",
        6,
        &origin1,
        &OWNER,
    );
    let (signature, recovery_id) = sign(&leaf);
    let args = WithdrawArgs {
        origin: origin1,
        amount: 50,
        signature,
        recovery_id,
        path: Vec::new(),
        seeds,
        token_seed: Some(token_seed),
        signed_meta: Some(meta),
    };
    let withdraw_key = find_single_seed_pda(&origin1, &PROGRAM_ID);
    let (receipt, actions) = process_withdraw_ft(
        &PROGRAM_ID,
        &bridge_admin,
        &data,
        &mint,
        &Vec::new(),
        &metadata_key,
        &None,
        &OWNER,
        &owner_ata,
        &Vec::new(),
        &bridge_ata,
        &Vec::new(),
        &withdraw_key,
        &Vec::new(),
        &TOKEN_PROGRAM,
        &args,
    )
    .expect("a signed mirror withdrawal must create the mint and pay out");
    assert_eq!(receipt.token_type, TokenType::FT);
    assert_eq!(receipt.mint, Some(mint));
    assert_eq!(receipt.amount, 50);
    // Mint creation, its initialization, its metadata, the two associated
    // accounts, the shortfall mint, the transfer, and the receipt account.
    assert_eq!(actions.len(), 8);
    assert!(matches!(&actions[0], BridgeAction::CreateAccount { address, .. } if *address == mint));
    assert!(
        matches!(&actions[1], BridgeAction::InitializeMint { decimals, .. } if *decimals == 6)
    );
    assert!(matches!(&actions[2], BridgeAction::CreateMetadata { .. }));
    assert!(
        matches!(&actions[5], BridgeAction::MintTokens { amount, .. } if *amount == 50)
    );
    assert!(
        matches!(&actions[6], BridgeAction::TransferTokens { amount, .. } if *amount == 50)
    );

    // Deposit back: a mirror deposit burns the owner's tokens.
    let charge = CommissionInstruction::ChargeCommission(CommissionArgs {
        token: CommissionToken::Native,
        deposit_token: TokenType::FT,
        deposit_token_amount: 30,
    })
    .pack();
    let prev = PrevInstruction {
        program_id: commission_program,
        first_account: Some(commission_admin),
        data: charge,
    };
    let dargs = DepositFTArgs {
        amount: 30,
        network_to: b"Ethereum".to_vec(),
        receiver_address: b"0xabc".to_vec(),
        seeds,
        token_seed: Some(token_seed),
        bundle_data: None,
        bundle_seed: None,
    };
    let actions = process_deposit_ft(
        &PROGRAM_ID,
        &bridge_admin,
        &data,
        &mint,
        &owner_ata,
        &bridge_ata,
        &token_account_bytes(0),
        &OWNER,
        &prev,
        &dargs,
    )
    .expect("a charged mirror deposit must burn");
    assert_eq!(actions.len(), 1);
    match &actions[0] {
        BridgeAction::BurnTokens { account, mint: m, authority, amount } => {
            assert_eq!(*account, owner_ata);
            assert_eq!(*m, mint);
            assert_eq!(*authority, OWNER);
            assert_eq!(*amount, 30);
        }
        _ => panic!("a mirror deposit must burn the owner's tokens"),
    }

    // Second withdrawal: the mint now exists; the stored metadata is padded
    // and the leaf hashes it trimmed; only the shortfall is minted.
    let origin2 = [4u8; 32];
    let stored_meta = TokenMetadata {
        name: b"Mirror\0\0\0\0".to_vec(),
        symbol: b"MIR\0\0".to_vec(),
        uri: b"https://example.test/mir\0".to_vec(),
        collection: None,
    };
    let leaf = ft_leaf(
        &mint,
        40,
        b"Mirror",
        b"MIR",
        b"https://example.test/mir",
        6,
        &origin2,
        &OWNER,
    );
    let (signature, recovery_id) = sign(&leaf);
    let args = WithdrawArgs {
        origin: origin2,
        amount: 40,
        signature,
        recovery_id,
        path: Vec::new(),
        seeds,
        token_seed: Some(token_seed),
        signed_meta: Some(SignedMetadata {
            name: b"Mirror".to_vec(),
            symbol: b"MIR".to_vec(),
            uri: b"https://example.test/mir".to_vec(),
            decimals: 6,
        }),
    };
    let withdraw_key2 = find_single_seed_pda(&origin2, &PROGRAM_ID);
    let (receipt, actions) = process_withdraw_ft(
        &PROGRAM_ID,
        &bridge_admin,
        &data,
        &mint,
        &mint_bytes(6),
        &metadata_key,
        &Some(stored_meta),
        &OWNER,
        &owner_ata,
        &token_account_bytes(0),
        &bridge_ata,
        &token_account_bytes(10),
        &withdraw_key2,
        &Vec::new(),
        &TOKEN_PROGRAM,
        &args,
    )
    .expect("a second mirror withdrawal must mint only the shortfall");
    assert_eq!(receipt.amount, 40);
    // Shortfall mint, transfer, and the receipt account.
    assert_eq!(actions.len(), 3);
    assert!(
        matches!(&actions[0], BridgeAction::MintTokens { amount, .. } if *amount == 30)
    );
    assert!(
        matches!(&actions[1], BridgeAction::TransferTokens { amount, .. } if *amount == 40)
    );
}

#[test]
fn mirror_withdrawal_guards_seed_and_metadata() {
    let (seeds, bridge_admin) = admin_setup();
    let (commission_program, _) = commission_setup(&bridge_admin);
    let data = admin_data(&commission_program);
    let token_seed = [1u8; 32];
    let mint = find_single_seed_pda(&token_seed, &PROGRAM_ID);
    let metadata_key = metadata_account_address(&mint);
    let origin = [2u8; 32];
    let (signature, recovery_id) = sign(&[0u8; 32]);
    let base = WithdrawArgs {
        origin,
        amount: 50,
        signature,
        recovery_id,
        path: Vec::new(),
        seeds,
        token_seed: Some([9u8; 32]),
        signed_meta: None,
    };
    // The mint is not the token seed's derived address.
    assert_eq!(
        process_withdraw_ft(
            &PROGRAM_ID,
            &bridge_admin,
            &data,
            &mint,
            &Vec::new(),
            &metadata_key,
            &None,
            &OWNER,
            &[1u8; 32],
            &Vec::new(),
            &[2u8; 32],
            &Vec::new(),
            &[3u8; 32],
            &Vec::new(),
            &TOKEN_PROGRAM,
            &base,
        )
        .err(),
        Some(BridgeError::WrongTokenSeed)
    );
    // A mirror withdrawal without the signed metadata has nothing to create
    // the mint from.
    let no_meta = WithdrawArgs { token_seed: Some(token_seed), ..base };
    assert_eq!(
        process_withdraw_ft(
            &PROGRAM_ID,
            &bridge_admin,
            &data,
            &mint,
            &Vec::new(),
            &metadata_key,
            &None,
            &OWNER,
            &[1u8; 32],
            &Vec::new(),
            &[2u8; 32],
            &Vec::new(),
            &[3u8; 32],
            &Vec::new(),
            &TOKEN_PROGRAM,
            &no_meta,
        )
        .err(),
        Some(BridgeError::NoTokenMeta)
    );
    // The metadata account must be the mint's derived record.
    let wrong_meta_key = WithdrawArgs { token_seed: None, ..no_meta };
    assert_eq!(
        process_withdraw_ft(
            &PROGRAM_ID,
            &bridge_admin,
            &data,
            &mint,
            &mint_bytes(0),
            &[77u8; 32],
            &None,
            &OWNER,
            &[1u8; 32],
            &Vec::new(),
            &[2u8; 32],
            &Vec::new(),
            &[3u8; 32],
            &Vec::new(),
            &TOKEN_PROGRAM,
            &wrong_meta_key,
        )
        .err(),
        Some(BridgeError::WrongMetadataAccount)
    );
    // An existing token's withdrawal needs its metadata record.
    assert_eq!(
        process_withdraw_ft(
            &PROGRAM_ID,
            &bridge_admin,
            &data,
            &mint,
            &mint_bytes(0),
            &metadata_key,
            &None,
            &OWNER,
            &[1u8; 32],
            &Vec::new(),
            &[2u8; 32],
            &Vec::new(),
            &[3u8; 32],
            &Vec::new(),
            &TOKEN_PROGRAM,
            &wrong_meta_key,
        )
        .err(),
        Some(BridgeError::UninitializedMetadata)
    );
    // An unparseable mint cannot provide the decimals.
    let stored = TokenMetadata {
        name: b"T".to_vec(),
        symbol: b"T".to_vec(),
        uri: b"t".to_vec(),
        collection: None,
    };
    assert_eq!(
        process_withdraw_ft(
            &PROGRAM_ID,
            &bridge_admin,
            &data,
            &mint,
            &vec![0u8; 82],
            &metadata_key,
            &Some(stored),
            &OWNER,
            &[1u8; 32],
            &Vec::new(),
            &[2u8; 32],
            &Vec::new(),
            &[3u8; 32],
            &Vec::new(),
            &TOKEN_PROGRAM,
            &wrong_meta_key,
        )
        .err(),
        Some(BridgeError::UninitializedMint)
    );
}

#[test]
fn collection_metadata_overrides_the_leaf() {
    let (seeds, bridge_admin) = admin_setup();
    let (commission_program, _) = commission_setup(&bridge_admin);
    let data = admin_data(&commission_program);
    let mint = [41u8; 32];
    let collection = [42u8; 32];
    let metadata_key = metadata_account_address(&mint);
    let collection_metadata_key = metadata_account_address(&collection);
    let bridge_ata = associated_token_address(&bridge_admin, &mint);
    let owner_ata = associated_token_address(&OWNER, &mint);
    let token_meta = TokenMetadata {
        name: b"Piece 7\0".to_vec(),
        symbol: b"PCE\0".to_vec(),
        uri: b"https://example.test/piece7".to_vec(),
        collection: Some(collection),
    };
    let collection_meta = TokenMetadata {
        name: b"Gallery\0\0".to_vec(),
        symbol: b"GAL\0".to_vec(),
        uri: b"https://example.test/gallery".to_vec(),
        collection: None,
    };
    let origin = [6u8; 32];
    let withdraw_key = find_single_seed_pda(&origin, &PROGRAM_ID);

    // A signature over the token's own name and symbol is not the root the
    // collection rule hashes, so it recovers another key.
    let wrong_leaf = nft_leaf(
        &mint,
        Some(&collection),
        b"Piece 7",
        b"PCE",
        b"https://example.test/piece7",
        &origin,
        &OWNER,
    );
    let (signature, recovery_id) = sign(&wrong_leaf);
    let wrong = WithdrawArgs {
        origin,
        amount: 1,
        signature,
        recovery_id,
        path: Vec::new(),
        seeds,
        token_seed: None,
        signed_meta: None,
    };
    let r = process_withdraw_nft(
        &PROGRAM_ID,
        &bridge_admin,
        &data,
        &mint,
        &mint_bytes(0),
        &metadata_key,
        &Some(TokenMetadata {
            name: token_meta.name.clone(),
            symbol: token_meta.symbol.clone(),
            uri: token_meta.uri.clone(),
            collection: token_meta.collection,
        }),
        &collection_metadata_key,
        &Some(TokenMetadata {
            name: collection_meta.name.clone(),
            symbol: collection_meta.symbol.clone(),
            uri: collection_meta.uri.clone(),
            collection: None,
        }),
        &OWNER,
        &owner_ata,
        &token_account_bytes(1),
        &bridge_ata,
        &token_account_bytes(1),
        &withdraw_key,
        &Vec::new(),
        &TOKEN_PROGRAM,
        &wrong,
    );
    assert_eq!(r.err(), Some(BridgeError::WrongSignature));

    // The leaf must carry the collection's name and symbol with the token's
    // own URI.
    let right_leaf = nft_leaf(
        &mint,
        Some(&collection),
        b"Gallery",
        b"GAL",
        b"https://example.test/piece7",
        &origin,
        &OWNER,
    );
    let (signature, recovery_id) = sign(&right_leaf);
    let right = WithdrawArgs { signature, recovery_id, ..wrong };
    let (receipt, actions) = process_withdraw_nft(
        &PROGRAM_ID,
        &bridge_admin,
        &data,
        &mint,
        &mint_bytes(0),
        &metadata_key,
        &Some(token_meta),
        &collection_metadata_key,
        &Some(collection_meta),
        &OWNER,
        &owner_ata,
        &token_account_bytes(1),
        &bridge_ata,
        &token_account_bytes(1),
        &withdraw_key,
        &Vec::new(),
        &TOKEN_PROGRAM,
        &right,
    )
    .expect("the collection-named leaf must verify");
    assert_eq!(receipt.token_type, TokenType::NFT);
    assert_eq!(receipt.amount, 1);
    // The bridge already holds one unit: only the transfer and the receipt.
    assert_eq!(actions.len(), 2);
    assert!(
        matches!(&actions[0], BridgeAction::TransferTokens { amount, .. } if *amount == 1)
    );
}
