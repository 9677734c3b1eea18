//! The bridge state machine: one pure decision function per instruction.
//!
//! Each processor takes the instruction's decoded arguments and the values
//! the ledger presents (account addresses, account data, balances, and the
//! transaction's preceding instruction), decides, and returns the new record
//! to store together with the list of token movements to perform, or the
//! error that aborts the instruction. The caller performs the movements by
//! nested invocation and writes the record; everything the bridge decides is
//! here.

use vstd::prelude::*;
use crate::bridge_admin_seeds_spec;
use crate::codec::view_opt_key;
use crate::commission::instruction::CommissionInstruction;
use crate::commission::instruction::CommissionInstructionView;
use crate::commission::instruction::dec_commission_instruction;
use crate::error::BridgeError;
use crate::pda::associated_token_address;
use crate::pda::associated_token_address_spec;
use crate::pda::found_pda;
use crate::pda::metadata_account_spec;
use crate::pda::pda_address;
use crate::state::BridgeAdmin;
use crate::state::BridgeAdminView;
use crate::state::TokenType;
use crate::state::dec_bridge_admin;

verus! {

/// One effect a processor asks the caller to perform by nested invocation.
pub enum BridgeAction {
    /// Create a program-owned account; `seeds` are the program's signing
    /// seeds where the address is program-derived, without the bump byte.
    CreateAccount { address: [u8; 32], size: u64, owner: [u8; 32], seeds: Vec<Vec<u8>> },
    /// Move native units by a system transfer signed by `from`.
    TransferNative { from: [u8; 32], to: [u8; 32], amount: u64 },
    /// Move native units between program-owned accounts by direct balance
    /// adjustment.
    MoveLamports { from: [u8; 32], to: [u8; 32], amount: u64 },
    /// Transfer tokens between token accounts.
    TransferTokens { source: [u8; 32], destination: [u8; 32], authority: [u8; 32], amount: u64 },
    /// Burn tokens from a token account.
    BurnTokens { account: [u8; 32], mint: [u8; 32], authority: [u8; 32], amount: u64 },
    /// Mint new tokens to a token account.
    MintTokens { mint: [u8; 32], destination: [u8; 32], authority: [u8; 32], amount: u64 },
    /// Initialize a fresh mint account.
    InitializeMint { mint: [u8; 32], authority: [u8; 32], decimals: u8 },
    /// Create the canonical associated token account of `wallet` for `mint`.
    CreateAssociatedAccount { payer: [u8; 32], wallet: [u8; 32], mint: [u8; 32] },
    /// Create the metadata record of `mint`.
    CreateMetadata {
        metadata: [u8; 32],
        mint: [u8; 32],
        authority: [u8; 32],
        payer: [u8; 32],
        name: Vec<u8>,
        symbol: Vec<u8>,
        uri: Vec<u8>,
    },
    /// Replace a program's code with the contents of a staged buffer.
    UpgradeProgram { program: [u8; 32], buffer: [u8; 32], spill: [u8; 32], authority: [u8; 32] },
}

/// The mathematical value of one effect.
pub enum BridgeActionView {
    CreateAccount { address: Seq<u8>, size: u64, owner: Seq<u8>, seeds: Seq<Seq<u8>> },
    TransferNative { from: Seq<u8>, to: Seq<u8>, amount: u64 },
    MoveLamports { from: Seq<u8>, to: Seq<u8>, amount: u64 },
    TransferTokens { source: Seq<u8>, destination: Seq<u8>, authority: Seq<u8>, amount: u64 },
    BurnTokens { account: Seq<u8>, mint: Seq<u8>, authority: Seq<u8>, amount: u64 },
    MintTokens { mint: Seq<u8>, destination: Seq<u8>, authority: Seq<u8>, amount: u64 },
    InitializeMint { mint: Seq<u8>, authority: Seq<u8>, decimals: u8 },
    CreateAssociatedAccount { payer: Seq<u8>, wallet: Seq<u8>, mint: Seq<u8> },
    CreateMetadata {
        metadata: Seq<u8>,
        mint: Seq<u8>,
        authority: Seq<u8>,
        payer: Seq<u8>,
        name: Seq<u8>,
        symbol: Seq<u8>,
        uri: Seq<u8>,
    },
    UpgradeProgram { program: Seq<u8>, buffer: Seq<u8>, spill: Seq<u8>, authority: Seq<u8> },
}

impl View for BridgeAction {
    type V = BridgeActionView;

    open spec fn view(&self) -> BridgeActionView {
        match self {
            BridgeAction::CreateAccount { address, size, owner, seeds } => {
                BridgeActionView::CreateAccount {
                    address: address@,
                    size: *size,
                    owner: owner@,
                    seeds: seeds.deep_view(),
                }
            },
            BridgeAction::TransferNative { from, to, amount } => BridgeActionView::TransferNative {
                from: from@,
                to: to@,
                amount: *amount,
            },
            BridgeAction::MoveLamports { from, to, amount } => BridgeActionView::MoveLamports {
                from: from@,
                to: to@,
                amount: *amount,
            },
            BridgeAction::TransferTokens { source, destination, authority, amount } => {
                BridgeActionView::TransferTokens {
                    source: source@,
                    destination: destination@,
                    authority: authority@,
                    amount: *amount,
                }
            },
            BridgeAction::BurnTokens { account, mint, authority, amount } => {
                BridgeActionView::BurnTokens {
                    account: account@,
                    mint: mint@,
                    authority: authority@,
                    amount: *amount,
                }
            },
            BridgeAction::MintTokens { mint, destination, authority, amount } => {
                BridgeActionView::MintTokens {
                    mint: mint@,
                    destination: destination@,
                    authority: authority@,
                    amount: *amount,
                }
            },
            BridgeAction::InitializeMint { mint, authority, decimals } => {
                BridgeActionView::InitializeMint {
                    mint: mint@,
                    authority: authority@,
                    decimals: *decimals,
                }
            },
            BridgeAction::CreateAssociatedAccount { payer, wallet, mint } => {
                BridgeActionView::CreateAssociatedAccount {
                    payer: payer@,
                    wallet: wallet@,
                    mint: mint@,
                }
            },
            BridgeAction::CreateMetadata { metadata, mint, authority, payer, name, symbol, uri } => {
                BridgeActionView::CreateMetadata {
                    metadata: metadata@,
                    mint: mint@,
                    authority: authority@,
                    payer: payer@,
                    name: name@,
                    symbol: symbol@,
                    uri: uri@,
                }
            },
            BridgeAction::UpgradeProgram { program, buffer, spill, authority } => {
                BridgeActionView::UpgradeProgram {
                    program: program@,
                    buffer: buffer@,
                    spill: spill@,
                    authority: authority@,
                }
            },
        }
    }
}

/// The view of an action list.
pub open spec fn view_actions(v: Seq<BridgeAction>) -> Seq<BridgeActionView> {
    Seq::new(v.len(), |i: int| v[i]@)
}

/// What a deposit reads of the instruction that precedes it in the same
/// transaction: the program invoked, the first account handed to it, and its
/// payload bytes.
pub struct PrevInstruction {
    pub program_id: [u8; 32],
    pub first_account: Option<[u8; 32]>,
    pub data: Vec<u8>,
}

pub struct PrevInstructionView {
    pub program_id: Seq<u8>,
    pub first_account: Option<Seq<u8>>,
    pub data: Seq<u8>,
}

impl View for PrevInstruction {
    type V = PrevInstructionView;

    open spec fn view(&self) -> PrevInstructionView {
        PrevInstructionView {
            program_id: self.program_id@,
            first_account: view_opt_key(self.first_account),
            data: self.data@,
        }
    }
}

// ===== shared guards =====

/// The bridge admin record held in account bytes, where the bytes hold one.
pub open spec fn stored_admin(data: Seq<u8>) -> Option<BridgeAdminView> {
    match dec_bridge_admin(data, 0) {
        Some((a, _)) => Some(a),
        None => None,
    }
}

/// Whether account bytes hold an initialized bridge admin record.
pub open spec fn admin_ready(data: Seq<u8>) -> bool {
    stored_admin(data) matches Some(a) && a.is_initialized
}

/// Whether the presented admin account is the program-derived address of the
/// given seeds: the first requirement of every bridge operation.
pub open spec fn bridge_admin_pda_ok(
    seeds: Seq<u8>,
    program_id: Seq<u8>,
    admin_key: Seq<u8>,
) -> bool {
    pda_address(bridge_admin_seeds_spec(seeds), program_id) == Some(admin_key)
}

/// Reads the admin account: the record, or `NotInitialized` where the bytes
/// hold none or an uninitialized one.
pub fn load_ready_admin(data: &Vec<u8>) -> (r: Result<BridgeAdmin, BridgeError>)
    ensures
        r matches Ok(a) ==> stored_admin(data@) == Some(a@) && a@.is_initialized,
        r is Err ==> r == Err::<BridgeAdmin, BridgeError>(BridgeError::NotInitialized) && !admin_ready(data@),
        admin_ready(data@) ==> r is Ok,
{
    match crate::state::unpack_bridge_admin(data) {
        Some(a) => {
            if a.is_initialized {
                Ok(a)
            } else {
                Err(BridgeError::NotInitialized)
            }
        },
        None => Err(BridgeError::NotInitialized),
    }
}

// ===== token-account parsing =====

/// Whether bytes hold an initialized token mint in the host token standard's
/// layout: 82 bytes; a four-byte optional-authority tag of zero or one at the
/// head and at byte 46; the initialization byte at 45 set to one.
pub open spec fn mint_parse_ok(data: Seq<u8>) -> bool {
    &&& data.len() == 82
    &&& (data[0] == 0 || data[0] == 1)
    &&& data[1] == 0
    &&& data[2] == 0
    &&& data[3] == 0
    &&& data[45] == 1
    &&& (data[46] == 0 || data[46] == 1)
    &&& data[47] == 0
    &&& data[48] == 0
    &&& data[49] == 0
}

/// Reads the decimals byte of a stored mint (byte 44 of the 82-byte layout).
pub fn parse_mint_decimals(data: &Vec<u8>) -> (r: Result<u8, BridgeError>)
    ensures
        r is Ok <==> mint_parse_ok(data@),
        r matches Ok(d) ==> d == data@[44],
        r is Err ==> r == Err::<u8, BridgeError>(BridgeError::UninitializedMint),
{
    if data.len() == 82 && (data[0] == 0 || data[0] == 1) && data[1] == 0 && data[2] == 0 && data[3]
        == 0 && data[45] == 1 && (data[46] == 0 || data[46] == 1) && data[47] == 0 && data[48] == 0
        && data[49] == 0 {
        Ok(data[44])
    } else {
        Err(BridgeError::UninitializedMint)
    }
}

/// Whether bytes hold an initialized token account in the host token
/// standard's layout: 165 bytes; a four-byte optional-delegate tag at byte
/// 72; the state byte at 108 set to initialized or frozen; a four-byte
/// optional-native tag at byte 109.
pub open spec fn token_account_parse_ok(data: Seq<u8>) -> bool {
    &&& data.len() == 165
    &&& (data[72] == 0 || data[72] == 1)
    &&& data[73] == 0
    &&& data[74] == 0
    &&& data[75] == 0
    &&& (data[108] == 1 || data[108] == 2)
    &&& (data[109] == 0 || data[109] == 1)
    &&& data[110] == 0
    &&& data[111] == 0
    &&& data[112] == 0
}

/// The token balance held in a stored token account: the little-endian
/// amount at bytes 64 to 71.
pub open spec fn token_account_amount_spec(data: Seq<u8>) -> u64 {
    vstd::bytes::spec_u64_from_le_bytes(data.subrange(64, 72))
}

/// Reads the balance of a stored token account.
pub fn parse_token_account_amount(data: &Vec<u8>) -> (r: Result<u64, BridgeError>)
    ensures
        r is Ok <==> token_account_parse_ok(data@),
        r matches Ok(a) ==> a == token_account_amount_spec(data@),
        r is Err ==> r == Err::<u64, BridgeError>(BridgeError::WrongTokenAccount),
{
    if data.len() == 165 && (data[72] == 0 || data[72] == 1) && data[73] == 0 && data[74] == 0
        && data[75] == 0 && (data[108] == 1 || data[108] == 2) && (data[109] == 0 || data[109] == 1)
        && data[110] == 0 && data[111] == 0 && data[112] == 0 {
        let sub = vstd::slice::slice_subrange(data.as_slice(), 64, 72);
        Ok(vstd::bytes::u64_from_le_bytes(sub))
    } else {
        Err(BridgeError::WrongTokenAccount)
    }
}

// ===== the deposit/charge coupling =====

/// Whether the preceding instruction is a commission charge whose deposit
/// kind and amount match the current deposit.
pub open spec fn charge_arguments_match(
    data: Seq<u8>,
    token: TokenType,
    amount: u64,
) -> bool {
    dec_commission_instruction(data, 0) matches Some(
        (CommissionInstructionView::ChargeCommission(a), end),
    ) && end == data.len() && a.deposit_token == token && a.deposit_token_amount == amount
}

/// The exact outcome of the deposit/charge coupling check: nothing where the
/// preceding instruction is a matching charge; otherwise which requirement
/// failed first.
pub open spec fn charge_error_of(
    bridge_admin_key: Seq<u8>,
    admin: BridgeAdminView,
    prev: PrevInstructionView,
    token: TokenType,
    amount: u64,
) -> Option<BridgeError> {
    if prev.program_id != admin.commission_program {
        Some(BridgeError::WrongCommissionProgram)
    } else if !(pda_address(
        crate::commission_admin_seeds_spec(bridge_admin_key),
        admin.commission_program,
    ) matches Some(k) && prev.first_account == Some(k)) {
        Some(BridgeError::WrongCommissionAccount)
    } else if !charge_arguments_match(prev.data, token, amount) {
        Some(BridgeError::WrongCommissionArguments)
    } else {
        None
    }
}

/// Checks that the instruction preceding a deposit charged a matching
/// commission: it must invoke the stored commission program, hand it the
/// commission admin derived from this bridge admin, and carry a charge for
/// exactly this deposit kind and amount.
pub fn verify_commission_charged(
    bridge_admin_key: &[u8; 32],
    admin: &BridgeAdmin,
    prev: &PrevInstruction,
    token: TokenType,
    amount: u64,
) -> (r: Result<(), BridgeError>)
    ensures
        r == Err::<(), BridgeError>(BridgeError::WrongCommissionProgram) <==> prev.program_id@
            != admin.commission_program@,
        r == Err::<(), BridgeError>(BridgeError::WrongCommissionAccount) <==> (prev.program_id@
            == admin.commission_program@ && !(pda_address(
            crate::commission_admin_seeds_spec(bridge_admin_key@),
            admin.commission_program@,
        ) matches Some(k) && prev@.first_account == Some(k))),
        r == Err::<(), BridgeError>(BridgeError::WrongCommissionArguments) <==> (prev.program_id@
            == admin.commission_program@ && (pda_address(
            crate::commission_admin_seeds_spec(bridge_admin_key@),
            admin.commission_program@,
        ) matches Some(k) && prev@.first_account == Some(k)) && !charge_arguments_match(
            prev.data@,
            token,
            amount,
        )),
        r is Ok <==> (prev.program_id@ == admin.commission_program@ && (pda_address(
            crate::commission_admin_seeds_spec(bridge_admin_key@),
            admin.commission_program@,
        ) matches Some(k) && prev@.first_account == Some(k)) && charge_arguments_match(
            prev.data@,
            token,
            amount,
        )),
        r == (match charge_error_of(bridge_admin_key@, admin@, prev@, token, amount) {
            None => Ok::<(), BridgeError>(()),
            Some(e) => Err(e),
        }),
{
    if !crate::codec::bytes_equal(prev.program_id.as_slice(), admin.commission_program.as_slice()) {
        return Err(BridgeError::WrongCommissionProgram);
    }
    let commission_key = match crate::derive_commission_admin_address(
        bridge_admin_key,
        &admin.commission_program,
    ) {
        Some(k) => k,
        None => {
            return Err(BridgeError::WrongCommissionAccount);
        },
    };
    match &prev.first_account {
        Some(first) => {
            if !crate::codec::bytes_equal(first.as_slice(), commission_key.as_slice()) {
                return Err(BridgeError::WrongCommissionAccount);
            }
        },
        None => {
            return Err(BridgeError::WrongCommissionAccount);
        },
    }
    match CommissionInstruction::unpack(&prev.data) {
        Some(instr) => {
            match instr {
                CommissionInstruction::ChargeCommission(args) => {
                    let kind_matches = match (args.deposit_token, token) {
                        (TokenType::Native, TokenType::Native) => true,
                        (TokenType::NFT, TokenType::NFT) => true,
                        (TokenType::FT, TokenType::FT) => true,
                        _ => false,
                    };
                    if kind_matches && args.deposit_token_amount == amount {
                        Ok(())
                    } else {
                        Err(BridgeError::WrongCommissionArguments)
                    }
                },
                _ => Err(BridgeError::WrongCommissionArguments),
            }
        },
        None => Err(BridgeError::WrongCommissionArguments),
    }
}

// ===== admin lifecycle =====

/// Creates the bridge admin: checks that the presented account is the
/// program-derived address of `seeds` and is not yet initialized, and returns
/// the record to store together with the account creation to perform.
pub fn process_init_admin(
    program_id: &[u8; 32],
    bridge_admin_key: &[u8; 32],
    bridge_admin_data: &Vec<u8>,
    seeds: &[u8; 32],
    public_key: &[u8; 33],
    commission_program: &[u8; 32],
) -> (r: Result<(BridgeAdmin, Vec<BridgeAction>), BridgeError>)
    ensures
        r == Err::<(BridgeAdmin, Vec<BridgeAction>), BridgeError>(BridgeError::WrongSeeds)
            <==> !bridge_admin_pda_ok(seeds@, program_id@, bridge_admin_key@),
        r == Err::<(BridgeAdmin, Vec<BridgeAction>), BridgeError>(BridgeError::AlreadyInUse)
            <==> (bridge_admin_pda_ok(seeds@, program_id@, bridge_admin_key@) && admin_ready(
            bridge_admin_data@,
        )),
        r is Ok <==> (bridge_admin_pda_ok(seeds@, program_id@, bridge_admin_key@) && !admin_ready(
            bridge_admin_data@,
        )),
        r matches Ok((admin, actions)) ==> admin@ == (BridgeAdminView {
            public_key: public_key@,
            commission_program: commission_program@,
            is_initialized: true,
        }) && view_actions(actions@) =~= seq![
            BridgeActionView::CreateAccount {
                address: bridge_admin_key@,
                size: crate::state::BRIDGE_ADMIN_SIZE as u64,
                owner: program_id@,
                seeds: bridge_admin_seeds_spec(seeds@),
            },
        ],
{
    match crate::derive_bridge_admin_address(seeds, program_id) {
        Some(derived) => {
            if !crate::codec::bytes_equal(derived.as_slice(), bridge_admin_key.as_slice()) {
                return Err(BridgeError::WrongSeeds);
            }
        },
        None => {
            return Err(BridgeError::WrongSeeds);
        },
    }
    match crate::state::unpack_bridge_admin(bridge_admin_data) {
        Some(stored) => {
            if stored.is_initialized {
                return Err(BridgeError::AlreadyInUse);
            }
        },
        None => {
        },
    }
    let admin = BridgeAdmin {
        public_key: *public_key,
        commission_program: *commission_program,
        is_initialized: true,
    };
    let mut seed_list: Vec<Vec<u8>> = Vec::new();
    let mut seed: Vec<u8> = Vec::new();
    crate::codec::write_arr(&mut seed, seeds.as_slice());
    seed_list.push(seed);
    proof {
        assert(seed_list.deep_view() =~~= bridge_admin_seeds_spec(seeds@));
    }
    let mut actions: Vec<BridgeAction> = Vec::new();
    actions.push(
        BridgeAction::CreateAccount {
            address: *bridge_admin_key,
            size: crate::state::BRIDGE_ADMIN_SIZE as u64,
            owner: *program_id,
            seeds: seed_list,
        },
    );
    proof {
        assert(view_actions(actions@) =~= seq![
            BridgeActionView::CreateAccount {
                address: bridge_admin_key@,
                size: crate::state::BRIDGE_ADMIN_SIZE as u64,
                owner: program_id@,
                seeds: bridge_admin_seeds_spec(seeds@),
            },
        ]);
    }
    Ok((admin, actions))
}

/// Rotates the operator key: the new key must be signed by the stored one,
/// over its own raw bytes.
pub fn process_transfer_ownership(
    program_id: &[u8; 32],
    bridge_admin_key: &[u8; 32],
    bridge_admin_data: &Vec<u8>,
    seeds: &[u8; 32],
    new_public_key: &[u8; 33],
    signature: &[u8; 64],
    recovery_id: u8,
) -> (r: Result<BridgeAdmin, BridgeError>)
    ensures
        r == Err::<BridgeAdmin, BridgeError>(BridgeError::WrongSeeds) <==> !bridge_admin_pda_ok(
            seeds@,
            program_id@,
            bridge_admin_key@,
        ),
        r == Err::<BridgeAdmin, BridgeError>(BridgeError::NotInitialized) <==> (
        bridge_admin_pda_ok(seeds@, program_id@, bridge_admin_key@) && !admin_ready(
            bridge_admin_data@,
        )),
        (bridge_admin_pda_ok(seeds@, program_id@, bridge_admin_key@) && admin_ready(
            bridge_admin_data@,
        )) ==> ({
            let admin = stored_admin(bridge_admin_data@)->Some_0;
            let err = crate::crypto::signature_error_of(
                new_public_key@,
                signature@,
                recovery_id,
                admin.public_key,
            );
            &&& (r is Ok <==> err is None)
            &&& (r matches Ok(a) ==> a@ == (BridgeAdminView {
                public_key: new_public_key@,
                ..admin
            }))
            &&& (r is Err ==> Some(r->Err_0) == err)
        }),
{
    match crate::derive_bridge_admin_address(seeds, program_id) {
        Some(derived) => {
            if !crate::codec::bytes_equal(derived.as_slice(), bridge_admin_key.as_slice()) {
                return Err(BridgeError::WrongSeeds);
            }
        },
        None => {
            return Err(BridgeError::WrongSeeds);
        },
    }
    let mut admin = match load_ready_admin(bridge_admin_data) {
        Ok(a) => a,
        Err(e) => {
            return Err(e);
        },
    };
    let mut message: Vec<u8> = Vec::new();
    crate::codec::write_arr(&mut message, new_public_key.as_slice());
    match crate::crypto::verify_ecdsa_signature(
        &message,
        signature,
        recovery_id,
        &admin.public_key,
    ) {
        Ok(()) => {
            admin.public_key = *new_public_key;
            Ok(admin)
        },
        Err(e) => Err(e),
    }
}

// ===== deposits =====

/// Ingests a native-coin deposit: with a matching commission charge in the
/// same transaction, the deposit's amount moves from the owner to the bridge
/// admin. No record is written; the external chain observes the transaction.
pub fn process_deposit_native(
    program_id: &[u8; 32],
    bridge_admin_key: &[u8; 32],
    bridge_admin_data: &Vec<u8>,
    owner_key: &[u8; 32],
    prev: &PrevInstruction,
    args: &crate::instruction::DepositNativeArgs,
) -> (r: Result<Vec<BridgeAction>, BridgeError>)
    ensures
        r == Err::<Vec<BridgeAction>, BridgeError>(BridgeError::WrongArgsSize) <==> !args@.valid(),
        args@.valid() ==> (r == Err::<Vec<BridgeAction>, BridgeError>(BridgeError::WrongSeeds)
            <==> !bridge_admin_pda_ok(args.seeds@, program_id@, bridge_admin_key@)),
        args@.valid() ==> (r == Err::<Vec<BridgeAction>, BridgeError>(BridgeError::NotInitialized)
            <==> (bridge_admin_pda_ok(args.seeds@, program_id@, bridge_admin_key@) && !admin_ready(
            bridge_admin_data@,
        ))),
        (args@.valid() && bridge_admin_pda_ok(args.seeds@, program_id@, bridge_admin_key@)
            && admin_ready(bridge_admin_data@)) ==> ({
            let admin = stored_admin(bridge_admin_data@)->Some_0;
            &&& (r is Err ==> Some(r->Err_0) == charge_error_of(
                bridge_admin_key@,
                admin,
                prev@,
                TokenType::Native,
                args.amount,
            ))
            &&& (r is Ok <==> charge_error_of(
                bridge_admin_key@,
                admin,
                prev@,
                TokenType::Native,
                args.amount,
            ) is None)
            &&& (r matches Ok(actions) ==> view_actions(actions@) =~= seq![
                BridgeActionView::TransferNative {
                    from: owner_key@,
                    to: bridge_admin_key@,
                    amount: args.amount,
                },
            ])
        }),
{
    if let Err(e) = args.validate() {
        return Err(e);
    }
    match crate::derive_bridge_admin_address(&args.seeds, program_id) {
        Some(derived) => {
            if !crate::codec::bytes_equal(derived.as_slice(), bridge_admin_key.as_slice()) {
                return Err(BridgeError::WrongSeeds);
            }
        },
        None => {
            return Err(BridgeError::WrongSeeds);
        },
    }
    let admin = match load_ready_admin(bridge_admin_data) {
        Ok(a) => a,
        Err(e) => {
            return Err(e);
        },
    };
    if let Err(e) = verify_commission_charged(
        bridge_admin_key,
        &admin,
        prev,
        TokenType::Native,
        args.amount,
    ) {
        return Err(e);
    }
    let mut actions: Vec<BridgeAction> = Vec::new();
    actions.push(
        BridgeAction::TransferNative {
            from: *owner_key,
            to: *bridge_admin_key,
            amount: args.amount,
        },
    );
    proof {
        assert(view_actions(actions@) =~= seq![
            BridgeActionView::TransferNative {
                from: owner_key@,
                to: bridge_admin_key@,
                amount: args.amount,
            },
        ]);
    }
    Ok(actions)
}

/// Derives the program address found for one 32-byte seed: a mirror mint's
/// address for its token seed, or a receipt's address for its origin.
pub fn find_single_seed_pda(seed: &[u8; 32], program_id: &[u8; 32]) -> (r: [u8; 32])
    ensures
        r@ == found_pda(seq![seed@], program_id@),
{
    let mut seed_list: Vec<Vec<u8>> = Vec::new();
    let mut s: Vec<u8> = Vec::new();
    crate::codec::write_arr(&mut s, seed.as_slice());
    seed_list.push(s);
    proof {
        assert(seed_list.deep_view() =~~= seq![seed@]);
    }
    crate::pda::find_pda_address(&seed_list, program_id)
}

/// The token movements of a token deposit: the bridge's associated account is
/// created where absent; a mirror deposit burns the owner's tokens, any other
/// deposit transfers them to the bridge.
pub open spec fn deposit_token_actions(
    bridge_ata_empty: bool,
    owner_key: Seq<u8>,
    bridge_admin_key: Seq<u8>,
    mint_key: Seq<u8>,
    owner_associated_key: Seq<u8>,
    bridge_associated_key: Seq<u8>,
    token_seed: Option<Seq<u8>>,
    amount: u64,
) -> Seq<BridgeActionView> {
    (if bridge_ata_empty {
        seq![
            BridgeActionView::CreateAssociatedAccount {
                payer: owner_key,
                wallet: bridge_admin_key,
                mint: mint_key,
            },
        ]
    } else {
        Seq::<BridgeActionView>::empty()
    }) + (match token_seed {
        Some(_) => seq![
            BridgeActionView::BurnTokens {
                account: owner_associated_key,
                mint: mint_key,
                authority: owner_key,
                amount: amount,
            },
        ],
        None => seq![
            BridgeActionView::TransferTokens {
                source: owner_associated_key,
                destination: bridge_associated_key,
                authority: owner_key,
                amount: amount,
            },
        ],
    })
}

/// The exact outcome of a token deposit, for both fungible and non-fungible
/// kinds: the guard that fails first names the error; otherwise the token
/// movements to perform.
pub open spec fn deposit_token_outcome(
    program_id: Seq<u8>,
    bridge_admin_key: Seq<u8>,
    bridge_admin_data: Seq<u8>,
    mint_key: Seq<u8>,
    owner_associated_key: Seq<u8>,
    bridge_associated_key: Seq<u8>,
    bridge_ata_empty: bool,
    owner_key: Seq<u8>,
    prev: PrevInstructionView,
    seeds: Seq<u8>,
    token_seed: Option<Seq<u8>>,
    kind: TokenType,
    amount: u64,
) -> Result<Seq<BridgeActionView>, BridgeError> {
    if !bridge_admin_pda_ok(seeds, program_id, bridge_admin_key) {
        Err(BridgeError::WrongSeeds)
    } else if !admin_ready(bridge_admin_data) {
        Err(BridgeError::NotInitialized)
    } else {
        let admin = stored_admin(bridge_admin_data)->Some_0;
        match charge_error_of(bridge_admin_key, admin, prev, kind, amount) {
            Some(e) => Err(e),
            None => {
                if bridge_associated_key != associated_token_address_spec(
                    bridge_admin_key,
                    mint_key,
                ) {
                    Err(BridgeError::WrongTokenAccount)
                } else if (token_seed matches Some(ts) && found_pda(seq![ts], program_id)
                    != mint_key) {
                    Err(BridgeError::WrongTokenSeed)
                } else {
                    Ok(
                        deposit_token_actions(
                            bridge_ata_empty,
                            owner_key,
                            bridge_admin_key,
                            mint_key,
                            owner_associated_key,
                            bridge_associated_key,
                            token_seed,
                            amount,
                        ),
                    )
                }
            },
        }
    }
}

/// The shared body of the two token deposits.
fn deposit_token_core(
    program_id: &[u8; 32],
    bridge_admin_key: &[u8; 32],
    bridge_admin_data: &Vec<u8>,
    mint_key: &[u8; 32],
    owner_associated_key: &[u8; 32],
    bridge_associated_key: &[u8; 32],
    bridge_associated_data: &Vec<u8>,
    owner_key: &[u8; 32],
    prev: &PrevInstruction,
    seeds: &[u8; 32],
    token_seed: &Option<[u8; 32]>,
    kind: TokenType,
    amount: u64,
) -> (r: Result<Vec<BridgeAction>, BridgeError>)
    ensures
        ({
            let o = deposit_token_outcome(
                program_id@,
                bridge_admin_key@,
                bridge_admin_data@,
                mint_key@,
                owner_associated_key@,
                bridge_associated_key@,
                bridge_associated_data@.len() == 0,
                owner_key@,
                prev@,
                seeds@,
                view_opt_key(*token_seed),
                kind,
                amount,
            );
            match r {
                Ok(actions) => o == Ok::<Seq<BridgeActionView>, BridgeError>(
                    view_actions(actions@),
                ),
                Err(e) => o == Err::<Seq<BridgeActionView>, BridgeError>(e),
            }
        }),
{
    match crate::derive_bridge_admin_address(seeds, program_id) {
        Some(derived) => {
            if !crate::codec::bytes_equal(derived.as_slice(), bridge_admin_key.as_slice()) {
                return Err(BridgeError::WrongSeeds);
            }
        },
        None => {
            return Err(BridgeError::WrongSeeds);
        },
    }
    let admin = match load_ready_admin(bridge_admin_data) {
        Ok(a) => a,
        Err(e) => {
            return Err(e);
        },
    };
    if let Err(e) = verify_commission_charged(bridge_admin_key, &admin, prev, kind, amount) {
        return Err(e);
    }
    let expected_ata = associated_token_address(bridge_admin_key, mint_key);
    if !crate::codec::bytes_equal(bridge_associated_key.as_slice(), expected_ata.as_slice()) {
        return Err(BridgeError::WrongTokenAccount);
    }
    let mut actions: Vec<BridgeAction> = Vec::new();
    if bridge_associated_data.len() == 0 {
        actions.push(
            BridgeAction::CreateAssociatedAccount {
                payer: *owner_key,
                wallet: *bridge_admin_key,
                mint: *mint_key,
            },
        );
    }
    match token_seed {
        Some(ts) => {
            let mint_pda = find_single_seed_pda(ts, program_id);
            if !crate::codec::bytes_equal(mint_pda.as_slice(), mint_key.as_slice()) {
                return Err(BridgeError::WrongTokenSeed);
            }
            actions.push(
                BridgeAction::BurnTokens {
                    account: *owner_associated_key,
                    mint: *mint_key,
                    authority: *owner_key,
                    amount: amount,
                },
            );
        },
        None => {
            actions.push(
                BridgeAction::TransferTokens {
                    source: *owner_associated_key,
                    destination: *bridge_associated_key,
                    authority: *owner_key,
                    amount: amount,
                },
            );
        },
    }
    proof {
        assert(view_actions(actions@) =~= deposit_token_actions(
            bridge_associated_data@.len() == 0,
            owner_key@,
            bridge_admin_key@,
            mint_key@,
            owner_associated_key@,
            bridge_associated_key@,
            view_opt_key(*token_seed),
            amount,
        ));
    }
    Ok(actions)
}

/// Ingests a fungible-token deposit: with a matching commission charge, a
/// bridge-minted mirror is burned from the owner, any other token is
/// transferred to the bridge's associated account, created first where
/// absent.
pub fn process_deposit_ft(
    program_id: &[u8; 32],
    bridge_admin_key: &[u8; 32],
    bridge_admin_data: &Vec<u8>,
    mint_key: &[u8; 32],
    owner_associated_key: &[u8; 32],
    bridge_associated_key: &[u8; 32],
    bridge_associated_data: &Vec<u8>,
    owner_key: &[u8; 32],
    prev: &PrevInstruction,
    args: &crate::instruction::DepositFTArgs,
) -> (r: Result<Vec<BridgeAction>, BridgeError>)
    ensures
        r == Err::<Vec<BridgeAction>, BridgeError>(BridgeError::WrongArgsSize) <==> !args@.valid(),
        args@.valid() ==> ({
            let o = deposit_token_outcome(
                program_id@,
                bridge_admin_key@,
                bridge_admin_data@,
                mint_key@,
                owner_associated_key@,
                bridge_associated_key@,
                bridge_associated_data@.len() == 0,
                owner_key@,
                prev@,
                args.seeds@,
                view_opt_key(args.token_seed),
                TokenType::FT,
                args.amount,
            );
            match r {
                Ok(actions) => o == Ok::<Seq<BridgeActionView>, BridgeError>(
                    view_actions(actions@),
                ),
                Err(e) => o == Err::<Seq<BridgeActionView>, BridgeError>(e),
            }
        }),
{
    if let Err(e) = args.validate() {
        return Err(e);
    }
    deposit_token_core(
        program_id,
        bridge_admin_key,
        bridge_admin_data,
        mint_key,
        owner_associated_key,
        bridge_associated_key,
        bridge_associated_data,
        owner_key,
        prev,
        &args.seeds,
        &args.token_seed,
        TokenType::FT,
        args.amount,
    )
}

/// Ingests a non-fungible-token deposit: as a fungible deposit with the moved
/// amount fixed at one.
pub fn process_deposit_nft(
    program_id: &[u8; 32],
    bridge_admin_key: &[u8; 32],
    bridge_admin_data: &Vec<u8>,
    mint_key: &[u8; 32],
    owner_associated_key: &[u8; 32],
    bridge_associated_key: &[u8; 32],
    bridge_associated_data: &Vec<u8>,
    owner_key: &[u8; 32],
    prev: &PrevInstruction,
    args: &crate::instruction::DepositNFTArgs,
) -> (r: Result<Vec<BridgeAction>, BridgeError>)
    ensures
        r == Err::<Vec<BridgeAction>, BridgeError>(BridgeError::WrongArgsSize) <==> !args@.valid(),
        args@.valid() ==> ({
            let o = deposit_token_outcome(
                program_id@,
                bridge_admin_key@,
                bridge_admin_data@,
                mint_key@,
                owner_associated_key@,
                bridge_associated_key@,
                bridge_associated_data@.len() == 0,
                owner_key@,
                prev@,
                args.seeds@,
                view_opt_key(args.token_seed),
                TokenType::NFT,
                1u64,
            );
            match r {
                Ok(actions) => o == Ok::<Seq<BridgeActionView>, BridgeError>(
                    view_actions(actions@),
                ),
                Err(e) => o == Err::<Seq<BridgeActionView>, BridgeError>(e),
            }
        }),
{
    if let Err(e) = args.validate() {
        return Err(e);
    }
    deposit_token_core(
        program_id,
        bridge_admin_key,
        bridge_admin_data,
        mint_key,
        owner_associated_key,
        bridge_associated_key,
        bridge_associated_data,
        owner_key,
        prev,
        &args.seeds,
        &args.token_seed,
        TokenType::NFT,
        1,
    )
}

// ===== metadata strings =====

/// The bytes with trailing zero bytes removed.
pub open spec fn trim_trailing_zeros(s: Seq<u8>) -> Seq<u8>
    decreases s.len(),
{
    if s.len() > 0 && s.last() == 0 {
        trim_trailing_zeros(s.drop_last())
    } else {
        s
    }
}

/// The bytes with leading zero bytes removed.
pub open spec fn trim_leading_zeros(s: Seq<u8>) -> Seq<u8>
    decreases s.len(),
{
    if s.len() > 0 && s.first() == 0 {
        trim_leading_zeros(s.subrange(1, s.len() as int))
    } else {
        s
    }
}

/// Metadata strings are stored zero-padded; the canonical encoding hashes
/// them with the padding stripped from both ends.
pub open spec fn nul_trimmed(s: Seq<u8>) -> Seq<u8> {
    trim_leading_zeros(trim_trailing_zeros(s))
}

proof fn lemma_trim_trailing_range(s: Seq<u8>, end: int)
    requires
        0 <= end <= s.len(),
        forall|j: int| end <= j < s.len() ==> s[j] == 0,
        end > 0 ==> s[end - 1] != 0,
    ensures
        trim_trailing_zeros(s) == s.subrange(0, end),
    decreases s.len(),
{
    if s.len() > 0 && s.last() == 0 {
        assert(end < s.len());
        lemma_trim_trailing_range(s.drop_last(), end);
        assert(s.drop_last().subrange(0, end) =~= s.subrange(0, end));
    } else {
        assert(end == s.len());
        assert(s.subrange(0, end) =~= s);
    }
}

proof fn lemma_trim_leading_range(s: Seq<u8>, start: int)
    requires
        0 <= start <= s.len(),
        forall|j: int| 0 <= j < start ==> s[j] == 0,
        start < s.len() ==> s[start] != 0,
    ensures
        trim_leading_zeros(s) == s.subrange(start, s.len() as int),
    decreases s.len(),
{
    if s.len() > 0 && s.first() == 0 {
        assert(start > 0);
        let tail = s.subrange(1, s.len() as int);
        lemma_trim_leading_range(tail, start - 1);
        assert(tail.subrange(start - 1, tail.len() as int) =~= s.subrange(start, s.len() as int));
    } else {
        assert(start == 0);
        assert(s.subrange(0, s.len() as int) =~= s);
    }
}

/// Strips zero padding from both ends of a metadata string.
pub fn nul_trim(s: &Vec<u8>) -> (r: Vec<u8>)
    ensures
        r@ == nul_trimmed(s@),
{
    let mut end: usize = s.len();
    while end > 0 && s[end - 1] == 0
        invariant
            end <= s@.len(),
            forall|j: int| end <= j < s@.len() ==> s@[j] == 0,
        decreases end,
    {
        end = end - 1;
    }
    proof {
        lemma_trim_trailing_range(s@, end as int);
    }
    let mut start: usize = 0;
    while start < end && s[start] == 0
        invariant
            start <= end,
            end <= s@.len(),
            forall|j: int| 0 <= j < start ==> s@[j] == 0,
        decreases end - start,
    {
        start = start + 1;
    }
    proof {
        lemma_trim_leading_range(s@.subrange(0, end as int), start as int);
    }
    let mut out: Vec<u8> = Vec::new();
    let mut i: usize = start;
    while i < end
        invariant
            start <= i <= end,
            end <= s@.len(),
            out@ == s@.subrange(start as int, i as int),
        decreases end - i,
    {
        out.push(s[i]);
        i = i + 1;
        proof {
            assert(out@ =~= s@.subrange(start as int, i as int));
        }
    }
    proof {
        assert(s@.subrange(0, end as int).subrange(start as int, end as int) =~= s@.subrange(
            start as int,
            end as int,
        ));
    }
    out
}

/// The bridge's model of a mint's metadata record: the strings the canonical
/// encoding hashes, and the collection mint the record names, if any.
pub struct TokenMetadata {
    pub name: Vec<u8>,
    pub symbol: Vec<u8>,
    pub uri: Vec<u8>,
    pub collection: Option<[u8; 32]>,
}

pub struct TokenMetadataView {
    pub name: Seq<u8>,
    pub symbol: Seq<u8>,
    pub uri: Seq<u8>,
    pub collection: Option<Seq<u8>>,
}

impl View for TokenMetadata {
    type V = TokenMetadataView;

    open spec fn view(&self) -> TokenMetadataView {
        TokenMetadataView {
            name: self.name@,
            symbol: self.symbol@,
            uri: self.uri@,
            collection: view_opt_key(self.collection),
        }
    }
}

/// The view of optional metadata.
pub open spec fn view_opt_metadata(o: Option<TokenMetadata>) -> Option<TokenMetadataView> {
    match o {
        Some(m) => Some(m@),
        None => None,
    }
}

// ===== withdrawal leaves =====

/// The hash of a withdrawal leaf: the asset's operation bytes, the origin
/// fingerprint, the fixed network name, the receiver, the program identity.
pub open spec fn withdraw_leaf_hash(
    op_bytes: Seq<u8>,
    origin: Seq<u8>,
    receiver: Seq<u8>,
    program_id: Seq<u8>,
) -> Seq<u8> {
    crate::crypto::keccak256_spec(
        op_bytes + origin + crate::solana_network_spec() + receiver + program_id,
    )
}

/// Operation bytes of a native withdrawal: the padded amount alone.
pub open spec fn native_operation_bytes(amount: u64) -> Seq<u8> {
    crate::merkle::amount_bytes_spec(amount)
}

/// Operation bytes of a fungible-token withdrawal, in canonical field order.
pub open spec fn ft_operation_bytes(
    mint: Seq<u8>,
    amount: u64,
    name: Seq<u8>,
    symbol: Seq<u8>,
    uri: Seq<u8>,
    decimals: u8,
) -> Seq<u8> {
    mint + name + uri + crate::merkle::amount_bytes_spec(amount) + symbol + seq![decimals]
}

/// Operation bytes of a non-fungible-token withdrawal, in canonical field
/// order; the collection mint opens the encoding where there is one.
pub open spec fn nft_operation_bytes(
    mint: Seq<u8>,
    collection: Option<Seq<u8>>,
    name: Seq<u8>,
    symbol: Seq<u8>,
    uri: Seq<u8>,
) -> Seq<u8> {
    (match collection {
        Some(c) => c,
        None => Seq::<u8>::empty(),
    }) + name + mint + uri + symbol
}

/// The exact outcome of a native withdrawal: the guard that fails first names
/// the error; otherwise the receipt to write and the balance movements.
pub open spec fn withdraw_native_outcome(
    program_id: Seq<u8>,
    bridge_admin_key: Seq<u8>,
    bridge_admin_data: Seq<u8>,
    bridge_admin_lamports: u64,
    owner_key: Seq<u8>,
    withdraw_key: Seq<u8>,
    withdraw_data: Seq<u8>,
    args: crate::instruction::WithdrawArgsView,
) -> Result<(crate::state::WithdrawView, Seq<BridgeActionView>), BridgeError> {
    if !args.valid() {
        Err(BridgeError::WrongArgsSize)
    } else if !bridge_admin_pda_ok(args.seeds, program_id, bridge_admin_key) {
        Err(BridgeError::WrongSeeds)
    } else if !admin_ready(bridge_admin_data) {
        Err(BridgeError::NotInitialized)
    } else {
        let admin = stored_admin(bridge_admin_data)->Some_0;
        let leaf = withdraw_leaf_hash(
            native_operation_bytes(args.amount),
            args.origin,
            owner_key,
            program_id,
        );
        let root = crate::merkle::merkle_root_spec(leaf, args.path);
        match crate::crypto::signature_error_of(
            root,
            args.signature,
            args.recovery_id,
            admin.public_key,
        ) {
            Some(e) => Err(e),
            None => {
                if bridge_admin_lamports < args.amount {
                    Err(BridgeError::WrongBalance)
                } else if found_pda(seq![args.origin], program_id) != withdraw_key {
                    Err(BridgeError::WrongNonce)
                } else if crate::state::withdraw_spent(withdraw_data) {
                    Err(BridgeError::AlreadyInUse)
                } else {
                    Ok(
                        (
                            crate::state::WithdrawView {
                                token_type: TokenType::Native,
                                mint: None,
                                amount: args.amount,
                                origin: args.origin,
                                receiver_address: owner_key,
                                is_initialized: true,
                            },
                            seq![
                                BridgeActionView::CreateAccount {
                                    address: withdraw_key,
                                    size: crate::state::WITHDRAW_SIZE as u64,
                                    owner: program_id,
                                    seeds: seq![args.origin],
                                },
                                BridgeActionView::MoveLamports {
                                    from: bridge_admin_key,
                                    to: owner_key,
                                    amount: args.amount,
                                },
                            ],
                        ),
                    )
                }
            },
        }
    }
}

/// Pays out a native withdrawal authorized by an operator signature over the
/// Merkle root of its leaf, writing the replay-guard receipt at the address
/// derived from the origin.
pub fn process_withdraw_native(
    program_id: &[u8; 32],
    bridge_admin_key: &[u8; 32],
    bridge_admin_data: &Vec<u8>,
    bridge_admin_lamports: u64,
    owner_key: &[u8; 32],
    withdraw_key: &[u8; 32],
    withdraw_data: &Vec<u8>,
    args: &crate::instruction::WithdrawArgs,
) -> (r: Result<(crate::state::Withdraw, Vec<BridgeAction>), BridgeError>)
    ensures
        ({
            let o = withdraw_native_outcome(
                program_id@,
                bridge_admin_key@,
                bridge_admin_data@,
                bridge_admin_lamports,
                owner_key@,
                withdraw_key@,
                withdraw_data@,
                args@,
            );
            match r {
                Ok((rec, actions)) => o == Ok::<
                    (crate::state::WithdrawView, Seq<BridgeActionView>),
                    BridgeError,
                >((rec@, view_actions(actions@))),
                Err(e) => o == Err::<
                    (crate::state::WithdrawView, Seq<BridgeActionView>),
                    BridgeError,
                >(e),
            }
        }),
{
    if let Err(e) = args.validate() {
        return Err(e);
    }
    match crate::derive_bridge_admin_address(&args.seeds, program_id) {
        Some(derived) => {
            if !crate::codec::bytes_equal(derived.as_slice(), bridge_admin_key.as_slice()) {
                return Err(BridgeError::WrongSeeds);
            }
        },
        None => {
            return Err(BridgeError::WrongSeeds);
        },
    }
    let admin = match load_ready_admin(bridge_admin_data) {
        Ok(a) => a,
        Err(e) => {
            return Err(e);
        },
    };
    let transfer = crate::merkle::TransferData::new_native_transfer(args.amount);
    let op_bytes = crate::merkle::Data::get_operation(&transfer);
    proof {
        assert(op_bytes@ =~= native_operation_bytes(args.amount));
    }
    let content = crate::merkle::ContentNode::new(args.origin, *owner_key, *program_id, op_bytes);
    let leaf = content.hash();
    proof {
        assert(content.leaf_bytes_spec() =~= native_operation_bytes(args.amount) + args.origin@
            + crate::solana_network_spec() + owner_key@ + program_id@);
    }
    let root = crate::merkle::get_merkle_root(&leaf, &args.path);
    proof {
        assert(args.path@.map_values(|p: [u8; 32]| p@) =~~= args@.path);
    }
    let mut message: Vec<u8> = Vec::new();
    crate::codec::write_arr(&mut message, root.as_slice());
    if let Err(e) = crate::crypto::verify_ecdsa_signature(
        &message,
        &args.signature,
        args.recovery_id,
        &admin.public_key,
    ) {
        return Err(e);
    }
    if bridge_admin_lamports < args.amount {
        return Err(BridgeError::WrongBalance);
    }
    let expected_withdraw = find_single_seed_pda(&args.origin, program_id);
    if !crate::codec::bytes_equal(expected_withdraw.as_slice(), withdraw_key.as_slice()) {
        return Err(BridgeError::WrongNonce);
    }
    match crate::state::unpack_withdraw(withdraw_data) {
        Some(existing) => {
            if existing.is_initialized {
                return Err(BridgeError::AlreadyInUse);
            }
        },
        None => {
        },
    }
    let record = crate::state::Withdraw {
        token_type: TokenType::Native,
        mint: None,
        amount: args.amount,
        origin: args.origin,
        receiver_address: *owner_key,
        is_initialized: true,
    };
    let mut seed_list: Vec<Vec<u8>> = Vec::new();
    let mut origin_seed: Vec<u8> = Vec::new();
    crate::codec::write_arr(&mut origin_seed, args.origin.as_slice());
    seed_list.push(origin_seed);
    proof {
        assert(seed_list.deep_view() =~~= seq![args.origin@]);
    }
    let mut actions: Vec<BridgeAction> = Vec::new();
    actions.push(
        BridgeAction::CreateAccount {
            address: *withdraw_key,
            size: crate::state::WITHDRAW_SIZE as u64,
            owner: *program_id,
            seeds: seed_list,
        },
    );
    actions.push(
        BridgeAction::MoveLamports {
            from: *bridge_admin_key,
            to: *owner_key,
            amount: args.amount,
        },
    );
    proof {
        assert(view_actions(actions@) =~= seq![
            BridgeActionView::CreateAccount {
                address: withdraw_key@,
                size: crate::state::WITHDRAW_SIZE as u64,
                owner: program_id@,
                seeds: seq![args.origin@],
            },
            BridgeActionView::MoveLamports {
                from: bridge_admin_key@,
                to: owner_key@,
                amount: args.amount,
            },
        ]);
    }
    Ok((record, actions))
}

// ===== mirror mints =====

/// The creation steps of a bridge-minted mirror that does not exist yet: the
/// mint account at its derived address, its initialization with the signed
/// decimals and the bridge admin as mint authority, and its metadata record
/// from the signed strings.
pub open spec fn mirror_mint_actions(
    create: bool,
    mint_key: Seq<u8>,
    token_program_key: Seq<u8>,
    token_seed: Seq<u8>,
    bridge_admin_key: Seq<u8>,
    payer_key: Seq<u8>,
    metadata_key: Seq<u8>,
    signed: crate::instruction::SignedMetadataView,
) -> Seq<BridgeActionView> {
    if create {
        seq![
            BridgeActionView::CreateAccount {
                address: mint_key,
                size: 82u64,
                owner: token_program_key,
                seeds: seq![token_seed],
            },
            BridgeActionView::InitializeMint {
                mint: mint_key,
                authority: bridge_admin_key,
                decimals: signed.decimals,
            },
            BridgeActionView::CreateMetadata {
                metadata: metadata_key,
                mint: mint_key,
                authority: bridge_admin_key,
                payer: payer_key,
                name: signed.name,
                symbol: signed.symbol,
                uri: signed.uri,
            },
        ]
    } else {
        Seq::<BridgeActionView>::empty()
    }
}

/// Checks a mirror withdrawal's mint and prepares its creation where it does
/// not exist yet: the mint must live at the address derived from the token
/// seed, and the operator-signed metadata must be present.
fn try_mint_token_with_meta(
    program_id: &[u8; 32],
    bridge_admin_key: &[u8; 32],
    token_seed: &[u8; 32],
    signed_meta: &Option<crate::instruction::SignedMetadata>,
    mint_key: &[u8; 32],
    mint_data: &Vec<u8>,
    metadata_key: &[u8; 32],
    payer_key: &[u8; 32],
    token_program_key: &[u8; 32],
) -> (r: Result<(bool, Vec<BridgeAction>), BridgeError>)
    ensures
        r == Err::<(bool, Vec<BridgeAction>), BridgeError>(BridgeError::WrongTokenSeed) <==> (
        found_pda(seq![token_seed@], program_id@) != mint_key@),
        found_pda(seq![token_seed@], program_id@) == mint_key@ ==> (r == Err::<
            (bool, Vec<BridgeAction>),
            BridgeError,
        >(BridgeError::NoTokenMeta) <==> signed_meta is None),
        r is Ok <==> (found_pda(seq![token_seed@], program_id@) == mint_key@
            && signed_meta is Some),
        r matches Ok((created, actions)) ==> created == (mint_data@.len() == 0) && view_actions(
            actions@,
        ) == mirror_mint_actions(
            created,
            mint_key@,
            token_program_key@,
            token_seed@,
            bridge_admin_key@,
            payer_key@,
            metadata_key@,
            crate::instruction::view_opt_meta(*signed_meta)->Some_0,
        ),
{
    let mint_pda = find_single_seed_pda(token_seed, program_id);
    if !crate::codec::bytes_equal(mint_pda.as_slice(), mint_key.as_slice()) {
        return Err(BridgeError::WrongTokenSeed);
    }
    let signed = match signed_meta {
        Some(m) => m,
        None => {
            return Err(BridgeError::NoTokenMeta);
        },
    };
    let mut actions: Vec<BridgeAction> = Vec::new();
    let created = mint_data.len() == 0;
    if created {
        let mut seed_list: Vec<Vec<u8>> = Vec::new();
        let mut ts: Vec<u8> = Vec::new();
        crate::codec::write_arr(&mut ts, token_seed.as_slice());
        seed_list.push(ts);
        proof {
            assert(seed_list.deep_view() =~~= seq![token_seed@]);
        }
        actions.push(
            BridgeAction::CreateAccount {
                address: *mint_key,
                size: 82u64,
                owner: *token_program_key,
                seeds: seed_list,
            },
        );
        actions.push(
            BridgeAction::InitializeMint {
                mint: *mint_key,
                authority: *bridge_admin_key,
                decimals: signed.decimals,
            },
        );
        actions.push(
            BridgeAction::CreateMetadata {
                metadata: *metadata_key,
                mint: *mint_key,
                authority: *bridge_admin_key,
                payer: *payer_key,
                name: crate::codec::copy_bytes(&signed.name),
                symbol: crate::codec::copy_bytes(&signed.symbol),
                uri: crate::codec::copy_bytes(&signed.uri),
            },
        );
    }
    proof {
        assert(view_actions(actions@) =~= mirror_mint_actions(
            created,
            mint_key@,
            token_program_key@,
            token_seed@,
            bridge_admin_key@,
            payer_key@,
            metadata_key@,
            crate::instruction::view_opt_meta(*signed_meta)->Some_0,
        ));
    }
    Ok((created, actions))
}

/// The token movements that pay out a token withdrawal: missing associated
/// accounts are created, a shortfall on the bridge's account is minted (which
/// only a mirror's mint authority permits), and the amount moves to the
/// owner.
pub open spec fn withdraw_payout_actions(
    bridge_ata_empty: bool,
    owner_ata_empty: bool,
    balance: u64,
    amount: u64,
    owner_key: Seq<u8>,
    bridge_admin_key: Seq<u8>,
    mint_key: Seq<u8>,
    owner_associated_key: Seq<u8>,
    bridge_associated_key: Seq<u8>,
) -> Seq<BridgeActionView> {
    (if bridge_ata_empty {
        seq![
            BridgeActionView::CreateAssociatedAccount {
                payer: owner_key,
                wallet: bridge_admin_key,
                mint: mint_key,
            },
        ]
    } else {
        Seq::<BridgeActionView>::empty()
    }) + (if owner_ata_empty {
        seq![
            BridgeActionView::CreateAssociatedAccount {
                payer: owner_key,
                wallet: owner_key,
                mint: mint_key,
            },
        ]
    } else {
        Seq::<BridgeActionView>::empty()
    }) + (if balance < amount {
        seq![
            BridgeActionView::MintTokens {
                mint: mint_key,
                destination: bridge_associated_key,
                authority: bridge_admin_key,
                amount: (amount - balance) as u64,
            },
        ]
    } else {
        Seq::<BridgeActionView>::empty()
    }) + seq![
        BridgeActionView::TransferTokens {
            source: bridge_associated_key,
            destination: owner_associated_key,
            authority: bridge_admin_key,
            amount: amount,
        },
    ]
}

/// The exact outcome of a fungible-token withdrawal.
pub open spec fn withdraw_ft_outcome(
    program_id: Seq<u8>,
    bridge_admin_key: Seq<u8>,
    bridge_admin_data: Seq<u8>,
    mint_key: Seq<u8>,
    mint_data: Seq<u8>,
    metadata_key: Seq<u8>,
    metadata: Option<TokenMetadataView>,
    owner_key: Seq<u8>,
    owner_associated_key: Seq<u8>,
    owner_ata_empty: bool,
    bridge_associated_key: Seq<u8>,
    bridge_associated_data: Seq<u8>,
    withdraw_key: Seq<u8>,
    withdraw_data: Seq<u8>,
    token_program_key: Seq<u8>,
    args: crate::instruction::WithdrawArgsView,
) -> Result<(crate::state::WithdrawView, Seq<BridgeActionView>), BridgeError> {
    if !args.valid() {
        Err(BridgeError::WrongArgsSize)
    } else if !bridge_admin_pda_ok(args.seeds, program_id, bridge_admin_key) {
        Err(BridgeError::WrongSeeds)
    } else if !admin_ready(bridge_admin_data) {
        Err(BridgeError::NotInitialized)
    } else if metadata_key != metadata_account_spec(mint_key) {
        Err(BridgeError::WrongMetadataAccount)
    } else if (args.token_seed matches Some(ts) && found_pda(seq![ts], program_id) != mint_key) {
        Err(BridgeError::WrongTokenSeed)
    } else if args.token_seed is Some && args.signed_meta is None {
        Err(BridgeError::NoTokenMeta)
    } else {
        let admin = stored_admin(bridge_admin_data)->Some_0;
        let create_mint = args.token_seed is Some && mint_data.len() == 0;
        if !create_mint && metadata is None {
            Err(BridgeError::UninitializedMetadata)
        } else if !create_mint && !mint_parse_ok(mint_data) {
            Err(BridgeError::UninitializedMint)
        } else {
            let name = if create_mint {
                args.signed_meta->Some_0.name
            } else {
                metadata->Some_0.name
            };
            let symbol = if create_mint {
                args.signed_meta->Some_0.symbol
            } else {
                metadata->Some_0.symbol
            };
            let uri = if create_mint {
                args.signed_meta->Some_0.uri
            } else {
                metadata->Some_0.uri
            };
            let decimals = if create_mint {
                args.signed_meta->Some_0.decimals
            } else {
                mint_data[44]
            };
            let leaf = withdraw_leaf_hash(
                ft_operation_bytes(
                    mint_key,
                    args.amount,
                    nul_trimmed(name),
                    nul_trimmed(symbol),
                    nul_trimmed(uri),
                    decimals,
                ),
                args.origin,
                owner_key,
                program_id,
            );
            let root = crate::merkle::merkle_root_spec(leaf, args.path);
            match crate::crypto::signature_error_of(
                root,
                args.signature,
                args.recovery_id,
                admin.public_key,
            ) {
                Some(e) => Err(e),
                None => {
                    let bridge_ata_empty = bridge_associated_data.len() == 0;
                    if bridge_associated_key != associated_token_address_spec(
                        bridge_admin_key,
                        mint_key,
                    ) {
                        Err(BridgeError::WrongTokenAccount)
                    } else if !bridge_ata_empty && !token_account_parse_ok(
                        bridge_associated_data,
                    ) {
                        Err(BridgeError::WrongTokenAccount)
                    } else if owner_associated_key != associated_token_address_spec(
                        owner_key,
                        mint_key,
                    ) {
                        Err(BridgeError::WrongTokenAccount)
                    } else if found_pda(seq![args.origin], program_id) != withdraw_key {
                        Err(BridgeError::WrongNonce)
                    } else if crate::state::withdraw_spent(withdraw_data) {
                        Err(BridgeError::AlreadyInUse)
                    } else {
                        let balance = if bridge_ata_empty {
                            0u64
                        } else {
                            token_account_amount_spec(bridge_associated_data)
                        };
                        Ok(
                            (
                                crate::state::WithdrawView {
                                    token_type: TokenType::FT,
                                    mint: Some(mint_key),
                                    amount: args.amount,
                                    origin: args.origin,
                                    receiver_address: owner_key,
                                    is_initialized: true,
                                },
                                mirror_mint_actions(
                                    create_mint,
                                    mint_key,
                                    token_program_key,
                                    (match args.token_seed {
                                        Some(ts) => ts,
                                        None => Seq::<u8>::empty(),
                                    }),
                                    bridge_admin_key,
                                    owner_key,
                                    metadata_key,
                                    args.signed_meta->Some_0,
                                ) + withdraw_payout_actions(
                                    bridge_ata_empty,
                                    owner_ata_empty,
                                    balance,
                                    args.amount,
                                    owner_key,
                                    bridge_admin_key,
                                    mint_key,
                                    owner_associated_key,
                                    bridge_associated_key,
                                ) + seq![
                                    BridgeActionView::CreateAccount {
                                        address: withdraw_key,
                                        size: crate::state::WITHDRAW_SIZE as u64,
                                        owner: program_id,
                                        seeds: seq![args.origin],
                                    },
                                ],
                            ),
                        )
                    }
                },
            }
        }
    }
}

/// Pays out a fungible-token withdrawal: where the mint is a mirror that does
/// not exist yet it is created from the operator-signed metadata first; the
/// leaf hashes the on-chain metadata with its padding stripped, the operator
/// signature is checked over the Merkle root, any shortfall on the bridge's
/// account is minted, the amount moves to the owner, and the replay-guard
/// receipt is written.
#[verifier::rlimit(80)]
#[verifier::spinoff_prover]
pub fn process_withdraw_ft(
    program_id: &[u8; 32],
    bridge_admin_key: &[u8; 32],
    bridge_admin_data: &Vec<u8>,
    mint_key: &[u8; 32],
    mint_data: &Vec<u8>,
    metadata_key: &[u8; 32],
    metadata: &Option<TokenMetadata>,
    owner_key: &[u8; 32],
    owner_associated_key: &[u8; 32],
    owner_associated_data: &Vec<u8>,
    bridge_associated_key: &[u8; 32],
    bridge_associated_data: &Vec<u8>,
    withdraw_key: &[u8; 32],
    withdraw_data: &Vec<u8>,
    token_program_key: &[u8; 32],
    args: &crate::instruction::WithdrawArgs,
) -> (r: Result<(crate::state::Withdraw, Vec<BridgeAction>), BridgeError>)
    ensures
        ({
            let o = withdraw_ft_outcome(
                program_id@,
                bridge_admin_key@,
                bridge_admin_data@,
                mint_key@,
                mint_data@,
                metadata_key@,
                view_opt_metadata(*metadata),
                owner_key@,
                owner_associated_key@,
                owner_associated_data@.len() == 0,
                bridge_associated_key@,
                bridge_associated_data@,
                withdraw_key@,
                withdraw_data@,
                token_program_key@,
                args@,
            );
            match r {
                Ok((rec, actions)) => o == Ok::<
                    (crate::state::WithdrawView, Seq<BridgeActionView>),
                    BridgeError,
                >((rec@, view_actions(actions@))),
                Err(e) => o == Err::<
                    (crate::state::WithdrawView, Seq<BridgeActionView>),
                    BridgeError,
                >(e),
            }
        }),
{
    if let Err(e) = args.validate() {
        return Err(e);
    }
    match crate::derive_bridge_admin_address(&args.seeds, program_id) {
        Some(derived) => {
            if !crate::codec::bytes_equal(derived.as_slice(), bridge_admin_key.as_slice()) {
                return Err(BridgeError::WrongSeeds);
            }
        },
        None => {
            return Err(BridgeError::WrongSeeds);
        },
    }
    let admin = match load_ready_admin(bridge_admin_data) {
        Ok(a) => a,
        Err(e) => {
            return Err(e);
        },
    };
    let expected_metadata = crate::pda::metadata_account_address(mint_key);
    if !crate::codec::bytes_equal(expected_metadata.as_slice(), metadata_key.as_slice()) {
        return Err(BridgeError::WrongMetadataAccount);
    }
    let mut created = false;
    let mut actions: Vec<BridgeAction> = Vec::new();
    if let Some(ts) = &args.token_seed {
        match try_mint_token_with_meta(
            program_id,
            bridge_admin_key,
            ts,
            &args.signed_meta,
            mint_key,
            mint_data,
            metadata_key,
            owner_key,
            token_program_key,
        ) {
            Ok((c, acts)) => {
                created = c;
                actions = acts;
            },
            Err(e) => {
                return Err(e);
            },
        }
    }
    let (name, symbol, uri, decimals) = if created {
        let signed = match &args.signed_meta {
            Some(m) => m,
            None => {
                return Err(BridgeError::NoTokenMeta);
            },
        };
        (
            crate::codec::copy_bytes(&signed.name),
            crate::codec::copy_bytes(&signed.symbol),
            crate::codec::copy_bytes(&signed.uri),
            signed.decimals,
        )
    } else {
        let m = match metadata {
            Some(m) => m,
            None => {
                return Err(BridgeError::UninitializedMetadata);
            },
        };
        let decimals = match parse_mint_decimals(mint_data) {
            Ok(d) => d,
            Err(e) => {
                return Err(e);
            },
        };
        (
            crate::codec::copy_bytes(&m.name),
            crate::codec::copy_bytes(&m.symbol),
            crate::codec::copy_bytes(&m.uri),
            decimals,
        )
    };
    let transfer = crate::merkle::TransferData::new_ft_transfer(
        *mint_key,
        args.amount,
        nul_trim(&name),
        nul_trim(&symbol),
        nul_trim(&uri),
        decimals,
    );
    let op_bytes = crate::merkle::Data::get_operation(&transfer);
    let content = crate::merkle::ContentNode::new(args.origin, *owner_key, *program_id, op_bytes);
    let leaf = content.hash();
    let ghost leaf_spec = withdraw_leaf_hash(
        ft_operation_bytes(
            mint_key@,
            args.amount,
            nul_trimmed(name@),
            nul_trimmed(symbol@),
            nul_trimmed(uri@),
            decimals,
        ),
        args.origin@,
        owner_key@,
        program_id@,
    );
    proof {
        assert(content.leaf_bytes_spec() =~= ft_operation_bytes(
            mint_key@,
            args.amount,
            nul_trimmed(name@),
            nul_trimmed(symbol@),
            nul_trimmed(uri@),
            decimals,
        ) + args.origin@ + crate::solana_network_spec() + owner_key@ + program_id@);
        assert(leaf@ == leaf_spec);
    }
    let root = crate::merkle::get_merkle_root(&leaf, &args.path);
    proof {
        assert(args.path@.map_values(|p: [u8; 32]| p@) =~~= args@.path);
    }
    let mut message: Vec<u8> = Vec::new();
    crate::codec::write_arr(&mut message, root.as_slice());
    if let Err(e) = crate::crypto::verify_ecdsa_signature(
        &message,
        &args.signature,
        args.recovery_id,
        &admin.public_key,
    ) {
        return Err(e);
    }
    let expected_bridge_ata = associated_token_address(bridge_admin_key, mint_key);
    if !crate::codec::bytes_equal(bridge_associated_key.as_slice(), expected_bridge_ata.as_slice())
        {
        return Err(BridgeError::WrongTokenAccount);
    }
    let bridge_ata_empty = bridge_associated_data.len() == 0;
    let balance = if bridge_ata_empty {
        0u64
    } else {
        match parse_token_account_amount(bridge_associated_data) {
            Ok(a) => a,
            Err(e) => {
                return Err(e);
            },
        }
    };
    let expected_owner_ata = associated_token_address(owner_key, mint_key);
    if !crate::codec::bytes_equal(owner_associated_key.as_slice(), expected_owner_ata.as_slice()) {
        return Err(BridgeError::WrongTokenAccount);
    }
    let expected_withdraw = find_single_seed_pda(&args.origin, program_id);
    if !crate::codec::bytes_equal(expected_withdraw.as_slice(), withdraw_key.as_slice()) {
        return Err(BridgeError::WrongNonce);
    }
    match crate::state::unpack_withdraw(withdraw_data) {
        Some(existing) => {
            if existing.is_initialized {
                return Err(BridgeError::AlreadyInUse);
            }
        },
        None => {
        },
    }
    let ghost mint_acts = view_actions(actions@);
    if bridge_ata_empty {
        actions.push(
            BridgeAction::CreateAssociatedAccount {
                payer: *owner_key,
                wallet: *bridge_admin_key,
                mint: *mint_key,
            },
        );
    }
    if owner_associated_data.len() == 0 {
        actions.push(
            BridgeAction::CreateAssociatedAccount {
                payer: *owner_key,
                wallet: *owner_key,
                mint: *mint_key,
            },
        );
    }
    if balance < args.amount {
        actions.push(
            BridgeAction::MintTokens {
                mint: *mint_key,
                destination: *bridge_associated_key,
                authority: *bridge_admin_key,
                amount: args.amount - balance,
            },
        );
    }
    actions.push(
        BridgeAction::TransferTokens {
            source: *bridge_associated_key,
            destination: *owner_associated_key,
            authority: *bridge_admin_key,
            amount: args.amount,
        },
    );
    let mut seed_list: Vec<Vec<u8>> = Vec::new();
    let mut origin_seed: Vec<u8> = Vec::new();
    crate::codec::write_arr(&mut origin_seed, args.origin.as_slice());
    seed_list.push(origin_seed);
    proof {
        assert(seed_list.deep_view() =~~= seq![args.origin@]);
    }
    actions.push(
        BridgeAction::CreateAccount {
            address: *withdraw_key,
            size: crate::state::WITHDRAW_SIZE as u64,
            owner: *program_id,
            seeds: seed_list,
        },
    );
    let record = crate::state::Withdraw {
        token_type: TokenType::FT,
        mint: Some(*mint_key),
        amount: args.amount,
        origin: args.origin,
        receiver_address: *owner_key,
        is_initialized: true,
    };
    proof {
        assert(view_actions(actions@) =~= mint_acts + withdraw_payout_actions(
            bridge_ata_empty,
            owner_associated_data@.len() == 0,
            balance,
            args.amount,
            owner_key@,
            bridge_admin_key@,
            mint_key@,
            owner_associated_key@,
            bridge_associated_key@,
        ) + seq![
            BridgeActionView::CreateAccount {
                address: withdraw_key@,
                size: crate::state::WITHDRAW_SIZE as u64,
                owner: program_id@,
                seeds: seq![args.origin@],
            },
        ]);
        if args.token_seed is None {
            assert(mint_acts =~= mirror_mint_actions(
                false,
                mint_key@,
                token_program_key@,
                (match args@.token_seed {
                    Some(ts) => ts,
                    None => Seq::<u8>::empty(),
                }),
                bridge_admin_key@,
                owner_key@,
                metadata_key@,
                args@.signed_meta->Some_0,
            ));
        }
    }
    Ok((record, actions))
}

/// The exact outcome of a non-fungible-token withdrawal. Where the token's
/// metadata names a collection, the leaf hashes the collection's name and
/// symbol with the token's own URI.
pub open spec fn withdraw_nft_outcome(
    program_id: Seq<u8>,
    bridge_admin_key: Seq<u8>,
    bridge_admin_data: Seq<u8>,
    mint_key: Seq<u8>,
    mint_data: Seq<u8>,
    metadata_key: Seq<u8>,
    metadata: Option<TokenMetadataView>,
    collection_metadata_key: Seq<u8>,
    collection_metadata: Option<TokenMetadataView>,
    owner_key: Seq<u8>,
    owner_associated_key: Seq<u8>,
    owner_ata_empty: bool,
    bridge_associated_key: Seq<u8>,
    bridge_associated_data: Seq<u8>,
    withdraw_key: Seq<u8>,
    withdraw_data: Seq<u8>,
    token_program_key: Seq<u8>,
    args: crate::instruction::WithdrawArgsView,
) -> Result<(crate::state::WithdrawView, Seq<BridgeActionView>), BridgeError> {
    if !args.valid() {
        Err(BridgeError::WrongArgsSize)
    } else if !bridge_admin_pda_ok(args.seeds, program_id, bridge_admin_key) {
        Err(BridgeError::WrongSeeds)
    } else if !admin_ready(bridge_admin_data) {
        Err(BridgeError::NotInitialized)
    } else if metadata_key != metadata_account_spec(mint_key) {
        Err(BridgeError::WrongMetadataAccount)
    } else if (args.token_seed matches Some(ts) && found_pda(seq![ts], program_id) != mint_key) {
        Err(BridgeError::WrongTokenSeed)
    } else if args.token_seed is Some && args.signed_meta is None {
        Err(BridgeError::NoTokenMeta)
    } else {
        let admin = stored_admin(bridge_admin_data)->Some_0;
        let create_mint = args.token_seed is Some && mint_data.len() == 0;
        if !create_mint && metadata is None {
            Err(BridgeError::UninitializedMetadata)
        } else {
            let own_name = if create_mint {
                args.signed_meta->Some_0.name
            } else {
                metadata->Some_0.name
            };
            let own_symbol = if create_mint {
                args.signed_meta->Some_0.symbol
            } else {
                metadata->Some_0.symbol
            };
            let uri = if create_mint {
                args.signed_meta->Some_0.uri
            } else {
                metadata->Some_0.uri
            };
            let collection = if create_mint {
                None
            } else {
                metadata->Some_0.collection
            };
            if (collection matches Some(c) && collection_metadata_key != metadata_account_spec(
                c,
            )) {
                Err(BridgeError::WrongMetadataAccount)
            } else if collection is Some && collection_metadata is None {
                Err(BridgeError::UninitializedMetadata)
            } else {
                let name = if collection is Some {
                    collection_metadata->Some_0.name
                } else {
                    own_name
                };
                let symbol = if collection is Some {
                    collection_metadata->Some_0.symbol
                } else {
                    own_symbol
                };
                let leaf = withdraw_leaf_hash(
                    nft_operation_bytes(
                        mint_key,
                        collection,
                        nul_trimmed(name),
                        nul_trimmed(symbol),
                        nul_trimmed(uri),
                    ),
                    args.origin,
                    owner_key,
                    program_id,
                );
                let root = crate::merkle::merkle_root_spec(leaf, args.path);
                match crate::crypto::signature_error_of(
                    root,
                    args.signature,
                    args.recovery_id,
                    admin.public_key,
                ) {
                    Some(e) => Err(e),
                    None => {
                        let bridge_ata_empty = bridge_associated_data.len() == 0;
                        if bridge_associated_key != associated_token_address_spec(
                            bridge_admin_key,
                            mint_key,
                        ) {
                            Err(BridgeError::WrongTokenAccount)
                        } else if !bridge_ata_empty && !token_account_parse_ok(
                            bridge_associated_data,
                        ) {
                            Err(BridgeError::WrongTokenAccount)
                        } else if owner_associated_key != associated_token_address_spec(
                            owner_key,
                            mint_key,
                        ) {
                            Err(BridgeError::WrongTokenAccount)
                        } else if found_pda(seq![args.origin], program_id) != withdraw_key {
                            Err(BridgeError::WrongNonce)
                        } else if crate::state::withdraw_spent(withdraw_data) {
                            Err(BridgeError::AlreadyInUse)
                        } else {
                            let balance = if bridge_ata_empty {
                                0u64
                            } else {
                                token_account_amount_spec(bridge_associated_data)
                            };
                            Ok(
                                (
                                    crate::state::WithdrawView {
                                        token_type: TokenType::NFT,
                                        mint: Some(mint_key),
                                        amount: 1u64,
                                        origin: args.origin,
                                        receiver_address: owner_key,
                                        is_initialized: true,
                                    },
                                    mirror_mint_actions(
                                        create_mint,
                                        mint_key,
                                        token_program_key,
                                        (match args.token_seed {
                                            Some(ts) => ts,
                                            None => Seq::<u8>::empty(),
                                        }),
                                        bridge_admin_key,
                                        owner_key,
                                        metadata_key,
                                        args.signed_meta->Some_0,
                                    ) + withdraw_payout_actions(
                                        bridge_ata_empty,
                                        owner_ata_empty,
                                        balance,
                                        1u64,
                                        owner_key,
                                        bridge_admin_key,
                                        mint_key,
                                        owner_associated_key,
                                        bridge_associated_key,
                                    ) + seq![
                                        BridgeActionView::CreateAccount {
                                            address: withdraw_key,
                                            size: crate::state::WITHDRAW_SIZE as u64,
                                            owner: program_id,
                                            seeds: seq![args.origin],
                                        },
                                    ],
                                ),
                            )
                        }
                    },
                }
            }
        }
    }
}

/// Pays out a non-fungible-token withdrawal: one unit of the mint moves to
/// the owner, minted first where the bridge holds none; the leaf uses the
/// collection's name and symbol where the token belongs to one.
#[verifier::rlimit(80)]
#[verifier::spinoff_prover]
pub fn process_withdraw_nft(
    program_id: &[u8; 32],
    bridge_admin_key: &[u8; 32],
    bridge_admin_data: &Vec<u8>,
    mint_key: &[u8; 32],
    mint_data: &Vec<u8>,
    metadata_key: &[u8; 32],
    metadata: &Option<TokenMetadata>,
    collection_metadata_key: &[u8; 32],
    collection_metadata: &Option<TokenMetadata>,
    owner_key: &[u8; 32],
    owner_associated_key: &[u8; 32],
    owner_associated_data: &Vec<u8>,
    bridge_associated_key: &[u8; 32],
    bridge_associated_data: &Vec<u8>,
    withdraw_key: &[u8; 32],
    withdraw_data: &Vec<u8>,
    token_program_key: &[u8; 32],
    args: &crate::instruction::WithdrawArgs,
) -> (r: Result<(crate::state::Withdraw, Vec<BridgeAction>), BridgeError>)
    ensures
        ({
            let o = withdraw_nft_outcome(
                program_id@,
                bridge_admin_key@,
                bridge_admin_data@,
                mint_key@,
                mint_data@,
                metadata_key@,
                view_opt_metadata(*metadata),
                collection_metadata_key@,
                view_opt_metadata(*collection_metadata),
                owner_key@,
                owner_associated_key@,
                owner_associated_data@.len() == 0,
                bridge_associated_key@,
                bridge_associated_data@,
                withdraw_key@,
                withdraw_data@,
                token_program_key@,
                args@,
            );
            match r {
                Ok((rec, actions)) => o == Ok::<
                    (crate::state::WithdrawView, Seq<BridgeActionView>),
                    BridgeError,
                >((rec@, view_actions(actions@))),
                Err(e) => o == Err::<
                    (crate::state::WithdrawView, Seq<BridgeActionView>),
                    BridgeError,
                >(e),
            }
        }),
{
    if let Err(e) = args.validate() {
        return Err(e);
    }
    match crate::derive_bridge_admin_address(&args.seeds, program_id) {
        Some(derived) => {
            if !crate::codec::bytes_equal(derived.as_slice(), bridge_admin_key.as_slice()) {
                return Err(BridgeError::WrongSeeds);
            }
        },
        None => {
            return Err(BridgeError::WrongSeeds);
        },
    }
    let admin = match load_ready_admin(bridge_admin_data) {
        Ok(a) => a,
        Err(e) => {
            return Err(e);
        },
    };
    let expected_metadata = crate::pda::metadata_account_address(mint_key);
    if !crate::codec::bytes_equal(expected_metadata.as_slice(), metadata_key.as_slice()) {
        return Err(BridgeError::WrongMetadataAccount);
    }
    let mut created = false;
    let mut actions: Vec<BridgeAction> = Vec::new();
    if let Some(ts) = &args.token_seed {
        match try_mint_token_with_meta(
            program_id,
            bridge_admin_key,
            ts,
            &args.signed_meta,
            mint_key,
            mint_data,
            metadata_key,
            owner_key,
            token_program_key,
        ) {
            Ok((c, acts)) => {
                created = c;
                actions = acts;
            },
            Err(e) => {
                return Err(e);
            },
        }
    }
    let (own_name, own_symbol, uri, collection) = if created {
        let signed = match &args.signed_meta {
            Some(m) => m,
            None => {
                return Err(BridgeError::NoTokenMeta);
            },
        };
        (
            crate::codec::copy_bytes(&signed.name),
            crate::codec::copy_bytes(&signed.symbol),
            crate::codec::copy_bytes(&signed.uri),
            None,
        )
    } else {
        let m = match metadata {
            Some(m) => m,
            None => {
                return Err(BridgeError::UninitializedMetadata);
            },
        };
        (
            crate::codec::copy_bytes(&m.name),
            crate::codec::copy_bytes(&m.symbol),
            crate::codec::copy_bytes(&m.uri),
            m.collection,
        )
    };
    let (name, symbol) = match &collection {
        Some(c) => {
            let expected_coll = crate::pda::metadata_account_address(c);
            if !crate::codec::bytes_equal(
                expected_coll.as_slice(),
                collection_metadata_key.as_slice(),
            ) {
                return Err(BridgeError::WrongMetadataAccount);
            }
            match collection_metadata {
                Some(cm) => (
                    crate::codec::copy_bytes(&cm.name),
                    crate::codec::copy_bytes(&cm.symbol),
                ),
                None => {
                    return Err(BridgeError::UninitializedMetadata);
                },
            }
        },
        None => (own_name, own_symbol),
    };
    let transfer = crate::merkle::TransferData::new_nft_transfer(
        *mint_key,
        collection,
        nul_trim(&name),
        nul_trim(&symbol),
        nul_trim(&uri),
    );
    let op_bytes = crate::merkle::Data::get_operation(&transfer);
    let content = crate::merkle::ContentNode::new(args.origin, *owner_key, *program_id, op_bytes);
    let leaf = content.hash();
    proof {
        assert(content.leaf_bytes_spec() =~= nft_operation_bytes(
            mint_key@,
            view_opt_key(collection),
            nul_trimmed(name@),
            nul_trimmed(symbol@),
            nul_trimmed(uri@),
        ) + args.origin@ + crate::solana_network_spec() + owner_key@ + program_id@);
    }
    let root = crate::merkle::get_merkle_root(&leaf, &args.path);
    proof {
        assert(args.path@.map_values(|p: [u8; 32]| p@) =~~= args@.path);
    }
    let mut message: Vec<u8> = Vec::new();
    crate::codec::write_arr(&mut message, root.as_slice());
    if let Err(e) = crate::crypto::verify_ecdsa_signature(
        &message,
        &args.signature,
        args.recovery_id,
        &admin.public_key,
    ) {
        return Err(e);
    }
    let expected_bridge_ata = associated_token_address(bridge_admin_key, mint_key);
    if !crate::codec::bytes_equal(bridge_associated_key.as_slice(), expected_bridge_ata.as_slice())
        {
        return Err(BridgeError::WrongTokenAccount);
    }
    let bridge_ata_empty = bridge_associated_data.len() == 0;
    let balance = if bridge_ata_empty {
        0u64
    } else {
        match parse_token_account_amount(bridge_associated_data) {
            Ok(a) => a,
            Err(e) => {
                return Err(e);
            },
        }
    };
    let expected_owner_ata = associated_token_address(owner_key, mint_key);
    if !crate::codec::bytes_equal(owner_associated_key.as_slice(), expected_owner_ata.as_slice()) {
        return Err(BridgeError::WrongTokenAccount);
    }
    let expected_withdraw = find_single_seed_pda(&args.origin, program_id);
    if !crate::codec::bytes_equal(expected_withdraw.as_slice(), withdraw_key.as_slice()) {
        return Err(BridgeError::WrongNonce);
    }
    match crate::state::unpack_withdraw(withdraw_data) {
        Some(existing) => {
            if existing.is_initialized {
                return Err(BridgeError::AlreadyInUse);
            }
        },
        None => {
        },
    }
    let ghost mint_acts = view_actions(actions@);
    if bridge_ata_empty {
        actions.push(
            BridgeAction::CreateAssociatedAccount {
                payer: *owner_key,
                wallet: *bridge_admin_key,
                mint: *mint_key,
            },
        );
    }
    if owner_associated_data.len() == 0 {
        actions.push(
            BridgeAction::CreateAssociatedAccount {
                payer: *owner_key,
                wallet: *owner_key,
                mint: *mint_key,
            },
        );
    }
    if balance < 1 {
        actions.push(
            BridgeAction::MintTokens {
                mint: *mint_key,
                destination: *bridge_associated_key,
                authority: *bridge_admin_key,
                amount: 1,
            },
        );
    }
    actions.push(
        BridgeAction::TransferTokens {
            source: *bridge_associated_key,
            destination: *owner_associated_key,
            authority: *bridge_admin_key,
            amount: 1,
        },
    );
    let mut seed_list: Vec<Vec<u8>> = Vec::new();
    let mut origin_seed: Vec<u8> = Vec::new();
    crate::codec::write_arr(&mut origin_seed, args.origin.as_slice());
    seed_list.push(origin_seed);
    proof {
        assert(seed_list.deep_view() =~~= seq![args.origin@]);
    }
    actions.push(
        BridgeAction::CreateAccount {
            address: *withdraw_key,
            size: crate::state::WITHDRAW_SIZE as u64,
            owner: *program_id,
            seeds: seed_list,
        },
    );
    let record = crate::state::Withdraw {
        token_type: TokenType::NFT,
        mint: Some(*mint_key),
        amount: 1,
        origin: args.origin,
        receiver_address: *owner_key,
        is_initialized: true,
    };
    proof {
        assert(view_actions(actions@) =~= mint_acts + withdraw_payout_actions(
            bridge_ata_empty,
            owner_associated_data@.len() == 0,
            balance,
            1u64,
            owner_key@,
            bridge_admin_key@,
            mint_key@,
            owner_associated_key@,
            bridge_associated_key@,
        ) + seq![
            BridgeActionView::CreateAccount {
                address: withdraw_key@,
                size: crate::state::WITHDRAW_SIZE as u64,
                owner: program_id@,
                seeds: seq![args.origin@],
            },
        ]);
        if args.token_seed is None {
            assert(mint_acts =~= mirror_mint_actions(
                false,
                mint_key@,
                token_program_key@,
                (match args@.token_seed {
                    Some(ts) => ts,
                    None => Seq::<u8>::empty(),
                }),
                bridge_admin_key@,
                owner_key@,
                metadata_key@,
                args@.signed_meta->Some_0,
            ));
        }
    }
    Ok((record, actions))
}

/// The exact outcome of an operator-initiated collection creation.
pub open spec fn create_collection_outcome(
    program_id: Seq<u8>,
    bridge_admin_key: Seq<u8>,
    bridge_admin_data: Seq<u8>,
    mint_key: Seq<u8>,
    bridge_associated_key: Seq<u8>,
    metadata_key: Seq<u8>,
    payer_key: Seq<u8>,
    token_program_key: Seq<u8>,
    args: crate::instruction::MintCollectionArgsView,
) -> Result<Seq<BridgeActionView>, BridgeError> {
    if !args.valid() {
        Err(BridgeError::WrongArgsSize)
    } else if !bridge_admin_pda_ok(args.seeds, program_id, bridge_admin_key) {
        Err(BridgeError::WrongSeeds)
    } else if !admin_ready(bridge_admin_data) {
        Err(BridgeError::NotInitialized)
    } else if bridge_associated_key != associated_token_address_spec(bridge_admin_key, mint_key) {
        Err(BridgeError::WrongTokenAccount)
    } else if found_pda(seq![args.token_seed], program_id) != mint_key {
        Err(BridgeError::WrongTokenSeed)
    } else {
        Ok(
            seq![
                BridgeActionView::CreateAccount {
                    address: mint_key,
                    size: 82u64,
                    owner: token_program_key,
                    seeds: seq![args.token_seed],
                },
                BridgeActionView::InitializeMint {
                    mint: mint_key,
                    authority: bridge_admin_key,
                    decimals: 0u8,
                },
                BridgeActionView::CreateAssociatedAccount {
                    payer: payer_key,
                    wallet: bridge_admin_key,
                    mint: mint_key,
                },
                BridgeActionView::MintTokens {
                    mint: mint_key,
                    destination: bridge_associated_key,
                    authority: bridge_admin_key,
                    amount: 1u64,
                },
                BridgeActionView::CreateMetadata {
                    metadata: metadata_key,
                    mint: mint_key,
                    authority: bridge_admin_key,
                    payer: payer_key,
                    name: args.data.name,
                    symbol: args.data.symbol,
                    uri: args.data.uri,
                },
            ],
        )
    }
}

/// Creates a collection mint fully owned by the bridge: the mint at its
/// derived address with zero decimals, one unit minted into the bridge's
/// associated account, and a metadata record whose update authority is the
/// bridge admin.
pub fn process_create_collection(
    program_id: &[u8; 32],
    bridge_admin_key: &[u8; 32],
    bridge_admin_data: &Vec<u8>,
    mint_key: &[u8; 32],
    bridge_associated_key: &[u8; 32],
    metadata_key: &[u8; 32],
    payer_key: &[u8; 32],
    token_program_key: &[u8; 32],
    args: &crate::instruction::MintCollectionArgs,
) -> (r: Result<Vec<BridgeAction>, BridgeError>)
    ensures
        ({
            let o = create_collection_outcome(
                program_id@,
                bridge_admin_key@,
                bridge_admin_data@,
                mint_key@,
                bridge_associated_key@,
                metadata_key@,
                payer_key@,
                token_program_key@,
                args@,
            );
            match r {
                Ok(actions) => o == Ok::<Seq<BridgeActionView>, BridgeError>(
                    view_actions(actions@),
                ),
                Err(e) => o == Err::<Seq<BridgeActionView>, BridgeError>(e),
            }
        }),
{
    if let Err(e) = args.validate() {
        return Err(e);
    }
    match crate::derive_bridge_admin_address(&args.seeds, program_id) {
        Some(derived) => {
            if !crate::codec::bytes_equal(derived.as_slice(), bridge_admin_key.as_slice()) {
                return Err(BridgeError::WrongSeeds);
            }
        },
        None => {
            return Err(BridgeError::WrongSeeds);
        },
    }
    if let Err(e) = load_ready_admin(bridge_admin_data) {
        return Err(e);
    }
    let expected_ata = associated_token_address(bridge_admin_key, mint_key);
    if !crate::codec::bytes_equal(bridge_associated_key.as_slice(), expected_ata.as_slice()) {
        return Err(BridgeError::WrongTokenAccount);
    }
    let mint_pda = find_single_seed_pda(&args.token_seed, program_id);
    if !crate::codec::bytes_equal(mint_pda.as_slice(), mint_key.as_slice()) {
        return Err(BridgeError::WrongTokenSeed);
    }
    let mut seed_list: Vec<Vec<u8>> = Vec::new();
    let mut ts: Vec<u8> = Vec::new();
    crate::codec::write_arr(&mut ts, args.token_seed.as_slice());
    seed_list.push(ts);
    proof {
        assert(seed_list.deep_view() =~~= seq![args.token_seed@]);
    }
    let mut actions: Vec<BridgeAction> = Vec::new();
    actions.push(
        BridgeAction::CreateAccount {
            address: *mint_key,
            size: 82u64,
            owner: *token_program_key,
            seeds: seed_list,
        },
    );
    actions.push(
        BridgeAction::InitializeMint {
            mint: *mint_key,
            authority: *bridge_admin_key,
            decimals: 0,
        },
    );
    actions.push(
        BridgeAction::CreateAssociatedAccount {
            payer: *payer_key,
            wallet: *bridge_admin_key,
            mint: *mint_key,
        },
    );
    actions.push(
        BridgeAction::MintTokens {
            mint: *mint_key,
            destination: *bridge_associated_key,
            authority: *bridge_admin_key,
            amount: 1,
        },
    );
    actions.push(
        BridgeAction::CreateMetadata {
            metadata: *metadata_key,
            mint: *mint_key,
            authority: *bridge_admin_key,
            payer: *payer_key,
            name: crate::codec::copy_bytes(&args.data.name),
            symbol: crate::codec::copy_bytes(&args.data.symbol),
            uri: crate::codec::copy_bytes(&args.data.uri),
        },
    );
    proof {
        assert(view_actions(actions@) =~= create_collection_outcome(
            program_id@,
            bridge_admin_key@,
            bridge_admin_data@,
            mint_key@,
            bridge_associated_key@,
            metadata_key@,
            payer_key@,
            token_program_key@,
            args@,
        )->Ok_0);
    }
    Ok(actions)
}

// ===== replay safety =====

/// The receipt a successful native withdrawal returns is written initialized:
/// its stored bytes mark the origin as spent.
pub proof fn lemma_withdraw_native_receipt_initialized(
    program_id: Seq<u8>,
    bridge_admin_key: Seq<u8>,
    bridge_admin_data: Seq<u8>,
    bridge_admin_lamports: u64,
    owner_key: Seq<u8>,
    withdraw_key: Seq<u8>,
    withdraw_data: Seq<u8>,
    args: crate::instruction::WithdrawArgsView,
)
    requires
        args.wf(),
        owner_key.len() == 32,
        withdraw_native_outcome(
            program_id,
            bridge_admin_key,
            bridge_admin_data,
            bridge_admin_lamports,
            owner_key,
            withdraw_key,
            withdraw_data,
            args,
        ) is Ok,
    ensures
        ({
            let rec = withdraw_native_outcome(
                program_id,
                bridge_admin_key,
                bridge_admin_data,
                bridge_admin_lamports,
                owner_key,
                withdraw_key,
                withdraw_data,
                args,
            )->Ok_0.0;
            rec.is_initialized && rec.wf() && crate::state::withdraw_spent(
                crate::state::enc_withdraw(rec),
            )
        }),
{
    let rec = withdraw_native_outcome(
        program_id,
        bridge_admin_key,
        bridge_admin_data,
        bridge_admin_lamports,
        owner_key,
        withdraw_key,
        withdraw_data,
        args,
    )->Ok_0.0;
    crate::state::lemma_written_receipt_is_spent(rec);
}

/// A later native withdrawal that finds a written receipt's bytes at the
/// origin's address cannot succeed; where every other guard passes it fails
/// exactly as already in use.
pub proof fn lemma_withdraw_native_replay_rejected(
    program_id: Seq<u8>,
    bridge_admin_key: Seq<u8>,
    bridge_admin_data: Seq<u8>,
    bridge_admin_lamports: u64,
    owner_key: Seq<u8>,
    withdraw_key: Seq<u8>,
    rec: crate::state::WithdrawView,
    args: crate::instruction::WithdrawArgsView,
)
    requires
        rec.wf(),
        rec.is_initialized,
    ensures
        !(withdraw_native_outcome(
            program_id,
            bridge_admin_key,
            bridge_admin_data,
            bridge_admin_lamports,
            owner_key,
            withdraw_key,
            crate::state::enc_withdraw(rec),
            args,
        ) is Ok),
        (args.valid() && bridge_admin_pda_ok(args.seeds, program_id, bridge_admin_key)
            && admin_ready(bridge_admin_data) && crate::crypto::signature_error_of(
            crate::merkle::merkle_root_spec(
                withdraw_leaf_hash(
                    native_operation_bytes(args.amount),
                    args.origin,
                    owner_key,
                    program_id,
                ),
                args.path,
            ),
            args.signature,
            args.recovery_id,
            stored_admin(bridge_admin_data)->Some_0.public_key,
        ) is None && bridge_admin_lamports >= args.amount && found_pda(
            seq![args.origin],
            program_id,
        ) == withdraw_key) ==> withdraw_native_outcome(
            program_id,
            bridge_admin_key,
            bridge_admin_data,
            bridge_admin_lamports,
            owner_key,
            withdraw_key,
            crate::state::enc_withdraw(rec),
            args,
        ) == Err::<(crate::state::WithdrawView, Seq<BridgeActionView>), BridgeError>(
            BridgeError::AlreadyInUse,
        ),
{
    crate::state::lemma_written_receipt_is_spent(rec);
}

/// A later token withdrawal that finds a written receipt's bytes at the
/// origin's address cannot succeed, fungible or not.
pub proof fn lemma_withdraw_token_replay_rejected(
    program_id: Seq<u8>,
    bridge_admin_key: Seq<u8>,
    bridge_admin_data: Seq<u8>,
    mint_key: Seq<u8>,
    mint_data: Seq<u8>,
    metadata_key: Seq<u8>,
    metadata: Option<TokenMetadataView>,
    collection_metadata_key: Seq<u8>,
    collection_metadata: Option<TokenMetadataView>,
    owner_key: Seq<u8>,
    owner_associated_key: Seq<u8>,
    owner_ata_empty: bool,
    bridge_associated_key: Seq<u8>,
    bridge_associated_data: Seq<u8>,
    withdraw_key: Seq<u8>,
    token_program_key: Seq<u8>,
    rec: crate::state::WithdrawView,
    args: crate::instruction::WithdrawArgsView,
)
    requires
        rec.wf(),
        rec.is_initialized,
    ensures
        !(withdraw_ft_outcome(
            program_id,
            bridge_admin_key,
            bridge_admin_data,
            mint_key,
            mint_data,
            metadata_key,
            metadata,
            owner_key,
            owner_associated_key,
            owner_ata_empty,
            bridge_associated_key,
            bridge_associated_data,
            withdraw_key,
            crate::state::enc_withdraw(rec),
            token_program_key,
            args,
        ) is Ok),
        !(withdraw_nft_outcome(
            program_id,
            bridge_admin_key,
            bridge_admin_data,
            mint_key,
            mint_data,
            metadata_key,
            metadata,
            collection_metadata_key,
            collection_metadata,
            owner_key,
            owner_associated_key,
            owner_ata_empty,
            bridge_associated_key,
            bridge_associated_data,
            withdraw_key,
            crate::state::enc_withdraw(rec),
            token_program_key,
            args,
        ) is Ok),
{
    crate::state::lemma_written_receipt_is_spent(rec);
}

// ===== mirror mints, as laws =====

/// The payout of a token withdrawal mints only the shortfall, and mints it
/// under the bridge admin's authority: the last movement is the transfer of
/// the full amount to the owner; a mint of exactly `amount - balance` into
/// the bridge's account stands immediately before it only where the balance
/// falls short, and no mint appears at all where the bridge already holds
/// enough. The minting authority handed out is the bridge admin's derived
/// address, which only a bridge-minted mirror accepts, so a mint the bridge
/// does not control fails there instead of being inflated.
pub proof fn lemma_payout_mints_only_shortfall(
    bridge_ata_empty: bool,
    owner_ata_empty: bool,
    balance: u64,
    amount: u64,
    owner_key: Seq<u8>,
    bridge_admin_key: Seq<u8>,
    mint_key: Seq<u8>,
    owner_associated_key: Seq<u8>,
    bridge_associated_key: Seq<u8>,
)
    ensures
        ({
            let acts = withdraw_payout_actions(
                bridge_ata_empty,
                owner_ata_empty,
                balance,
                amount,
                owner_key,
                bridge_admin_key,
                mint_key,
                owner_associated_key,
                bridge_associated_key,
            );
            &&& acts.len() >= 1
            &&& acts[acts.len() - 1] == (BridgeActionView::TransferTokens {
                source: bridge_associated_key,
                destination: owner_associated_key,
                authority: bridge_admin_key,
                amount: amount,
            })
            &&& (balance < amount ==> acts.len() >= 2 && acts[acts.len() - 2]
                == (BridgeActionView::MintTokens {
                mint: mint_key,
                destination: bridge_associated_key,
                authority: bridge_admin_key,
                amount: (amount - balance) as u64,
            }))
            &&& (balance >= amount ==> forall|i: int|
                0 <= i < acts.len() ==> !((#[trigger] acts[i]) is MintTokens))
        }),
{
}

/// A fungible withdrawal that succeeds pays out exactly as the payout law
/// says: the transfer of the full amount to the owner closes the token
/// movements, and a mint of exactly the shortfall, with the bridge admin as
/// authority, stands immediately before it only where the bridge's balance
/// falls short.
pub proof fn lemma_withdraw_ft_mints_only_shortfall(
    program_id: Seq<u8>,
    bridge_admin_key: Seq<u8>,
    bridge_admin_data: Seq<u8>,
    mint_key: Seq<u8>,
    mint_data: Seq<u8>,
    metadata_key: Seq<u8>,
    metadata: Option<TokenMetadataView>,
    owner_key: Seq<u8>,
    owner_associated_key: Seq<u8>,
    owner_ata_empty: bool,
    bridge_associated_key: Seq<u8>,
    bridge_associated_data: Seq<u8>,
    withdraw_key: Seq<u8>,
    withdraw_data: Seq<u8>,
    token_program_key: Seq<u8>,
    args: crate::instruction::WithdrawArgsView,
)
    requires
        withdraw_ft_outcome(
            program_id,
            bridge_admin_key,
            bridge_admin_data,
            mint_key,
            mint_data,
            metadata_key,
            metadata,
            owner_key,
            owner_associated_key,
            owner_ata_empty,
            bridge_associated_key,
            bridge_associated_data,
            withdraw_key,
            withdraw_data,
            token_program_key,
            args,
        ) is Ok,
    ensures
        ({
            let acts = withdraw_ft_outcome(
                program_id,
                bridge_admin_key,
                bridge_admin_data,
                mint_key,
                mint_data,
                metadata_key,
                metadata,
                owner_key,
                owner_associated_key,
                owner_ata_empty,
                bridge_associated_key,
                bridge_associated_data,
                withdraw_key,
                withdraw_data,
                token_program_key,
                args,
            )->Ok_0.1;
            let balance = if bridge_associated_data.len() == 0 {
                0u64
            } else {
                token_account_amount_spec(bridge_associated_data)
            };
            &&& acts.len() >= 2
            &&& acts[acts.len() - 2] == (BridgeActionView::TransferTokens {
                source: bridge_associated_key,
                destination: owner_associated_key,
                authority: bridge_admin_key,
                amount: args.amount,
            })
            &&& (balance < args.amount ==> acts.len() >= 3 && acts[acts.len() - 3]
                == (BridgeActionView::MintTokens {
                mint: mint_key,
                destination: bridge_associated_key,
                authority: bridge_admin_key,
                amount: (args.amount - balance) as u64,
            }))
            &&& (balance >= args.amount ==> forall|i: int|
                0 <= i < acts.len() ==> !((#[trigger] acts[i]) is MintTokens))
        }),
{
    let bridge_ata_empty = bridge_associated_data.len() == 0;
    let balance = if bridge_ata_empty {
        0u64
    } else {
        token_account_amount_spec(bridge_associated_data)
    };
    let create_mint = args.token_seed is Some && mint_data.len() == 0;
    let mint_acts = mirror_mint_actions(
        create_mint,
        mint_key,
        token_program_key,
        (match args.token_seed {
            Some(ts) => ts,
            None => Seq::<u8>::empty(),
        }),
        bridge_admin_key,
        owner_key,
        metadata_key,
        args.signed_meta->Some_0,
    );
    let payout = withdraw_payout_actions(
        bridge_ata_empty,
        owner_ata_empty,
        balance,
        args.amount,
        owner_key,
        bridge_admin_key,
        mint_key,
        owner_associated_key,
        bridge_associated_key,
    );
    lemma_payout_mints_only_shortfall(
        bridge_ata_empty,
        owner_ata_empty,
        balance,
        args.amount,
        owner_key,
        bridge_admin_key,
        mint_key,
        owner_associated_key,
        bridge_associated_key,
    );
    let acts = withdraw_ft_outcome(
        program_id,
        bridge_admin_key,
        bridge_admin_data,
        mint_key,
        mint_data,
        metadata_key,
        metadata,
        owner_key,
        owner_associated_key,
        owner_ata_empty,
        bridge_associated_key,
        bridge_associated_data,
        withdraw_key,
        withdraw_data,
        token_program_key,
        args,
    )->Ok_0.1;
    assert(acts == mint_acts + payout + seq![
        BridgeActionView::CreateAccount {
            address: withdraw_key,
            size: crate::state::WITHDRAW_SIZE as u64,
            owner: program_id,
            seeds: seq![args.origin],
        },
    ]);
    assert(acts[acts.len() - 2] == payout[payout.len() - 1]);
    if balance < args.amount {
        assert(acts[acts.len() - 3] == payout[payout.len() - 2]);
    } else {
        assert forall|i: int| 0 <= i < acts.len() implies !((#[trigger] acts[i]) is MintTokens) by {
            if i < mint_acts.len() {
                assert(acts[i] == mint_acts[i]);
            } else if i < mint_acts.len() + payout.len() {
                assert(acts[i] == payout[i - mint_acts.len()]);
            }
        }
    }
}

/// A fungible withdrawal of a mirror that does not exist yet creates it
/// first, exactly from the operator-signed metadata: a mint account at the
/// token seed's derived address owned by the token program, initialized with
/// the signed decimals and the bridge admin as mint authority, and a metadata
/// record from the signed name, symbol and URI with the bridge admin as
/// update authority.
pub proof fn lemma_withdraw_ft_creates_missing_mirror(
    program_id: Seq<u8>,
    bridge_admin_key: Seq<u8>,
    bridge_admin_data: Seq<u8>,
    mint_key: Seq<u8>,
    mint_data: Seq<u8>,
    metadata_key: Seq<u8>,
    metadata: Option<TokenMetadataView>,
    owner_key: Seq<u8>,
    owner_associated_key: Seq<u8>,
    owner_ata_empty: bool,
    bridge_associated_key: Seq<u8>,
    bridge_associated_data: Seq<u8>,
    withdraw_key: Seq<u8>,
    withdraw_data: Seq<u8>,
    token_program_key: Seq<u8>,
    args: crate::instruction::WithdrawArgsView,
)
    requires
        args.token_seed is Some,
        mint_data.len() == 0,
        withdraw_ft_outcome(
            program_id,
            bridge_admin_key,
            bridge_admin_data,
            mint_key,
            mint_data,
            metadata_key,
            metadata,
            owner_key,
            owner_associated_key,
            owner_ata_empty,
            bridge_associated_key,
            bridge_associated_data,
            withdraw_key,
            withdraw_data,
            token_program_key,
            args,
        ) is Ok,
    ensures
        ({
            let acts = withdraw_ft_outcome(
                program_id,
                bridge_admin_key,
                bridge_admin_data,
                mint_key,
                mint_data,
                metadata_key,
                metadata,
                owner_key,
                owner_associated_key,
                owner_ata_empty,
                bridge_associated_key,
                bridge_associated_data,
                withdraw_key,
                withdraw_data,
                token_program_key,
                args,
            )->Ok_0.1;
            let signed = args.signed_meta->Some_0;
            &&& args.signed_meta is Some
            &&& mint_key == found_pda(seq![args.token_seed->Some_0], program_id)
            &&& acts.len() >= 3
            &&& acts[0] == (BridgeActionView::CreateAccount {
                address: mint_key,
                size: 82u64,
                owner: token_program_key,
                seeds: seq![args.token_seed->Some_0],
            })
            &&& acts[1] == (BridgeActionView::InitializeMint {
                mint: mint_key,
                authority: bridge_admin_key,
                decimals: signed.decimals,
            })
            &&& acts[2] == (BridgeActionView::CreateMetadata {
                metadata: metadata_key,
                mint: mint_key,
                authority: bridge_admin_key,
                payer: owner_key,
                name: signed.name,
                symbol: signed.symbol,
                uri: signed.uri,
            })
        }),
{
    let mint_acts = mirror_mint_actions(
        true,
        mint_key,
        token_program_key,
        args.token_seed->Some_0,
        bridge_admin_key,
        owner_key,
        metadata_key,
        args.signed_meta->Some_0,
    );
    let acts = withdraw_ft_outcome(
        program_id,
        bridge_admin_key,
        bridge_admin_data,
        mint_key,
        mint_data,
        metadata_key,
        metadata,
        owner_key,
        owner_associated_key,
        owner_ata_empty,
        bridge_associated_key,
        bridge_associated_data,
        withdraw_key,
        withdraw_data,
        token_program_key,
        args,
    )->Ok_0.1;
    assert(acts[0] == mint_acts[0]);
    assert(acts[1] == mint_acts[1]);
    assert(acts[2] == mint_acts[2]);
}

// ===== the deposit/charge coupling, as a law =====

/// A deposit whose transaction does not hold a matching commission charge
/// immediately before it always fails, whatever else its inputs hold.
pub proof fn lemma_deposit_fails_without_charge(
    program_id: Seq<u8>,
    bridge_admin_key: Seq<u8>,
    bridge_admin_data: Seq<u8>,
    mint_key: Seq<u8>,
    owner_associated_key: Seq<u8>,
    bridge_associated_key: Seq<u8>,
    bridge_ata_empty: bool,
    owner_key: Seq<u8>,
    prev: PrevInstructionView,
    seeds: Seq<u8>,
    token_seed: Option<Seq<u8>>,
    kind: TokenType,
    amount: u64,
)
    requires
        admin_ready(bridge_admin_data) ==> charge_error_of(
            bridge_admin_key,
            stored_admin(bridge_admin_data)->Some_0,
            prev,
            kind,
            amount,
        ) is Some,
    ensures
        deposit_token_outcome(
            program_id,
            bridge_admin_key,
            bridge_admin_data,
            mint_key,
            owner_associated_key,
            bridge_associated_key,
            bridge_ata_empty,
            owner_key,
            prev,
            seeds,
            token_seed,
            kind,
            amount,
        ) is Err,
{
}

} // verus!
