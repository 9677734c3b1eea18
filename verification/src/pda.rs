//! Program-derived addresses.
//!
//! Admin accounts, withdrawal receipts, mirror mints, associated token
//! accounts and metadata records all live at addresses derived
//! deterministically from seeds and a program identity. The derivations are
//! done by the host chain's SDK; each stands behind a trusted wrapper whose
//! result is named by an uninterpreted spec function of the arguments alone,
//! so contracts can say exactly which address an operation checked.

use vstd::prelude::*;

verus! {

/// What program-derived-address creation returns for the given seeds and
/// program identity: `None` where the derived point lies on the curve and the
/// seeds are therefore rejected, else the 32 address bytes. A pure function
/// of its arguments.
pub uninterp spec fn pda_address(seeds: Seq<Seq<u8>>, program_id: Seq<u8>) -> Option<Seq<u8>>;

/// Relies on `solana_program::pubkey::Pubkey::create_program_address`:
/// derives the program address for the seeds without a bump search, erring
/// where the result would lie on the ed25519 curve or a seed is over-long.
#[verifier::external_body]
pub fn derive_pda(seeds: &Vec<Vec<u8>>, program_id: &[u8; 32]) -> (r: Option<[u8; 32]>)
    ensures
        match r {
            Some(k) => pda_address(seeds.deep_view(), program_id@) == Some(k@),
            None => pda_address(seeds.deep_view(), program_id@) is None,
        },
{
    let seed_refs: Vec<&[u8]> = seeds.iter().map(|s| s.as_slice()).collect();
    let program = solana_program::pubkey::Pubkey::from(*program_id);
    match solana_program::pubkey::Pubkey::create_program_address(&seed_refs, &program) {
        Ok(key) => Some(key.to_bytes()),
        Err(_) => None,
    }
}

/// The address that the bump search finds for the given seeds and program
/// identity: the seeds plus the largest workable bump byte. A pure function
/// of its arguments.
pub uninterp spec fn found_pda(seeds: Seq<Seq<u8>>, program_id: Seq<u8>) -> Seq<u8>;

/// Relies on `solana_program::pubkey::Pubkey::find_program_address`: searches
/// bump bytes from 255 downward and returns the first program address off the
/// curve. An over-long seed or too many of them makes every bump fail and the
/// search give up, so those inputs are excluded; the search also gives up in
/// the statistically unreachable case that every bump lands on the curve.
#[verifier::external_body]
pub fn find_pda_address(seeds: &Vec<Vec<u8>>, program_id: &[u8; 32]) -> (r: [u8; 32])
    requires
        seeds@.len() <= 15,
        forall|i: int| 0 <= i < seeds@.len() ==> seeds@[i]@.len() <= 32,
    ensures
        r@ == found_pda(seeds.deep_view(), program_id@),
{
    let seed_refs: Vec<&[u8]> = seeds.iter().map(|s| s.as_slice()).collect();
    let program = solana_program::pubkey::Pubkey::from(*program_id);
    let (key, _bump) = solana_program::pubkey::Pubkey::find_program_address(&seed_refs, &program);
    key.to_bytes()
}

/// The canonical associated-token-account address of a wallet for a mint.
/// A pure function of the two.
pub uninterp spec fn associated_token_address_spec(wallet: Seq<u8>, mint: Seq<u8>) -> Seq<u8>;

/// Relies on `spl_associated_token_account::get_associated_token_address`:
/// the canonical per-wallet, per-mint token account address.
#[verifier::external_body]
pub fn associated_token_address(wallet: &[u8; 32], mint: &[u8; 32]) -> (r: [u8; 32])
    ensures
        r@ == associated_token_address_spec(wallet@, mint@),
{
    spl_associated_token_account::get_associated_token_address(&From::from(*wallet), &From::from(*mint))
        .to_bytes()
}

/// The address of the token-metadata record of a mint. A pure function of
/// the mint.
pub uninterp spec fn metadata_account_spec(mint: Seq<u8>) -> Seq<u8>;

/// Relies on `mpl_token_metadata::accounts::Metadata::find_pda`: the
/// metadata-program-derived address of the mint's metadata record.
#[verifier::external_body]
pub fn metadata_account_address(mint: &[u8; 32]) -> (r: [u8; 32])
    ensures
        r@ == metadata_account_spec(mint@),
{
    let (key, _bump) = mpl_token_metadata::accounts::Metadata::find_pda(&From::from(*mint));
    key.to_bytes()
}

} // verus!
