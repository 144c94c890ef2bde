//! The trusted boundary to the hosting platform's crates: address
//! derivation, the rent sysvar, and instruction builders. Each item here
//! wraps exactly one outside call; everything around these calls is
//! verified.

use vstd::prelude::*;

use crate::address::Address;

verus! {

/// The address and bump that the host derives from an ordered list of seed
/// byte-strings and a program identity, or nothing when no valid bump exists
/// in the search space. The result is a function of the seeds and the
/// program identity alone.
pub uninterp spec fn derived_address(seeds: Seq<Seq<u8>>, program_id: Seq<u8>) -> Option<
    (Seq<u8>, u8),
>;

/// The canonical associated token account of a wallet for a mint, a function
/// of the two identities alone.
pub uninterp spec fn associated_token_address(wallet: Seq<u8>, mint: Seq<u8>) -> Seq<u8>;

#[verifier::external_type_specification]
#[verifier::external_body]
pub struct ExInstruction(solana_program::instruction::Instruction);

#[verifier::external_type_specification]
#[verifier::external_body]
pub struct ExRent(solana_program::rent::Rent);

/// Relies on Pubkey::try_find_program_address: deterministically derives an
/// off-curve address and bump from the seeds and program id, or returns
/// nothing when no bump in the search space gives a valid address.
#[verifier::external_body]
pub(crate) fn find_derived_address(seeds: &Vec<Vec<u8>>, program_id: &Address) -> (r: Option<
    (Address, u8),
>)
    ensures
        match r {
            Some((addr, bump)) => derived_address(
                seeds@.map_values(|s: Vec<u8>| s@),
                program_id@,
            ) == Some((addr@, bump)),
            None => derived_address(seeds@.map_values(|s: Vec<u8>| s@), program_id@) is None,
        },
{
    let seed_refs: Vec<&[u8]> = seeds.iter().map(|s| s.as_slice()).collect();
    let pk = solana_program::pubkey::Pubkey::new_from_array(program_id.bytes);
    solana_program::pubkey::Pubkey::try_find_program_address(&seed_refs, &pk).map(
        |(addr, bump)| (Address { bytes: addr.to_bytes() }, bump),
    )
}

/// Relies on spl_associated_token_account::get_associated_token_address:
/// derives the canonical associated token account of a wallet for a mint,
/// from the two identities alone.
#[verifier::external_body]
pub(crate) fn find_associated_token_address(wallet: &Address, mint: &Address) -> (r: Address)
    ensures
        r@ == associated_token_address(wallet@, mint@),
{
    let w = solana_program::pubkey::Pubkey::new_from_array(wallet.bytes);
    let m = solana_program::pubkey::Pubkey::new_from_array(mint.bytes);
    Address { bytes: spl_associated_token_account::get_associated_token_address(&w, &m).to_bytes() }
}

/// Relies on Rent::get: reads the host's rent sysvar; what it holds depends
/// on the host, so nothing is assumed of the outcome.
#[verifier::external_body]
pub(crate) fn fetch_rent() -> (r: Option<solana_program::rent::Rent>)
{
    <solana_program::rent::Rent as solana_program::sysvar::Sysvar>::get().ok()
}

/// Relies on Rent::minimum_balance: the smallest deposit that exempts a cell
/// of the given size from ongoing storage fees under the given rent
/// parameters; nothing is assumed of the amount.
#[verifier::external_body]
pub(crate) fn rent_minimum_balance(rent: &solana_program::rent::Rent, size: u64) -> (r: u64)
{
    rent.minimum_balance(size as usize)
}

/// Relies on spl_token::ID: the token program's identity.
#[verifier::external_body]
pub(crate) fn token_program_id() -> (r: Address)
{
    Address { bytes: spl_token::ID.to_bytes() }
}

/// Relies on solana_program::system_program::ID: the storage allocator's
/// identity.
#[verifier::external_body]
pub(crate) fn system_program_id() -> (r: Address)
{
    Address { bytes: solana_program::system_program::ID.to_bytes() }
}

/// Relies on solana_program::sysvar::rent::ID: the rent sysvar's identity.
#[verifier::external_body]
pub(crate) fn rent_sysvar_id() -> (r: Address)
{
    Address { bytes: solana_program::sysvar::rent::ID.to_bytes() }
}

/// Relies on system_instruction::create_account: builds the instruction that
/// moves `deposit` from the payer into a fresh cell of `size` bytes at the
/// target address, owned by `owner`. Building never fails; the host executes
/// the instruction later.
#[verifier::external_body]
pub(crate) fn build_create_account(
    payer: &Address,
    target: &Address,
    deposit: u64,
    size: u64,
    owner: &Address,
) -> (r: solana_program::instruction::Instruction)
{
    solana_program::system_instruction::create_account(
        &solana_program::pubkey::Pubkey::new_from_array(payer.bytes),
        &solana_program::pubkey::Pubkey::new_from_array(target.bytes),
        deposit,
        size,
        &solana_program::pubkey::Pubkey::new_from_array(owner.bytes),
    )
}

/// Relies on spl_token::instruction::mint_to: builds the instruction that
/// mints `amount` base units of `mint` to `destination` under `authority`.
/// It is built for the token program's own identity, whose format check is
/// the builder's only failure, so the unwrap cannot fire.
#[verifier::external_body]
pub(crate) fn build_mint_to(
    mint: &Address,
    destination: &Address,
    authority: &Address,
    amount: u64,
) -> (r: solana_program::instruction::Instruction)
{
    spl_token::instruction::mint_to(
        &spl_token::ID,
        &solana_program::pubkey::Pubkey::new_from_array(mint.bytes),
        &solana_program::pubkey::Pubkey::new_from_array(destination.bytes),
        &solana_program::pubkey::Pubkey::new_from_array(authority.bytes),
        &[],
        amount,
    ).unwrap()
}

/// Relies on spl_token::instruction::initialize_mint: builds the instruction
/// that initializes the mint cell with the given authority, freeze authority
/// and decimal precision. It is built for the token program's own identity,
/// whose format check is the builder's only failure, so the unwrap cannot
/// fire.
#[verifier::external_body]
pub(crate) fn build_initialize_mint(
    mint: &Address,
    authority: &Address,
    freeze_authority: Option<&Address>,
    decimals: u8,
) -> (r: solana_program::instruction::Instruction)
{
    let fa = freeze_authority.map(
        |a| solana_program::pubkey::Pubkey::new_from_array(a.bytes),
    );
    spl_token::instruction::initialize_mint(
        &spl_token::ID,
        &solana_program::pubkey::Pubkey::new_from_array(mint.bytes),
        &solana_program::pubkey::Pubkey::new_from_array(authority.bytes),
        fa.as_ref(),
        decimals,
    ).unwrap()
}

} // verus!
