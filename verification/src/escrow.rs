use vstd::prelude::*;
use crate::accounts::{Movement, SignerSeeds, VaultAuthority};
use crate::authority::{
    derive_vault_authority,
    derived_address,
    found_address,
    record_seeds,
    signer_seeds,
    vault_authority,
};
use crate::contexts::deposit::Deposit;
use crate::contexts::make_loan_offer::MakeLoanOffer;
use crate::contexts::make_sell_offer::MakeSellOffer;
use crate::contexts::withdraw::Withdraw;
use crate::error::EscrowError;
use crate::identity::Identity;

verus! {

/// Why a deposit under `program` is refused, if it is: for want of a vault
/// authority where the search for a salt is exhausted, else for the handler's
/// reasons.
pub open spec fn deposit_refusal(program: Seq<u8>, accounts: Deposit, seed: u64) -> Option<
    EscrowError,
> {
    if found_address(record_seeds(accounts.maker@, seed), program) is None {
        Some(EscrowError::DerivationExhausted)
    } else {
        accounts.refusal()
    }
}

/// The identity that the triple stored in the record derives under
/// `program`, if the record exists and its triple derives one.
pub open spec fn rebuilt_authority(program: Seq<u8>, accounts: Withdraw) -> Option<Seq<u8>> {
    if accounts.escrow is Some {
        derived_address(
            signer_seeds(accounts.triple().maker@, accounts.triple().seed, accounts.triple().bump),
            program,
        )
    } else {
        None
    }
}

/// Deposit: derives the vault authority of `(maker, seed)` under
/// `program_id`, then creates the record and takes the asset into custody
/// under it, as [`Deposit::deposit`] does. Returns the identifier of the
/// record, which is the derived authority, and the movement to carry out. The
/// salt recorded is the one found, and with it the record's triple derives
/// the vault's authority. On failure the accounts are left as they were.
pub fn deposit(program_id: &Identity, accounts: &mut Deposit, seed: u64) -> (asked: Result<
    (Identity, Movement),
    EscrowError,
>)
    ensures
        match deposit_refusal(program_id@, *old(accounts), seed) {
            Some(e) => {
                &&& asked == Err::<(Identity, Movement), EscrowError>(e)
                &&& *final(accounts) == *old(accounts)
            },
            None => {
                &&& asked matches Ok((record, movement))
                &&& final(accounts).escrow matches Some(state)
                &&& found_address(record_seeds(old(accounts).maker@, seed), program_id@) == Some(
                    (record@, state.bump),
                )
                &&& movement == old(accounts).movement(
                    VaultAuthority { address: record, bump: state.bump },
                )
                &&& *final(accounts) == old(accounts).deposited(
                    seed,
                    VaultAuthority { address: record, bump: state.bump },
                )
                &&& rebuilt_authority(program_id@, Withdraw::following(*final(accounts))) == Some(
                    record@,
                )
            },
        },
{
    let authority = match derive_vault_authority(program_id, &accounts.maker, seed) {
        Ok(authority) => authority,
        Err(e) => {
            return Err(e);
        },
    };
    match accounts.deposit(seed, &authority) {
        Ok(movement) => Ok((authority.address, movement)),
        Err(e) => Err(e),
    }
}

/// Withdraw: rebuilds the vault authority from the triple that the record
/// stores, then hands the asset back to the maker as [`Withdraw::withdraw`]
/// does under that authority. On failure the accounts are left as they were.
pub fn withdraw(program_id: &Identity, accounts: &mut Withdraw) -> (asked: Result<
    Movement,
    EscrowError,
>)
    ensures
        asked == old(accounts).answer(rebuilt_authority(program_id@, *old(accounts))),
        *final(accounts) == old(accounts).after(rebuilt_authority(program_id@, *old(accounts))),
{
    let authority = match accounts.escrow {
        Some(state) => vault_authority(
            program_id,
            &SignerSeeds { maker: state.maker, seed: state.seed, bump: state.bump },
        ),
        None => None,
    };
    accounts.withdraw(authority)
}

/// Sell offer: posts or replaces the sale price of the record.
pub fn make_sell_offer(accounts: &mut MakeSellOffer, amount: u64) -> (done: Result<(), EscrowError>)
    ensures
        done == old(accounts).answer(amount),
        *final(accounts) == old(accounts).after(amount),
{
    accounts.make_sell_offer(amount)
}

/// Loan offer: posts or replaces the loan terms of the record.
pub fn make_loan_offer(accounts: &mut MakeLoanOffer, amount: u64, apy: u64) -> (done: Result<
    (),
    EscrowError,
>)
    ensures
        done == old(accounts).answer(amount),
        *final(accounts) == old(accounts).after(amount, apy),
{
    accounts.make_loan_offer(amount, apy)
}

} // verus!
