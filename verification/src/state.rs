use vstd::prelude::*;
use crate::accounts::TokenAccount;
use crate::identity::Identity;

verus! {

/// The persistent record of one custody arrangement.
#[derive(Clone, Copy, Debug, PartialEq, Eq)]
pub struct EscrowState {
    /// Nonce chosen by the maker.
    pub seed: u64,
    /// The identity that created the record and deposited the asset.
    pub maker: Identity,
    /// The identity entitled to the listing; the maker at creation.
    pub owner: Identity,
    /// The asset type held in custody.
    pub mint_domain: Identity,
    /// The asset type in which the listing terms are priced.
    pub mint_currency: Identity,
    /// Loan terms; zero means that no loan offer is posted.
    pub wanted_loan_amount: u64,
    pub wanted_apy: u64,
    /// Sale price; zero means that no sell offer is posted.
    pub wanted_sell_amount: u64,
    /// The salt that completes the derivation of the vault authority.
    pub bump: u8,
}

/// An empty account set, kept for clients that address the program without
/// touching a record.
#[derive(Clone, Copy, Debug, PartialEq, Eq)]
pub struct Initialize {}

/// Where a custody arrangement stands. A deposit leads from `Uninitialized`
/// to `Funded`, a withdrawal from `Funded` to `Emptied`, and nothing leads
/// back.
#[derive(Clone, Copy, Debug, PartialEq, Eq, Structural)]
pub enum Stage {
    /// No record and no vault yet.
    Uninitialized,
    /// The record exists and its vault holds the asset.
    Funded,
    /// The record exists and its vault has been emptied.
    Emptied,
}

/// The stage that a record slot and a vault slot show together. A record
/// without a vault, or a vault without a record, shows none.
pub open spec fn stage_of(escrow: Option<EscrowState>, vault: Option<TokenAccount>) -> Option<Stage> {
    match (escrow, vault) {
        (None, None) => Some(Stage::Uninitialized),
        (Some(_), Some(held)) => if held.amount == 0 {
            Some(Stage::Emptied)
        } else {
            Some(Stage::Funded)
        },
        _ => None,
    }
}

impl EscrowState {
    /// The record that a deposit writes: listing terms at zero, the maker as
    /// owner.
    pub open spec fn fresh(
        seed: u64,
        maker: Identity,
        mint_domain: Identity,
        mint_currency: Identity,
        bump: u8,
    ) -> EscrowState {
        EscrowState {
            seed,
            maker,
            owner: maker,
            mint_domain,
            mint_currency,
            wanted_loan_amount: 0,
            wanted_apy: 0,
            wanted_sell_amount: 0,
            bump,
        }
    }

    /// No listing term is posted.
    pub open spec fn no_terms(self) -> bool {
        self.wanted_loan_amount == 0 && self.wanted_apy == 0 && self.wanted_sell_amount == 0
    }

    /// The fields that no transition changes once the record exists.
    pub open spec fn same_identity_as(self, other: EscrowState) -> bool {
        &&& self.seed == other.seed
        &&& self.maker == other.maker
        &&& self.owner == other.owner
        &&& self.mint_domain == other.mint_domain
        &&& self.mint_currency == other.mint_currency
        &&& self.bump == other.bump
    }
}

} // verus!
