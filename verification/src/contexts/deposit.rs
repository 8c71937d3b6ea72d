use vstd::prelude::*;
use crate::accounts::{Mint, Movement, TokenAccount, VaultAuthority};
use crate::error::EscrowError;
use crate::identity::Identity;
use crate::state::EscrowState;

verus! {

/// The accounts of a deposit: the caller, the two asset types, the caller's
/// holding of the asset, and the slots of the record and of its vault, empty
/// until a deposit fills them.
#[derive(Clone, Copy, Debug, PartialEq, Eq)]
pub struct Deposit {
    pub maker: Identity,
    pub mint_domain: Mint,
    pub mint_currency: Mint,
    pub maker_ata_domain: TokenAccount,
    pub escrow: Option<EscrowState>,
    pub vault: Option<TokenAccount>,
}

impl Deposit {
    /// Why a deposit on these accounts is refused, if it is. The first
    /// condition that holds decides:
    /// - `AlreadyExists`: the record or its vault is already there;
    /// - `Unauthorized`: the holding to debit is not the maker's;
    /// - `MintMismatch`: the holding is of another asset than the one named;
    /// - `InsufficientBalance`: the holding does not contain the unit.
    pub open spec fn refusal(self) -> Option<EscrowError> {
        if self.escrow is Some || self.vault is Some {
            Some(EscrowError::AlreadyExists)
        } else if self.maker_ata_domain.owner != self.maker {
            Some(EscrowError::Unauthorized)
        } else if self.maker_ata_domain.mint != self.mint_domain.key {
            Some(EscrowError::MintMismatch)
        } else if self.maker_ata_domain.amount == 0 {
            Some(EscrowError::InsufficientBalance)
        } else {
            None
        }
    }

    /// The movement that a deposit asks of the ledger: one unit of the asset,
    /// from the maker's holding to the vault, signed by the maker.
    pub open spec fn movement(self, authority: VaultAuthority) -> Movement {
        Movement {
            from: self.maker,
            to: authority.address,
            mint: self.mint_domain.key,
            authority: self.maker,
            amount: 1,
            decimals: self.mint_domain.decimals,
            signer: None,
        }
    }

    /// The accounts after an accepted deposit: a fresh record, a vault under
    /// the derived authority holding the unit, the maker's holding one unit
    /// lighter.
    pub open spec fn deposited(self, seed: u64, authority: VaultAuthority) -> Deposit {
        Deposit {
            maker: self.maker,
            mint_domain: self.mint_domain,
            mint_currency: self.mint_currency,
            maker_ata_domain: TokenAccount {
                mint: self.maker_ata_domain.mint,
                owner: self.maker_ata_domain.owner,
                amount: (self.maker_ata_domain.amount - 1) as u64,
            },
            escrow: Some(
                EscrowState::fresh(
                    seed,
                    self.maker,
                    self.mint_domain.key,
                    self.mint_currency.key,
                    authority.bump,
                ),
            ),
            vault: Some(
                TokenAccount { mint: self.mint_domain.key, owner: authority.address, amount: 1 },
            ),
        }
    }

    /// The accounts after a call, accepted or refused: a refused deposit
    /// leaves them as they were.
    pub open spec fn after(self, seed: u64, authority: VaultAuthority) -> Deposit {
        if self.refusal() is None {
            self.deposited(seed, authority)
        } else {
            self
        }
    }

    /// What a call answers: the refusal, or the movement to carry out.
    pub open spec fn answer(self, authority: VaultAuthority) -> Result<Movement, EscrowError> {
        match self.refusal() {
            Some(e) => Err(e),
            None => Ok(self.movement(authority)),
        }
    }

    /// Creates the record of `(maker, seed)` and takes the asset into custody
    /// under `authority`. Either every effect happens and the movement to
    /// carry out is returned, or the accounts are left as they were.
    pub fn deposit(&mut self, seed: u64, authority: &VaultAuthority) -> (asked: Result<
        Movement,
        EscrowError,
    >)
        ensures
            asked == old(self).answer(*authority),
            *final(self) == old(self).after(seed, *authority),
    {
        if self.escrow.is_some() || self.vault.is_some() {
            return Err(EscrowError::AlreadyExists);
        }
        if !self.maker_ata_domain.owner.same_as(&self.maker) {
            return Err(EscrowError::Unauthorized);
        }
        if !self.maker_ata_domain.mint.same_as(&self.mint_domain.key) {
            return Err(EscrowError::MintMismatch);
        }
        if self.maker_ata_domain.amount == 0 {
            return Err(EscrowError::InsufficientBalance);
        }
        self.escrow = Some(
            EscrowState {
                seed,
                maker: self.maker,
                owner: self.maker,
                mint_domain: self.mint_domain.key,
                mint_currency: self.mint_currency.key,
                wanted_loan_amount: 0,
                wanted_apy: 0,
                wanted_sell_amount: 0,
                bump: authority.bump,
            },
        );
        self.vault = Some(
            TokenAccount { mint: self.mint_domain.key, owner: authority.address, amount: 1 },
        );
        self.maker_ata_domain.amount = self.maker_ata_domain.amount - 1;
        Ok(
            Movement {
                from: self.maker,
                to: authority.address,
                mint: self.mint_domain.key,
                authority: self.maker,
                amount: 1,
                decimals: self.mint_domain.decimals,
                signer: None,
            },
        )
    }
}

} // verus!
