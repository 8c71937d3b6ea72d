use vstd::prelude::*;
use crate::accounts::{Mint, Movement, SignerSeeds, TokenAccount};
use crate::contexts::deposit::Deposit;
use crate::error::EscrowError;
use crate::identity::Identity;
use crate::state::EscrowState;

verus! {

/// The accounts of a withdrawal: the caller, the asset type named in the
/// request, the caller's holding of it, the record and its vault.
#[derive(Clone, Copy, Debug, PartialEq, Eq)]
pub struct Withdraw {
    pub maker: Identity,
    pub mint_domain: Mint,
    pub maker_ata_domain: TokenAccount,
    pub escrow: Option<EscrowState>,
    pub vault: Option<TokenAccount>,
}

/// The bytes of an identity that may be absent.
pub open spec fn bytes_of(identity: Option<Identity>) -> Option<Seq<u8>> {
    match identity {
        Some(known) => Some(known@),
        None => None,
    }
}

impl Withdraw {
    /// The accounts with which the maker of a deposit asks for the asset
    /// back: the record, the vault and the holding as the deposit call left
    /// them.
    pub open spec fn following(accounts: Deposit) -> Withdraw {
        Withdraw {
            maker: accounts.maker,
            mint_domain: accounts.mint_domain,
            maker_ata_domain: accounts.maker_ata_domain,
            escrow: accounts.escrow,
            vault: accounts.vault,
        }
    }

    /// The triple that the record stores for the derivation of its vault
    /// authority.
    pub open spec fn triple(self) -> SignerSeeds {
        SignerSeeds {
            maker: self.escrow->0.maker,
            seed: self.escrow->0.seed,
            bump: self.escrow->0.bump,
        }
    }

    /// Why a withdrawal on these accounts is refused, if it is, where
    /// `authority` is what the record's triple derives. The first condition
    /// that holds decides:
    /// - `NotFound`: there is no record, or no vault;
    /// - `Unauthorized`: the caller is not the record's maker, the holding to
    ///   credit is not the caller's, or the vault does not stand under the
    ///   derived authority, the only identity that can be signed for;
    /// - `MintMismatch`: the asset named is not the record's, or the holding
    ///   or the vault is of another asset;
    /// - `EmptyVault`: the vault holds nothing;
    /// - `MintMismatch`: the holding is full to the last unit a `u64` counts
    ///   while the vault still holds some. No single asset has that many
    ///   units, so the holding is not one of the vault's asset.
    pub open spec fn refusal(self, authority: Option<Seq<u8>>) -> Option<EscrowError> {
        if self.escrow is None || self.vault is None {
            Some(EscrowError::NotFound)
        } else if self.maker != self.escrow->0.maker || self.maker_ata_domain.owner != self.maker
            || authority != Some(self.vault->0.owner@) {
            Some(EscrowError::Unauthorized)
        } else if self.mint_domain.key != self.escrow->0.mint_domain
            || self.maker_ata_domain.mint != self.mint_domain.key
            || self.vault->0.mint != self.mint_domain.key {
            Some(EscrowError::MintMismatch)
        } else if self.vault->0.amount == 0 {
            Some(EscrowError::EmptyVault)
        } else if self.maker_ata_domain.amount == u64::MAX {
            Some(EscrowError::MintMismatch)
        } else {
            None
        }
    }

    /// The movement that a withdrawal asks of the ledger: one unit of the
    /// asset, from the vault to the maker's holding, signed by the vault's
    /// own authority with the triple that the record stores.
    pub open spec fn movement(self) -> Movement {
        Movement {
            from: self.vault->0.owner,
            to: self.maker,
            mint: self.mint_domain.key,
            authority: self.vault->0.owner,
            amount: 1,
            decimals: self.mint_domain.decimals,
            signer: Some(self.triple()),
        }
    }

    /// The accounts after an accepted withdrawal: the vault one unit lighter,
    /// the maker's holding one unit heavier, the record as it was.
    pub open spec fn withdrawn(self) -> Withdraw {
        Withdraw {
            maker: self.maker,
            mint_domain: self.mint_domain,
            maker_ata_domain: TokenAccount {
                mint: self.maker_ata_domain.mint,
                owner: self.maker_ata_domain.owner,
                amount: (self.maker_ata_domain.amount + 1) as u64,
            },
            escrow: self.escrow,
            vault: Some(
                TokenAccount {
                    mint: self.vault->0.mint,
                    owner: self.vault->0.owner,
                    amount: (self.vault->0.amount - 1) as u64,
                },
            ),
        }
    }

    /// The accounts after a call, accepted or refused: a refused withdrawal
    /// leaves them as they were.
    pub open spec fn after(self, authority: Option<Seq<u8>>) -> Withdraw {
        if self.refusal(authority) is None {
            self.withdrawn()
        } else {
            self
        }
    }

    /// What a call answers: the refusal, or the movement to carry out.
    pub open spec fn answer(self, authority: Option<Seq<u8>>) -> Result<Movement, EscrowError> {
        match self.refusal(authority) {
            Some(e) => Err(e),
            None => Ok(self.movement()),
        }
    }

    /// Hands the asset back to the maker. `authority` is the identity that
    /// the record's triple derives, or `None` if it derives none. Either
    /// every effect happens and the movement to carry out is returned, or the
    /// accounts are left as they were.
    pub fn withdraw(&mut self, authority: Option<Identity>) -> (asked: Result<Movement, EscrowError>)
        ensures
            asked == old(self).answer(bytes_of(authority)),
            *final(self) == old(self).after(bytes_of(authority)),
    {
        let (state, vault) = match (self.escrow, self.vault) {
            (Some(state), Some(vault)) => (state, vault),
            _ => {
                return Err(EscrowError::NotFound);
            },
        };
        if !self.maker.same_as(&state.maker) || !self.maker_ata_domain.owner.same_as(&self.maker) {
            return Err(EscrowError::Unauthorized);
        }
        match authority {
            Some(derived) => {
                if !derived.same_as(&vault.owner) {
                    return Err(EscrowError::Unauthorized);
                }
            },
            None => {
                return Err(EscrowError::Unauthorized);
            },
        }
        if !self.mint_domain.key.same_as(&state.mint_domain)
            || !self.maker_ata_domain.mint.same_as(&self.mint_domain.key)
            || !vault.mint.same_as(&self.mint_domain.key) {
            return Err(EscrowError::MintMismatch);
        }
        if vault.amount == 0 {
            return Err(EscrowError::EmptyVault);
        }
        if self.maker_ata_domain.amount == u64::MAX {
            return Err(EscrowError::MintMismatch);
        }
        self.vault = Some(
            TokenAccount { mint: vault.mint, owner: vault.owner, amount: vault.amount - 1 },
        );
        self.maker_ata_domain.amount = self.maker_ata_domain.amount + 1;
        Ok(
            Movement {
                from: vault.owner,
                to: self.maker,
                mint: self.mint_domain.key,
                authority: vault.owner,
                amount: 1,
                decimals: self.mint_domain.decimals,
                signer: Some(SignerSeeds { maker: state.maker, seed: state.seed, bump: state.bump }),
            },
        )
    }
}

} // verus!
