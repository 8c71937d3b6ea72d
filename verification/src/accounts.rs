use vstd::prelude::*;
use crate::identity::Identity;

verus! {

/// What the transitions read of an asset type: its identifier and the number
/// of decimals that a movement of it must quote.
#[derive(Clone, Copy, Debug, PartialEq, Eq)]
pub struct Mint {
    pub key: Identity,
    pub decimals: u8,
}

/// A holding: the balance of one asset type under one owner. The owner is the
/// only identity that may authorize a movement out of it.
#[derive(Clone, Copy, Debug, PartialEq, Eq)]
pub struct TokenAccount {
    pub mint: Identity,
    pub owner: Identity,
    pub amount: u64,
}

/// A vault authority as the derivation yields it: the derived identity and
/// the salt that completes its derivation.
#[derive(Clone, Copy, Debug, PartialEq, Eq)]
pub struct VaultAuthority {
    pub address: Identity,
    pub bump: u8,
}

/// The triple from which the vault authority of a record is rebuilt when the
/// library signs on the vault's behalf.
#[derive(Clone, Copy, Debug, PartialEq, Eq)]
pub struct SignerSeeds {
    pub maker: Identity,
    pub seed: u64,
    pub bump: u8,
}

/// One asset movement, to be carried out by the ledger: `amount` units of
/// `mint` leave the holding of `from` for the holding of `to`, authorized by
/// `authority`. `signer` is set when the authority is a derived one, which
/// only the holder of the derivation triple can sign for.
#[derive(Clone, Copy, Debug, PartialEq, Eq)]
pub struct Movement {
    pub from: Identity,
    pub to: Identity,
    pub mint: Identity,
    pub authority: Identity,
    pub amount: u64,
    pub decimals: u8,
    pub signer: Option<SignerSeeds>,
}

impl TokenAccount {
    /// A vault never holds more than the single unit in custody.
    pub open spec fn is_vault_balance(self) -> bool {
        self.amount <= 1
    }
}

} // verus!
