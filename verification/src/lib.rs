//! A custodial escrow for one indivisible asset, with listing terms.
//!
//! A maker deposits one unit of an asset into a vault that no end user
//! controls: the vault stands under an authority derived from the maker, a
//! nonce and a salt, for which only this program can sign. While the asset is
//! in custody the maker may post a sale price or loan terms; a withdrawal
//! hands the asset back.
//!
//! - [`identity`], [`accounts`], [`state`], [`error`]: the data.
//! - [`authority`]: the derivation of the vault authority.
//! - [`contexts`]: the transitions, each on the accounts it reads and writes,
//!   with its result as a function of those accounts.
//! - [`escrow`]: the program's instructions, which derive the authority and
//!   then run a transition.
//! - [`laws`]: what holds of the transitions taken together.
//!
//! The library moves no asset itself. A transition returns the one movement
//! that the ledger is to carry out, and the accounts as they stand once it
//! has; if the ledger refuses the movement, the caller drops both.

pub mod accounts;
pub mod authority;
pub mod contexts;
pub mod error;
pub mod escrow;
pub mod identity;
pub mod laws;
pub mod state;
