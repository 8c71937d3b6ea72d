use vstd::prelude::*;

verus! {

/// Why a transition was refused. Every refusal is final for the transition
/// that raised it: nothing was changed and no movement was asked for.
#[derive(Clone, Copy, Debug, PartialEq, Eq, Structural)]
pub enum EscrowError {
    /// A record for this maker and nonce is already present.
    AlreadyExists,
    /// No record matches the request.
    NotFound,
    /// The caller is not the maker, or the vault is not under the authority
    /// that the record derives.
    Unauthorized,
    /// A listing amount must be strictly positive.
    InvalidAmount,
    /// The maker's holding does not contain the unit to escrow.
    InsufficientBalance,
    /// An account is bound to another asset than the one declared.
    MintMismatch,
    /// The vault holds nothing to hand back.
    EmptyVault,
    /// No salt yields a usable vault authority for this maker and nonce.
    DerivationExhausted,
}

impl EscrowError {
    /// A short sentence for logs and clients.
    pub fn message(&self) -> (text: &'static str)
        ensures
            text@ == Self::message_of(*self),
    {
        match self {
            EscrowError::AlreadyExists => "Escrow record already exists.",
            EscrowError::NotFound => "Escrow record not found.",
            EscrowError::Unauthorized => "Caller is not authorized.",
            EscrowError::InvalidAmount => "Invalid sell amount.",
            EscrowError::InsufficientBalance => "Insufficient balance.",
            EscrowError::MintMismatch => "Mint mismatch.",
            EscrowError::EmptyVault => "Vault is empty.",
            EscrowError::DerivationExhausted => "No vault authority could be derived.",
        }
    }

    /// The sentence that [`EscrowError::message`] returns for each variant.
    pub open spec fn message_of(e: EscrowError) -> Seq<char> {
        match e {
            EscrowError::AlreadyExists => "Escrow record already exists."@,
            EscrowError::NotFound => "Escrow record not found."@,
            EscrowError::Unauthorized => "Caller is not authorized."@,
            EscrowError::InvalidAmount => "Invalid sell amount."@,
            EscrowError::InsufficientBalance => "Insufficient balance."@,
            EscrowError::MintMismatch => "Mint mismatch."@,
            EscrowError::EmptyVault => "Vault is empty."@,
            EscrowError::DerivationExhausted => "No vault authority could be derived."@,
        }
    }
}

} // verus!
