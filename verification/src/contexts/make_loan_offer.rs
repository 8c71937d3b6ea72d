use vstd::prelude::*;
use crate::error::EscrowError;
use crate::identity::Identity;
use crate::state::EscrowState;

verus! {

/// The accounts of a loan offer: the caller and the record to list.
#[derive(Clone, Copy, Debug, PartialEq, Eq)]
pub struct MakeLoanOffer {
    pub maker: Identity,
    pub escrow: Option<EscrowState>,
}

impl MakeLoanOffer {
    /// Why a loan offer of `amount` on these accounts is refused, if it is.
    /// The first condition that holds decides:
    /// - `InvalidAmount`: the amount is zero, whatever the accounts are;
    /// - `NotFound`: there is no record;
    /// - `Unauthorized`: the caller is not the record's maker.
    pub open spec fn refusal(self, amount: u64) -> Option<EscrowError> {
        if amount == 0 {
            Some(EscrowError::InvalidAmount)
        } else if self.escrow is None {
            Some(EscrowError::NotFound)
        } else if self.maker != self.escrow->0.maker {
            Some(EscrowError::Unauthorized)
        } else {
            None
        }
    }

    /// The accounts after an accepted offer: the record with its loan terms
    /// set, all else as it was.
    pub open spec fn offered(self, amount: u64, apy: u64) -> MakeLoanOffer {
        MakeLoanOffer {
            maker: self.maker,
            escrow: Some(
                EscrowState { wanted_loan_amount: amount, wanted_apy: apy, ..self.escrow->0 },
            ),
        }
    }

    /// The accounts after a call, accepted or refused: a refused offer leaves
    /// them as they were.
    pub open spec fn after(self, amount: u64, apy: u64) -> MakeLoanOffer {
        if self.refusal(amount) is None {
            self.offered(amount, apy)
        } else {
            self
        }
    }

    /// What a call answers: the refusal, or nothing.
    pub open spec fn answer(self, amount: u64) -> Result<(), EscrowError> {
        match self.refusal(amount) {
            Some(e) => Err(e),
            None => Ok(()),
        }
    }

    /// Posts or replaces the loan terms of the record. No asset moves.
    pub fn make_loan_offer(&mut self, amount: u64, apy: u64) -> (done: Result<(), EscrowError>)
        ensures
            done == old(self).answer(amount),
            *final(self) == old(self).after(amount, apy),
    {
        if amount == 0 {
            return Err(EscrowError::InvalidAmount);
        }
        let mut state = match self.escrow {
            Some(state) => state,
            None => {
                return Err(EscrowError::NotFound);
            },
        };
        if !self.maker.same_as(&state.maker) {
            return Err(EscrowError::Unauthorized);
        }
        state.wanted_loan_amount = amount;
        state.wanted_apy = apy;
        self.escrow = Some(state);
        Ok(())
    }
}

} // verus!
