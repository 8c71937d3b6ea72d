use vstd::prelude::*;
use crate::error::EscrowError;
use crate::identity::Identity;
use crate::state::EscrowState;

verus! {

/// The accounts of a sell offer: the caller and the record to list.
#[derive(Clone, Copy, Debug, PartialEq, Eq)]
pub struct MakeSellOffer {
    pub maker: Identity,
    pub escrow: Option<EscrowState>,
}

impl MakeSellOffer {
    /// Why a sell offer of `amount` on these accounts is refused, if it is.
    /// The first condition that holds decides:
    /// - `InvalidAmount`: the price is zero, whatever the accounts are;
    /// - `NotFound`: there is no record;
    /// - `Unauthorized`: the caller is not the record's maker.
    pub open spec fn refusal(self, amount: u64) -> Option<EscrowError> {
        if amount == 0 {
            Some(EscrowError::InvalidAmount)
        } else if self.escrow is None {
            Some(EscrowError::NotFound)
        } else if self.maker != self.escrow->0.maker {
            Some(EscrowError::Unauthorized)
        } else {
            None
        }
    }

    /// The accounts after an accepted offer: the record with its sale price
    /// set, all else as it was.
    pub open spec fn offered(self, amount: u64) -> MakeSellOffer {
        MakeSellOffer {
            maker: self.maker,
            escrow: Some(EscrowState { wanted_sell_amount: amount, ..self.escrow->0 }),
        }
    }

    /// The accounts after a call, accepted or refused: a refused offer leaves
    /// them as they were.
    pub open spec fn after(self, amount: u64) -> MakeSellOffer {
        if self.refusal(amount) is None {
            self.offered(amount)
        } else {
            self
        }
    }

    /// What a call answers: the refusal, or nothing.
    pub open spec fn answer(self, amount: u64) -> Result<(), EscrowError> {
        match self.refusal(amount) {
            Some(e) => Err(e),
            None => Ok(()),
        }
    }

    /// Posts or replaces the sale price of the record. No asset moves.
    pub fn make_sell_offer(&mut self, amount: u64) -> (done: Result<(), EscrowError>)
        ensures
            done == old(self).answer(amount),
            *final(self) == old(self).after(amount),
    {
        if amount == 0 {
            return Err(EscrowError::InvalidAmount);
        }
        let mut state = match self.escrow {
            Some(state) => state,
            None => {
                return Err(EscrowError::NotFound);
            },
        };
        if !self.maker.same_as(&state.maker) {
            return Err(EscrowError::Unauthorized);
        }
        state.wanted_sell_amount = amount;
        self.escrow = Some(state);
        Ok(())
    }
}

} // verus!
