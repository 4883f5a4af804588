use vstd::prelude::*;
use anchor_lang::prelude::Pubkey;
use crate::effect::Effect;
use crate::error::NeptuneError;
use crate::key::same_key;
use crate::state::unstaking::Unstaking;
use crate::state::vault::Vault;

verus! {

/// What the settlement of a matured withdrawal reads and writes.
#[derive(Debug, Clone, Copy, PartialEq, Eq)]
pub struct WithdrawUnstake {
    /// Who asks for the settlement.
    pub signer: Pubkey,
    /// The vault that the ticket belongs to.
    pub vault: Vault,
    /// The ticket to settle.
    pub unstaking: Unstaking,
    /// Shares that the custody account of the ticket holds.
    pub lst_escrow_amount: u64,
}

impl WithdrawUnstake {
    /// Why the settlement is refused, if it is: the caller does not own the
    /// ticket; else the vault has less on record than the ticket takes off;
    /// else the custody account holds less than the ticket records.
    pub open spec fn refusal(self) -> Option<NeptuneError> {
        if self.signer != self.unstaking.owner {
            Some(NeptuneError::InvalidOwner)
        } else if !self.vault@.covers(
            self.unstaking.lst_amt as nat,
            self.unstaking.utoken_amt as nat,
        ) {
            Some(NeptuneError::InvalidUnstakeAmt)
        } else if self.lst_escrow_amount < self.unstaking.lst_amt {
            Some(NeptuneError::EscrowAmtIsNotCorrect)
        } else {
            None
        }
    }

    /// Shares in custody beyond those of the ticket. They came from outside
    /// and go back to the requester.
    pub open spec fn exceeding(self) -> int {
        self.lst_escrow_amount - self.unstaking.lst_amt
    }

    /// What a settlement asks for, in order: the lock manager pays the
    /// amount that the ticket records; shares in excess go back to the
    /// requester; the shares of the ticket are burnt; the custody account
    /// and the ticket are closed.
    pub open spec fn effects(self) -> Seq<Effect> {
        if self.exceeding() > 0 {
            seq![
                Effect::WithdrawPartialUnstaking { amount: self.unstaking.utoken_amt },
                Effect::TransferFromEscrow { amount: self.exceeding() as u64 },
                Effect::Burn { amount: self.unstaking.lst_amt },
                Effect::CloseEscrow,
                Effect::CloseUnstaking,
            ]
        } else {
            seq![
                Effect::WithdrawPartialUnstaking { amount: self.unstaking.utoken_amt },
                Effect::Burn { amount: self.unstaking.lst_amt },
                Effect::CloseEscrow,
                Effect::CloseUnstaking,
            ]
        }
    }

    /// The context after a settlement: the vault has the ticket's two
    /// amounts off its record, the rest is as before.
    pub open spec fn settled(self) -> WithdrawUnstake {
        WithdrawUnstake {
            vault: self.vault.with_pool(
                self.vault@.unstake(
                    self.unstaking.lst_amt as nat,
                    self.unstaking.utoken_amt as nat,
                ),
            ),
            ..self
        }
    }

    /// Settles the ticket. The amounts are those that the ticket records,
    /// whatever a share is worth now.
    pub fn withdraw_unstake(&mut self) -> (r: Result<Vec<Effect>, NeptuneError>)
        ensures
            match old(self).refusal() {
                Some(e) => r == Err::<Vec<Effect>, NeptuneError>(e) && *final(self) == *old(self),
                None => r is Ok && r->Ok_0@ == old(self).effects()
                    && *final(self) == old(self).settled(),
            },
            old(self).vault.wf() && old(self).unstaking.utoken_amt
                == old(self).vault@.underlying_for_shares(old(self).unstaking.lst_amt as nat)
                ==> final(self).vault.wf(),
    {
        if !same_key(&self.signer, &self.unstaking.owner) {
            return Err(NeptuneError::InvalidOwner);
        }
        let mut vault: Vault = self.vault;
        match vault.unstake(self.unstaking.lst_amt, self.unstaking.utoken_amt) {
            Ok(_) => {},
            Err(e) => { return Err(e); },
        }
        let exceeding_amt: u64 = match self.lst_escrow_amount.checked_sub(self.unstaking.lst_amt) {
            Some(left) => left,
            None => { return Err(NeptuneError::EscrowAmtIsNotCorrect); },
        };
        let mut effects: Vec<Effect> = Vec::new();
        effects.push(Effect::WithdrawPartialUnstaking { amount: self.unstaking.utoken_amt });
        if exceeding_amt > 0 {
            effects.push(Effect::TransferFromEscrow { amount: exceeding_amt });
        }
        effects.push(Effect::Burn { amount: self.unstaking.lst_amt });
        effects.push(Effect::CloseEscrow);
        effects.push(Effect::CloseUnstaking);
        self.vault = vault;
        assert(effects@ =~= old(self).effects());
        Ok(effects)
    }
}

} // verus!
