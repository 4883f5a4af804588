use vstd::prelude::*;
use crate::effect::Effect;
use crate::error::NeptuneError;
use crate::pool::lemma_stake_at_rate;
use crate::state::vault::Vault;

verus! {

/// What a deposit reads and writes.
#[derive(Debug, Clone, Copy, PartialEq, Eq)]
pub struct Stake {
    /// The vault that takes the deposit.
    pub vault: Vault,
}

impl Stake {
    /// Shares that a deposit of `utoken_amt` is owed at the present price.
    pub open spec fn lst_amt(self, utoken_amt: u64) -> nat {
        self.vault@.shares_for_deposit(utoken_amt as nat)
    }

    /// Why a deposit of `utoken_amt` is refused, if it is: nothing is
    /// deposited; else the shares owed, or one of the vault's totals after
    /// the deposit, would leave the 64-bit range.
    pub open spec fn refusal(self, utoken_amt: u64) -> Option<NeptuneError> {
        if utoken_amt == 0 {
            Some(NeptuneError::AmtMustGreaterThanZero)
        } else if self.lst_amt(utoken_amt) > u64::MAX || !self.vault@.stake(
            utoken_amt as nat,
            self.lst_amt(utoken_amt),
        ).fits() {
            Some(NeptuneError::ArithmeticOverflow)
        } else {
            None
        }
    }

    /// What a deposit asks for, in order: the lock manager takes the
    /// underlying tokens into the locked position, and the shares are
    /// minted to the depositor.
    pub open spec fn effects(self, utoken_amt: u64) -> Seq<Effect> {
        seq![
            Effect::IncreaseLockedAmount { amount: utoken_amt },
            Effect::MintTo { amount: self.lst_amt(utoken_amt) as u64 },
        ]
    }

    /// The context after the deposit: both amounts are on the vault's
    /// record.
    pub open spec fn staked(self, utoken_amt: u64) -> Stake {
        Stake {
            vault: self.vault.with_pool(
                self.vault@.stake(utoken_amt as nat, self.lst_amt(utoken_amt)),
            ),
        }
    }

    /// Deposits `utoken_amt` underlying tokens at the present price.
    pub fn stake(&mut self, utoken_amt: u64) -> (r: Result<Vec<Effect>, NeptuneError>)
        ensures
            match old(self).refusal(utoken_amt) {
                Some(e) => r == Err::<Vec<Effect>, NeptuneError>(e) && *final(self) == *old(self),
                None => r is Ok && r->Ok_0@ == old(self).effects(utoken_amt) && *final(self)
                    == old(self).staked(utoken_amt),
            },
            old(self).vault.wf() ==> final(self).vault.wf(),
    {
        proof {
            lemma_stake_at_rate(old(self).vault@, utoken_amt as nat);
        }
        if utoken_amt == 0 {
            return Err(NeptuneError::AmtMustGreaterThanZero);
        }
        let lst_amt: u64 = match self.vault.get_lst_amt(utoken_amt) {
            Ok(amount) => amount,
            Err(e) => { return Err(e); },
        };
        let mut vault: Vault = self.vault;
        match vault.stake(utoken_amt, lst_amt) {
            Ok(_) => {},
            Err(e) => { return Err(e); },
        }
        self.vault = vault;
        let mut effects: Vec<Effect> = Vec::new();
        effects.push(Effect::IncreaseLockedAmount { amount: utoken_amt });
        effects.push(Effect::MintTo { amount: lst_amt });
        assert(effects@ =~= old(self).effects(utoken_amt));
        Ok(effects)
    }
}

} // verus!
