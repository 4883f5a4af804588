use vstd::prelude::*;
use anchor_lang::prelude::Pubkey;
use crate::effect::Effect;
use crate::error::NeptuneError;
use crate::state::unstaking::Unstaking;
use crate::state::vault::Vault;

verus! {

/// What the opening of a withdrawal reads and writes.
#[derive(Debug, Clone, Copy, PartialEq, Eq)]
pub struct BeginUnstaking {
    /// Who asks for the withdrawal.
    pub signer: Pubkey,
    /// The address of the vault's record.
    pub vault_key: Pubkey,
    /// The vault; read, never written.
    pub vault: Vault,
    /// The address at which the lock manager will keep the timed unlock.
    pub partial_unstaking: Pubkey,
    /// The ticket; new, and written here.
    pub unstaking: Unstaking,
}

impl BeginUnstaking {
    /// Why a withdrawal of `lst_amt` shares is refused, if it is: nothing is
    /// asked for; else the shares are worth more than 64 bits hold.
    pub open spec fn refusal(self, lst_amt: u64) -> Option<NeptuneError> {
        if lst_amt == 0 {
            Some(NeptuneError::AmtMustGreaterThanZero)
        } else if self.vault@.underlying_for_shares(lst_amt as nat) > u64::MAX {
            Some(NeptuneError::ArithmeticOverflow)
        } else {
            None
        }
    }

    /// The ticket for `lst_amt` shares: they are priced now, once.
    pub open spec fn ticket(self, lst_amt: u64) -> Unstaking {
        Unstaking {
            owner: self.signer,
            vault: self.vault_key,
            partial_unstaking: self.partial_unstaking,
            lst_amt,
            utoken_amt: self.vault@.underlying_for_shares(lst_amt as nat) as u64,
        }
    }

    /// What the opening asks for, in order: the shares go into custody, and
    /// the lock manager begins to unlock what they are worth.
    pub open spec fn effects(self, lst_amt: u64) -> Seq<Effect> {
        seq![
            Effect::TransferToEscrow { amount: lst_amt },
            Effect::OpenPartialUnstaking { amount: self.ticket(lst_amt).utoken_amt },
        ]
    }

    /// Opens a withdrawal of `lst_amt` shares: writes the ticket and leaves
    /// the vault as it is.
    pub fn begin_unstaking(&mut self, lst_amt: u64) -> (r: Result<Vec<Effect>, NeptuneError>)
        ensures
            match old(self).refusal(lst_amt) {
                Some(e) => r == Err::<Vec<Effect>, NeptuneError>(e) && *final(self) == *old(self),
                None => r is Ok && r->Ok_0@ == old(self).effects(lst_amt) && *final(self) == (
                BeginUnstaking { unstaking: old(self).ticket(lst_amt), ..*old(self) }),
            },
    {
        if lst_amt == 0 {
            return Err(NeptuneError::AmtMustGreaterThanZero);
        }
        let utoken_amt: u64 = match self.vault.get_utoken_amt(lst_amt) {
            Ok(amount) => amount,
            Err(e) => { return Err(e); },
        };
        self.unstaking = Unstaking {
            owner: self.signer,
            vault: self.vault_key,
            partial_unstaking: self.partial_unstaking,
            lst_amt,
            utoken_amt,
        };
        let mut effects: Vec<Effect> = Vec::new();
        effects.push(Effect::TransferToEscrow { amount: lst_amt });
        effects.push(Effect::OpenPartialUnstaking { amount: utoken_amt });
        assert(effects@ =~= old(self).effects(lst_amt));
        Ok(effects)
    }
}

} // verus!
