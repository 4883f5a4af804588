use vstd::prelude::*;
use anchor_lang::prelude::Pubkey;
use crate::effect::Effect;
use crate::error::NeptuneError;
use crate::key::same_key;
use crate::state::unstaking::Unstaking;
use crate::state::vault::Vault;

verus! {

/// What the cancellation of a pending withdrawal reads.
#[derive(Debug, Clone, Copy, PartialEq, Eq)]
pub struct MergeUnstake {
    /// Who asks for the cancellation.
    pub signer: Pubkey,
    /// The vault that the ticket belongs to; read, never written.
    pub vault: Vault,
    /// The ticket to cancel.
    pub unstaking: Unstaking,
}

impl MergeUnstake {
    /// What the cancellation asks for, in order: the shares of the ticket
    /// leave custody for the requester, the lock manager folds the pending
    /// unlock back into the locked position, and the ticket is closed.
    pub open spec fn effects(self) -> Seq<Effect> {
        seq![
            Effect::TransferFromEscrow { amount: self.unstaking.lst_amt },
            Effect::MergePartialUnstaking,
            Effect::CloseUnstaking,
        ]
    }

    /// Cancels the withdrawal for the owner of the ticket. No underlying
    /// token moves, and the vault's record stays as it is.
    pub fn merge_unstaking(&mut self) -> (r: Result<Vec<Effect>, NeptuneError>)
        ensures
            *final(self) == *old(self),
            old(self).signer != old(self).unstaking.owner ==> r == Err::<Vec<Effect>, NeptuneError>(
                NeptuneError::InvalidOwner,
            ),
            old(self).signer == old(self).unstaking.owner ==> r is Ok
                && r->Ok_0@ == old(self).effects(),
    {
        if !same_key(&self.signer, &self.unstaking.owner) {
            return Err(NeptuneError::InvalidOwner);
        }
        let mut effects: Vec<Effect> = Vec::new();
        effects.push(Effect::TransferFromEscrow { amount: self.unstaking.lst_amt });
        effects.push(Effect::MergePartialUnstaking);
        effects.push(Effect::CloseUnstaking);
        assert(effects@ =~= old(self).effects());
        Ok(effects)
    }
}

} // verus!
