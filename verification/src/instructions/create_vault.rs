use vstd::prelude::*;
use anchor_lang::prelude::Pubkey;
use crate::effect::Effect;
use crate::error::NeptuneError;
use crate::state::vault::Vault;

verus! {

/// Reads `MAX_FEE_BASIS_POINTS` of the token program's transfer-fee
/// extension: ten thousand, one hundred per cent in basis points.
#[verifier::external_body]
fn max_fee_basis_points() -> (max: u16)
    ensures
        max == 10_000,
{
    anchor_spl::token_2022::spl_token_2022::extension::transfer_fee::MAX_FEE_BASIS_POINTS
}

/// What the creation of a vault reads and writes.
#[derive(Debug, Clone, Copy, PartialEq, Eq)]
pub struct CreateVault {
    /// The vault's record; new, and written here.
    pub vault: Vault,
    /// The address of the custody record that the lock manager opens for
    /// the vault.
    pub escrow: Pubkey,
    /// The mint of the vault's share token.
    pub lst_mint: Pubkey,
    /// Who will administer the vault.
    pub vault_owner: Pubkey,
}

impl CreateVault {
    /// The record of a vault that was just created: nothing minted, nothing
    /// staked.
    pub open spec fn created(self, vault_bump: u8, fees_bps: u16) -> Vault {
        Vault {
            owner: self.vault_owner,
            escrow: self.escrow,
            lst_mint: self.lst_mint,
            total_lst_minted: 0,
            total_utoken_staked: 0,
            fees_bps,
            bump: vault_bump,
        }
    }

    /// What the creation asks of the lock manager, in order: a custody
    /// record for the vault, then the maximum lock on it.
    pub open spec fn effects() -> Seq<Effect> {
        seq![Effect::NewEscrow, Effect::ToggleMaxLock { is_max_lock: true }]
    }

    /// Creates the vault with a fee rate of `fees_bps` basis points, which
    /// must be below one hundred per cent.
    pub fn create_vault(&mut self, vault_bump: u8, fees_bps: u16) -> (r: Result<
        Vec<Effect>,
        NeptuneError,
    >)
        ensures
            fees_bps >= Vault::fee_rate_limit() ==> r == Err::<Vec<Effect>, NeptuneError>(
                NeptuneError::InvalidBPS,
            ) && *final(self) == *old(self),
            fees_bps < Vault::fee_rate_limit() ==> r is Ok && r->Ok_0@ == Self::effects()
                && *final(self) == (CreateVault {
                vault: old(self).created(vault_bump, fees_bps),
                ..*old(self)
            }),
            fees_bps < Vault::fee_rate_limit() ==> final(self).vault.wf(),
    {
        if fees_bps >= max_fee_basis_points() {
            return Err(NeptuneError::InvalidBPS);
        }
        self.vault = Vault {
            owner: self.vault_owner,
            escrow: self.escrow,
            lst_mint: self.lst_mint,
            total_lst_minted: 0,
            total_utoken_staked: 0,
            fees_bps,
            bump: vault_bump,
        };
        let mut effects: Vec<Effect> = Vec::new();
        effects.push(Effect::NewEscrow);
        effects.push(Effect::ToggleMaxLock { is_max_lock: true });
        assert(effects@ =~= Self::effects());
        Ok(effects)
    }
}

} // verus!
