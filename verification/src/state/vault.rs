use vstd::prelude::*;
use anchor_lang::prelude::Pubkey;
use crate::error::NeptuneError;
use crate::pool::{Pool, lemma_product_fits, lemma_unstake_at_rate};

verus! {

/// The record of one pool.
#[derive(Debug, Default, Clone, Copy, PartialEq, Eq)]
pub struct Vault {
    /// Who may administer the vault.
    pub owner: Pubkey,
    /// The lock manager's custody record of the vault's locked tokens.
    pub escrow: Pubkey,
    /// The mint of the share token.
    pub lst_mint: Pubkey,
    /// Shares outstanding.
    pub total_lst_minted: u64,
    /// Underlying tokens owed to the holders: principal and rewards, less
    /// what was withdrawn.
    pub total_utoken_staked: u64,
    /// Fee rate in basis points; recorded, not applied.
    pub fees_bps: u16,
    /// Bump seed of the vault's derived address.
    pub bump: u8,
}

impl View for Vault {
    type V = Pool;

    open spec fn view(&self) -> Pool {
        Pool { minted: self.total_lst_minted as nat, staked: self.total_utoken_staked as nat }
    }
}

impl Vault {
    /// The highest fee rate, in basis points, is one below this.
    pub open spec fn fee_rate_limit() -> nat {
        10_000
    }

    /// The record is sound: it has either nothing on both sides or
    /// something on both, and its fee rate is below one hundred per cent.
    pub open spec fn wf(&self) -> bool {
        self@.balanced() && self.fees_bps < Self::fee_rate_limit()
    }

    /// The vault with its two totals replaced by those of `pool`, which
    /// must fit.
    pub open spec fn with_pool(self, pool: Pool) -> Vault {
        Vault {
            total_lst_minted: pool.minted as u64,
            total_utoken_staked: pool.staked as u64,
            ..self
        }
    }

    /// Shares to mint for a deposit of `utoken_amt` underlying tokens.
    pub fn get_lst_amt(&self, utoken_amt: u64) -> (r: Result<u64, NeptuneError>)
        ensures
            match r {
                Ok(lst_amt) => lst_amt == self@.shares_for_deposit(utoken_amt as nat),
                Err(e) => e == NeptuneError::ArithmeticOverflow
                    && self@.shares_for_deposit(utoken_amt as nat) > u64::MAX,
            },
    {
        if self.total_utoken_staked == 0 {
            return Ok(utoken_amt);
        }
        proof {
            lemma_product_fits(utoken_amt, self.total_lst_minted);
        }
        let wide: u128 = utoken_amt as u128 * self.total_lst_minted as u128
            / self.total_utoken_staked as u128;
        match u64::try_from(wide) {
            Ok(lst_amt) => Ok(lst_amt),
            Err(_) => Err(NeptuneError::ArithmeticOverflow),
        }
    }

    /// Underlying tokens that `lst_amt` shares are worth.
    pub fn get_utoken_amt(&self, lst_amt: u64) -> (r: Result<u64, NeptuneError>)
        ensures
            match r {
                Ok(utoken_amt) => utoken_amt == self@.underlying_for_shares(lst_amt as nat),
                Err(e) => e == NeptuneError::ArithmeticOverflow
                    && self@.underlying_for_shares(lst_amt as nat) > u64::MAX,
            },
    {
        if self.total_lst_minted == 0 {
            return Ok(lst_amt);
        }
        proof {
            lemma_product_fits(lst_amt, self.total_utoken_staked);
        }
        let wide: u128 = lst_amt as u128 * self.total_utoken_staked as u128
            / self.total_lst_minted as u128;
        match u64::try_from(wide) {
            Ok(utoken_amt) => Ok(utoken_amt),
            Err(_) => Err(NeptuneError::ArithmeticOverflow),
        }
    }

    /// Takes `lst_amt` shares and `utoken_amt` underlying tokens off the
    /// record and answers with `utoken_amt`. A vault that has less of
    /// either on record refuses and stays as it was.
    pub fn unstake(&mut self, lst_amt: u64, utoken_amt: u64) -> (r: Result<u64, NeptuneError>)
        ensures
            old(self)@.covers(lst_amt as nat, utoken_amt as nat) ==> r == Ok::<u64, NeptuneError>(
                utoken_amt,
            ) && *final(self) == old(self).with_pool(
                old(self)@.unstake(lst_amt as nat, utoken_amt as nat),
            ),
            !old(self)@.covers(lst_amt as nat, utoken_amt as nat) ==> r == Err::<u64, NeptuneError>(
                NeptuneError::InvalidUnstakeAmt,
            ) && *final(self) == *old(self),
            old(self).wf() && utoken_amt == old(self)@.underlying_for_shares(lst_amt as nat)
                ==> final(self).wf(),
    {
        proof {
            if old(self).wf() && lst_amt <= old(self).total_lst_minted {
                lemma_unstake_at_rate(old(self)@, lst_amt as nat);
            }
        }
        let staked: u64 = match self.total_utoken_staked.checked_sub(utoken_amt) {
            Some(left) => left,
            None => { return Err(NeptuneError::InvalidUnstakeAmt); },
        };
        let minted: u64 = match self.total_lst_minted.checked_sub(lst_amt) {
            Some(left) => left,
            None => { return Err(NeptuneError::InvalidUnstakeAmt); },
        };
        self.total_utoken_staked = staked;
        self.total_lst_minted = minted;
        Ok(utoken_amt)
    }

    /// Puts `lst_amt` shares and `utoken_amt` underlying tokens on the
    /// record and answers with `lst_amt`. Where either total would leave
    /// the 64-bit range the vault refuses and stays as it was.
    pub fn stake(&mut self, utoken_amt: u64, lst_amt: u64) -> (r: Result<u64, NeptuneError>)
        ensures
            old(self)@.stake(utoken_amt as nat, lst_amt as nat).fits() ==> r == Ok::<
                u64,
                NeptuneError,
            >(lst_amt) && *final(self) == old(self).with_pool(
                old(self)@.stake(utoken_amt as nat, lst_amt as nat),
            ),
            !old(self)@.stake(utoken_amt as nat, lst_amt as nat).fits() ==> r == Err::<
                u64,
                NeptuneError,
            >(NeptuneError::ArithmeticOverflow) && *final(self) == *old(self),
            old(self).wf() && (old(self)@.minted > 0 || (utoken_amt == 0) == (lst_amt == 0))
                ==> final(self).wf(),
    {
        let minted: u64 = match self.total_lst_minted.checked_add(lst_amt) {
            Some(sum) => sum,
            None => { return Err(NeptuneError::ArithmeticOverflow); },
        };
        let staked: u64 = match self.total_utoken_staked.checked_add(utoken_amt) {
            Some(sum) => sum,
            None => { return Err(NeptuneError::ArithmeticOverflow); },
        };
        self.total_lst_minted = minted;
        self.total_utoken_staked = staked;
        Ok(lst_amt)
    }

    /// Puts a reward of `utoken_amt` underlying tokens on the record. The
    /// shares outstanding stay as they are: this is how a share gains in
    /// value. Where the total would leave the 64-bit range the vault
    /// refuses and stays as it was.
    pub fn add_reward(&mut self, utoken_amt: u64) -> (r: Result<(), NeptuneError>)
        ensures
            old(self)@.add_reward(utoken_amt as nat).fits() ==> r == Ok::<(), NeptuneError>(())
                && *final(self) == old(self).with_pool(old(self)@.add_reward(utoken_amt as nat)),
            !old(self)@.add_reward(utoken_amt as nat).fits() ==> r == Err::<(), NeptuneError>(
                NeptuneError::ArithmeticOverflow,
            ) && *final(self) == *old(self),
            old(self).wf() && (old(self)@.minted > 0 || utoken_amt == 0) ==> final(self).wf(),
    {
        match self.total_utoken_staked.checked_add(utoken_amt) {
            Some(sum) => {
                self.total_utoken_staked = sum;
                Ok(())
            },
            None => Err(NeptuneError::ArithmeticOverflow),
        }
    }
}

} // verus!
