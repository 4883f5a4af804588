//! What the effects of the withdrawal operations add up to: where the
//! shares of a ticket are at every step, and what the requester is paid.

use vstd::prelude::*;
use crate::effect::Effect;
use crate::instructions::begin_unstake::BeginUnstaking;
use crate::instructions::merge_unstake::MergeUnstake;
use crate::instructions::withdraw_unstake::WithdrawUnstake;

verus! {

impl Effect {
    /// By how many shares the effect changes the balance of the custody
    /// account.
    pub open spec fn custody_change(self) -> int {
        match self {
            Effect::TransferToEscrow { amount } => amount as int,
            Effect::TransferFromEscrow { amount } => -(amount as int),
            Effect::Burn { amount } => -(amount as int),
            _ => 0,
        }
    }

    /// Shares that the effect hands to the requester out of custody.
    pub open spec fn returned(self) -> nat {
        match self {
            Effect::TransferFromEscrow { amount } => amount as nat,
            _ => 0,
        }
    }

    /// Shares that the effect burns.
    pub open spec fn burnt(self) -> nat {
        match self {
            Effect::Burn { amount } => amount as nat,
            _ => 0,
        }
    }

    /// Underlying tokens that the effect has the lock manager pay to the
    /// requester.
    pub open spec fn paid_out(self) -> nat {
        match self {
            Effect::WithdrawPartialUnstaking { amount } => amount as nat,
            _ => 0,
        }
    }
}

/// The balance of the custody account after the first `done` of `effects`,
/// when it held `balance` shares before.
pub open spec fn custody_after(balance: int, effects: Seq<Effect>, done: nat) -> int
    decreases done,
{
    if done == 0 {
        balance
    } else {
        custody_after(balance, effects, (done - 1) as nat) + effects[done - 1].custody_change()
    }
}

/// Shares that the first `done` of `effects` hand to the requester out of
/// custody.
pub open spec fn total_returned(effects: Seq<Effect>, done: nat) -> nat
    decreases done,
{
    if done == 0 {
        0
    } else {
        total_returned(effects, (done - 1) as nat) + effects[done - 1].returned()
    }
}

/// Shares that the first `done` of `effects` burn.
pub open spec fn total_burnt(effects: Seq<Effect>, done: nat) -> nat
    decreases done,
{
    if done == 0 {
        0
    } else {
        total_burnt(effects, (done - 1) as nat) + effects[done - 1].burnt()
    }
}

/// Underlying tokens that the first `done` of `effects` have the lock
/// manager pay to the requester.
pub open spec fn total_paid_out(effects: Seq<Effect>, done: nat) -> nat
    decreases done,
{
    if done == 0 {
        0
    } else {
        total_paid_out(effects, (done - 1) as nat) + effects[done - 1].paid_out()
    }
}

/// The amounts of a ticket are frozen: a withdrawal opened against one
/// state of the vault and settled against any other pays what the shares
/// were worth when the ticket was written, takes exactly that and the
/// shares of the ticket off the vault's record, and burns those shares.
pub proof fn lemma_ticket_amount_is_frozen(
    begin: BeginUnstaking,
    lst_amt: u64,
    withdraw: WithdrawUnstake,
)
    requires
        begin.refusal(lst_amt) is None,
        withdraw.unstaking == begin.ticket(lst_amt),
        withdraw.refusal() is None,
    ensures
        total_paid_out(withdraw.effects(), withdraw.effects().len())
            == begin.vault@.underlying_for_shares(lst_amt as nat),
        withdraw.settled().vault@.staked == withdraw.vault@.staked
            - begin.vault@.underlying_for_shares(lst_amt as nat),
        withdraw.settled().vault@.minted == withdraw.vault@.minted - lst_amt,
        total_burnt(withdraw.effects(), withdraw.effects().len()) == lst_amt,
{
    reveal_with_fuel(total_paid_out, 6);
    reveal_with_fuel(total_burnt, 6);
}

/// The custody account is reconciled: a settlement hands the requester
/// exactly the shares that the account holds beyond those of the ticket,
/// burns exactly the shares of the ticket, and closes the account once,
/// as its last effect but one, when nothing is left in it.
pub proof fn lemma_withdraw_reconciles_escrow(withdraw: WithdrawUnstake)
    requires
        withdraw.refusal() is None,
    ensures
        ({
            let effects = withdraw.effects();
            let close = (effects.len() - 2) as nat;
            &&& total_returned(effects, effects.len()) == withdraw.lst_escrow_amount
                - withdraw.unstaking.lst_amt
            &&& total_burnt(effects, effects.len()) == withdraw.unstaking.lst_amt
            &&& effects[close as int] == Effect::CloseEscrow
            &&& forall|i: int| 0 <= i < effects.len() && i != close ==> effects[i] != Effect::CloseEscrow
            &&& custody_after(withdraw.lst_escrow_amount as int, effects, close) == 0
            &&& custody_after(withdraw.lst_escrow_amount as int, effects, effects.len()) == 0
        }),
{
    reveal_with_fuel(total_returned, 6);
    reveal_with_fuel(total_burnt, 6);
    reveal_with_fuel(custody_after, 6);
}

/// A cancellation undoes the opening: the shares that the opening put into
/// custody are exactly those that the cancellation hands back, nothing is
/// burnt and no underlying token is paid.
pub proof fn lemma_merge_returns_escrowed_shares(
    begin: BeginUnstaking,
    lst_amt: u64,
    merge: MergeUnstake,
)
    requires
        begin.refusal(lst_amt) is None,
        merge.unstaking == begin.ticket(lst_amt),
    ensures
        custody_after(0, begin.effects(lst_amt), begin.effects(lst_amt).len()) == lst_amt,
        total_returned(merge.effects(), merge.effects().len()) == lst_amt,
        custody_after(lst_amt as int, merge.effects(), merge.effects().len()) == 0,
        total_burnt(merge.effects(), merge.effects().len()) == 0,
        total_paid_out(merge.effects(), merge.effects().len()) == 0,
{
    reveal_with_fuel(total_returned, 4);
    reveal_with_fuel(total_burnt, 4);
    reveal_with_fuel(total_paid_out, 4);
    reveal_with_fuel(custody_after, 4);
}

} // verus!
