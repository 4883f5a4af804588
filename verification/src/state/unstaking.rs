use vstd::prelude::*;
use anchor_lang::prelude::Pubkey;

verus! {

/// The ticket of one withdrawal in flight.
///
/// Both amounts are fixed when the ticket is written and never computed
/// again: what the requester is paid does not follow the price of a share
/// while the withdrawal is pending.
#[derive(Debug, Default, Clone, Copy, PartialEq, Eq)]
pub struct Unstaking {
    /// Who asked for the withdrawal.
    pub owner: Pubkey,
    /// The vault that the ticket belongs to.
    pub vault: Pubkey,
    /// The lock manager's record of the timed unlock.
    pub partial_unstaking: Pubkey,
    /// Shares held in custody for the ticket.
    pub lst_amt: u64,
    /// Underlying tokens that the shares were worth when the ticket was
    /// written.
    pub utoken_amt: u64,
}

impl Unstaking {
    /// Memo that the lock manager keeps with the timed unlock of a ticket.
    pub const PARTIAL_UNSTAKING_MEMO: &'static str = "Neptune LST";
}

} // verus!
