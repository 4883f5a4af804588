use vstd::prelude::*;

verus! {

/// One request to the token layer or to the lock manager.
///
/// An operation answers with the effects it needs, in the order in which they
/// are to be carried out. Each is all-or-nothing; when one fails the whole
/// operation is void and none of its record changes may be stored.
#[derive(Debug, Clone, Copy, PartialEq, Eq, Structural)]
pub enum Effect {
    /// Lock manager: open the custody record of a new vault.
    NewEscrow,
    /// Lock manager: switch the maximum lock of the vault's position.
    ToggleMaxLock { is_max_lock: bool },
    /// Lock manager: move `amount` underlying tokens from the depositor into
    /// the locked position.
    IncreaseLockedAmount { amount: u64 },
    /// Token layer: mint `amount` shares to the depositor.
    MintTo { amount: u64 },
    /// Token layer: move `amount` shares from the requester into the custody
    /// account of the ticket.
    TransferToEscrow { amount: u64 },
    /// Lock manager: begin a timed unlock of `amount` underlying tokens.
    OpenPartialUnstaking { amount: u64 },
    /// Token layer: move `amount` shares from the custody account of the
    /// ticket back to the requester.
    TransferFromEscrow { amount: u64 },
    /// Lock manager: fold the pending unlock back into the locked position.
    MergePartialUnstaking,
    /// Lock manager: pay the matured unlock, opened for `amount` underlying
    /// tokens, to the requester.
    WithdrawPartialUnstaking { amount: u64 },
    /// Token layer: burn `amount` shares held in the custody account.
    Burn { amount: u64 },
    /// Token layer: close the custody account; its storage cost goes to the
    /// requester.
    CloseEscrow,
    /// Destroy the ticket; its storage cost goes to the requester.
    CloseUnstaking,
}

} // verus!
