use vstd::prelude::*;

verus! {

/// Why an operation was refused.
///
/// The order of the variants is part of the interface: a deployed program
/// numbers its error codes by it.
#[derive(Debug, Clone, Copy, PartialEq, Eq, Structural)]
pub enum NeptuneError {
    /// The caller lacks the permission that the action needs.
    Unauthorized,
    /// The bump seed of a derived address is not at hand.
    CannotGetBump,
    /// A checked addition or a conversion left the 64-bit range.
    ArithmeticOverflow,
    /// A withdrawal asks for more than the vault has on record.
    InvalidUnstakeAmt,
    /// A deposit that the vault cannot take.
    InvalidStakeAmt,
    /// The requested amount is zero.
    AmtMustGreaterThanZero,
    /// The fee rate is not below one hundred per cent.
    InvalidBPS,
    /// The custody account of a ticket holds less than the ticket records.
    EscrowAmtIsNotCorrect,
    /// The caller is not the owner on record.
    InvalidOwner,
}

} // verus!
