//! The operations of the vault, one per file.
//!
//! Each works on a context: the in-memory copies of the records that the
//! operation reads and writes. It changes the context and answers with the
//! effects to carry out, or refuses and leaves the context as it was.

pub mod begin_unstake;
pub mod create_vault;
pub mod merge_unstake;
pub mod stake;
pub mod withdraw_unstake;

pub use begin_unstake::BeginUnstaking;
pub use create_vault::CreateVault;
pub use merge_unstake::MergeUnstake;
pub use stake::Stake;
pub use withdraw_unstake::WithdrawUnstake;
