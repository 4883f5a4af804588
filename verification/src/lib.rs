//! Accounting and withdrawal lifecycle of a pooled-staking vault.
//!
//! Depositors hand an underlying token to the vault and hold a derivative
//! share token in return. The underlying tokens are locked with a lock
//! manager; the price of one share floats upward as rewards accrue.
//!
//! Nothing here moves a token. Every operation works on an in-memory copy of
//! the records it touches and answers with the [`effect::Effect`]s that its
//! caller has to carry out, in order, against the token layer and the lock
//! manager. The records are to be stored only when all of them went through.

pub mod effect;
pub mod error;
pub mod key;
pub mod lifecycle;
pub mod pool;
pub mod instructions;
pub mod state;

pub use effect::Effect;
pub use error::NeptuneError;
pub use state::unstaking::Unstaking;
pub use state::vault::Vault;
