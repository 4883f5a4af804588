//! The records that the vault keeps.

pub mod unstaking;
pub mod vault;
