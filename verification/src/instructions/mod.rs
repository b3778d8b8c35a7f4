//! The instructions, one module each: the accounts that an instruction is
//! given, when it is refused, and what it does.

pub mod calculate_reward;
pub mod init_entry;
pub mod init_identifier;
pub mod init_pool;
pub mod stake;
pub mod unstake;
