pub mod config;
pub mod conservation;
pub mod constant;
pub mod errors;
pub mod fee_drip;
pub mod framing;
pub mod full_balance_list;
pub mod instructions;
pub mod ix_accounts;
pub mod laws;
pub mod math;
pub mod operations;
pub mod pubkey;
pub mod ranking;
pub mod stake_escrow;
pub mod staking;
pub mod top_list;
pub mod typedefs;
pub mod unstake;
pub mod vault;
pub mod wire;
