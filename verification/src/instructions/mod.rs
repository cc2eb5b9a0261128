//! One module per instruction: the accounts it reads, the relations among
//! them that are checked before its handler runs, and the handler.
pub mod request_unstake;
pub mod deposit_and_delegate;
pub mod withdraw_stake;
pub mod deactivate_stake;
pub mod process_unstake;
pub mod mock_accrue_rewards;
pub mod initialize_pool;
pub mod delete_pool_account;
pub mod deactivate_and_withdraw;
