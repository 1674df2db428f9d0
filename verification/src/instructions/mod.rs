pub mod initialize_config;
pub mod update_config;
pub mod settlement;
pub mod close_channel;
pub mod force_close;
pub mod update_voucher;
pub mod create_creator_pool;
pub mod open_channel;
pub mod deposit;
pub mod claim;
