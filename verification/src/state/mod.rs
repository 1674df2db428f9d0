pub mod config;
pub mod creator_pool;
pub mod payment_channel;

pub use config::Config;
pub use creator_pool::CreatorPool;
pub use payment_channel::PaymentChannel;
