//! Cross-boundary message bridge: handle lifecycle, FIFO worker channels,
//! pull/push delivery, a bounded background request gateway, and the
//! environment-aware address validator exposed alongside them.

pub mod env;
pub mod msg;
pub mod queue;
pub mod registry;
pub mod relay;
pub mod client;
pub mod background;
pub mod validate;
pub mod mnemonic;

pub use env::Env;
