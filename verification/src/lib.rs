//! Decision logic of a cross-chain bridge node: configuration handling,
//! endpoint selection, address validation, event routing and the block
//! bookkeeping of the chain monitors.

pub mod text;
pub mod map;
pub mod address;
pub mod types;
pub mod channel;
pub mod router;
pub mod endpoint;
pub mod builder;
pub mod reactor;
pub mod amount;
pub mod monitor;
pub mod laws;
