//! The bridge's configuration and the events that travel between chains.

use vstd::prelude::*;

use crate::map::StringMap;

verus! {

/// The kind of chain a configuration entry describes.
#[derive(Clone, Copy, Debug, PartialEq, Eq, Structural)]
pub enum ChainType {
    Ethereum,
    Substrate,
}

/// The configuration of one chain that the bridge connects.
pub struct ChainConfig {
    pub identifier: u8,
    pub name: String,
    pub from: String,
    pub typ: ChainType,
    pub endpoint: String,
    pub start_block: u64,
    pub extra: StringMap,
}

/// The configuration of the whole bridge: the chains it connects, in order.
pub struct BridgeConfig {
    pub chains: Vec<ChainConfig>,
}

/// A transfer of fungible tokens from one chain to another.
#[derive(Clone, Copy, Debug, PartialEq, Eq, Structural)]
pub struct FungibleTransfer {
    pub source_chain_id: u8,
    pub destination_chain_id: u8,
    pub deposit_nonce: u64,
}

/// A message passed between the chain services and the router.
#[derive(Clone, Copy, Debug, PartialEq, Eq, Structural)]
pub enum Event {
    FungibleTransfer(FungibleTransfer),
    NonFungibleTransfer,
    Stop,
}

} // verus!
