//! The decisions of the chain monitors: which blocks to read, which events
//! call for a deposit record, and what to tell the router.

use vstd::prelude::*;

use tokio::sync::mpsc::Sender;

use crate::address::{Address, EthereumConfig};
use crate::amount::U256;
use crate::types::{Event, FungibleTransfer};

verus! {

/// The transfer the monitors announce while deposits are not yet decoded:
/// from chain 1 to chain 2 with deposit nonce 5.
pub open spec fn spec_placeholder_transfer() -> Event {
    Event::FungibleTransfer(FungibleTransfer { source_chain_id: 1, destination_chain_id: 2, deposit_nonce: 5 })
}

/// The transfer the monitors announce while deposits are not yet decoded.
pub fn placeholder_transfer() -> (e: Event)
    ensures
        e == spec_placeholder_transfer(),
{
    Event::FungibleTransfer(FungibleTransfer { source_chain_id: 1, destination_chain_id: 2, deposit_nonce: 5 })
}

/// What a block monitor tells the router after reading one block's bridge
/// events: one transfer when there was at least one event, nothing otherwise.
pub fn transfer_for_events(event_count: usize) -> (r: Option<Event>)
    ensures
        r == (if event_count > 0 { Some(spec_placeholder_transfer()) } else { None }),
{
    if event_count > 0 {
        Some(placeholder_transfer())
    } else {
        None
    }
}

/// What the reader service tells the router after one block range was
/// queried: one transfer for a query that succeeded, none for one that failed.
pub fn transfers_after_query(query_succeeded: bool) -> (r: Vec<Event>)
    ensures
        r@ == (if query_succeeded { seq![spec_placeholder_transfer()] } else { Seq::<Event>::empty() }),
{
    let mut r: Vec<Event> = Vec::new();
    if query_succeeded {
        r.push(placeholder_transfer());
    }
    r
}

/// An event emitted by the bridge contract.
#[derive(Clone, Copy, Debug)]
pub enum BridgeEvent {
    Deposit { destination_chain_id: u8, resource_id: [u8; 32], deposit_nonce: u64 },
    Proposal { origin_chain_id: u8, deposit_nonce: u64, status: u8, resource_id: [u8; 32], data_hash: [u8; 32] },
    ProposalVote { origin_chain_id: u8, deposit_nonce: u64, status: u8, resource_id: [u8; 32] },
}

/// A deposit as the bridge contract logs it.
#[derive(Clone, Copy, Debug)]
pub struct DepositEvent {
    pub destination_chain_id: u8,
    pub resource_id: U256,
    pub deposit_nonce: u64,
}

/// An ERC-20 token transfer as the token contract logs it.
#[derive(Clone, Copy, Debug)]
pub struct Transfer {
    pub from: Address,
    pub to: Address,
    pub tokens: U256,
}

/// The deposit-record lookups that a list of bridge events calls for: one
/// `(deposit_nonce, destination_chain_id)` per deposit, in order.
pub open spec fn deposit_queries(events: Seq<BridgeEvent>) -> Seq<(u64, u8)>
    decreases events.len(),
{
    if events.len() == 0 {
        Seq::empty()
    } else {
        let rest = deposit_queries(events.drop_last());
        match events.last() {
            BridgeEvent::Deposit { destination_chain_id, deposit_nonce, .. } => rest.push(
                (deposit_nonce, destination_chain_id),
            ),
            _ => rest,
        }
    }
}

/// The lookup one event calls for: `(deposit_nonce, destination_chain_id)`
/// for a deposit, none for any other event.
pub open spec fn deposit_lookup(e: BridgeEvent) -> Option<(u64, u8)> {
    match e {
        BridgeEvent::Deposit { destination_chain_id, deposit_nonce, .. } => Some(
            (deposit_nonce, destination_chain_id),
        ),
        _ => None,
    }
}

/// `deposit_lookup` as a function value.
pub open spec fn deposit_lookup_fn() -> spec_fn(BridgeEvent) -> Option<(u64, u8)> {
    |e: BridgeEvent| deposit_lookup(e)
}

/// The deposit records to look up for the events of a block, in event order:
/// one per deposit event, each event taken on its own.
pub fn deposit_record_queries(events: &Vec<BridgeEvent>) -> (r: Vec<(u64, u8)>)
    ensures
        r@ == deposit_queries(events@),
        r@ == events@.filter_map(deposit_lookup_fn()),
{
    let mut r: Vec<(u64, u8)> = Vec::new();
    let mut i: usize = 0;
    while i < events.len()
        invariant
            i <= events@.len(),
            r@ == deposit_queries(events@.take(i as int)),
            r@ == events@.take(i as int).filter_map(deposit_lookup_fn()),
        decreases events@.len() - i,
    {
        assert(events@.take(i + 1).drop_last() =~= events@.take(i as int));
        assert(events@.take(i + 1).last() == events@[i as int]);
        match &events[i] {
            BridgeEvent::Deposit { destination_chain_id, deposit_nonce, .. } => {
                r.push((*deposit_nonce, *destination_chain_id));
            },
            _ => {},
        }
        i = i + 1;
    }
    assert(events@.take(events@.len() as int) =~= events@);
    r
}

/// The state shared by the block monitors of a chain.
pub struct BaseBlocksMonitor {
    pub router: Sender<Event>,
    pub config: EthereumConfig,
    pub start_block: u64,
    pub block_confirmations: u16,
}

/// What a monitor does next while it catches up with the chain.
#[derive(Clone, Copy, Debug, PartialEq, Eq, Structural)]
pub enum CatchUpAction {
    /// Read the events of this block.
    Fetch(u64),
    /// The chain's latest block is reached: follow new blocks instead.
    Subscribe,
}

/// A monitor catching up from its start block to the chain's latest block.
pub struct CatchUp {
    current: u64,
}

impl CatchUp {
    /// The next block to read.
    pub closed spec fn next_block(&self) -> u64 {
        self.current
    }

    /// Catching up from `start_block`.
    pub fn new(start_block: u64) -> (c: Self)
        ensures
            c.next_block() == start_block,
    {
        CatchUp { current: start_block }
    }

    /// One step, given the chain's latest block number: the next block is
    /// read while it is below the latest block, and then the one after it
    /// is next.
    pub fn step(&mut self, latest_block: u64) -> (a: CatchUpAction)
        ensures
            (a, final(self).next_block()) == catch_up_step(old(self).next_block(), latest_block),
    {
        if self.current >= latest_block {
            CatchUpAction::Subscribe
        } else {
            let b = self.current;
            self.current = b + 1;
            CatchUpAction::Fetch(b)
        }
    }
}

/// One catch-up step from block `current` when the chain's latest block is
/// `latest`: the action, and the block that is next afterwards.
pub open spec fn catch_up_step(current: u64, latest: u64) -> (CatchUpAction, u64) {
    if current >= latest {
        (CatchUpAction::Subscribe, current)
    } else {
        (CatchUpAction::Fetch(current), (current + 1) as u64)
    }
}

/// The actions of `steps` catch-up steps from block `current` while the
/// latest block stays `latest`.
pub open spec fn catch_up_actions(current: u64, latest: u64, steps: nat) -> Seq<CatchUpAction>
    decreases steps,
{
    if steps == 0 {
        Seq::empty()
    } else {
        let (a, next) = catch_up_step(current, latest);
        seq![a] + catch_up_actions(next, latest, (steps - 1) as nat)
    }
}

/// The reader service's position: the block number it last read up to.
pub struct BlockCursor {
    last: u64,
}

impl BlockCursor {
    /// The block number the next query starts from.
    pub closed spec fn last_block(&self) -> u64 {
        self.last
    }

    /// A cursor at `start_block`.
    pub fn new(start_block: u64) -> (c: Self)
        ensures
            c.last_block() == start_block,
    {
        BlockCursor { last: start_block }
    }

    /// A new block `current` arrived: the range to query runs from the last
    /// block to `current`, and `current` becomes the last block.
    pub fn advance(&mut self, current: u64) -> (range: (u64, u64))
        ensures
            (range, final(self).last_block()) == cursor_step(old(self).last_block(), current),
    {
        let from = self.last;
        self.last = current;
        (from, current)
    }
}

/// The range a cursor at `last` queries when block `current` arrives, and
/// its position afterwards.
pub open spec fn cursor_step(last: u64, current: u64) -> ((u64, u64), u64) {
    ((last, current), current)
}

/// The ranges a cursor starting at `start` queries as `blocks` arrive.
pub open spec fn cursor_ranges(start: u64, blocks: Seq<u64>) -> Seq<(u64, u64)>
    decreases blocks.len(),
{
    if blocks.len() == 0 {
        Seq::empty()
    } else {
        let (range, next) = cursor_step(start, blocks[0]);
        seq![range] + cursor_ranges(next, blocks.drop_first())
    }
}

/// Where a cursor starting at `start` stands after `blocks` arrived.
pub open spec fn cursor_position(start: u64, blocks: Seq<u64>) -> u64 {
    if blocks.len() == 0 {
        start
    } else {
        blocks.last()
    }
}

/// The block a block query starts from: the given start block, or else the
/// block `block_confirmations` below the latest one.
pub fn initial_block(start_block: Option<u64>, latest_block: u64, block_confirmations: u64) -> (b: u64)
    requires
        start_block is None ==> block_confirmations <= latest_block,
    ensures
        b == match start_block {
            Some(s) => s,
            None => (latest_block - block_confirmations) as u64,
        },
{
    match start_block {
        Some(s) => s,
        None => latest_block - block_confirmations,
    }
}

/// The settings of an account balance monitor.
pub struct BaseAccountMonitor {
    pub account: Address,
    pub threshold: U256,
    pub timeout: std::time::Duration,
}

impl BaseAccountMonitor {
    /// Whether `balance` is below the threshold, which calls for a warning.
    pub fn is_low(&self, balance: &U256) -> (r: bool)
        ensures
            r == (balance.value() < self.threshold.value()),
    {
        balance.lt(&self.threshold)
    }
}

/// The state of a chain's writer.
pub struct BaseWriter {
    pub config: EthereumConfig,
}

} // verus!
