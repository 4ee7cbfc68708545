//! The router, which knows for each chain identifier where its events go.

use std::collections::HashMap;

use vstd::prelude::*;
use vstd::std_specs::hash::*;

use tokio::sync::mpsc::{Receiver, Sender};

use crate::channel::{event_channel, event_channel_capacity, receiver_channel, sender_channel};
use crate::types::Event;

verus! {

broadcast use group_hash_axioms;

/// What the router keeps of a chain: its name and the sender of its writer.
pub struct ChainProperties {
    pub name: String,
    pub sender: Sender<Event>,
}

/// Routes events to the writers of the registered chains.
pub struct Router {
    receiver: Receiver<Event>,
    chains: HashMap<u8, ChainProperties>,
}

impl View for Router {
    type V = Map<u8, (Seq<char>, Sender<Event>)>;

    closed spec fn view(&self) -> Map<u8, (Seq<char>, Sender<Event>)> {
        self.chains@.map_values(|p: ChainProperties| (p.name@, p.sender))
    }
}

impl Router {
    /// A router with no chains, and the sender through which events reach
    /// it: the sender feeds the router's own receiver, through a channel
    /// that holds one event.
    pub fn new() -> (r: (Self, Sender<Event>))
        ensures
            r.0@ == Map::<u8, (Seq<char>, Sender<Event>)>::empty(),
            sender_channel(r.1) == receiver_channel(r.0.receiving_end()),
            event_channel_capacity(r.1) == 1,
    {
        let (sender, receiver) = event_channel(1);
        let router = Router { receiver, chains: HashMap::new() };
        assert(router@ =~= Map::<u8, (Seq<char>, Sender<Event>)>::empty());
        (router, sender)
    }

    /// Registers the chain `identifier` under `name`; its events go to
    /// `sender`. A chain registered before under the same identifier is
    /// replaced.
    pub fn add_chain(&mut self, identifier: u8, name: String, sender: Sender<Event>)
        ensures
            final(self)@ == old(self)@.insert(identifier, (name@, sender)),
            final(self).receiving_end() == old(self).receiving_end(),
    {
        let ghost name_view = name@;
        self.chains.insert(identifier, ChainProperties { name, sender });
        assert(self@ =~= old(self)@.insert(identifier, (name_view, sender)));
    }

    /// Where an event for chain `destination_identifier` goes: the sender of
    /// that chain, or `None` when no such chain is registered.
    pub fn route(&self, destination_identifier: u8) -> (r: Option<&Sender<Event>>)
        ensures
            match r {
                Some(s) => self@.contains_key(destination_identifier)
                    && self@[destination_identifier].1 == *s,
                None => !self@.contains_key(destination_identifier),
            },
    {
        match self.chains.get(&destination_identifier) {
            Some(properties) => Some(&properties.sender),
            None => None,
        }
    }

    /// The receiving end of the router's own channel.
    pub closed spec fn receiving_end(&self) -> Receiver<Event> {
        self.receiver
    }

    /// The receiving end through which events reach the router.
    pub fn into_receiver(self) -> (r: Receiver<Event>)
        ensures
            r == self.receiving_end(),
    {
        self.receiver
    }
}

} // verus!
