//! Communication between tasks on the server. The simulation task is the
//! single consumer of one inbound command channel; each connection handler
//! task consumes a channel of its own. This registry holds the sender ends
//! of all of them, keyed by a numeric connection identifier, and offers
//! best-effort delivery: sending to an unregistered connection is a silent
//! no-op, and a send to a dropped receiver is silently dropped.
//!
//! The embedding program shares one registry across its tasks behind a
//! mutual-exclusion lock, held only around these short calls.

use std::collections::HashMap;
use tokio::sync::mpsc::UnboundedSender;
use vstd::prelude::*;

verus! {

broadcast use vstd::std_specs::hash::group_hash_axioms;

/// Message consumed by the simulation task.
#[derive(Debug)]
pub struct MessageToSimulation {}

/// Message consumed by a connection handler task.
#[derive(Debug)]
pub struct MessageToConnectionHandler {}

#[verifier::external_type_specification]
#[verifier::external_body]
#[verifier::reject_recursive_types(T)]
pub struct ExUnboundedSender<T>(UnboundedSender<T>);

/// Relies on tokio's `UnboundedSender::send`: hands the message to the
/// channel without blocking; it reaches the receiver unless the receiver
/// was already dropped, in which case the message is lost. Returns whether
/// the channel accepted it.
#[verifier::external_body]
fn send_raw<T>(sender: &UnboundedSender<T>, msg: T) -> bool {
    sender.send(msg).is_ok()
}

/// Contains the sender end of the channel that is consumed by the
/// simulation task and the sender end of the channel of each connection
/// handler task.
pub struct Senders {
    /// The sender end of the channel that is consumed by the simulation
    /// task.
    sim_sender: Option<UnboundedSender<MessageToSimulation>>,
    /// The sender end of the channel of each connection handler task,
    /// keyed by connection identifier.
    conn_handler_senders: HashMap<u64, UnboundedSender<MessageToConnectionHandler>>,
}

impl Senders {
    /// Whether a simulation sender has been registered.
    pub closed spec fn sim_registered(&self) -> bool {
        self.sim_sender is Some
    }

    /// The registered connection senders, by connection identifier.
    pub closed spec fn registry(&self) -> Map<u64, UnboundedSender<MessageToConnectionHandler>> {
        self.conn_handler_senders@
    }

    /// An empty registry: no simulation sender, no connection senders.
    pub fn new() -> (r: Senders)
        ensures
            !r.sim_registered(),
            r.registry() == Map::<u64, UnboundedSender<MessageToConnectionHandler>>::empty(),
    {
        Senders { sim_sender: None, conn_handler_senders: HashMap::new() }
    }

    /// Registers the sender consumed by the simulation task, replacing any
    /// earlier one.
    pub fn insert_sim_sender(&mut self, sender: UnboundedSender<MessageToSimulation>)
        ensures
            final(self).sim_registered(),
            final(self).registry() == old(self).registry(),
    {
        self.sim_sender = Some(sender);
    }

    /// Registers the sender of the connection `addr`'s handler task,
    /// replacing any earlier sender registered under the same identifier.
    pub fn insert_conn_handler_sender(
        &mut self,
        addr: u64,
        sender: UnboundedSender<MessageToConnectionHandler>,
    )
        ensures
            final(self).registry() == old(self).registry().insert(addr, sender),
            final(self).sim_registered() == old(self).sim_registered(),
    {
        self.conn_handler_senders.insert(addr, sender);
    }

    /// Removes the sender registered for the connection `addr`, if any:
    /// the connection is closed and in-flight messages to it are dropped.
    pub fn remove_conn_handler_sender(&mut self, addr: u64)
        ensures
            final(self).registry() == old(self).registry().remove(addr),
            final(self).sim_registered() == old(self).sim_registered(),
    {
        self.conn_handler_senders.remove(&addr);
    }

    /// Whether a sender is registered for the connection `addr`.
    pub fn has_conn_handler(&self, addr: u64) -> (r: bool)
        ensures
            r == self.registry().contains_key(addr),
    {
        self.conn_handler_senders.contains_key(&addr)
    }

    /// Attempts to send a message on the channel consumed by the
    /// simulation task. Returns whether a registered channel accepted it;
    /// with no simulation sender registered this is a silent no-op.
    pub fn send_to_sim(&self, msg: MessageToSimulation) -> (r: bool)
        ensures
            !self.sim_registered() ==> !r,
    {
        if let Some(sender) = &self.sim_sender {
            send_raw(sender, msg)
        } else {
            false
        }
    }

    /// Attempts to send a message on the channel consumed by the
    /// connection `addr`'s handler task. Returns whether a registered
    /// channel accepted it; for an unregistered identifier this is a
    /// silent no-op, never an error.
    pub fn send_to_conn_handler(&self, addr: u64, msg: MessageToConnectionHandler) -> (r: bool)
        ensures
            !self.registry().contains_key(addr) ==> !r,
    {
        if let Some(sender) = self.conn_handler_senders.get(&addr) {
            send_raw(sender, msg)
        } else {
            false
        }
    }
}

} // verus!
