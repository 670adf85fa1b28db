//! The shared registry of active sessions and its trusted edge.
//!
//! The registry is a concurrency-safe map from connection identifier to
//! [`ConnectedClient`], shared by every session: each session inserts its
//! own entry, removes its own entry, and takes snapshots of all entries for
//! fan-out. The map and the per-session outbound queues come from outside
//! crates; every call into them stands behind a small trusted wrapper, and
//! all logic over what the wrappers return is verified.

use vstd::prelude::*;
use crate::message::OutboundMessage;

verus! {

/// dashmap::DashMap, the concurrency-safe map the registry is stored in;
/// opaque here, read and mutated only through the wrappers below.
#[verifier::external_type_specification]
#[verifier::external_body]
#[verifier::reject_recursive_types(K)]
#[verifier::reject_recursive_types(V)]
#[verifier::reject_recursive_types(S)]
pub struct ExDashMap<K, V, S>(dashmap::DashMap<K, V, S>);

/// tokio's producer half of an unbounded FIFO channel: what fan-out
/// enqueues outbound messages through.
#[verifier::external_type_specification]
#[verifier::external_body]
#[verifier::reject_recursive_types(T)]
pub struct ExUnboundedSender<T>(tokio::sync::mpsc::UnboundedSender<T>);

/// tokio's consumer half of the same channel: owned by the session's sole
/// writer task, which drains the queue in FIFO order.
#[verifier::external_type_specification]
#[verifier::external_body]
#[verifier::reject_recursive_types(T)]
pub struct ExUnboundedReceiver<T>(tokio::sync::mpsc::UnboundedReceiver<T>);

/// One active session as the registry stores it: the display name shown to
/// peers, and the producer half of the session's outbound queue. Other
/// sessions only read the name and enqueue; they never mutate the entry.
pub struct ConnectedClient {
    pub user_name: String,
    pub sender: tokio::sync::mpsc::UnboundedSender<OutboundMessage>,
}

/// One entry of a registry snapshot: the peer's connection identifier, its
/// display name, and a handle onto its outbound queue.
pub struct Peer {
    pub id: u128,
    pub user_name: String,
    pub sender: tokio::sync::mpsc::UnboundedSender<OutboundMessage>,
}

/// Relies on dashmap::DashMap::insert: stores `client` under `id`. The
/// caller guarantees that `id` is fresh (a collision-resistant random
/// source); a duplicate would replace the earlier entry, a logic fault
/// upstream rather than a handled condition.
#[verifier::external_body]
pub(crate) fn registry_insert(
    clients: &dashmap::DashMap<u128, ConnectedClient>,
    id: u128,
    client: ConnectedClient,
) {
    clients.insert(id, client);
}

/// Relies on dashmap::DashMap::remove: removes the entry under `id` and
/// reports whether one was present; removing an absent id is a no-op.
#[verifier::external_body]
pub(crate) fn registry_remove(
    clients: &dashmap::DashMap<u128, ConnectedClient>,
    id: u128,
) -> (was_present: bool) {
    clients.remove(&id).is_some()
}

/// Relies on dashmap::DashMap::iter: every key lives in exactly one shard
/// and each shard's entries are visited once, so a snapshot lists each
/// connection identifier at most once. Which entries appear depends on
/// concurrent registrations and removals, so nothing more is promised.
#[verifier::external_body]
pub(crate) fn registry_snapshot(
    clients: &dashmap::DashMap<u128, ConnectedClient>,
) -> (peers: Vec<Peer>)
    ensures
        forall|i: int, j: int| 0 <= i < j < peers@.len() ==> peers@[i].id != peers@[j].id,
{
    clients
        .iter()
        .map(
            |entry| Peer {
                id: *entry.key(),
                user_name: entry.value().user_name.clone(),
                sender: entry.value().sender.clone(),
            },
        )
        .collect()
}

/// Relies on tokio::sync::mpsc::unbounded_channel: a fresh unbounded FIFO
/// queue, returned as its producer and consumer halves.
#[verifier::external_body]
pub(crate) fn new_outbound_queue() -> (q: (
    tokio::sync::mpsc::UnboundedSender<OutboundMessage>,
    tokio::sync::mpsc::UnboundedReceiver<OutboundMessage>,
)) {
    tokio::sync::mpsc::unbounded_channel()
}

/// Relies on tokio UnboundedSender::send: never blocks (the queue is
/// unbounded), and fails exactly when the consumer half has been closed or
/// dropped because that peer is tearing down.
#[verifier::external_body]
pub(crate) fn try_enqueue(
    sender: &tokio::sync::mpsc::UnboundedSender<OutboundMessage>,
    msg: OutboundMessage,
) -> (accepted: bool) {
    sender.send(msg).is_ok()
}

} // verus!
