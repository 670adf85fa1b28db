//! Session lifecycle and broadcast fan-out.
//!
//! One session runs per connected client. Joining builds the session's
//! outbound queue, enqueues its own welcome greeting, and only then
//! registers the session, so the welcome always precedes any relayed
//! traffic on that queue. Each inbound text message is serialized once and
//! enqueued onto every other active session's queue; the sender is excluded
//! from its own fan-out, and one peer's closed queue never interrupts
//! delivery to the rest. Leaving removes the registry entry.

use vstd::prelude::*;
use vstd::seq_lib::group_seq_properties;
use vstd::slice::slice_to_vec;
use crate::codec::encode_relay_line;
use crate::message::OutboundMessage;
use crate::message::welcome_text;
use crate::registry::ConnectedClient;
use crate::registry::Peer;
use crate::registry::new_outbound_queue;
use crate::registry::registry_insert;
use crate::registry::registry_remove;
use crate::registry::registry_snapshot;
use crate::registry::try_enqueue;

verus! {

/// The outcome of one enqueue attempt during fan-out: which peer it was
/// for, and whether the peer's queue accepted the message (`false` means
/// the peer was tearing down; the failure is non-fatal).
#[derive(Clone, Copy, Debug)]
pub struct Delivery {
    pub peer_id: u128,
    pub accepted: bool,
}

/// Bring a new session into the relay.
///
/// Builds the session's outbound queue, enqueues the session's own welcome
/// greeting onto it, and then registers the session under `id`, in that
/// order: the welcome is in the queue before fan-out from any peer can find
/// the entry, so it precedes every relayed message. Returns the consumer
/// half of the queue, from which the session's sole writer drains outbound
/// messages. The caller guarantees that `id` collides with no live session.
pub fn join(
    clients: &dashmap::DashMap<u128, ConnectedClient>,
    id: u128,
    user_name: &str,
) -> (rx: tokio::sync::mpsc::UnboundedReceiver<OutboundMessage>) {
    let (tx, rx) = new_outbound_queue();
    let greeting = welcome_text(user_name);
    let _ = try_enqueue(&tx, OutboundMessage::Welcome(greeting));
    let name = user_name.to_owned();
    registry_insert(clients, id, ConnectedClient { user_name: name, sender: tx });
    rx
}

/// Remove a departed session's entry from the registry.
///
/// Idempotent: removing an id that is already gone reports `false` and is
/// a no-op, which covers a session cleaned up by an earlier path.
pub fn leave(clients: &dashmap::DashMap<u128, ConnectedClient>, id: u128) -> (was_present: bool) {
    registry_remove(clients, id)
}

/// Drop the snapshot entry of the session `excluding`, keeping every other
/// entry exactly once.
///
/// The excluded session is never in the result; no other entry of the
/// snapshot is lost; no entry is invented; and the ids stay pairwise
/// distinct. This is the self-exclusion step of fan-out: it is mandatory,
/// not best-effort.
pub fn exclude_session(peers: Vec<Peer>, excluding: u128) -> (others: Vec<Peer>)
    requires
        forall|i: int, j: int| 0 <= i < j < peers@.len() ==> peers@[i].id != peers@[j].id,
    ensures
        forall|i: int| 0 <= i < others@.len() ==> others@[i].id != excluding,
        forall|i: int, j: int| 0 <= i < j < others@.len() ==> others@[i].id != others@[j].id,
        forall|k: int|
            0 <= k < peers@.len() && peers@[k].id != excluding ==> others@.contains(peers@[k]),
        forall|i: int| 0 <= i < others@.len() ==> peers@.contains(others@[i]),
{
    broadcast use group_seq_properties;

    let ghost orig = peers@;
    let mut rest = peers;
    let mut others: Vec<Peer> = Vec::new();
    let ghost n: int = 0;
    while rest.len() > 0
        invariant
            0 <= n <= orig.len(),
            rest@ == orig.subrange(n, orig.len() as int),
            forall|i: int, j: int| 0 <= i < j < orig.len() ==> orig[i].id != orig[j].id,
            forall|i: int| 0 <= i < others@.len() ==> others@[i].id != excluding,
            forall|i: int, j: int| 0 <= i < j < others@.len() ==> others@[i].id != others@[j].id,
            forall|k: int| 0 <= k < n && orig[k].id != excluding ==> others@.contains(orig[k]),
            forall|i: int|
                0 <= i < others@.len() ==> exists|k: int|
                    0 <= k < n && orig[k] == #[trigger] others@[i],
        decreases rest.len(),
    {
        let p = rest.remove(0);
        proof {
            assert(p == orig[n]);
        }
        if p.id != excluding {
            proof {
                // The new entry's id differs from every id already kept,
                // because every kept entry stems from an earlier position
                // of the snapshot and the snapshot's ids are distinct.
                assert forall|i: int| 0 <= i < others@.len() implies others@[i].id != p.id by {
                    let k = choose|k: int| 0 <= k < n && orig[k] == others@[i];
                    assert(orig[k].id != orig[n].id);
                }
            }
            let ghost kept = others@;
            others.push(p);
            proof {
                assert(others@.last() == p);
                assert(others@.contains(p));
                assert forall|k: int|
                    0 <= k < n && orig[k].id != excluding implies others@.contains(orig[k]) by {
                    assert(kept.contains(orig[k]));
                    let i = choose|i: int| 0 <= i < kept.len() && kept[i] == orig[k];
                    assert(others@[i] == orig[k]);
                }
            }
        }
        proof {
            n = n + 1;
            assert(rest@ =~= orig.subrange(n, orig.len() as int));
        }
    }
    proof {
        assert(n == orig.len());
        assert forall|i: int| 0 <= i < others@.len() implies orig.contains(others@[i]) by {
            let k = choose|k: int| 0 <= k < n && orig[k] == others@[i];
            assert(orig[k] == others@[i]);
        }
    }
    others
}

/// A consistent snapshot of every active session except `excluding`.
///
/// Each returned entry was registered and not yet deregistered at some
/// instant during the call; entries carry distinct identifiers and the
/// excluded session never appears. Which concurrent joiners appear, and in
/// what order, is unspecified.
pub fn snapshot_others(
    clients: &dashmap::DashMap<u128, ConnectedClient>,
    excluding: u128,
) -> (peers: Vec<Peer>)
    ensures
        forall|i: int| 0 <= i < peers@.len() ==> peers@[i].id != excluding,
        forall|i: int, j: int| 0 <= i < j < peers@.len() ==> peers@[i].id != peers@[j].id,
{
    let all = registry_snapshot(clients);
    exclude_session(all, excluding)
}

/// Attempt one enqueue of the shared relayed payload onto every peer of the
/// snapshot, in snapshot order.
///
/// The report has one entry per peer, in the same order: the peer's id and
/// whether its queue accepted the copy. A closed queue (that peer tearing
/// down) is recorded as `accepted == false` and the loop continues, so one
/// peer's teardown never interrupts delivery to the remaining peers, and no
/// failure surfaces to the sender.
pub fn fan_out(peers: &Vec<Peer>, payload: &Vec<u8>) -> (report: Vec<Delivery>)
    ensures
        report@.len() == peers@.len(),
        forall|i: int| 0 <= i < report@.len() ==> report@[i].peer_id == peers@[i].id,
{
    let mut report: Vec<Delivery> = Vec::new();
    let mut i: usize = 0;
    while i < peers.len()
        invariant
            i <= peers@.len(),
            report@.len() == i,
            forall|k: int| 0 <= k < i ==> report@[k].peer_id == peers@[k].id,
        decreases peers@.len() - i,
    {
        let copy = slice_to_vec(payload.as_slice());
        let accepted = try_enqueue(&peers[i].sender, OutboundMessage::Relayed(copy));
        report.push(Delivery { peer_id: peers[i].id, accepted });
        i = i + 1;
    }
    report
}

/// Handle one inbound text message: the whole fan-out pipeline.
///
/// Builds the relay line for the sender's display name and `text`,
/// serializes it once (the same bytes are shared across all peers), takes a
/// snapshot of all other active sessions, and attempts one enqueue per
/// peer. Always returns the delivery report, in which the sender itself
/// never appears and each peer appears at most once: nothing on this path
/// errs or panics, so no peer's state ever interrupts the sender's loop.
pub fn relay_text(
    clients: &dashmap::DashMap<u128, ConnectedClient>,
    sender_id: u128,
    sender_name: &str,
    text: &str,
) -> (report: Vec<Delivery>)
    ensures
        forall|i: int| 0 <= i < report@.len() ==> report@[i].peer_id != sender_id,
        forall|i: int, j: int|
            0 <= i < j < report@.len() ==> report@[i].peer_id != report@[j].peer_id,
{
    let payload = encode_relay_line(sender_name, text);
    let others = snapshot_others(clients, sender_id);
    fan_out(&others, &payload)
}

} // verus!
