//! An abstract model of the relay, and the laws of fan-out.
//!
//! The model views the whole relay at one instant: which sessions are
//! registered under which display name, and what each session's outbound
//! queue holds, oldest first. Joining ([`join_step`]) enqueues the
//! session's own welcome and registers it, as [`crate::session::join`]
//! does; sending ([`send_step`]) appends one copy of the serialized relay
//! line to every other registered session's queue, as
//! [`crate::session::relay_text`] does; leaving ([`leave_step`]) removes
//! the session and its queue, as [`crate::session::leave`] does. The proof
//! functions below state the delivery laws over this model.

use vstd::prelude::*;
use crate::codec::msgpack_of;
use crate::message::relay_line_spec;
use crate::message::welcome_text_spec;

verus! {

/// One message of a modeled outbound queue.
pub enum QueuedMessage {
    Welcome(Seq<char>),
    Relayed(Seq<u8>),
}

/// The relay at one instant: display names and outbound queues of all
/// registered sessions, keyed by connection identifier.
pub struct RelayModel {
    pub names: Map<u128, Seq<char>>,
    pub queues: Map<u128, Seq<QueuedMessage>>,
}

/// Every registered session has a queue and every queue belongs to a
/// registered session.
pub open spec fn wf(m: RelayModel) -> bool {
    m.names.dom() =~= m.queues.dom()
}

/// The relay before any session joined.
pub open spec fn init() -> RelayModel {
    RelayModel { names: Map::empty(), queues: Map::empty() }
}

/// A session `id` named `name` joins: its queue starts with its own
/// welcome, already enqueued when the session becomes visible to fan-out.
pub open spec fn join_step(m: RelayModel, id: u128, name: Seq<char>) -> RelayModel {
    RelayModel {
        names: m.names.insert(id, name),
        queues: m.queues.insert(id, seq![QueuedMessage::Welcome(welcome_text_spec(name))]),
    }
}

/// The serialized payload that a text message `text` from `sender` fans
/// out as.
pub open spec fn payload_of(m: RelayModel, sender: u128, text: Seq<char>) -> Seq<u8> {
    msgpack_of(relay_line_spec(m.names[sender], text))
}

/// The session `sender` sends `text`: one copy of the serialized relay
/// line is appended to the queue of every other registered session, and to
/// no one else's.
pub open spec fn send_step(m: RelayModel, sender: u128, text: Seq<char>) -> RelayModel {
    RelayModel {
        names: m.names,
        queues: Map::new(
            |p: u128| m.queues.dom().contains(p),
            |p: u128|
                if p != sender && m.names.dom().contains(p) {
                    m.queues[p].push(QueuedMessage::Relayed(payload_of(m, sender, text)))
                } else {
                    m.queues[p]
                },
        ),
    }
}

/// The session `id` leaves: its entry and its queue are gone.
pub open spec fn leave_step(m: RelayModel, id: u128) -> RelayModel {
    RelayModel { names: m.names.remove(id), queues: m.queues.remove(id) }
}

/// No self-delivery: however many sessions are active, a send never adds
/// anything to the sender's own queue.
pub proof fn lemma_send_no_self_delivery(m: RelayModel, sender: u128, text: Seq<char>)
    requires
        wf(m),
        m.names.dom().contains(sender),
    ensures
        send_step(m, sender, text).queues[sender] == m.queues[sender],
{
}

/// Full fan-out: every other registered session receives exactly one copy
/// of the serialized relay line, appended after everything already queued
/// for it, so earlier messages still reach it first.
pub proof fn lemma_send_full_fan_out(m: RelayModel, sender: u128, text: Seq<char>, peer: u128)
    requires
        wf(m),
        m.names.dom().contains(sender),
        m.names.dom().contains(peer),
        peer != sender,
    ensures
        send_step(m, sender, text).queues[peer] == m.queues[peer].push(
            QueuedMessage::Relayed(payload_of(m, sender, text)),
        ),
{
}

/// A session that left before the send receives nothing: after its
/// deregistration it has no queue at all, and the send reaches only
/// registered sessions.
pub proof fn lemma_left_before_send_receives_nothing(
    m: RelayModel,
    sender: u128,
    text: Seq<char>,
    gone: u128,
)
    requires
        wf(m),
        m.names.dom().contains(sender),
        gone != sender,
    ensures
        !send_step(leave_step(m, gone), sender, text).queues.dom().contains(gone),
{
}

/// A session that joins after a send starts from its welcome alone: the
/// earlier message is not in its queue.
pub proof fn lemma_joined_after_send_starts_fresh(
    m: RelayModel,
    sender: u128,
    text: Seq<char>,
    id: u128,
    name: Seq<char>,
)
    ensures
        join_step(send_step(m, sender, text), id, name).queues[id] == seq![
            QueuedMessage::Welcome(welcome_text_spec(name)),
        ],
{
}

/// Every queue holds the session's own welcome first, then relayed
/// payloads only.
pub open spec fn welcome_first(m: RelayModel) -> bool {
    forall|id: u128| #[trigger]
        m.queues.dom().contains(id) ==> {
            &&& m.queues[id].len() >= 1
            &&& m.queues[id][0] == QueuedMessage::Welcome(welcome_text_spec(m.names[id]))
            &&& (forall|i: int| 1 <= i < m.queues[id].len() ==> m.queues[id][i] is Relayed)
        }
}

/// Welcome-before-relay holds of the empty relay.
pub proof fn lemma_init_welcome_first()
    ensures
        welcome_first(init()),
{
}

/// Welcome-before-relay is preserved when a fresh session joins.
pub proof fn lemma_join_preserves_welcome_first(m: RelayModel, id: u128, name: Seq<char>)
    requires
        wf(m),
        welcome_first(m),
        !m.names.dom().contains(id),
    ensures
        wf(join_step(m, id, name)),
        welcome_first(join_step(m, id, name)),
{
}

/// Welcome-before-relay is preserved by a send: relayed copies land only
/// behind what is already queued, never in front of a welcome.
pub proof fn lemma_send_preserves_welcome_first(m: RelayModel, sender: u128, text: Seq<char>)
    requires
        wf(m),
        welcome_first(m),
        m.names.dom().contains(sender),
    ensures
        wf(send_step(m, sender, text)),
        welcome_first(send_step(m, sender, text)),
{
    let m2 = send_step(m, sender, text);
    assert forall|id: u128| #[trigger] m2.queues.dom().contains(id) implies {
        &&& m2.queues[id].len() >= 1
        &&& m2.queues[id][0] == QueuedMessage::Welcome(welcome_text_spec(m2.names[id]))
        &&& (forall|i: int| 1 <= i < m2.queues[id].len() ==> m2.queues[id][i] is Relayed)
    } by {
        assert(m.queues.dom().contains(id));
        let q = m.queues[id];
        if id != sender && m.names.dom().contains(id) {
            assert(m2.queues[id] == q.push(QueuedMessage::Relayed(payload_of(m, sender, text))));
            assert(m2.queues[id][0] == q[0]);
            assert forall|i: int| 1 <= i < m2.queues[id].len() implies m2.queues[id][i]
                is Relayed by {
                if i < q.len() {
                    assert(m2.queues[id][i] == q[i]);
                }
            }
        }
    }
}

/// Welcome-before-relay is preserved when a session leaves.
pub proof fn lemma_leave_preserves_welcome_first(m: RelayModel, id: u128)
    requires
        wf(m),
        welcome_first(m),
    ensures
        wf(leave_step(m, id)),
        welcome_first(leave_step(m, id)),
{
}

} // verus!
