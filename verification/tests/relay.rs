use chat_relay::message::OutboundMessage;
use chat_relay::registry::ConnectedClient;
use chat_relay::session::{exclude_session, fan_out, join, leave, relay_text, snapshot_others};
use dashmap::DashMap;
use tokio::sync::mpsc::UnboundedReceiver;

fn expect_welcome(rx: &mut UnboundedReceiver<OutboundMessage>, name: &str) {
    match rx.try_recv() {
        Ok(OutboundMessage::Welcome(text)) => {
            assert!(text.contains(name));
            assert_eq!(text, format!("Welcome to chat, {}! You are now connected.", name));
        }
        other => panic!("expected a welcome message, got {:?}", other.is_ok()),
    }
}

fn expect_relayed(rx: &mut UnboundedReceiver<OutboundMessage>) -> String {
    match rx.try_recv() {
        Ok(OutboundMessage::Relayed(bytes)) => {
            let line: String = rmp_serde::from_slice(&bytes).expect("payload decodes");
            line
        }
        other => panic!("expected a relayed message, got {:?}", other.is_ok()),
    }
}

fn expect_empty(rx: &mut UnboundedReceiver<OutboundMessage>) {
    assert!(rx.try_recv().is_err());
}

fn sorted_ids(registry: &DashMap<u128, ConnectedClient>) -> Vec<u128> {
    let mut ids: Vec<u128> = snapshot_others(registry, u128::MAX).iter().map(|p| p.id).collect();
    ids.sort();
    ids
}

#[test]
fn three_sessions_scenario() {
    let registry: DashMap<u128, ConnectedClient> = DashMap::new();
    let mut rx_a = join(&registry, 1, "alice");
    let mut rx_b = join(&registry, 2, "bob");
    let mut rx_c = join(&registry, 3, "carol");

    let report = relay_text(&registry, 1, "alice", "hello");
    assert_eq!(report.len(), 2);
    assert!(report.iter().all(|d| d.peer_id != 1 && d.accepted));

    expect_welcome(&mut rx_b, "bob");
    assert_eq!(expect_relayed(&mut rx_b), "alice: hello");
    expect_empty(&mut rx_b);

    expect_welcome(&mut rx_c, "carol");
    assert_eq!(expect_relayed(&mut rx_c), "alice: hello");
    expect_empty(&mut rx_c);

    expect_welcome(&mut rx_a, "alice");
    expect_empty(&mut rx_a);

    assert_eq!(sorted_ids(&registry), vec![1, 2, 3]);

    assert!(leave(&registry, 3));
    assert!(!leave(&registry, 3));
    assert_eq!(sorted_ids(&registry), vec![1, 2]);

    let report = relay_text(&registry, 2, "bob", "bye");
    assert_eq!(report.len(), 1);
    assert_eq!(report[0].peer_id, 1);
    assert!(report[0].accepted);
    assert_eq!(expect_relayed(&mut rx_a), "bob: bye");
    expect_empty(&mut rx_a);
    expect_empty(&mut rx_c);
}

#[test]
fn no_self_delivery_single_session() {
    let registry: DashMap<u128, ConnectedClient> = DashMap::new();
    let mut rx = join(&registry, 7, "dora");
    let report = relay_text(&registry, 7, "dora", "echo?");
    assert!(report.is_empty());
    expect_welcome(&mut rx, "dora");
    expect_empty(&mut rx);
}

#[test]
fn partial_failure_is_isolated() {
    let registry: DashMap<u128, ConnectedClient> = DashMap::new();
    let mut rx_a = join(&registry, 1, "alice");
    let rx_b = join(&registry, 2, "bob");
    let mut rx_c = join(&registry, 3, "carol");

    // Bob is tearing down: his consumer half is gone, his queue is closed.
    drop(rx_b);

    let report = relay_text(&registry, 1, "alice", "hi");
    assert_eq!(report.len(), 2);
    for delivery in &report {
        match delivery.peer_id {
            2 => assert!(!delivery.accepted),
            3 => assert!(delivery.accepted),
            other => panic!("unexpected peer {} in report", other),
        }
    }

    expect_welcome(&mut rx_c, "carol");
    assert_eq!(expect_relayed(&mut rx_c), "alice: hi");

    expect_welcome(&mut rx_a, "alice");
    expect_empty(&mut rx_a);
}

#[test]
fn membership_follows_join_and_leave_times() {
    let registry: DashMap<u128, ConnectedClient> = DashMap::new();
    let mut rx_a = join(&registry, 1, "alice");
    let mut rx_e = join(&registry, 5, "erin");

    // Erin is fully deregistered before the send and must not receive it.
    assert!(leave(&registry, 5));
    relay_text(&registry, 1, "alice", "first");

    // Dora joins strictly after the send and starts from her welcome alone.
    let mut rx_d = join(&registry, 4, "dora");

    expect_welcome(&mut rx_e, "erin");
    expect_empty(&mut rx_e);
    expect_welcome(&mut rx_d, "dora");
    expect_empty(&mut rx_d);
    expect_welcome(&mut rx_a, "alice");
    expect_empty(&mut rx_a);
}

#[test]
fn welcome_precedes_relayed_traffic() {
    let registry: DashMap<u128, ConnectedClient> = DashMap::new();
    let _rx_a = join(&registry, 1, "alice");
    let mut rx_b = join(&registry, 2, "bob");
    relay_text(&registry, 1, "alice", "early");
    relay_text(&registry, 1, "alice", "later");

    expect_welcome(&mut rx_b, "bob");
    assert_eq!(expect_relayed(&mut rx_b), "alice: early");
    assert_eq!(expect_relayed(&mut rx_b), "alice: later");
    expect_empty(&mut rx_b);
}

#[test]
fn snapshot_excludes_the_sender() {
    let registry: DashMap<u128, ConnectedClient> = DashMap::new();
    let _rx_a = join(&registry, 1, "alice");
    let _rx_b = join(&registry, 2, "bob");
    let peers = snapshot_others(&registry, 1);
    assert_eq!(peers.len(), 1);
    assert_eq!(peers[0].id, 2);
    assert_eq!(peers[0].user_name, "bob");
}

#[test]
fn exclude_session_keeps_all_others() {
    let registry: DashMap<u128, ConnectedClient> = DashMap::new();
    let _rx_a = join(&registry, 1, "alice");
    let _rx_b = join(&registry, 2, "bob");
    let _rx_c = join(&registry, 3, "carol");
    let all = snapshot_others(&registry, u128::MAX);
    let others = exclude_session(all, 2);
    let mut ids: Vec<u128> = others.iter().map(|p| p.id).collect();
    ids.sort();
    assert_eq!(ids, vec![1, 3]);
}

#[test]
fn fan_out_reports_every_peer_in_order() {
    let registry: DashMap<u128, ConnectedClient> = DashMap::new();
    let mut rx_a = join(&registry, 1, "alice");
    let _rx_b = join(&registry, 2, "bob");
    let peers = snapshot_others(&registry, 2);
    let payload = rmp_serde::to_vec("bob: ping").expect("encoding succeeds");
    let report = fan_out(&peers, &payload);
    assert_eq!(report.len(), peers.len());
    for (delivery, peer) in report.iter().zip(peers.iter()) {
        assert_eq!(delivery.peer_id, peer.id);
        assert!(delivery.accepted);
    }
    expect_welcome(&mut rx_a, "alice");
    assert_eq!(expect_relayed(&mut rx_a), "bob: ping");
}
