use chat_relay::codec::{decode_relay_line, encode_relay_line};
use chat_relay::lifecycle::{step, SessionAction, SessionEvent, SessionPhase};
use chat_relay::message::{
    escape_name, format_relay_line, parse_relay_line, split_relay_line, unescape_name,
    welcome_text,
};

fn round_trip(name: &str, text: &str) {
    let bytes = encode_relay_line(name, text);
    let decoded = decode_relay_line(&bytes).expect("payload decodes to a relay line");
    assert_eq!(decoded.user_name, name);
    assert_eq!(decoded.content, text);
}

#[test]
fn relay_line_formatting() {
    assert_eq!(format_relay_line("alice", "hello"), "alice: hello");
    assert_eq!(format_relay_line("bob", ""), "bob: ");
}

#[test]
fn welcome_text_formatting() {
    assert_eq!(welcome_text("alice"), "Welcome to chat, alice! You are now connected.");
}

#[test]
fn split_recovers_both_parts() {
    let m = split_relay_line("alice: hello").expect("line splits");
    assert_eq!(m.user_name, "alice");
    assert_eq!(m.content, "hello");
}

#[test]
fn split_uses_first_separator() {
    let m = split_relay_line("alice: he said: hi").expect("line splits");
    assert_eq!(m.user_name, "alice");
    assert_eq!(m.content, "he said: hi");
}

#[test]
fn split_without_separator_fails() {
    assert!(split_relay_line("no separator here").is_none());
    assert!(split_relay_line("").is_none());
    assert!(split_relay_line("colon:without-space").is_none());
}

#[test]
fn encoding_round_trips() {
    round_trip("alice", "hello");
    round_trip("bob", "");
    round_trip("carol", "griaß di, κόσμε, 世界!");
    round_trip("dora", "contains the separator: twice: even");
    round_trip("erin", "  leading and trailing  ");
}

#[test]
fn encoding_round_trips_with_awkward_names() {
    round_trip("dr: x", "hi");
    round_trip(": ", ": ");
    round_trip("a\\b", "t");
    round_trip("\\", "");
    round_trip("tricky\\c", "still: fine");
    round_trip("", "from nobody");
}

#[test]
fn escaping_clears_colons_and_round_trips() {
    assert_eq!(escape_name("alice"), "alice");
    assert_eq!(escape_name("dr: x"), "dr\\c x");
    assert_eq!(escape_name("a\\b"), "a\\\\b");
    for name in ["alice", "dr: x", "a\\b", "\\c", "::", ""] {
        let escaped = escape_name(name);
        assert!(!escaped.contains(": "));
        assert_eq!(unescape_name(&escaped).expect("escaped names unescape"), name);
    }
    assert!(unescape_name("\\x").is_none());
    assert!(unescape_name("\\").is_none());
}

#[test]
fn parse_inverts_format_for_any_name() {
    let line = format_relay_line("dr: x", "hi");
    assert_eq!(line, "dr\\c x: hi");
    let m = parse_relay_line(&line).expect("relay lines parse");
    assert_eq!(m.user_name, "dr: x");
    assert_eq!(m.content, "hi");

    let m = parse_relay_line("alice: hello").expect("relay lines parse");
    assert_eq!(m.user_name, "alice");
    assert_eq!(m.content, "hello");

    // Not a relay line: no separator, or a name part that is no escaping.
    assert!(parse_relay_line("no separator").is_none());
    assert!(parse_relay_line("\\x: y").is_none());
}

#[test]
fn decoding_garbage_fails() {
    assert!(decode_relay_line(&[0xc1]).is_none());
    assert!(decode_relay_line(&[]).is_none());
    // A valid MessagePack string that is not a relay line splits to nothing.
    let bytes = rmp_serde::to_vec("no separator").expect("encoding succeeds");
    assert!(decode_relay_line(&bytes).is_none());
}

#[test]
fn lifecycle_happy_path() {
    let (p, a) = step(SessionPhase::Connecting, SessionEvent::Registered);
    assert_eq!((p, a), (SessionPhase::Active, SessionAction::DoNothing));
    let (p, a) = step(p, SessionEvent::InboundText);
    assert_eq!((p, a), (SessionPhase::Active, SessionAction::RelayText));
    let (p, a) = step(p, SessionEvent::InboundIgnored);
    assert_eq!((p, a), (SessionPhase::Active, SessionAction::DoNothing));
    let (p, a) = step(p, SessionEvent::InboundEnded);
    assert_eq!((p, a), (SessionPhase::Draining, SessionAction::BeginDrain));
    let (p, a) = step(p, SessionEvent::DrainComplete);
    assert_eq!((p, a), (SessionPhase::Closed, SessionAction::Deregister));
}

#[test]
fn lifecycle_write_failure_drains() {
    let (p, _) = step(SessionPhase::Connecting, SessionEvent::Registered);
    let (p, a) = step(p, SessionEvent::DeliveryEnded);
    assert_eq!((p, a), (SessionPhase::Draining, SessionAction::BeginDrain));
}

#[test]
fn lifecycle_ignores_out_of_phase_events() {
    let (p, a) = step(SessionPhase::Connecting, SessionEvent::InboundText);
    assert_eq!((p, a), (SessionPhase::Connecting, SessionAction::DoNothing));
    let (p, a) = step(SessionPhase::Closed, SessionEvent::InboundText);
    assert_eq!((p, a), (SessionPhase::Closed, SessionAction::DoNothing));
    let (p, a) = step(SessionPhase::Closed, SessionEvent::DrainComplete);
    assert_eq!((p, a), (SessionPhase::Closed, SessionAction::DoNothing));
}
