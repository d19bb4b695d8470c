use instreams::InstreamState;
use instreams::SessionGate;
use instreams::session_key;

#[test]
fn session_key_is_idempotent() {
    let mut state = InstreamState::new();
    let first = session_key(&mut state);
    let second = session_key(&mut state);
    assert_eq!(first.message, second.message);
    let third = session_key(&mut state);
    assert_eq!(first.message, third.message);
}

#[test]
fn session_key_is_a_uuid_string() {
    let mut state = InstreamState::new();
    let reply = session_key(&mut state);
    assert_eq!(reply.message.len(), 36);
    assert_eq!(reply.message.chars().filter(|c| *c == '-').count(), 4);
}

#[test]
fn gate_matches_nothing_before_first_retrieval() {
    let gate = SessionGate::new();
    assert!(!gate.matches(""));
    assert!(!gate.matches("0"));
    assert!(!gate.matches("any"));
}

#[test]
fn gate_matches_exactly_the_issued_key() {
    let mut gate = SessionGate::new();
    let key = gate.get_or_create("k-1".to_string());
    assert_eq!(key, "k-1");
    assert!(gate.matches("k-1"));
    assert!(!gate.matches("k-2"));
    assert!(!gate.matches(""));
}

#[test]
fn gate_keeps_the_first_key() {
    let mut gate = SessionGate::new();
    let first = gate.get_or_create("k-1".to_string());
    let second = gate.get_or_create("k-2".to_string());
    assert_eq!(first, "k-1");
    assert_eq!(second, "k-1");
    assert!(gate.matches("k-1"));
    assert!(!gate.matches("k-2"));
}
