use bytes::Bytes;
use rs_qq::correlation::Correlation;
use rs_qq::name_table::NameTable;
use rs_qq::packet::{Packet, Reply};
use tokio::sync::oneshot;

fn packet(seq: u16, name: &str) -> Packet {
    Packet { seq_id: seq, command_name: name.to_owned(), uin: 1, body: Bytes::new() }
}

#[test]
fn new_table_is_empty() {
    let table: NameTable<u32> = NameTable::new();
    assert_eq!(table.len(), 0);
    assert!(!table.contains("a"));
    assert!(!table.contains(""));
}

#[test]
fn insert_puts_and_replaces() {
    let mut table: NameTable<u32> = NameTable::new();
    assert_eq!(table.insert("a".to_owned(), 1), None);
    assert_eq!(table.insert("b".to_owned(), 2), None);
    assert_eq!(table.len(), 2);
    assert_eq!(table.insert("a".to_owned(), 3), Some(1));
    assert_eq!(table.len(), 2);
    assert!(table.contains("a"));
    assert_eq!(table.remove("a"), Some(3));
    assert_eq!(table.remove("a"), None);
    assert_eq!(table.len(), 1);
    assert!(table.contains("b"));
}

#[test]
fn remove_takes_only_the_named_entry() {
    let mut table: NameTable<&'static str> = NameTable::new();
    for name in ["x", "y", "z", ""] {
        assert_eq!(table.insert(name.to_owned(), name), None);
    }
    assert_eq!(table.remove("y"), Some("y"));
    assert_eq!(table.remove("missing"), None);
    assert_eq!(table.len(), 3);
    assert_eq!(table.remove(""), Some(""));
    assert_eq!(table.remove("x"), Some("x"));
    assert_eq!(table.remove("z"), Some("z"));
    assert_eq!(table.len(), 0);
}

#[test]
fn names_are_told_apart_by_their_characters() {
    let mut table: NameTable<u8> = NameTable::new();
    assert_eq!(table.insert("Heartbeat.Alive".to_owned(), 1), None);
    assert!(!table.contains("heartbeat.alive"));
    assert!(!table.contains("Heartbeat.Alive "));
    assert!(table.contains("Heartbeat.Alive"));
}

#[test]
fn dispatch_prefers_the_request_to_the_named_wait() {
    let mut table = Correlation::new();
    let (by_seq, mut seq_rx) = oneshot::channel::<Reply>();
    let (by_name, mut name_rx) = oneshot::channel::<Packet>();
    let _ = table.register(3, "cmd".to_owned(), by_seq);
    let _ = table.register_named("cmd".to_owned(), by_name);
    let first = packet(3, "cmd");
    assert_eq!(table.dispatch(first.clone()), None);
    assert_eq!(seq_rx.try_recv(), Ok(Ok(first)));
    assert!(name_rx.try_recv().is_err());
    assert!(table.is_awaited("cmd"));
    let second = packet(3, "cmd");
    assert_eq!(table.dispatch(second.clone()), None);
    assert_eq!(name_rx.try_recv(), Ok(second));
    assert!(!table.is_awaited("cmd"));
    let third = packet(3, "cmd");
    assert_eq!(table.dispatch(third.clone()), Some(third));
}

#[test]
fn dispatch_returns_what_nobody_waits_for() {
    let mut table = Correlation::new();
    let (by_seq, _rx) = oneshot::channel::<Reply>();
    let _ = table.register(3, "cmd".to_owned(), by_seq);
    let p = packet(4, "other");
    assert_eq!(table.dispatch(p.clone()), Some(p));
    assert!(table.is_pending(3));
}
