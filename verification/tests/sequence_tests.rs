use bytes::Bytes;
use rs_qq::client::Client;
use rs_qq::sequence::{SequenceCounter16, SequenceCounter32};
use tokio::sync::mpsc::unbounded_channel;

fn fresh_client() -> Client {
    let (tx, _rx) = unbounded_channel::<Bytes>();
    Client::new(tx)
}

#[test]
fn transport_counter_starts_at_its_fixed_value() {
    let mut client = fresh_client();
    assert_eq!(client.next_seq(), 0x3635);
    assert_eq!(client.next_seq(), 0x3636);
    assert_eq!(client.next_seq(), 0x3637);
}

#[test]
fn request_id_counter_starts_at_its_fixed_value_and_steps_by_two() {
    let mut client = fresh_client();
    assert_eq!(client.next_packet_seq(), 1921334513);
    assert_eq!(client.next_packet_seq(), 1921334515);
    assert_eq!(client.next_packet_seq(), 1921334517);
}

#[test]
fn random_counters_start_below_the_bound_and_step_by_two() {
    for _ in 0..50 {
        let mut client = fresh_client();
        let g = client.next_group_seq();
        let f = client.next_friend_seq();
        let d = client.next_group_data_trans_seq();
        let h = client.next_highway_apply_seq();
        for v in [g, f, d, h] {
            assert!((0..20000).contains(&v));
        }
        assert_eq!(client.next_group_seq(), g + 2);
        assert_eq!(client.next_friend_seq(), f + 2);
        assert_eq!(client.next_group_data_trans_seq(), d + 2);
        assert_eq!(client.next_highway_apply_seq(), h + 2);
    }
}

#[test]
fn counters_are_independent() {
    let mut client = fresh_client();
    let g = client.next_group_seq();
    let _ = client.next_seq();
    let _ = client.next_packet_seq();
    let _ = client.next_friend_seq();
    assert_eq!(client.next_group_seq(), g + 2);
    assert_eq!(client.next_seq(), 0x3636);
}

#[test]
fn sixteen_bit_counter_wraps_to_zero() {
    let mut c = SequenceCounter16::new(0xfffe);
    assert_eq!(c.allocate(), 0xfffe);
    assert_eq!(c.allocate(), 0xffff);
    assert_eq!(c.allocate(), 0);
    assert_eq!(c.allocate(), 1);
}

#[test]
fn thirty_two_bit_counter_wraps_to_the_bottom() {
    let mut c = SequenceCounter32::new(i32::MAX - 1);
    assert_eq!(c.allocate(), i32::MAX - 1);
    assert_eq!(c.allocate(), i32::MIN);
    assert_eq!(c.allocate(), i32::MIN + 2);
    let mut odd = SequenceCounter32::new(i32::MAX);
    assert_eq!(odd.allocate(), i32::MAX);
    assert_eq!(odd.allocate(), i32::MIN + 1);
}

#[test]
fn consecutive_allocations_differ_by_the_stride() {
    let mut c16 = SequenceCounter16::new(0xff00);
    let mut prev16 = c16.allocate();
    for _ in 0..1000 {
        let next = c16.allocate();
        assert_eq!(next, prev16.wrapping_add(1));
        prev16 = next;
    }
    let mut c32 = SequenceCounter32::new(i32::MAX - 999);
    let mut prev32 = c32.allocate();
    for _ in 0..1000 {
        let next = c32.allocate();
        assert_eq!(next, prev32.wrapping_add(2));
        prev32 = next;
    }
}

#[test]
fn a_full_cycle_of_the_transport_counter_returns_to_the_start() {
    let mut c = SequenceCounter16::new(0x3635);
    for _ in 0..65536 {
        let _ = c.allocate();
    }
    assert_eq!(c.allocate(), 0x3635);
}

#[test]
fn fresh_client_is_offline_and_blank() {
    let client = fresh_client();
    assert_eq!(client.uin, 0);
    assert!(!client.connected);
    assert!(!client.online);
    assert!(!client.heartbeat_enabled);
    assert!(!client.shutting_down);
    assert!(client.sig.d2.is_empty());
    assert!(client.sig.tgtgt_key.is_empty());
    assert_eq!(client.sig.sync_cookie, None);
    assert_eq!(client.sig.pub_account_cookie, None);
    assert!(client.wt_session_ticket_key.is_empty());
    assert_eq!(client.last_message_time, 0);
    assert!(!client.correlation.is_pending(0x3635));
}
