use bytes::Bytes;
use rs_qq::api::{check_status, check_translations, CustomOnlineStatus, Status};
use rs_qq::client::Client;
use rs_qq::error::RQError;
use rs_qq::heartbeat::{
    start, Beating, HeartbeatStep, Registering, Sending, HEARTBEAT_INTERVAL_SECS, REGISTER_EVERY,
};
use tokio::sync::mpsc::unbounded_channel;

fn sleep_step(times: u32) -> HeartbeatStep {
    HeartbeatStep::Sleep { state: Beating { times }, delay_secs: 30 }
}

fn beating(step: HeartbeatStep) -> Beating {
    match step {
        HeartbeatStep::Sleep { state, delay_secs } => {
            assert_eq!(delay_secs, 30);
            state
        }
        other => panic!("no sleep is due: {:?}", other),
    }
}

fn sending(step: HeartbeatStep) -> Sending {
    match step {
        HeartbeatStep::Send(state) => state,
        other => panic!("no heartbeat is due: {:?}", other),
    }
}

/// One round of the loop while online: the sleep ends, the heartbeat goes
/// out and comes back with `success`.
fn round(state: Beating, success: bool) -> HeartbeatStep {
    sending(state.on_woken(true)).on_beat(success, true)
}

#[test]
fn heartbeat_constants() {
    assert_eq!(HEARTBEAT_INTERVAL_SECS, 30);
    assert_eq!(REGISTER_EVERY, 7);
}

#[test]
fn start_runs_only_while_online() {
    assert_eq!(start(true), sleep_step(0));
    assert_eq!(start(false), HeartbeatStep::Stop);
}

#[test]
fn a_sleep_is_followed_by_a_heartbeat_while_online() {
    assert_eq!(Beating { times: 3 }.on_woken(true), HeartbeatStep::Send(Sending { times: 3 }));
    assert_eq!(Beating { times: 0 }.on_woken(true), HeartbeatStep::Send(Sending { times: 0 }));
}

#[test]
fn no_heartbeat_is_sent_after_going_offline_during_the_sleep() {
    for times in [0, 1, 5, 6, 7, u32::MAX] {
        assert_eq!(Beating { times }.on_woken(false), HeartbeatStep::Stop);
    }
}

#[test]
fn six_successes_do_not_register_and_the_seventh_does() {
    let mut state = beating(start(true));
    for n in 1..=6 {
        state = beating(round(state, true));
        assert_eq!(state.times, n);
    }
    let step = round(state, true);
    assert_eq!(step, HeartbeatStep::Register(Registering {}));
    assert_eq!(Registering {}.on_registered(true, true), sleep_step(0));
}

#[test]
fn a_failure_between_successes_does_not_reset_the_count() {
    let mut state = beating(start(true));
    for _ in 0..3 {
        state = beating(round(state, true));
    }
    state = beating(round(state, false));
    assert_eq!(state.times, 3);
    state = beating(round(state, false));
    assert_eq!(state.times, 3);
    for _ in 0..3 {
        state = beating(round(state, true));
    }
    assert_eq!(state.times, 6);
    assert_eq!(round(state, false), sleep_step(6));
    assert_eq!(round(state, true), HeartbeatStep::Register(Registering {}));
}

#[test]
fn registration_comes_every_seventh_success() {
    let mut state = beating(start(true));
    let mut registrations = 0;
    let mut successes = 0;
    for i in 0..100 {
        let ok = i % 3 != 0;
        if ok {
            successes += 1;
        }
        state = match round(state, ok) {
            HeartbeatStep::Register(r) => {
                registrations += 1;
                beating(r.on_registered(true, true))
            }
            other => beating(other),
        };
        assert_eq!(registrations, successes / 7);
        assert_eq!(state.times, successes % 7);
    }
}

#[test]
fn going_offline_ends_the_loop_at_every_decision() {
    for times in [0, 2, 5, 6, 7, u32::MAX] {
        assert_eq!(Beating { times }.on_woken(false), HeartbeatStep::Stop);
        assert_eq!(Sending { times }.on_beat(true, false), HeartbeatStep::Stop);
        assert_eq!(Sending { times }.on_beat(false, false), HeartbeatStep::Stop);
    }
    assert_eq!(Registering {}.on_registered(true, false), HeartbeatStep::Stop);
    assert_eq!(Registering {}.on_registered(false, false), HeartbeatStep::Stop);
}

#[test]
fn the_seventh_success_does_not_register_when_offline() {
    let mut state = beating(start(true));
    for _ in 0..6 {
        state = beating(round(state, true));
    }
    assert_eq!(state.times, 6);
    let in_flight = sending(state.on_woken(true));
    assert_eq!(in_flight.on_beat(true, false), HeartbeatStep::Stop);
    assert_eq!(in_flight.on_beat(true, true), HeartbeatStep::Register(Registering {}));
}

#[test]
fn a_failed_registration_ends_the_loop() {
    assert_eq!(Registering {}.on_registered(false, true), HeartbeatStep::Stop);
    assert_eq!(Registering {}.on_registered(false, false), HeartbeatStep::Stop);
}

#[test]
fn a_count_past_the_threshold_registers() {
    assert_eq!(Sending { times: 7 }.on_beat(true, true), HeartbeatStep::Register(Registering {}));
    assert_eq!(Sending { times: u32::MAX }.on_beat(true, true), HeartbeatStep::Register(Registering {}));
    assert_eq!(Sending { times: u32::MAX }.on_beat(false, true), sleep_step(u32::MAX));
}

#[test]
fn client_sets_heartbeat_enabled_while_the_loop_runs() {
    let (tx, _rx) = unbounded_channel::<Bytes>();
    let mut client = Client::new(tx);
    assert_eq!(client.do_heartbeat(), HeartbeatStep::Stop);
    assert!(!client.heartbeat_enabled);
    client.online = true;
    let state = beating(client.do_heartbeat());
    assert!(client.heartbeat_enabled);
    let in_flight = sending(client.heartbeat_woken(state));
    assert!(client.heartbeat_enabled);
    let state = beating(client.heartbeat_done(in_flight, true));
    assert_eq!(state.times, 1);
    assert!(client.heartbeat_enabled);
    let in_flight = sending(client.heartbeat_woken(state));
    client.online = false;
    assert_eq!(client.heartbeat_done(in_flight, true), HeartbeatStep::Stop);
    assert!(!client.heartbeat_enabled);
}

#[test]
fn client_sends_nothing_after_going_offline_during_the_sleep() {
    let (tx, _rx) = unbounded_channel::<Bytes>();
    let mut client = Client::new(tx);
    client.online = true;
    let state = beating(client.do_heartbeat());
    assert!(client.heartbeat_enabled);
    client.online = false;
    assert_eq!(client.heartbeat_woken(state), HeartbeatStep::Stop);
    assert!(!client.heartbeat_enabled);
}

#[test]
fn client_does_not_register_after_going_offline_before_the_seventh_reply() {
    let (tx, _rx) = unbounded_channel::<Bytes>();
    let mut client = Client::new(tx);
    client.online = true;
    let mut state = beating(client.do_heartbeat());
    for _ in 0..6 {
        let in_flight = sending(client.heartbeat_woken(state));
        state = beating(client.heartbeat_done(in_flight, true));
    }
    let in_flight = sending(client.heartbeat_woken(state));
    client.online = false;
    assert_eq!(client.heartbeat_done(in_flight, true), HeartbeatStep::Stop);
    assert!(!client.heartbeat_enabled);
}

#[test]
fn client_stops_the_loop_when_registration_fails() {
    let (tx, _rx) = unbounded_channel::<Bytes>();
    let mut client = Client::new(tx);
    client.online = true;
    let mut state = beating(client.do_heartbeat());
    for _ in 0..6 {
        let in_flight = sending(client.heartbeat_woken(state));
        state = beating(client.heartbeat_done(in_flight, true));
    }
    let in_flight = sending(client.heartbeat_woken(state));
    let registering = match client.heartbeat_done(in_flight, true) {
        HeartbeatStep::Register(r) => r,
        other => panic!("no registration is due: {:?}", other),
    };
    assert!(client.heartbeat_enabled);
    assert_eq!(client.registration_done(registering, false), HeartbeatStep::Stop);
    assert!(!client.heartbeat_enabled);
    assert_eq!(client.registration_done(Registering {}, true), sleep_step(0));
    assert!(client.heartbeat_enabled);
    client.online = false;
    assert_eq!(client.registration_done(Registering {}, true), HeartbeatStep::Stop);
    assert!(!client.heartbeat_enabled);
}

fn status_with(wording: Option<&str>) -> Status {
    Status {
        online_status: 11,
        ext_online_status: 2000,
        custom_status: wording.map(|w| CustomOnlineStatus { face_index: 1, wording: w.to_owned() }),
    }
}

#[test]
fn status_without_a_custom_status_is_valid() {
    assert_eq!(check_status(&status_with(None)), Ok(()));
}

#[test]
fn wording_of_one_to_four_characters_is_valid() {
    for wording in ["a", "ab", "abc", "abcd", "\u{5fd9}\u{788c}\u{4e2d}\u{5440}", "\u{1f600}"] {
        assert_eq!(check_status(&status_with(Some(wording))), Ok(()));
    }
}

#[test]
fn empty_or_long_wording_is_invalid() {
    for wording in ["", "abcde", "\u{5fd9}\u{788c}\u{4e2d}\u{5440}\u{554a}"] {
        assert_eq!(
            check_status(&status_with(Some(wording))),
            Err(RQError::Other("invalid wording length".to_owned()))
        );
    }
}

#[test]
fn translations_must_be_as_many_as_the_texts() {
    let two = vec!["eins".to_owned(), "zwei".to_owned()];
    assert_eq!(check_translations(2, two.clone()), Ok(two.clone()));
    assert_eq!(check_translations(0, Vec::new()), Ok(Vec::new()));
    assert_eq!(check_translations(3, two.clone()), Err(RQError::Other("translate length error".to_owned())));
    assert_eq!(check_translations(1, two), Err(RQError::Other("translate length error".to_owned())));
}
