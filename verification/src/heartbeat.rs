//! The keep-alive loop.
//!
//! While the connection is online the loop sleeps, sends a heartbeat and
//! waits for its reply. A heartbeat that fails is let pass. Every seventh
//! heartbeat that succeeds is followed by a re-registration of the client,
//! and the count starts again; a failed heartbeat does not reset the count.
//! The loop ends as soon as the connection is no longer online, or when a
//! re-registration fails.
//!
//! Sleeping, sending and waiting is the caller's part. `Beating`, `Sending`
//! and `Registering` hold the loop's state between two waits and decide
//! what comes next. Each of them is told whether the connection is online
//! at that moment, so that the loop takes no step once it is not: none
//! after a sleep, none after a reply and none after a re-registration.

use vstd::prelude::*;

verus! {

/// Seconds to sleep before each heartbeat.
pub const HEARTBEAT_INTERVAL_SECS: u64 = 30;

/// The number of successful heartbeats after which the client registers
/// again.
pub const REGISTER_EVERY: u32 = 7;

/// The states of the keep-alive loop.
#[derive(Debug, Clone, Copy, PartialEq, Eq, Structural)]
pub enum HeartbeatPhase {
    /// Not started.
    Disabled,
    /// Started, and not yet ended.
    Running,
    /// Ended.
    Stopped,
}

/// The running loop at its head, asleep before the next heartbeat: `times`
/// heartbeats succeeded since the loop started or the client last
/// registered.
#[derive(Debug, Clone, Copy, PartialEq, Eq, Structural)]
pub struct Beating {
    pub times: u32,
}

/// The running loop while a heartbeat is under way, `times` successes being
/// counted before it.
#[derive(Debug, Clone, Copy, PartialEq, Eq, Structural)]
pub struct Sending {
    pub times: u32,
}

/// The running loop while a re-registration is under way.
#[derive(Debug, Clone, Copy, PartialEq, Eq, Structural)]
pub struct Registering {}

/// What the loop does next.
#[derive(Debug, Clone, Copy, PartialEq, Eq, Structural)]
pub enum HeartbeatStep {
    /// Sleep for `delay_secs` seconds and tell `state` that the sleep is
    /// over.
    Sleep { state: Beating, delay_secs: u64 },
    /// Send a heartbeat, wait for its reply and report to the state how it
    /// went.
    Send(Sending),
    /// Register the client again and report to the state how it went.
    Register(Registering),
    /// The loop is over.
    Stop,
}

impl HeartbeatStep {
    /// The state that the loop is in when it takes this step.
    pub open spec fn phase(self) -> HeartbeatPhase {
        match self {
            HeartbeatStep::Stop => HeartbeatPhase::Stopped,
            _ => HeartbeatPhase::Running,
        }
    }
}

/// The head of the loop with `times` successes counted: a sleep before the
/// next heartbeat while the connection is online, else the end.
pub open spec fn loop_head(times: u32, online: bool) -> HeartbeatStep {
    if online {
        HeartbeatStep::Sleep { state: Beating { times }, delay_secs: HEARTBEAT_INTERVAL_SECS }
    } else {
        HeartbeatStep::Stop
    }
}

/// The step after the sleep: the heartbeat while the connection is online,
/// else the end.
pub open spec fn after_sleep(times: u32, online: bool) -> HeartbeatStep {
    if online {
        HeartbeatStep::Send(Sending { times })
    } else {
        HeartbeatStep::Stop
    }
}

/// Whether a success after `times` earlier ones calls for a re-registration.
pub open spec fn registration_due(times: nat) -> bool {
    times + 1 >= REGISTER_EVERY
}

/// The step after a heartbeat, `times` successes being counted before it.
///
/// Where the connection is no longer online the loop ends, however the
/// heartbeat went. Else a failure leaves the count and the loop goes on from
/// its head; a success is counted, and the seventh asks for a
/// re-registration.
pub open spec fn after_beat(times: u32, success: bool, online: bool) -> HeartbeatStep {
    if !online {
        HeartbeatStep::Stop
    } else if !success {
        loop_head(times, online)
    } else if registration_due(times as nat) {
        HeartbeatStep::Register(Registering {  })
    } else {
        loop_head((times + 1) as u32, online)
    }
}

/// The step after a re-registration: the end where it failed or the
/// connection is no longer online, else the head of the loop with the count
/// started again.
pub open spec fn after_registration(success: bool, online: bool) -> HeartbeatStep {
    if success {
        loop_head(0, online)
    } else {
        HeartbeatStep::Stop
    }
}

/// Starts the loop: no success is counted yet.
pub fn start(online: bool) -> (step: HeartbeatStep)
    ensures
        step == loop_head(0, online),
{
    head(0, online)
}

fn head(times: u32, online: bool) -> (step: HeartbeatStep)
    ensures
        step == loop_head(times, online),
{
    if online {
        HeartbeatStep::Sleep { state: Beating { times }, delay_secs: HEARTBEAT_INTERVAL_SECS }
    } else {
        HeartbeatStep::Stop
    }
}

impl Beating {
    /// Takes the end of the sleep; `online` says whether the connection is
    /// online now.
    ///
    /// The heartbeat is sent only while the connection is online: where it
    /// is not, the loop ends and nothing is sent.
    pub fn on_woken(self, online: bool) -> (step: HeartbeatStep)
        ensures
            step == after_sleep(self.times, online),
    {
        if online {
            HeartbeatStep::Send(Sending { times: self.times })
        } else {
            HeartbeatStep::Stop
        }
    }
}

impl Sending {
    /// Takes the outcome of a heartbeat; `online` says whether the
    /// connection is online now.
    ///
    /// Where the connection is no longer online the loop ends. Else a
    /// failure changes nothing: the loop goes on from its head. A success is
    /// counted; with the seventh the client registers again.
    pub fn on_beat(self, success: bool, online: bool) -> (step: HeartbeatStep)
        ensures
            step == after_beat(self.times, success, online),
    {
        if !online {
            HeartbeatStep::Stop
        } else if !success {
            head(self.times, online)
        } else if self.times >= REGISTER_EVERY - 1 {
            HeartbeatStep::Register(Registering {  })
        } else {
            head(self.times + 1, online)
        }
    }
}

impl Registering {
    /// Takes the outcome of a re-registration; `online` says whether the
    /// connection is online now.
    ///
    /// A success starts the count again and the loop goes on from its head,
    /// if the connection is still online. A failure ends the loop.
    pub fn on_registered(self, success: bool, online: bool) -> (step: HeartbeatStep)
        ensures
            step == after_registration(success, online),
    {
        if success {
            head(0, online)
        } else {
            HeartbeatStep::Stop
        }
    }
}

/// Once the connection is not online, every decision of the loop is to end:
/// at the start and at the loop's head, after a sleep, after a heartbeat
/// however it went and whatever the count, and after a re-registration
/// however it went. So no heartbeat is sent and no re-registration is made
/// from then on.
pub proof fn lemma_offline_stops(times: u32, success: bool)
    ensures
        loop_head(times, false) == HeartbeatStep::Stop,
        after_sleep(times, false) == HeartbeatStep::Stop,
        after_beat(times, success, false) == HeartbeatStep::Stop,
        after_registration(success, false) == HeartbeatStep::Stop,
{
}

/// While the connection is online the loop goes on: a sleep is followed by
/// a heartbeat, and a heartbeat by a sleep or a re-registration.
pub proof fn lemma_online_goes_on(times: u32, success: bool)
    ensures
        loop_head(times, true) is Sleep,
        after_sleep(times, true) == HeartbeatStep::Send(Sending { times }),
        after_beat(times, success, true) is Sleep || after_beat(times, success, true) is Register,
        after_registration(true, true) == loop_head(0, true),
{
}

/// The count of successes and the number of re-registrations so far.
pub struct Tally {
    pub times: nat,
    pub registrations: nat,
}

/// The tally after one more heartbeat, where every re-registration
/// succeeds.
pub open spec fn tally_beat(tally: Tally, success: bool) -> Tally {
    if !success {
        tally
    } else if registration_due(tally.times) {
        Tally { times: 0, registrations: tally.registrations + 1 }
    } else {
        Tally { times: tally.times + 1, registrations: tally.registrations }
    }
}

/// The tally after the heartbeats `outcomes`, one after the other, from a
/// loop with `times` successes counted, where the connection stays online
/// and every re-registration succeeds.
pub open spec fn tally_after(times: nat, outcomes: Seq<bool>) -> Tally
    decreases outcomes.len(),
{
    if outcomes.len() == 0 {
        Tally { times, registrations: 0 }
    } else {
        tally_beat(tally_after(times, outcomes.drop_last()), outcomes.last())
    }
}

/// How many of the heartbeats succeeded.
pub open spec fn successes(outcomes: Seq<bool>) -> nat
    decreases outcomes.len(),
{
    if outcomes.len() == 0 {
        0
    } else {
        successes(outcomes.drop_last()) + if outcomes.last() {
            1nat
        } else {
            0nat
        }
    }
}

/// The tally's steps are those of the loop: while the connection is online,
/// a sleep is followed by a heartbeat, the step after a heartbeat is a
/// re-registration exactly where the tally counts one, and else the loop's
/// head with the tally's count; and the loop goes on from count 0 after a
/// re-registration that succeeds.
pub proof fn lemma_tally_follows_loop(times: u32, success: bool)
    requires
        times < REGISTER_EVERY,
    ensures
        after_sleep(times, true) == HeartbeatStep::Send(Sending { times }),
        ({
            let before = Tally { times: times as nat, registrations: 0 };
            let after = tally_beat(before, success);
            if after.registrations == 1 {
                &&& after_beat(times, success, true) == HeartbeatStep::Register(Registering {  })
                &&& after_registration(true, true) == loop_head(after.times as u32, true)
            } else {
                after_beat(times, success, true) == loop_head(after.times as u32, true)
            }
        }),
{
}

/// Only the successes count. From a count below seven, after any run of
/// heartbeats the client has registered again once for every seven
/// successes, counted from the loop's start or its last registration, and
/// the count stands at what is left over. A failure between two successes
/// resets nothing.
pub proof fn lemma_registration_every_seventh(times: nat, outcomes: Seq<bool>)
    requires
        times < REGISTER_EVERY,
    ensures
        tally_after(times, outcomes).times == (times + successes(outcomes)) as int % (REGISTER_EVERY as int),
        tally_after(times, outcomes).registrations == (times + successes(outcomes)) as int / (REGISTER_EVERY as int),
    decreases outcomes.len(),
{
    if outcomes.len() > 0 {
        lemma_registration_every_seventh(times, outcomes.drop_last());
    }
}

} // verus!
