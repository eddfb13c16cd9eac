//! The message synchronisation loop.
//!
//! The loop pulls messages from the server until the server declares the
//! stream drained. Each round sends a request in the current mode, tells the
//! server which messages arrived so that it does not send them again, moves
//! the cursor, and keeps the messages. The cursor moves only after the
//! acknowledgment went through: messages that were received but not
//! acknowledged come again with the next synchronisation.
//!
//! Sending and waiting is the caller's part. `SyncRound` and `SyncAck` hold
//! the loop's state between two waits and decide what comes next.

use crate::error::RQError;
use crate::signature::{cursor_after, response_cookie_view, SignatureState, SignatureView};
use bytes::Bytes;
use vstd::prelude::*;

verus! {

/// The mode of the first request of a synchronisation.
pub const SYNC_START: i32 = 0;

/// The mode by which the server asks for another round.
pub const SYNC_CONTINUE: i32 = 1;

/// The mode by which the server declares the stream drained.
pub const SYNC_STOP: i32 = 2;

/// The header of a message.
#[derive(Debug, Clone, Copy, PartialEq, Eq)]
pub struct MessageHead {
    pub from_uin: i64,
    pub to_uin: i64,
    pub msg_type: i32,
    pub msg_seq: i32,
    pub msg_uid: i64,
}

/// A message as the server delivers it.
#[derive(Debug, Clone, PartialEq, Eq)]
pub struct Message {
    pub head: MessageHead,
    pub body: Bytes,
}

/// What names one message in a deletion acknowledgment.
#[derive(Debug, Clone, Copy, PartialEq, Eq)]
pub struct MessageItem {
    pub from_uin: i64,
    pub to_uin: i64,
    pub msg_type: i32,
    pub msg_seq: i32,
    pub msg_uid: i64,
}

/// A decoded synchronisation response.
#[derive(Debug, Clone, PartialEq, Eq)]
pub struct MessageSyncResponse {
    /// Which cookies the response stands for.
    pub msg_rsp_type: i32,
    /// The mode that the server declares for the next round.
    pub sync_flag: i32,
    pub sync_cookie: Option<Vec<u8>>,
    pub pub_account_cookie: Option<Vec<u8>>,
    pub msgs: Vec<Message>,
}

/// A response with its cookies and messages as sequences.
pub struct ResponseView {
    pub msg_rsp_type: i32,
    pub sync_flag: i32,
    pub sync_cookie: Option<Seq<u8>>,
    pub pub_account_cookie: Option<Seq<u8>>,
    pub msgs: Seq<Message>,
}

impl View for MessageSyncResponse {
    type V = ResponseView;

    open spec fn view(&self) -> ResponseView {
        ResponseView {
            msg_rsp_type: self.msg_rsp_type,
            sync_flag: self.sync_flag,
            sync_cookie: response_cookie_view(self.sync_cookie),
            pub_account_cookie: response_cookie_view(self.pub_account_cookie),
            msgs: self.msgs@,
        }
    }
}

/// What a synchronisation request carries.
#[derive(Debug, Clone, Copy, PartialEq, Eq)]
pub struct SyncRequest {
    /// The mode of the round.
    pub sync_flag: i32,
    /// The time of the request, in seconds since the Unix epoch.
    pub time: i64,
}

/// The item that acknowledges a message with the header `head`.
pub open spec fn item_of(head: MessageHead) -> MessageItem {
    MessageItem {
        from_uin: head.from_uin,
        to_uin: head.to_uin,
        msg_type: head.msg_type,
        msg_seq: head.msg_seq,
        msg_uid: head.msg_uid,
    }
}

/// The items that acknowledge `msgs`: one for each message, in order.
pub open spec fn items_of(msgs: Seq<Message>) -> Seq<MessageItem> {
    Seq::new(msgs.len(), |i: int| item_of(msgs[i].head))
}

/// The signature state after the round of `response` is complete.
pub open spec fn cursor_after_response(sig: SignatureView, response: ResponseView) -> SignatureView {
    cursor_after(sig, response.msg_rsp_type, response.sync_cookie, response.pub_account_cookie)
}

/// Builds the deletion acknowledgment for `msgs`.
pub fn delete_items(msgs: &Vec<Message>) -> (items: Vec<MessageItem>)
    ensures
        items@ == items_of(msgs@),
{
    let mut items: Vec<MessageItem> = Vec::new();
    let mut i: usize = 0;
    while i < msgs.len()
        invariant
            i <= msgs.len(),
            items@ == items_of(msgs@.take(i as int)),
        decreases msgs.len() - i,
    {
        let head = &msgs[i].head;
        items.push(
            MessageItem {
                from_uin: head.from_uin,
                to_uin: head.to_uin,
                msg_type: head.msg_type,
                msg_seq: head.msg_seq,
                msg_uid: head.msg_uid,
            },
        );
        i += 1;
        assert(items@ =~= items_of(msgs@.take(i as int)));
    }
    assert(msgs@.take(i as int) =~= msgs@);
    items
}

/// `chrono::Utc::now` and `DateTime::timestamp`: the time of the call in
/// seconds since the Unix epoch. The call panics where the system clock
/// stands before the epoch.
#[verifier::external_body]
fn unix_time_now() -> (seconds: i64) {
    chrono::Utc::now().timestamp()
}

/// The loop at the head of a round: the mode of the coming request and the
/// messages kept so far.
#[derive(Debug)]
pub struct SyncRound {
    pub sync_flag: i32,
    pub msgs: Vec<Message>,
}

/// The loop in the middle of a round: a response is in hand and its
/// acknowledgment is under way.
#[derive(Debug)]
pub struct SyncAck {
    pub msgs: Vec<Message>,
    pub response: MessageSyncResponse,
}

/// What follows the outcome of a request.
#[derive(Debug)]
pub enum AfterResponse {
    /// Send the items as a deletion acknowledgment, then report its outcome
    /// to the `SyncAck`.
    Acknowledge(SyncAck, Vec<MessageItem>),
    /// The loop is over, with these messages.
    Finished(Vec<Message>),
}

/// What follows the outcome of an acknowledgment.
#[derive(Debug)]
pub enum AfterAck {
    /// Go on with another round.
    Continue(SyncRound),
    /// The loop is over, with these messages.
    Finished(Vec<Message>),
}

impl SyncRound {
    /// The head of the first round: mode `SYNC_START`, no message yet.
    pub fn start() -> (round: Self)
        ensures
            round.sync_flag == SYNC_START,
            round.msgs@ == Seq::<Message>::empty(),
    {
        SyncRound { sync_flag: SYNC_START, msgs: Vec::new() }
    }

    /// The request of this round, stamped with `time`, in seconds since the
    /// Unix epoch.
    pub fn request_at(&self, time: i64) -> (request: SyncRequest)
        ensures
            request == (SyncRequest { sync_flag: self.sync_flag, time }),
    {
        SyncRequest { sync_flag: self.sync_flag, time }
    }

    /// The request of this round, stamped with the time of the call: what
    /// `request_at` gives for the reading of the clock, whatever that is.
    pub fn request(&self) -> (request: SyncRequest)
        ensures
            request.sync_flag == self.sync_flag,
    {
        self.request_at(unix_time_now())
    }

    /// Takes the outcome of the round's request.
    ///
    /// A failed request ends the loop with the messages kept so far. A
    /// response asks for the acknowledgment of its messages; nothing else
    /// has changed by then.
    pub fn on_response(self, outcome: Result<MessageSyncResponse, RQError>) -> (next: AfterResponse)
        ensures
            match outcome {
                Err(_) => next matches AfterResponse::Finished(msgs) && msgs@ == self.msgs@,
                Ok(response) => next matches AfterResponse::Acknowledge(ack, items) && ack.msgs@
                    == self.msgs@ && ack.response == response && items@ == items_of(
                    response.msgs@,
                ),
            },
    {
        match outcome {
            Err(_) => AfterResponse::Finished(self.msgs),
            Ok(response) => {
                let items = delete_items(&response.msgs);
                AfterResponse::Acknowledge(SyncAck { msgs: self.msgs, response }, items)
            },
        }
    }
}

impl SyncAck {
    /// Takes the outcome of the acknowledgment.
    ///
    /// A failed acknowledgment ends the loop with the messages kept before
    /// this round, and leaves the cursor where it was. After a successful
    /// one the cursor moves as the response directs, the response's messages
    /// are kept, and the loop ends if the response declared `SYNC_STOP`, else
    /// goes on in the mode that the response declared.
    pub fn on_acknowledged(self, outcome: Result<(), RQError>, sig: &mut SignatureState) -> (next:
        AfterAck)
        ensures
            match outcome {
                Err(_) => {
                    &&& next matches AfterAck::Finished(msgs) && msgs@ == self.msgs@
                    &&& final(sig)@ == old(sig)@
                },
                Ok(_) => {
                    &&& final(sig)@ == cursor_after_response(old(sig)@, self.response@)
                    &&& if self.response.sync_flag == SYNC_STOP {
                        next matches AfterAck::Finished(msgs) && msgs@ == self.msgs@
                            + self.response.msgs@
                    } else {
                        next matches AfterAck::Continue(round) && round.sync_flag
                            == self.response.sync_flag && round.msgs@ == self.msgs@
                            + self.response.msgs@
                    }
                },
            },
    {
        match outcome {
            Err(_) => AfterAck::Finished(self.msgs),
            Ok(_) => {
                let MessageSyncResponse {
                    msg_rsp_type,
                    sync_flag,
                    sync_cookie,
                    pub_account_cookie,
                    msgs: mut received,
                } = self.response;
                sig.update_sync_cursor(msg_rsp_type, sync_cookie, pub_account_cookie);
                let mut msgs = self.msgs;
                msgs.append(&mut received);
                if sync_flag == SYNC_STOP {
                    AfterAck::Finished(msgs)
                } else {
                    AfterAck::Continue(SyncRound { sync_flag, msgs })
                }
            },
        }
    }
}

/// What the outside did in one round of a synchronisation.
pub enum Exchange {
    /// The request failed.
    RequestFailed,
    /// This response came, and its acknowledgment failed.
    AckFailed(ResponseView),
    /// This response came, and its acknowledgment went through.
    Completed(ResponseView),
}

/// One round of a scripted synchronisation: what the outside is to answer.
#[derive(Debug, Clone, PartialEq, Eq)]
pub enum ScriptedRound {
    RequestFailed(RQError),
    AckFailed(MessageSyncResponse, RQError),
    Completed(MessageSyncResponse),
}

impl View for ScriptedRound {
    type V = Exchange;

    open spec fn view(&self) -> Exchange {
        match *self {
            ScriptedRound::RequestFailed(_) => Exchange::RequestFailed,
            ScriptedRound::AckFailed(response, _) => Exchange::AckFailed(response@),
            ScriptedRound::Completed(response) => Exchange::Completed(response@),
        }
    }
}

/// A script with each of its rounds taken by its view.
pub open spec fn script_view(script: Seq<ScriptedRound>) -> Seq<Exchange> {
    Seq::new(script.len(), |i: int| script[i]@)
}

/// How a synchronisation went.
pub struct SyncOutcome {
    /// The messages kept, in the order in which they came.
    pub msgs: Seq<Message>,
    /// The signature state at the end.
    pub sig: SignatureView,
    /// The modes of the requests sent, in order.
    pub requests: Seq<i32>,
    /// The deletion acknowledgments sent, in order, those that failed too.
    pub acknowledgments: Seq<Seq<MessageItem>>,
    /// Whether the loop came to its end; it has not where the script ran out
    /// before.
    pub finished: bool,
}

/// What a scripted synchronisation reports.
#[derive(Debug, Clone, PartialEq, Eq)]
pub struct SyncReport {
    pub msgs: Vec<Message>,
    pub requests: Vec<i32>,
    pub acknowledgments: Vec<Vec<MessageItem>>,
    pub finished: bool,
}

/// Acknowledgments as sequences of items.
pub open spec fn acknowledgments_view(acknowledgments: Seq<Vec<MessageItem>>) -> Seq<
    Seq<MessageItem>,
> {
    Seq::new(acknowledgments.len(), |i: int| acknowledgments[i]@)
}

/// The synchronisation loop from the head of a round in mode `sync_flag`,
/// with `msgs` kept so far and the signature state `sig`, against a script
/// of what the outside answers round by round.
pub open spec fn sync_run(
    sync_flag: i32,
    msgs: Seq<Message>,
    sig: SignatureView,
    script: Seq<Exchange>,
) -> SyncOutcome
    decreases script.len(),
{
    if script.len() == 0 {
        SyncOutcome {
            msgs,
            sig,
            requests: Seq::empty(),
            acknowledgments: Seq::empty(),
            finished: false,
        }
    } else {
        match script[0] {
            Exchange::RequestFailed => SyncOutcome {
                msgs,
                sig,
                requests: seq![sync_flag],
                acknowledgments: Seq::empty(),
                finished: true,
            },
            Exchange::AckFailed(response) => SyncOutcome {
                msgs,
                sig,
                requests: seq![sync_flag],
                acknowledgments: seq![items_of(response.msgs)],
                finished: true,
            },
            Exchange::Completed(response) => {
                let moved = cursor_after_response(sig, response);
                let kept = msgs + response.msgs;
                if response.sync_flag == SYNC_STOP {
                    SyncOutcome {
                        msgs: kept,
                        sig: moved,
                        requests: seq![sync_flag],
                        acknowledgments: seq![items_of(response.msgs)],
                        finished: true,
                    }
                } else {
                    let rest = sync_run(response.sync_flag, kept, moved, script.skip(1));
                    SyncOutcome {
                        requests: seq![sync_flag] + rest.requests,
                        acknowledgments: seq![items_of(response.msgs)] + rest.acknowledgments,
                        ..rest
                    }
                }
            },
        }
    }
}

/// The messages of the completed rounds of a script, in order.
pub open spec fn messages_of(script: Seq<Exchange>) -> Seq<Message>
    decreases script.len(),
{
    if script.len() == 0 {
        Seq::empty()
    } else {
        let first = match script[0] {
            Exchange::Completed(response) => response.msgs,
            _ => Seq::empty(),
        };
        first + messages_of(script.skip(1))
    }
}

/// The signature state after the completed rounds of a script, each moving
/// the cursor as its response directs.
pub open spec fn cursor_through(sig: SignatureView, script: Seq<Exchange>) -> SignatureView
    decreases script.len(),
{
    if script.len() == 0 {
        sig
    } else {
        let moved = match script[0] {
            Exchange::Completed(response) => cursor_after_response(sig, response),
            _ => sig,
        };
        cursor_through(moved, script.skip(1))
    }
}

/// The first `k` rounds of the script complete, and none of them declares
/// the end of the stream.
pub open spec fn goes_on_for(script: Seq<Exchange>, k: int) -> bool {
    &&& 0 <= k <= script.len()
    &&& forall|i: int|
        0 <= i < k ==> (#[trigger] script[i] matches Exchange::Completed(response)
            && response.sync_flag != SYNC_STOP)
}

/// Runs the whole loop against a script, from the first request on.
///
/// Each round takes the next entry of the script as the outside's answer.
/// The report says which modes were requested, which acknowledgments were
/// sent and which messages were kept; `finished` is false where the script
/// ran out before the loop ended.
#[verifier::loop_isolation(false)]
pub fn run_script(script: Vec<ScriptedRound>, sig: &mut SignatureState) -> (report: SyncReport)
    ensures
        ({
            let outcome = sync_run(
                SYNC_START,
                Seq::empty(),
                old(sig)@,
                script_view(script@),
            );
            &&& report.msgs@ == outcome.msgs
            &&& report.requests@ == outcome.requests
            &&& acknowledgments_view(report.acknowledgments@) == outcome.acknowledgments
            &&& report.finished == outcome.finished
            &&& final(sig)@ == outcome.sig
        }),
{
    let ghost whole = sync_run(SYNC_START, Seq::empty(), sig@, script_view(script@));
    let mut remaining = script;
    let mut round = SyncRound::start();
    let mut requests: Vec<i32> = Vec::new();
    let mut acknowledgments: Vec<Vec<MessageItem>> = Vec::new();
    loop
        invariant
            ({
                let rest = sync_run(round.sync_flag, round.msgs@, sig@, script_view(remaining@));
                whole == SyncOutcome {
                    requests: requests@ + rest.requests,
                    acknowledgments: acknowledgments_view(acknowledgments@) + rest.acknowledgments,
                    ..rest
                }
            }),
        decreases remaining.len(),
    {
        if remaining.len() == 0 {
            assert(requests@ + Seq::<i32>::empty() =~= requests@);
            assert(acknowledgments_view(acknowledgments@) + Seq::<Seq<MessageItem>>::empty()
                =~= acknowledgments_view(acknowledgments@));
            return SyncReport { msgs: round.msgs, requests, acknowledgments, finished: false };
        }
        let ghost before = script_view(remaining@);
        let ghost sent = requests@;
        let ghost acked = acknowledgments_view(acknowledgments@);
        let ghost mode = round.sync_flag;
        let step = remaining.remove(0);
        assert(before[0] == step@);
        assert(script_view(remaining@) =~= before.skip(1));
        requests.push(round.sync_flag);
        assert(requests@ =~= sent + seq![mode]);
        match step {
            ScriptedRound::RequestFailed(e) => {
                match round.on_response(Err(e)) {
                    AfterResponse::Finished(msgs) => {
                        assert(acked + Seq::<Seq<MessageItem>>::empty() =~= acked);
                        return SyncReport { msgs, requests, acknowledgments, finished: true };
                    },
                    AfterResponse::Acknowledge(_, _) => {
                        return vstd::pervasive::unreached();
                    },
                }
            },
            ScriptedRound::AckFailed(response, e) => {
                match round.on_response(Ok(response)) {
                    AfterResponse::Acknowledge(ack, items) => {
                        acknowledgments.push(items);
                        assert(acknowledgments_view(acknowledgments@) =~= acked + seq![items@]);
                        match ack.on_acknowledged(Err(e), sig) {
                            AfterAck::Finished(msgs) => {
                                return SyncReport {
                                    msgs,
                                    requests,
                                    acknowledgments,
                                    finished: true,
                                };
                            },
                            AfterAck::Continue(_) => {
                                return vstd::pervasive::unreached();
                            },
                        }
                    },
                    AfterResponse::Finished(_) => {
                        return vstd::pervasive::unreached();
                    },
                }
            },
            ScriptedRound::Completed(response) => {
                match round.on_response(Ok(response)) {
                    AfterResponse::Acknowledge(ack, items) => {
                        acknowledgments.push(items);
                        assert(acknowledgments_view(acknowledgments@) =~= acked + seq![items@]);
                        match ack.on_acknowledged(Ok(()), sig) {
                            AfterAck::Finished(msgs) => {
                                return SyncReport {
                                    msgs,
                                    requests,
                                    acknowledgments,
                                    finished: true,
                                };
                            },
                            AfterAck::Continue(next) => {
                                proof {
                                    let rest = sync_run(
                                        next.sync_flag,
                                        next.msgs@,
                                        sig@,
                                        script_view(remaining@),
                                    );
                                    assert(sent + (seq![mode] + rest.requests) =~= requests@
                                        + rest.requests);
                                    assert(acked + (seq![items@] + rest.acknowledgments)
                                        =~= acknowledgments_view(acknowledgments@)
                                        + rest.acknowledgments);
                                }
                                round = next;
                            },
                        }
                    },
                    AfterResponse::Finished(_) => {
                        return vstd::pervasive::unreached();
                    },
                }
            },
        }
    }
}

/// A script whose rounds all complete, and of which the last and no earlier
/// one declares the end of the stream, runs to its end: the loop sends one
/// request for each round and returns all the messages received, round after
/// round, and the cursor has moved as each response directed.
pub proof fn lemma_run_until_stop(
    sync_flag: i32,
    msgs: Seq<Message>,
    sig: SignatureView,
    script: Seq<Exchange>,
)
    requires
        script.len() > 0,
        goes_on_for(script, script.len() - 1),
        script.last() matches Exchange::Completed(response) && response.sync_flag == SYNC_STOP,
    ensures
        sync_run(sync_flag, msgs, sig, script).finished,
        sync_run(sync_flag, msgs, sig, script).msgs == msgs + messages_of(script),
        sync_run(sync_flag, msgs, sig, script).sig == cursor_through(sig, script),
        sync_run(sync_flag, msgs, sig, script).requests.len() == script.len(),
        sync_run(sync_flag, msgs, sig, script).acknowledgments.len() == script.len(),
    decreases script.len(),
{
    let response = script[0]->Completed_0;
    let tail = script.skip(1);
    if script.len() == 1 {
        assert(messages_of(tail) =~= Seq::<Message>::empty());
        assert(msgs + response.msgs =~= msgs + messages_of(script));
    } else {
        assert(goes_on_for(tail, tail.len() - 1)) by {
            assert forall|i: int| 0 <= i < tail.len() - 1 implies (#[trigger] tail[i] matches Exchange::Completed(
                r,
            ) && r.sync_flag != SYNC_STOP) by {
                assert(tail[i] == script[i + 1]);
            }
        }
        assert(tail.last() == script.last());
        lemma_run_until_stop(
            response.sync_flag,
            msgs + response.msgs,
            cursor_after_response(sig, response),
            tail,
        );
        assert((msgs + response.msgs) + messages_of(tail) =~= msgs + messages_of(script));
    }
}

/// Where the request or the acknowledgment of round number `k` fails, the
/// first being number 0, and the rounds before it complete without
/// declaring the end of the stream, the loop ends there without an error:
/// it returns the messages of the rounds before `k`, and the cursor stands
/// where those rounds left it.
pub proof fn lemma_run_until_failure(
    sync_flag: i32,
    msgs: Seq<Message>,
    sig: SignatureView,
    script: Seq<Exchange>,
    k: int,
)
    requires
        goes_on_for(script, k),
        k < script.len(),
        script[k] is RequestFailed || script[k] is AckFailed,
    ensures
        sync_run(sync_flag, msgs, sig, script).finished,
        sync_run(sync_flag, msgs, sig, script).msgs == msgs + messages_of(script.take(k)),
        sync_run(sync_flag, msgs, sig, script).sig == cursor_through(sig, script.take(k)),
        sync_run(sync_flag, msgs, sig, script).requests.len() == k + 1,
        sync_run(sync_flag, msgs, sig, script).acknowledgments.len() == if script[k] is AckFailed {
            k + 1
        } else {
            k
        },
    decreases k,
{
    if k == 0 {
        assert(messages_of(script.take(0)) =~= Seq::<Message>::empty());
        assert(msgs + Seq::<Message>::empty() =~= msgs);
    } else {
        let response = script[0]->Completed_0;
        let tail = script.skip(1);
        assert(goes_on_for(tail, k - 1)) by {
            assert forall|i: int| 0 <= i < k - 1 implies (#[trigger] tail[i] matches Exchange::Completed(
                r,
            ) && r.sync_flag != SYNC_STOP) by {
                assert(tail[i] == script[i + 1]);
            }
        }
        assert(tail[k - 1] == script[k]);
        lemma_run_until_failure(
            response.sync_flag,
            msgs + response.msgs,
            cursor_after_response(sig, response),
            tail,
            k - 1,
        );
        assert(script.take(k)[0] == script[0]);
        assert(script.take(k).skip(1) =~= tail.take(k - 1));
        assert((msgs + response.msgs) + messages_of(tail.take(k - 1)) =~= msgs + messages_of(
            script.take(k),
        ));
    }
}

/// Where the acknowledgment of round number `k` fails and the response of
/// that round held no message, what the loop returns is also all the
/// messages of the rounds up to and with `k`.
pub proof fn lemma_run_until_empty_failure(
    sync_flag: i32,
    msgs: Seq<Message>,
    sig: SignatureView,
    script: Seq<Exchange>,
    k: int,
)
    requires
        goes_on_for(script, k),
        k < script.len(),
        script[k] matches Exchange::AckFailed(response) && response.msgs.len() == 0,
    ensures
        sync_run(sync_flag, msgs, sig, script).finished,
        sync_run(sync_flag, msgs, sig, script).msgs == msgs + messages_of(script.take(k))
            + script[k]->AckFailed_0.msgs,
{
    lemma_run_until_failure(sync_flag, msgs, sig, script, k);
    let all = msgs + messages_of(script.take(k));
    assert(all + script[k]->AckFailed_0.msgs =~= all);
}

} // verus!
