//! The client: the state that the tasks of one connection share.
//!
//! A method that takes `&mut self` is one step under exclusive access.
//! Between two steps the caller waits, for a reply or for time to pass,
//! and other callers take their steps.

use crate::buffer::{bytes_as_slice, bytes_from_vec, bytes_seq};
use crate::channel::{oneshot_channel, queue_send};
use crate::correlation::{Correlation, PendingRequest};
use crate::error::{RQError, RQErrorView};
use crate::heartbeat::{
    after_beat, after_registration, after_sleep, loop_head, Beating, HeartbeatPhase,
    HeartbeatStep, Registering, Sending,
};
use crate::packet::{Packet, Reply};
use crate::sequence::{
    wrap_i32, wrap_u16, SequenceCounter16, SequenceCounter32, RANDOM_START_BOUND,
    REQUEST_ID_START, REQUEST_STRIDE, TRANSPORT_SEQ_START, TRANSPORT_STRIDE,
};
use crate::signature::{blank_signature, SignatureState, SignatureView};
use crate::token::{
    decode_token, encode_token, is_token, parse_token, token_bytes, token_of, with_token,
};
use bytes::Bytes;
use tokio::sync::mpsc::error::SendError;
use tokio::sync::mpsc::UnboundedSender;
use tokio::sync::oneshot::{Receiver, Sender};
use vstd::prelude::*;

verus! {

/// Seconds that a correlated request waits for its reply.
pub const REQUEST_TIMEOUT_SECS: u64 = 15;

/// The state of one client.
pub struct Client {
    /// Sequence ids of transport packets.
    pub seq_id: SequenceCounter16,
    /// Request ids.
    pub request_packet_request_id: SequenceCounter32,
    /// Sequence numbers of group operations.
    pub group_seq: SequenceCounter32,
    /// Sequence numbers of friend operations.
    pub friend_seq: SequenceCounter32,
    /// Sequence numbers of data transfers.
    pub group_data_trans_seq: SequenceCounter32,
    /// Sequence numbers of file uploads.
    pub highway_apply_up_seq: SequenceCounter32,
    /// The account number.
    pub uin: i64,
    pub connected: bool,
    pub shutting_down: bool,
    pub heartbeat_enabled: bool,
    pub online: bool,
    /// The credentials and the synchronisation cursor.
    pub sig: SignatureState,
    /// The session ticket key of the codec.
    pub wt_session_ticket_key: Bytes,
    /// The callers that wait for a packet.
    pub correlation: Correlation,
    /// The queue of encoded frames to the transport, in the order of
    /// transmission.
    pub out_pkt_sender: UnboundedSender<Bytes>,
    /// The time of the last message seen, in seconds since the Unix epoch.
    pub last_message_time: i64,
}

/// A client's state as mathematical values.
pub struct ClientView {
    pub seq_id: u16,
    pub request_packet_request_id: i32,
    pub group_seq: i32,
    pub friend_seq: i32,
    pub group_data_trans_seq: i32,
    pub highway_apply_up_seq: i32,
    pub uin: i64,
    pub connected: bool,
    pub shutting_down: bool,
    pub heartbeat_enabled: bool,
    pub online: bool,
    pub sig: SignatureView,
    pub wt_session_ticket_key: Seq<u8>,
    pub promises: Map<u16, PendingRequest>,
    pub waiters: Map<Seq<char>, Sender<Packet>>,
    pub out_pkt_sender: UnboundedSender<Bytes>,
    pub last_message_time: i64,
}

impl View for Client {
    type V = ClientView;

    open spec fn view(&self) -> ClientView {
        ClientView {
            seq_id: self.seq_id.value,
            request_packet_request_id: self.request_packet_request_id.value,
            group_seq: self.group_seq.value,
            friend_seq: self.friend_seq.value,
            group_data_trans_seq: self.group_data_trans_seq.value,
            highway_apply_up_seq: self.highway_apply_up_seq.value,
            uin: self.uin,
            connected: self.connected,
            shutting_down: self.shutting_down,
            heartbeat_enabled: self.heartbeat_enabled,
            online: self.online,
            sig: self.sig@,
            wt_session_ticket_key: bytes_seq(self.wt_session_ticket_key),
            promises: self.correlation.promises(),
            waiters: self.correlation.waiters(),
            out_pkt_sender: self.out_pkt_sender,
            last_message_time: self.last_message_time,
        }
    }
}

/// What a caller gets when its frame was handed to the queue, or was not:
/// a frame that the queue refuses is a `Network` error.
pub open spec fn send_result(enqueued: bool) -> Result<(), RQErrorView> {
    if enqueued {
        Ok(())
    } else {
        Err(RQErrorView::Network)
    }
}

/// A result with its error taken by its view.
pub open spec fn unit_view(result: Result<(), RQError>) -> Result<(), RQErrorView> {
    match result {
        Ok(_) => Ok(()),
        Err(e) => Err(e@),
    }
}

impl Client {
    /// A client that is not connected, has not logged in and waits for
    /// nothing, with its frames going to `out_pkt_sender`.
    ///
    /// The transport and the request id counters start at fixed values, the
    /// four others at random values from 0 up to, and without,
    /// `RANDOM_START_BOUND`.
    pub fn new(out_pkt_sender: UnboundedSender<Bytes>) -> (client: Self)
        ensures
            client@.seq_id == TRANSPORT_SEQ_START,
            client@.request_packet_request_id == REQUEST_ID_START,
            0 <= client@.group_seq < RANDOM_START_BOUND,
            0 <= client@.friend_seq < RANDOM_START_BOUND,
            0 <= client@.group_data_trans_seq < RANDOM_START_BOUND,
            0 <= client@.highway_apply_up_seq < RANDOM_START_BOUND,
            client@.uin == 0,
            !client@.connected,
            !client@.shutting_down,
            !client@.heartbeat_enabled,
            !client@.online,
            client@.sig == blank_signature(),
            client@.wt_session_ticket_key == Seq::<u8>::empty(),
            client@.promises == Map::<u16, PendingRequest>::empty(),
            client@.waiters == Map::<Seq<char>, Sender<Packet>>::empty(),
            client@.out_pkt_sender == out_pkt_sender,
            client@.last_message_time == 0,
    {
        Client {
            seq_id: SequenceCounter16::new(TRANSPORT_SEQ_START),
            request_packet_request_id: SequenceCounter32::new(REQUEST_ID_START),
            group_seq: SequenceCounter32::random(),
            friend_seq: SequenceCounter32::random(),
            group_data_trans_seq: SequenceCounter32::random(),
            highway_apply_up_seq: SequenceCounter32::random(),
            uin: 0,
            connected: false,
            shutting_down: false,
            heartbeat_enabled: false,
            online: false,
            sig: SignatureState::new(),
            wt_session_ticket_key: bytes_from_vec(Vec::new()),
            correlation: Correlation::new(),
            out_pkt_sender,
            last_message_time: 0,
        }
    }

    /// The next sequence id of a transport packet.
    pub fn next_seq(&mut self) -> (seq: u16)
        ensures
            seq == old(self)@.seq_id,
            final(self)@ == (ClientView {
                seq_id: wrap_u16(old(self)@.seq_id + TRANSPORT_STRIDE),
                ..old(self)@
            }),
    {
        self.seq_id.allocate()
    }

    /// The next request id.
    pub fn next_packet_seq(&mut self) -> (seq: i32)
        ensures
            seq == old(self)@.request_packet_request_id,
            final(self)@ == (ClientView {
                request_packet_request_id: wrap_i32(
                    old(self)@.request_packet_request_id + REQUEST_STRIDE,
                ),
                ..old(self)@
            }),
    {
        self.request_packet_request_id.allocate()
    }

    /// The next sequence number of a group operation.
    pub fn next_group_seq(&mut self) -> (seq: i32)
        ensures
            seq == old(self)@.group_seq,
            final(self)@ == (ClientView {
                group_seq: wrap_i32(old(self)@.group_seq + REQUEST_STRIDE),
                ..old(self)@
            }),
    {
        self.group_seq.allocate()
    }

    /// The next sequence number of a friend operation.
    pub fn next_friend_seq(&mut self) -> (seq: i32)
        ensures
            seq == old(self)@.friend_seq,
            final(self)@ == (ClientView {
                friend_seq: wrap_i32(old(self)@.friend_seq + REQUEST_STRIDE),
                ..old(self)@
            }),
    {
        self.friend_seq.allocate()
    }

    /// The next sequence number of a data transfer.
    pub fn next_group_data_trans_seq(&mut self) -> (seq: i32)
        ensures
            seq == old(self)@.group_data_trans_seq,
            final(self)@ == (ClientView {
                group_data_trans_seq: wrap_i32(old(self)@.group_data_trans_seq + REQUEST_STRIDE),
                ..old(self)@
            }),
    {
        self.group_data_trans_seq.allocate()
    }

    /// The next sequence number of a file upload.
    pub fn next_highway_apply_seq(&mut self) -> (seq: i32)
        ensures
            seq == old(self)@.highway_apply_up_seq,
            final(self)@ == (ClientView {
                highway_apply_up_seq: wrap_i32(old(self)@.highway_apply_up_seq + REQUEST_STRIDE),
                ..old(self)@
            }),
    {
        self.highway_apply_up_seq.allocate()
    }

    /// What the caller of a send gets for the queue's answer: a frame that
    /// the queue refused is a `Network` error.
    pub fn sent(outcome: Result<(), SendError<Bytes>>) -> (result: Result<(), RQError>)
        ensures
            unit_view(result) == send_result(outcome is Ok),
    {
        match outcome {
            Ok(_) => Ok(()),
            Err(_) => Err(RQError::Network),
        }
    }

    /// Hands an encoded frame to the transport's queue. Nothing is tried
    /// again: where the queue is closed, the error is `Network`.
    pub fn send(&self, frame: Bytes) -> (result: Result<(), RQError>)
        ensures
            result matches Err(e) ==> e@ == RQErrorView::Network,
    {
        Self::sent(queue_send(&self.out_pkt_sender, frame))
    }

    /// Settles a request after its frame went to the queue, or did not.
    ///
    /// Where the queue refused the frame, the request's entry is taken away
    /// at once and the error is `Network`. Else nothing changes: the entry
    /// waits for the reply.
    pub fn after_send(&mut self, seq: u16, outcome: Result<(), SendError<Bytes>>) -> (result:
        Result<(), RQError>)
        ensures
            unit_view(result) == send_result(outcome is Ok),
            final(self)@ == (ClientView {
                promises: if outcome is Ok {
                    old(self)@.promises
                } else {
                    old(self)@.promises.remove(seq)
                },
                ..old(self)@
            }),
    {
        match outcome {
            Ok(_) => Ok(()),
            Err(_) => {
                let _ = self.correlation.unregister(seq);
                Err(RQError::Network)
            },
        }
    }

    /// Sends the request `pkt`, encoded as `frame`, and returns the
    /// receiving half of the slot that its reply will come to.
    ///
    /// The request is registered under its sequence id and command name
    /// before the frame goes to the queue. Where the queue refuses the
    /// frame, the entry is gone again and the error is `Network`. The caller
    /// waits on the receiver for `REQUEST_TIMEOUT_SECS` seconds and hands
    /// what came to `wait_result`.
    pub fn send_and_wait(&mut self, pkt: &Packet, frame: Bytes) -> (result: Result<
        Receiver<Reply>,
        RQError,
    >)
        ensures
            final(self)@ == (ClientView { promises: final(self)@.promises, ..old(self)@ }),
            final(self)@.promises.remove(pkt.seq_id) == old(self)@.promises.remove(pkt.seq_id),
            match result {
                Ok(_) => {
                    &&& final(self)@.promises.contains_key(pkt.seq_id)
                    &&& final(self)@.promises[pkt.seq_id].expect@ == pkt.command_name@
                },
                Err(e) => e@ == RQErrorView::Network && !final(self)@.promises.contains_key(
                    pkt.seq_id,
                ),
            },
    {
        let (sender, receiver) = oneshot_channel::<Reply>();
        let expect: String = pkt.command_name.clone();
        let _ = self.correlation.register(pkt.seq_id, expect, sender);
        assert(self@.promises.remove(pkt.seq_id) =~= old(self)@.promises.remove(pkt.seq_id));
        let outcome = queue_send(&self.out_pkt_sender, frame);
        match self.after_send(pkt.seq_id, outcome) {
            Ok(_) => Ok(receiver),
            Err(e) => {
                assert(self@.promises.remove(pkt.seq_id) =~= old(self)@.promises.remove(
                    pkt.seq_id,
                ));
                Err(e)
            },
        }
    }

    /// Ends the wait of the request under `seq`: `arrived` is what came
    /// through the slot within the time allowed, if anything came.
    ///
    /// What came is the result. Where nothing came, the entry is taken away,
    /// so that a reply that comes later finds none, and the error is
    /// `Timeout`.
    pub fn wait_result(&mut self, seq: u16, arrived: Option<Reply>) -> (result: Reply)
        ensures
            match arrived {
                Some(reply) => result == reply && final(self)@ == old(self)@,
                None => {
                    &&& result matches Err(e) && e@ == RQErrorView::Timeout
                    &&& !final(self)@.promises.contains_key(seq)
                    &&& final(self)@ == (ClientView {
                        promises: old(self)@.promises.remove(seq),
                        ..old(self)@
                    })
                },
            },
    {
        match arrived {
            Some(reply) => reply,
            None => Err(self.correlation.timeout(seq)),
        }
    }

    /// Registers a wait for a packet that the server pushes under the
    /// command name `pkt_name`, and returns the receiving half of the slot
    /// that the packet will come to. The caller waits on it for as long as
    /// it sees fit and hands what came to `wait_packet_result`.
    pub fn wait_packet(&mut self, pkt_name: &str) -> (receiver: Receiver<Packet>)
        ensures
            final(self)@ == (ClientView { waiters: final(self)@.waiters, ..old(self)@ }),
            final(self)@.waiters.contains_key(pkt_name@),
            final(self)@.waiters.remove(pkt_name@) == old(self)@.waiters.remove(pkt_name@),
    {
        let (sender, receiver) = oneshot_channel::<Packet>();
        let _ = self.correlation.register_named(pkt_name.to_owned(), sender);
        assert(self@.waiters.remove(pkt_name@) =~= old(self)@.waiters.remove(pkt_name@));
        receiver
    }

    /// Ends the wait for a packet named `pkt_name`: `arrived` is what came
    /// through the slot within the time allowed, if anything came.
    ///
    /// The packet that came is the result. Where nothing came, the entry is
    /// taken away and the error is `Timeout`.
    pub fn wait_packet_result(&mut self, pkt_name: &str, arrived: Option<Packet>) -> (result:
        Reply)
        ensures
            match arrived {
                Some(packet) => {
                    &&& result == Ok::<Packet, RQError>(packet)
                    &&& final(self)@ == old(self)@
                },
                None => {
                    &&& result matches Err(e) && e@ == RQErrorView::Timeout
                    &&& !final(self)@.waiters.contains_key(pkt_name@)
                    &&& final(self)@ == (ClientView {
                        waiters: old(self)@.waiters.remove(pkt_name@),
                        ..old(self)@
                    })
                },
            },
    {
        match arrived {
            Some(packet) => Ok(packet),
            None => Err(self.correlation.timeout_named(pkt_name)),
        }
    }

    /// Starts the keep-alive loop. The loop runs if the connection is
    /// online, and while it runs `heartbeat_enabled` is set.
    pub fn do_heartbeat(&mut self) -> (step: HeartbeatStep)
        ensures
            step == loop_head(0, old(self)@.online),
            final(self)@ == (ClientView {
                heartbeat_enabled: step.phase() == HeartbeatPhase::Running,
                ..old(self)@
            }),
    {
        let step = crate::heartbeat::start(self.online);
        self.heartbeat_enabled = !matches!(step, HeartbeatStep::Stop);
        step
    }

    /// Takes the end of a sleep in the keep-alive loop: the heartbeat is to
    /// be sent if the connection is online now; else the loop is over and
    /// `heartbeat_enabled` is cleared.
    pub fn heartbeat_woken(&mut self, state: Beating) -> (step: HeartbeatStep)
        ensures
            step == after_sleep(state.times, old(self)@.online),
            final(self)@ == (ClientView {
                heartbeat_enabled: step.phase() == HeartbeatPhase::Running,
                ..old(self)@
            }),
    {
        let step = state.on_woken(self.online);
        self.heartbeat_enabled = !matches!(step, HeartbeatStep::Stop);
        step
    }

    /// Takes the outcome of a heartbeat in the keep-alive loop. Where the
    /// connection is not online now, the loop is over and
    /// `heartbeat_enabled` is cleared.
    pub fn heartbeat_done(&mut self, state: Sending, success: bool) -> (step: HeartbeatStep)
        ensures
            step == after_beat(state.times, success, old(self)@.online),
            final(self)@ == (ClientView {
                heartbeat_enabled: step.phase() == HeartbeatPhase::Running,
                ..old(self)@
            }),
    {
        let step = state.on_beat(success, self.online);
        self.heartbeat_enabled = !matches!(step, HeartbeatStep::Stop);
        step
    }

    /// Takes the outcome of a re-registration in the keep-alive loop. Where
    /// it failed or the connection is not online now, the loop is over and
    /// `heartbeat_enabled` is cleared.
    pub fn registration_done(&mut self, state: Registering, success: bool) -> (step: HeartbeatStep)
        ensures
            step == after_registration(success, old(self)@.online),
            final(self)@ == (ClientView {
                heartbeat_enabled: step.phase() == HeartbeatPhase::Running,
                ..old(self)@
            }),
    {
        let step = state.on_registered(success, self.online);
        self.heartbeat_enabled = !matches!(step, HeartbeatStep::Stop);
        step
    }

    /// The token of this client, as the spec function `token_of` has it.
    pub open spec fn token(&self) -> crate::token::TokenView {
        token_of(self@.uin, self@.sig, self@.wt_session_ticket_key)
    }

    /// Writes the session token of this client.
    pub fn gen_token(&self) -> (token: Bytes)
        ensures
            bytes_seq(token) == token_bytes(self.token()),
    {
        encode_token(self.uin, &self.sig, &self.wt_session_ticket_key)
    }

    /// Reads a session token off the front of `token` into this client:
    /// the account number, the credentials and the session ticket key are
    /// those of the token afterwards, everything else is as before, and
    /// `token` holds what followed the record.
    pub fn load_token(&mut self, token: &mut Bytes)
        requires
            parse_token(bytes_seq(*old(token))) is Some,
        ensures
            parse_token(bytes_seq(*old(token))) matches Some(parsed) && {
                &&& final(self)@ == (ClientView {
                    uin: parsed.0.uin,
                    sig: with_token(old(self)@.sig, parsed.0),
                    wt_session_ticket_key: parsed.0.wt_session_ticket_key,
                    ..old(self)@
                })
                &&& bytes_seq(*final(token)) == parsed.1
            },
    {
        let (uin, wt_session_ticket_key) = decode_token(token, &mut self.sig);
        self.uin = uin;
        self.wt_session_ticket_key = wt_session_ticket_key;
    }

    /// Reads a session token as `load_token` does if `token` starts with a
    /// whole one, and says whether it did. Else nothing changes.
    pub fn try_load_token(&mut self, token: &mut Bytes) -> (loaded: bool)
        ensures
            loaded == parse_token(bytes_seq(*old(token))) is Some,
            match parse_token(bytes_seq(*old(token))) {
                Some(parsed) => {
                    &&& final(self)@ == (ClientView {
                        uin: parsed.0.uin,
                        sig: with_token(old(self)@.sig, parsed.0),
                        wt_session_ticket_key: parsed.0.wt_session_ticket_key,
                        ..old(self)@
                    })
                    &&& bytes_seq(*final(token)) == parsed.1
                },
                None => {
                    &&& final(self)@ == old(self)@
                    &&& bytes_seq(*final(token)) == bytes_seq(*old(token))
                },
            },
    {
        if is_token(bytes_as_slice(token)) {
            self.load_token(token);
            true
        } else {
            false
        }
    }
}

} // verus!
