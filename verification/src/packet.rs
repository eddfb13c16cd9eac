//! Decoded packets, and the check of a reply against the request it answers.

use crate::buffer::bytes_seq;
use crate::error::{RQError, RQErrorView};
use bytes::Bytes;
use vstd::prelude::*;

verus! {

/// A decoded packet: a request before it is encoded, or what came in.
#[derive(Debug, Clone, PartialEq, Eq)]
pub struct Packet {
    /// The sequence id that pairs a reply with its request.
    pub seq_id: u16,
    /// The name of the command that the packet carries.
    pub command_name: String,
    /// The account that the packet belongs to.
    pub uin: i64,
    /// The payload, opaque to the core.
    pub body: Bytes,
}

/// A packet with its strings and bytes as sequences.
pub struct PacketView {
    pub seq_id: u16,
    pub command_name: Seq<char>,
    pub uin: i64,
    pub body: Seq<u8>,
}

impl View for Packet {
    type V = PacketView;

    open spec fn view(&self) -> PacketView {
        PacketView {
            seq_id: self.seq_id,
            command_name: self.command_name@,
            uin: self.uin,
            body: bytes_seq(self.body),
        }
    }
}

/// What the caller of a correlated request gets in the end.
pub type Reply = Result<Packet, RQError>;

/// A reply with its error taken by its view. The packet stays as it is: a
/// reply hands on the very packet that came in.
pub open spec fn reply_view(reply: Reply) -> Result<Packet, RQErrorView> {
    match reply {
        Ok(packet) => Ok(packet),
        Err(e) => Err(e@),
    }
}

/// The reply that a packet makes for a request sent under the command name
/// `expect`: the packet itself where its command name is that name, else an
/// error that holds both names.
pub open spec fn expected_reply(packet: Packet, expect: Seq<char>) -> Result<Packet, RQErrorView> {
    if packet.command_name@ == expect {
        Ok(packet)
    } else {
        Err(RQErrorView::CommandMismatch { expected: expect, actual: packet.command_name@ })
    }
}

impl Packet {
    /// Checks that the packet carries the command `command_name`.
    pub fn check_command_name(self, command_name: &str) -> (reply: Reply)
        ensures
            reply_view(reply) == expected_reply(self, command_name@),
    {
        let expected: String = command_name.to_owned();
        if self.command_name == expected {
            Ok(self)
        } else {
            Err(RQError::CommandMismatch { expected, actual: self.command_name })
        }
    }
}

} // verus!
