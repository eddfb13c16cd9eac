//! Correlation of replies with the callers that wait for them.
//!
//! A caller that sends a request leaves a single-use reply slot under the
//! request's sequence id, together with the command name that the reply must
//! carry. A caller that waits for a pushed packet leaves a slot under the
//! packet's command name. A packet that comes in is handed to the slot that
//! it matches, and the entry is gone; a caller that gives up takes its entry
//! away. Whichever comes first wins: a packet that finds no entry is left to
//! the caller of the lookup, and nothing else happens.

use crate::channel::oneshot_send;
use crate::error::{RQError, RQErrorView};
use crate::name_table::NameTable;
use crate::packet::{expected_reply, reply_view, Packet, Reply};
use std::collections::HashMap;
use tokio::sync::oneshot::Sender;
use vstd::prelude::*;

verus! {

/// A request that waits for its reply.
pub struct PendingRequest {
    /// The command name that the reply must carry.
    pub expect: String,
    /// Where the reply goes.
    pub slot: Sender<Reply>,
}

/// A value on its way to the slot of the caller that waits for it.
#[verifier::reject_recursive_types(T)]
pub struct Delivery<T> {
    pub slot: Sender<T>,
    pub value: T,
}

/// What became of a packet that came in.
#[derive(Debug, PartialEq, Eq)]
pub enum Resolution<T> {
    /// A caller waited for it, and its slot took the value.
    Delivered,
    /// A caller had waited for it but was gone; the value comes back.
    Abandoned(T),
    /// Nobody waited for it; the packet comes back as it was.
    Unmatched(Packet),
}

/// The requests and the named waits that are outstanding.
pub struct Correlation {
    promises: HashMap<u16, PendingRequest>,
    waiters: NameTable<Sender<Packet>>,
}

/// What a packet that comes in hands to which slot, given the outstanding
/// requests: the reply made of the packet, to the slot left under the
/// packet's sequence id; nothing where no request waits under that id.
pub open spec fn reply_delivery(promises: Map<u16, PendingRequest>, packet: Packet) -> Option<
    (Sender<Reply>, Result<Packet, RQErrorView>),
> {
    if promises.contains_key(packet.seq_id) {
        Some(
            (
                promises[packet.seq_id].slot,
                expected_reply(packet, promises[packet.seq_id].expect@),
            ),
        )
    } else {
        None
    }
}

/// What a packet that comes in hands to which slot, given the outstanding
/// named waits: the packet itself, to the slot left under its command name;
/// nothing where no caller waits under that name.
pub open spec fn named_delivery(waiters: Map<Seq<char>, Sender<Packet>>, packet: Packet) -> Option<
    (Sender<Packet>, Packet),
> {
    if waiters.contains_key(packet.command_name@) {
        Some((waiters[packet.command_name@], packet))
    } else {
        None
    }
}

impl<T> Delivery<T> {
    /// What a delivery amounts to, given what the slot answered.
    pub fn settle(outcome: Result<(), T>) -> (resolution: Resolution<T>)
        ensures
            resolution == match outcome {
                Ok(_) => Resolution::<T>::Delivered,
                Err(value) => Resolution::<T>::Abandoned(value),
            },
    {
        match outcome {
            Ok(_) => Resolution::Delivered,
            Err(value) => Resolution::Abandoned(value),
        }
    }

    /// Hands the value to the slot. Whether the caller is still there is
    /// for the slot to say: the value comes back where it is not.
    pub fn deliver(self) -> (resolution: Resolution<T>)
        ensures
            resolution is Delivered || resolution == Resolution::<T>::Abandoned(self.value),
    {
        Self::settle(oneshot_send(self.slot, self.value))
    }
}

impl Correlation {
    /// The outstanding requests, by sequence id.
    pub closed spec fn promises(&self) -> Map<u16, PendingRequest> {
        self.promises@
    }

    /// The slots of the outstanding named waits, by command name.
    pub closed spec fn waiters(&self) -> Map<Seq<char>, Sender<Packet>> {
        self.waiters@
    }

    /// Nothing is outstanding.
    pub fn new() -> (table: Self)
        ensures
            table.promises() == Map::<u16, PendingRequest>::empty(),
            table.waiters() == Map::<Seq<char>, Sender<Packet>>::empty(),
    {
        Correlation { promises: HashMap::new(), waiters: NameTable::new() }
    }

    /// Whether a request waits under `seq`.
    pub fn is_pending(&self, seq: u16) -> (pending: bool)
        ensures
            pending == self.promises().contains_key(seq),
    {
        self.promises.contains_key(&seq)
    }

    /// Whether a caller waits for a packet named `name`.
    pub fn is_awaited(&self, name: &str) -> (awaited: bool)
        ensures
            awaited == self.waiters().contains_key(name@),
    {
        self.waiters.contains(name)
    }

    /// Leaves `slot` under `seq` for a reply that must carry the command
    /// `expect`. An entry that stood under `seq` gives way and is returned.
    pub fn register(&mut self, seq: u16, expect: String, slot: Sender<Reply>) -> (displaced: Option<
        PendingRequest,
    >)
        ensures
            final(self).promises() == old(self).promises().insert(
                seq,
                PendingRequest { expect, slot },
            ),
            final(self).waiters() == old(self).waiters(),
            displaced == if old(self).promises().contains_key(seq) {
                Some(old(self).promises()[seq])
            } else {
                None
            },
    {
        self.promises.insert(seq, PendingRequest { expect, slot })
    }

    /// Takes the entry under `seq` away, as the caller does that gives up
    /// waiting. Afterwards no entry stands under `seq`.
    pub fn unregister(&mut self, seq: u16) -> (removed: Option<PendingRequest>)
        ensures
            final(self).promises() == old(self).promises().remove(seq),
            !final(self).promises().contains_key(seq),
            final(self).waiters() == old(self).waiters(),
            removed == if old(self).promises().contains_key(seq) {
                Some(old(self).promises()[seq])
            } else {
                None
            },
    {
        self.promises.remove(&seq)
    }

    /// Ends the wait under `seq` after the time allowed: the entry is taken
    /// away, and the caller's error is `Timeout`.
    pub fn timeout(&mut self, seq: u16) -> (error: RQError)
        ensures
            error@ == RQErrorView::Timeout,
            final(self).promises() == old(self).promises().remove(seq),
            !final(self).promises().contains_key(seq),
            final(self).waiters() == old(self).waiters(),
    {
        let _ = self.unregister(seq);
        RQError::Timeout
    }

    /// Looks up the request that `packet` answers and takes its entry out.
    ///
    /// Where a request waits under the packet's sequence id, the result is
    /// its slot with the reply for it: the packet, or the error of a command
    /// name that is not the expected one. Where none waits, the packet comes
    /// back and nothing has changed.
    pub fn match_reply(&mut self, packet: Packet) -> (found: Result<Delivery<Reply>, Packet>)
        ensures
            final(self).promises() == old(self).promises().remove(packet.seq_id),
            final(self).waiters() == old(self).waiters(),
            match found {
                Ok(delivery) => reply_delivery(old(self).promises(), packet) == Some(
                    (delivery.slot, reply_view(delivery.value)),
                ),
                Err(returned) => reply_delivery(old(self).promises(), packet) is None && returned
                    == packet && final(self).promises() == old(self).promises(),
            },
    {
        match self.promises.remove(&packet.seq_id) {
            Some(pending) => {
                let reply = packet.check_command_name(pending.expect.as_str());
                Ok(Delivery { slot: pending.slot, value: reply })
            },
            None => {
                assert(self.promises@.remove(packet.seq_id) =~= self.promises@);
                Err(packet)
            },
        }
    }

    /// Hands `packet` to the caller that waits for it under its sequence
    /// id, and takes the entry out. A packet that nobody waits for comes
    /// back as `Unmatched`, and nothing has changed.
    pub fn resolve(&mut self, packet: Packet) -> (resolution: Resolution<Reply>)
        ensures
            final(self).promises() == old(self).promises().remove(packet.seq_id),
            !final(self).promises().contains_key(packet.seq_id),
            final(self).waiters() == old(self).waiters(),
            match resolution {
                Resolution::Delivered => old(self).promises().contains_key(packet.seq_id),
                Resolution::Abandoned(reply) => reply_delivery(old(self).promises(), packet)
                    matches Some(planned) && planned.1 == reply_view(reply),
                Resolution::Unmatched(returned) => !old(self).promises().contains_key(
                    packet.seq_id,
                ) && returned == packet && final(self).promises() == old(self).promises(),
            },
    {
        match self.match_reply(packet) {
            Ok(delivery) => delivery.deliver(),
            Err(packet) => Resolution::Unmatched(packet),
        }
    }

    /// Leaves `slot` under the command name `name` for a packet that the
    /// server pushes. A slot that stood under `name` gives way and is
    /// returned.
    pub fn register_named(&mut self, name: String, slot: Sender<Packet>) -> (displaced: Option<
        Sender<Packet>,
    >)
        ensures
            final(self).waiters() == old(self).waiters().insert(name@, slot),
            final(self).promises() == old(self).promises(),
            displaced == if old(self).waiters().contains_key(name@) {
                Some(old(self).waiters()[name@])
            } else {
                None
            },
    {
        self.waiters.insert(name, slot)
    }

    /// Ends the wait under `name` after the time allowed: the entry is taken
    /// away, and the caller's error is `Timeout`.
    pub fn timeout_named(&mut self, name: &str) -> (error: RQError)
        ensures
            error@ == RQErrorView::Timeout,
            final(self).waiters() == old(self).waiters().remove(name@),
            !final(self).waiters().contains_key(name@),
            final(self).promises() == old(self).promises(),
    {
        let _ = self.waiters.remove(name);
        RQError::Timeout
    }

    /// Looks up the named wait that `packet` ends and takes its entry out.
    ///
    /// Where a caller waits under the packet's command name, the result is
    /// its slot with the packet. Where none waits, the packet comes back and
    /// nothing has changed.
    pub fn match_named(&mut self, packet: Packet) -> (found: Result<Delivery<Packet>, Packet>)
        ensures
            final(self).waiters() == old(self).waiters().remove(packet.command_name@),
            final(self).promises() == old(self).promises(),
            match found {
                Ok(delivery) => named_delivery(old(self).waiters(), packet) == Some(
                    (delivery.slot, delivery.value),
                ),
                Err(returned) => named_delivery(old(self).waiters(), packet) is None && returned
                    == packet && final(self).waiters() == old(self).waiters(),
            },
    {
        match self.waiters.remove(packet.command_name.as_str()) {
            Some(slot) => Ok(Delivery { slot, value: packet }),
            None => {
                assert(self.waiters@.remove(packet.command_name@) =~= self.waiters@);
                Err(packet)
            },
        }
    }

    /// Hands `packet` to the caller that waits for a packet of its command
    /// name, and takes the entry out. A packet that nobody waits for comes
    /// back as `Unmatched`, and nothing has changed.
    pub fn resolve_named(&mut self, packet: Packet) -> (resolution: Resolution<Packet>)
        ensures
            final(self).waiters() == old(self).waiters().remove(packet.command_name@),
            !final(self).waiters().contains_key(packet.command_name@),
            final(self).promises() == old(self).promises(),
            match resolution {
                Resolution::Delivered => old(self).waiters().contains_key(packet.command_name@),
                Resolution::Abandoned(returned) => old(self).waiters().contains_key(
                    packet.command_name@,
                ) && returned == packet,
                Resolution::Unmatched(returned) => !old(self).waiters().contains_key(
                    packet.command_name@,
                ) && returned == packet && final(self).waiters() == old(self).waiters(),
            },
    {
        match self.match_named(packet) {
            Ok(delivery) => delivery.deliver(),
            Err(packet) => Resolution::Unmatched(packet),
        }
    }

    /// Routes a packet that came in: to the request that waits under its
    /// sequence id, or else to the caller that waits for a packet of its
    /// command name. The packet comes back where nobody waited for it, and
    /// nothing has changed then.
    pub fn dispatch(&mut self, packet: Packet) -> (unclaimed: Option<Packet>)
        ensures
            final(self).promises() == old(self).promises().remove(packet.seq_id),
            final(self).waiters() == if old(self).promises().contains_key(packet.seq_id) {
                old(self).waiters()
            } else {
                old(self).waiters().remove(packet.command_name@)
            },
            unclaimed == if old(self).promises().contains_key(packet.seq_id)
                || old(self).waiters().contains_key(packet.command_name@) {
                None
            } else {
                Some(packet)
            },
    {
        match self.resolve(packet) {
            Resolution::Unmatched(packet) => match self.resolve_named(packet) {
                Resolution::Unmatched(packet) => Some(packet),
                _ => None,
            },
            _ => None,
        }
    }
}

/// A packet that answers a request just registered goes to that request's
/// slot and to no other: as itself where it carries the expected command,
/// and with the entry taken out no entry is left under its sequence id.
pub proof fn lemma_register_then_resolve(
    promises: Map<u16, PendingRequest>,
    entry: PendingRequest,
    packet: Packet,
)
    ensures
        reply_delivery(promises.insert(packet.seq_id, entry), packet) == Some(
            (entry.slot, expected_reply(packet, entry.expect@)),
        ),
        packet.command_name@ == entry.expect@ ==> expected_reply(packet, entry.expect@) == Ok::<
            Packet,
            RQErrorView,
        >(packet),
        !promises.insert(packet.seq_id, entry).remove(packet.seq_id).contains_key(packet.seq_id),
{
}

/// A request that was registered and then timed out leaves no entry, and
/// leaves every other entry as it was: a packet that comes for it later
/// finds nothing and is handed to nobody.
pub proof fn lemma_register_then_timeout(
    promises: Map<u16, PendingRequest>,
    entry: PendingRequest,
    packet: Packet,
)
    ensures
        !promises.insert(packet.seq_id, entry).remove(packet.seq_id).contains_key(packet.seq_id),
        promises.insert(packet.seq_id, entry).remove(packet.seq_id) == promises.remove(
            packet.seq_id,
        ),
        reply_delivery(promises.insert(packet.seq_id, entry).remove(packet.seq_id), packet)
            is None,
{
    assert(promises.insert(packet.seq_id, entry).remove(packet.seq_id) =~= promises.remove(
        packet.seq_id,
    ));
}

/// A packet of a sequence id under which nothing is registered is handed to
/// nobody, and taking its entry out changes nothing.
pub proof fn lemma_resolve_unregistered(promises: Map<u16, PendingRequest>, packet: Packet)
    requires
        !promises.contains_key(packet.seq_id),
    ensures
        reply_delivery(promises, packet) is None,
        promises.remove(packet.seq_id) == promises,
{
    assert(promises.remove(packet.seq_id) =~= promises);
}

/// Only the first packet under a sequence id is delivered: once an entry is
/// resolved, a second packet with the same id finds nothing.
pub proof fn lemma_resolve_once(promises: Map<u16, PendingRequest>, first: Packet, second: Packet)
    requires
        first.seq_id == second.seq_id,
    ensures
        reply_delivery(promises.remove(first.seq_id), second) is None,
{
}

} // verus!
