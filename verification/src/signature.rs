//! The session's credential material and its synchronisation cursor.

use crate::buffer::{bytes_from_vec, bytes_seq};
use bytes::Bytes;
use vstd::prelude::*;

verus! {

/// Reply type of a synchronisation response that carries both cookies.
pub const RSP_TYPE_FULL: i32 = 0;

/// Reply type of a response that carries the synchronisation cookie only.
pub const RSP_TYPE_SYNC_COOKIE: i32 = 1;

/// Reply type of a response that carries the public account cookie only.
pub const RSP_TYPE_PUB_ACCOUNT_COOKIE: i32 = 2;

/// The credentials of a session and the cursor of its message stream.
///
/// A cookie that is absent was not issued yet. Once the server has issued
/// one, it is only ever replaced as a whole.
#[derive(Debug, Clone, PartialEq, Eq)]
pub struct SignatureState {
    /// The device session id.
    pub d2: Bytes,
    /// The device key.
    pub d2key: Bytes,
    /// The ticket-granting token.
    pub tgt: Bytes,
    /// The session-resumption token.
    pub srm_token: Bytes,
    /// A blob that the server issued at login.
    pub t133: Bytes,
    /// The encrypted credential.
    pub encrypted_a1: Bytes,
    /// The session id stamped on outgoing packets.
    pub out_packet_session_id: Bytes,
    /// The key of the ticket-granting exchange.
    pub tgtgt_key: Bytes,
    /// The cursor of the message stream.
    pub sync_cookie: Option<Bytes>,
    /// The cursor of the public account stream.
    pub pub_account_cookie: Option<Bytes>,
}

/// A signature state with its fields as sequences of bytes.
pub struct SignatureView {
    pub d2: Seq<u8>,
    pub d2key: Seq<u8>,
    pub tgt: Seq<u8>,
    pub srm_token: Seq<u8>,
    pub t133: Seq<u8>,
    pub encrypted_a1: Seq<u8>,
    pub out_packet_session_id: Seq<u8>,
    pub tgtgt_key: Seq<u8>,
    pub sync_cookie: Option<Seq<u8>>,
    pub pub_account_cookie: Option<Seq<u8>>,
}

/// A cookie that may be absent, as a sequence of bytes.
pub open spec fn cookie_view(cookie: Option<Bytes>) -> Option<Seq<u8>> {
    match cookie {
        Some(c) => Some(bytes_seq(c)),
        None => None,
    }
}

/// A cookie of a response, which may be absent, as a sequence of bytes.
pub open spec fn response_cookie_view(cookie: Option<Vec<u8>>) -> Option<Seq<u8>> {
    match cookie {
        Some(c) => Some(c@),
        None => None,
    }
}

impl View for SignatureState {
    type V = SignatureView;

    open spec fn view(&self) -> SignatureView {
        SignatureView {
            d2: bytes_seq(self.d2),
            d2key: bytes_seq(self.d2key),
            tgt: bytes_seq(self.tgt),
            srm_token: bytes_seq(self.srm_token),
            t133: bytes_seq(self.t133),
            encrypted_a1: bytes_seq(self.encrypted_a1),
            out_packet_session_id: bytes_seq(self.out_packet_session_id),
            tgtgt_key: bytes_seq(self.tgtgt_key),
            sync_cookie: cookie_view(self.sync_cookie),
            pub_account_cookie: cookie_view(self.pub_account_cookie),
        }
    }
}

/// The state of a session that has not logged in: no credential and no
/// cookie.
pub open spec fn blank_signature() -> SignatureView {
    SignatureView {
        d2: Seq::empty(),
        d2key: Seq::empty(),
        tgt: Seq::empty(),
        srm_token: Seq::empty(),
        t133: Seq::empty(),
        encrypted_a1: Seq::empty(),
        out_packet_session_id: Seq::empty(),
        tgtgt_key: Seq::empty(),
        sync_cookie: None,
        pub_account_cookie: None,
    }
}

/// One cookie after a response: the response's cookie where the response's
/// reply type names this cookie and the response carries it, else what was
/// stored.
pub open spec fn cookie_after(stored: Option<Seq<u8>>, named: bool, received: Option<Seq<u8>>) -> Option<
    Seq<u8>,
> {
    if named && received is Some {
        received
    } else {
        stored
    }
}

/// The state after a response of reply type `msg_rsp_type` that carries the
/// cookies `sync_cookie` and `pub_account_cookie`. Nothing but the two
/// cookies changes.
pub open spec fn cursor_after(
    sig: SignatureView,
    msg_rsp_type: i32,
    sync_cookie: Option<Seq<u8>>,
    pub_account_cookie: Option<Seq<u8>>,
) -> SignatureView {
    SignatureView {
        sync_cookie: cookie_after(
            sig.sync_cookie,
            msg_rsp_type == RSP_TYPE_FULL || msg_rsp_type == RSP_TYPE_SYNC_COOKIE,
            sync_cookie,
        ),
        pub_account_cookie: cookie_after(
            sig.pub_account_cookie,
            msg_rsp_type == RSP_TYPE_FULL || msg_rsp_type == RSP_TYPE_PUB_ACCOUNT_COOKIE,
            pub_account_cookie,
        ),
        ..sig
    }
}

impl SignatureState {
    /// The state of a session that has not logged in.
    pub fn new() -> (sig: Self)
        ensures
            sig@ == blank_signature(),
    {
        SignatureState {
            d2: bytes_from_vec(Vec::new()),
            d2key: bytes_from_vec(Vec::new()),
            tgt: bytes_from_vec(Vec::new()),
            srm_token: bytes_from_vec(Vec::new()),
            t133: bytes_from_vec(Vec::new()),
            encrypted_a1: bytes_from_vec(Vec::new()),
            out_packet_session_id: bytes_from_vec(Vec::new()),
            tgtgt_key: bytes_from_vec(Vec::new()),
            sync_cookie: None,
            pub_account_cookie: None,
        }
    }

    /// Moves the cursor as a synchronisation response directs.
    ///
    /// Reply type 0 replaces both cookies, 1 the synchronisation cookie, 2
    /// the public account cookie, any other none. A cookie that the response
    /// does not carry leaves the stored one as it is.
    pub fn update_sync_cursor(
        &mut self,
        msg_rsp_type: i32,
        sync_cookie: Option<Vec<u8>>,
        pub_account_cookie: Option<Vec<u8>>,
    )
        ensures
            final(self)@ == cursor_after(
                old(self)@,
                msg_rsp_type,
                response_cookie_view(sync_cookie),
                response_cookie_view(pub_account_cookie),
            ),
    {
        if msg_rsp_type == RSP_TYPE_FULL || msg_rsp_type == RSP_TYPE_SYNC_COOKIE {
            if let Some(cookie) = sync_cookie {
                self.sync_cookie = Some(bytes_from_vec(cookie));
            }
        }
        if msg_rsp_type == RSP_TYPE_FULL || msg_rsp_type == RSP_TYPE_PUB_ACCOUNT_COOKIE {
            if let Some(cookie) = pub_account_cookie {
                self.pub_account_cookie = Some(bytes_from_vec(cookie));
            }
        }
    }
}

/// A response of reply type 1 that carries only a synchronisation cookie
/// stores that cookie and leaves the public account cookie as it was.
pub proof fn lemma_cursor_sync_cookie_only(sig: SignatureView, cookie: Seq<u8>)
    ensures
        cursor_after(sig, RSP_TYPE_SYNC_COOKIE, Some(cookie), None) == (SignatureView {
            sync_cookie: Some(cookie),
            ..sig
        }),
{
}

/// A response of reply type 0 that carries both cookies stores both.
pub proof fn lemma_cursor_full(sig: SignatureView, sync_cookie: Seq<u8>, pub_account_cookie: Seq<u8>)
    ensures
        cursor_after(sig, RSP_TYPE_FULL, Some(sync_cookie), Some(pub_account_cookie)) == (
        SignatureView {
            sync_cookie: Some(sync_cookie),
            pub_account_cookie: Some(pub_account_cookie),
            ..sig
        }),
{
}

/// A response of a reply type other than 0, 1 and 2 changes nothing,
/// whatever cookies it carries.
pub proof fn lemma_cursor_unknown_type(
    sig: SignatureView,
    msg_rsp_type: i32,
    sync_cookie: Option<Seq<u8>>,
    pub_account_cookie: Option<Seq<u8>>,
)
    requires
        msg_rsp_type != RSP_TYPE_FULL,
        msg_rsp_type != RSP_TYPE_SYNC_COOKIE,
        msg_rsp_type != RSP_TYPE_PUB_ACCOUNT_COOKIE,
    ensures
        cursor_after(sig, msg_rsp_type, sync_cookie, pub_account_cookie) == sig,
{
}

/// No response clears a cookie: one that was stored is stored afterwards,
/// and it is either the stored one or the one that the response carried.
pub proof fn lemma_cursor_never_cleared(
    sig: SignatureView,
    msg_rsp_type: i32,
    sync_cookie: Option<Seq<u8>>,
    pub_account_cookie: Option<Seq<u8>>,
)
    ensures
        ({
            let after = cursor_after(sig, msg_rsp_type, sync_cookie, pub_account_cookie);
            &&& sig.sync_cookie is Some ==> after.sync_cookie is Some
            &&& sig.pub_account_cookie is Some ==> after.pub_account_cookie is Some
            &&& after.sync_cookie == sig.sync_cookie || after.sync_cookie == sync_cookie
            &&& after.pub_account_cookie == sig.pub_account_cookie || after.pub_account_cookie
                == pub_account_cookie
        }),
{
}

} // verus!
