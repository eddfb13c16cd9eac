//! The session token: the credentials of a session as one flat record of
//! bytes, from which a later run of the client resumes the session.
//!
//! The record is the account number, eight bytes in big-endian order, and
//! then nine blocks. A block is the length of its data as two bytes in
//! big-endian order, and then the data. The record has no marker, version
//! or checksum, so the order of the blocks is the format.

use crate::buffer::{
    be_i64, be_u16, be_value, buffer_freeze, buffer_put_i64, buffer_put_slice, buffer_put_u16,
    buffer_seq, buffer_with_capacity, bytes_as_slice, bytes_copy_to_bytes, bytes_get_i64,
    bytes_get_u16, bytes_seq, i64_of_be, lemma_i64_round_trip, lemma_u16_round_trip, u16_of_be,
};
use crate::signature::{SignatureState, SignatureView};
use bytes::{Bytes, BytesMut};
use vstd::prelude::*;

verus! {

/// The number of blocks in a token.
pub const TOKEN_BLOCKS: usize = 9;

/// The longest data that a block holds with its true length.
pub const BLOCK_MAX: usize = 0xffff;

/// What a token holds.
pub struct TokenView {
    pub uin: i64,
    pub d2: Seq<u8>,
    pub d2key: Seq<u8>,
    pub tgt: Seq<u8>,
    pub srm_token: Seq<u8>,
    pub t133: Seq<u8>,
    pub encrypted_a1: Seq<u8>,
    pub wt_session_ticket_key: Seq<u8>,
    pub out_packet_session_id: Seq<u8>,
    pub tgtgt_key: Seq<u8>,
}

/// The data of a token's blocks, in the order of the record.
pub open spec fn token_blocks(t: TokenView) -> Seq<Seq<u8>> {
    seq![
        t.d2,
        t.d2key,
        t.tgt,
        t.srm_token,
        t.t133,
        t.encrypted_a1,
        t.wt_session_ticket_key,
        t.out_packet_session_id,
        t.tgtgt_key,
    ]
}

/// The token of an account number and nine blocks of data.
pub open spec fn token_from(uin: i64, blocks: Seq<Seq<u8>>) -> TokenView
    recommends
        blocks.len() == TOKEN_BLOCKS,
{
    TokenView {
        uin,
        d2: blocks[0],
        d2key: blocks[1],
        tgt: blocks[2],
        srm_token: blocks[3],
        t133: blocks[4],
        encrypted_a1: blocks[5],
        wt_session_ticket_key: blocks[6],
        out_packet_session_id: blocks[7],
        tgtgt_key: blocks[8],
    }
}

/// The token of a client: its account number, the credentials of its
/// signature state, and the session ticket key of its codec.
pub open spec fn token_of(uin: i64, sig: SignatureView, wt_session_ticket_key: Seq<u8>) -> TokenView {
    TokenView {
        uin,
        d2: sig.d2,
        d2key: sig.d2key,
        tgt: sig.tgt,
        srm_token: sig.srm_token,
        t133: sig.t133,
        encrypted_a1: sig.encrypted_a1,
        wt_session_ticket_key,
        out_packet_session_id: sig.out_packet_session_id,
        tgtgt_key: sig.tgtgt_key,
    }
}

/// A signature state with the credentials of a token in place of its own.
/// The cookies are no part of a token and stay.
pub open spec fn with_token(sig: SignatureView, t: TokenView) -> SignatureView {
    SignatureView {
        d2: t.d2,
        d2key: t.d2key,
        tgt: t.tgt,
        srm_token: t.srm_token,
        t133: t.t133,
        encrypted_a1: t.encrypted_a1,
        out_packet_session_id: t.out_packet_session_id,
        tgtgt_key: t.tgtgt_key,
        ..sig
    }
}

/// One block: the length of the data modulo 2^16, then the data.
pub open spec fn block_bytes(data: Seq<u8>) -> Seq<u8> {
    be_u16((data.len() % 0x1_0000) as u16) + data
}

/// Blocks one after the other.
pub open spec fn blocks_bytes(blocks: Seq<Seq<u8>>) -> Seq<u8>
    decreases blocks.len(),
{
    if blocks.len() == 0 {
        Seq::empty()
    } else {
        blocks_bytes(blocks.drop_last()) + block_bytes(blocks.last())
    }
}

/// The record of a token.
pub open spec fn token_bytes(t: TokenView) -> Seq<u8> {
    be_i64(t.uin) + blocks_bytes(token_blocks(t))
}

/// Every block of the token is short enough to be written with its true
/// length.
pub open spec fn token_fits(t: TokenView) -> bool {
    forall|i: int| 0 <= i < TOKEN_BLOCKS ==> (#[trigger] token_blocks(t)[i]).len() <= BLOCK_MAX
}

/// Reads one block off the front of `s`: its data and what follows it.
/// There is none where `s` ends before the block does.
pub open spec fn parse_block(s: Seq<u8>) -> Option<(Seq<u8>, Seq<u8>)> {
    if s.len() < 2 {
        None
    } else {
        let n = u16_of_be(s.subrange(0, 2)) as int;
        if s.len() - 2 < n {
            None
        } else {
            Some((s.subrange(2, 2 + n), s.subrange(2 + n, s.len() as int)))
        }
    }
}

/// Reads `n` blocks off the front of `s`: their data and what follows them.
pub open spec fn parse_blocks(s: Seq<u8>, n: nat) -> Option<(Seq<Seq<u8>>, Seq<u8>)>
    decreases n,
{
    if n == 0 {
        Some((Seq::empty(), s))
    } else {
        match parse_blocks(s, (n - 1) as nat) {
            None => None,
            Some((blocks, rest)) => match parse_block(rest) {
                None => None,
                Some((data, tail)) => Some((blocks.push(data), tail)),
            },
        }
    }
}

/// Reads a token off the front of `s`: the token and what follows it.
pub open spec fn parse_token(s: Seq<u8>) -> Option<(TokenView, Seq<u8>)> {
    if s.len() < 8 {
        None
    } else {
        match parse_blocks(s.subrange(8, s.len() as int), TOKEN_BLOCKS as nat) {
            None => None,
            Some((blocks, tail)) => Some((token_from(i64_of_be(s.subrange(0, 8)), blocks), tail)),
        }
    }
}

/// Two bytes spell the first times 256 plus the second.
pub proof fn lemma_u16_of_be(s: Seq<u8>)
    requires
        s.len() == 2,
    ensures
        u16_of_be(s) == s[0] * 0x100 + s[1],
{
    reveal_with_fuel(be_value, 3);
    assert(s.drop_last().drop_last().len() == 0);
}

/// A block that is written with its true length reads back as its data,
/// whatever follows it.
pub proof fn lemma_block_round_trip(data: Seq<u8>, rest: Seq<u8>)
    requires
        data.len() <= BLOCK_MAX,
    ensures
        parse_block(block_bytes(data) + rest) == Some((data, rest)),
{
    let n = data.len() as u16;
    let s = block_bytes(data) + rest;
    lemma_u16_round_trip(n);
    assert(s.subrange(0, 2) =~= be_u16(n));
    assert(s.subrange(2, 2 + n) =~= data);
    assert(s.subrange(2 + n, s.len() as int) =~= rest);
}

/// Blocks after which one more is written.
pub proof fn lemma_blocks_push(blocks: Seq<Seq<u8>>, data: Seq<u8>)
    ensures
        blocks_bytes(blocks.push(data)) == blocks_bytes(blocks) + block_bytes(data),
{
    assert(blocks.push(data).drop_last() =~= blocks);
}

/// Blocks that are written with their true lengths read back as their data,
/// whatever follows them.
pub proof fn lemma_blocks_round_trip(blocks: Seq<Seq<u8>>, rest: Seq<u8>)
    requires
        forall|i: int| 0 <= i < blocks.len() ==> (#[trigger] blocks[i]).len() <= BLOCK_MAX,
    ensures
        parse_blocks(blocks_bytes(blocks) + rest, blocks.len()) == Some((blocks, rest)),
    decreases blocks.len(),
{
    if blocks.len() > 0 {
        let front = blocks.drop_last();
        let last = blocks.last();
        assert forall|i: int| 0 <= i < front.len() implies (#[trigger] front[i]).len()
            <= BLOCK_MAX by {
            assert(front[i] == blocks[i]);
        }
        lemma_blocks_round_trip(front, block_bytes(last) + rest);
        assert(blocks_bytes(blocks) + rest =~= blocks_bytes(front) + (block_bytes(last) + rest));
        lemma_block_round_trip(last, rest);
        assert(front.push(last) =~= blocks);
    }
}

/// Round trip: the record of a token whose blocks are written with their
/// true lengths reads back as that token, every field of it, and leaves
/// what followed the record.
pub proof fn lemma_token_round_trip(t: TokenView, rest: Seq<u8>)
    requires
        token_fits(t),
    ensures
        parse_token(token_bytes(t) + rest) == Some((t, rest)),
{
    let s = token_bytes(t) + rest;
    let blocks = token_blocks(t);
    lemma_i64_round_trip(t.uin);
    lemma_blocks_round_trip(blocks, rest);
    assert(s.subrange(0, 8) =~= be_i64(t.uin));
    assert(s.subrange(8, s.len() as int) =~= blocks_bytes(blocks) + rest);
    assert(token_from(t.uin, blocks) == t);
}

/// The layout of the record, written out: the account number, then the
/// blocks in their fixed order.
pub proof fn lemma_token_layout(t: TokenView)
    ensures
        token_bytes(t) == be_i64(t.uin) + block_bytes(t.d2) + block_bytes(t.d2key) + block_bytes(
            t.tgt,
        ) + block_bytes(t.srm_token) + block_bytes(t.t133) + block_bytes(t.encrypted_a1)
            + block_bytes(t.wt_session_ticket_key) + block_bytes(t.out_packet_session_id)
            + block_bytes(t.tgtgt_key),
{
    let b = token_blocks(t);
    let b1 = seq![t.d2];
    let b2 = b1.push(t.d2key);
    let b3 = b2.push(t.tgt);
    let b4 = b3.push(t.srm_token);
    let b5 = b4.push(t.t133);
    let b6 = b5.push(t.encrypted_a1);
    let b7 = b6.push(t.wt_session_ticket_key);
    let b8 = b7.push(t.out_packet_session_id);
    let b9 = b8.push(t.tgtgt_key);
    assert(b9 =~= b);
    assert(b1 =~= Seq::<Seq<u8>>::empty().push(t.d2));
    lemma_blocks_push(Seq::empty(), t.d2);
    lemma_blocks_push(b1, t.d2key);
    lemma_blocks_push(b2, t.tgt);
    lemma_blocks_push(b3, t.srm_token);
    lemma_blocks_push(b4, t.t133);
    lemma_blocks_push(b5, t.encrypted_a1);
    lemma_blocks_push(b6, t.wt_session_ticket_key);
    lemma_blocks_push(b7, t.out_packet_session_id);
    lemma_blocks_push(b8, t.tgtgt_key);
    assert(blocks_bytes(Seq::<Seq<u8>>::empty()) =~= Seq::<u8>::empty());
    assert(blocks_bytes(b1) =~= block_bytes(t.d2));
    let head = be_i64(t.uin);
    assert(head + blocks_bytes(b2) =~= head + block_bytes(t.d2) + block_bytes(t.d2key));
    assert(head + blocks_bytes(b3) =~= head + blocks_bytes(b2) + block_bytes(t.tgt));
    assert(head + blocks_bytes(b4) =~= head + blocks_bytes(b3) + block_bytes(t.srm_token));
    assert(head + blocks_bytes(b5) =~= head + blocks_bytes(b4) + block_bytes(t.t133));
    assert(head + blocks_bytes(b6) =~= head + blocks_bytes(b5) + block_bytes(t.encrypted_a1));
    assert(head + blocks_bytes(b7) =~= head + blocks_bytes(b6) + block_bytes(
        t.wt_session_ticket_key,
    ));
    assert(head + blocks_bytes(b8) =~= head + blocks_bytes(b7) + block_bytes(
        t.out_packet_session_id,
    ));
    assert(head + blocks_bytes(b9) =~= head + blocks_bytes(b8) + block_bytes(t.tgtgt_key));
}

/// Writes `data` as one block: its length modulo 2^16, then the data.
pub fn write_bytes_short(buf: &mut BytesMut, data: &[u8])
    ensures
        buffer_seq(*final(buf)) == buffer_seq(*old(buf)) + block_bytes(data@),
{
    let ghost before = buffer_seq(*buf);
    let len: u16 = (data.len() % 0x1_0000) as u16;
    buffer_put_u16(buf, len);
    buffer_put_slice(buf, data);
    assert(before + be_u16(len) + data@ =~= before + block_bytes(data@));
}

/// Reads one block off the front of `buf` and returns its data.
pub fn read_bytes_short(buf: &mut Bytes) -> (data: Bytes)
    requires
        parse_block(bytes_seq(*old(buf))) is Some,
    ensures
        parse_block(bytes_seq(*old(buf))) == Some((bytes_seq(data), bytes_seq(*final(buf)))),
{
    let ghost s = bytes_seq(*buf);
    let len: u16 = bytes_get_u16(buf);
    let data = bytes_copy_to_bytes(buf, len as usize);
    assert(bytes_seq(data) =~= s.subrange(2, 2 + len));
    assert(bytes_seq(*buf) =~= s.subrange(2 + len, s.len() as int));
    data
}

/// Where `n` blocks can be read, so can any fewer.
pub proof fn lemma_parse_fewer_blocks(s: Seq<u8>, m: nat, n: nat)
    requires
        m <= n,
        parse_blocks(s, n) is Some,
    ensures
        parse_blocks(s, m) is Some,
    decreases n,
{
    if m < n {
        lemma_parse_fewer_blocks(s, m, (n - 1) as nat);
    }
}

/// Reads block number `k` of the `total` blocks that `s` starts with.
fn next_block(token: &mut Bytes, Ghost(s): Ghost<Seq<u8>>, Ghost(k): Ghost<nat>, Ghost(total): Ghost<
    nat,
>) -> (data: Bytes)
    requires
        k < total,
        parse_blocks(s, total) is Some,
        parse_blocks(s, k) matches Some(read) && read.1 == bytes_seq(*old(token)),
    ensures
        parse_blocks(s, k) matches Some(read) && parse_blocks(s, k + 1) == Some(
            (read.0.push(bytes_seq(data)), bytes_seq(*final(token))),
        ),
{
    proof {
        lemma_parse_fewer_blocks(s, k + 1, total);
    }
    read_bytes_short(token)
}

/// Writes the token of an account number, a signature state and a session
/// ticket key.
pub fn encode_token(uin: i64, sig: &SignatureState, wt_session_ticket_key: &Bytes) -> (token: Bytes)
    ensures
        bytes_seq(token) == token_bytes(token_of(uin, sig@, bytes_seq(*wt_session_ticket_key))),
{
    let mut buf = buffer_with_capacity(1024);
    buffer_put_i64(&mut buf, uin);
    write_bytes_short(&mut buf, bytes_as_slice(&sig.d2));
    write_bytes_short(&mut buf, bytes_as_slice(&sig.d2key));
    write_bytes_short(&mut buf, bytes_as_slice(&sig.tgt));
    write_bytes_short(&mut buf, bytes_as_slice(&sig.srm_token));
    write_bytes_short(&mut buf, bytes_as_slice(&sig.t133));
    write_bytes_short(&mut buf, bytes_as_slice(&sig.encrypted_a1));
    write_bytes_short(&mut buf, bytes_as_slice(wt_session_ticket_key));
    write_bytes_short(&mut buf, bytes_as_slice(&sig.out_packet_session_id));
    write_bytes_short(&mut buf, bytes_as_slice(&sig.tgtgt_key));
    proof {
        lemma_token_layout(token_of(uin, sig@, bytes_seq(*wt_session_ticket_key)));
        assert(Seq::<u8>::empty() + be_i64(uin) =~= be_i64(uin));
    }
    buffer_freeze(buf)
}

/// Reads a token off the front of `token` into `sig`, and returns the
/// account number and the session ticket key that it holds. What follows
/// the record is left in `token`.
pub fn decode_token(token: &mut Bytes, sig: &mut SignatureState) -> (head: (i64, Bytes))
    requires
        parse_token(bytes_seq(*old(token))) is Some,
    ensures
        parse_token(bytes_seq(*old(token))) matches Some(parsed) && {
            &&& head.0 == parsed.0.uin
            &&& bytes_seq(head.1) == parsed.0.wt_session_ticket_key
            &&& final(sig)@ == with_token(old(sig)@, parsed.0)
            &&& bytes_seq(*final(token)) == parsed.1
        },
{
    let ghost whole = bytes_seq(*token);
    let ghost s = whole.subrange(8, whole.len() as int);
    let ghost n = TOKEN_BLOCKS as nat;
    let uin = bytes_get_i64(token);
    assert(bytes_seq(*token) == s);
    sig.d2 = next_block(token, Ghost(s), Ghost(0), Ghost(n));
    sig.d2key = next_block(token, Ghost(s), Ghost(1), Ghost(n));
    sig.tgt = next_block(token, Ghost(s), Ghost(2), Ghost(n));
    sig.srm_token = next_block(token, Ghost(s), Ghost(3), Ghost(n));
    sig.t133 = next_block(token, Ghost(s), Ghost(4), Ghost(n));
    sig.encrypted_a1 = next_block(token, Ghost(s), Ghost(5), Ghost(n));
    let wt_session_ticket_key = next_block(token, Ghost(s), Ghost(6), Ghost(n));
    sig.out_packet_session_id = next_block(token, Ghost(s), Ghost(7), Ghost(n));
    sig.tgtgt_key = next_block(token, Ghost(s), Ghost(8), Ghost(n));
    (uin, wt_session_ticket_key)
}

/// Whether `bytes` starts with a whole token.
pub fn is_token(bytes: &[u8]) -> (whole: bool)
    ensures
        whole == parse_token(bytes@) is Some,
{
    if bytes.len() < 8 {
        return false;
    }
    let ghost s = bytes@.subrange(8, bytes@.len() as int);
    let ghost n = TOKEN_BLOCKS as nat;
    let mut pos: usize = 8;
    let mut k: usize = 0;
    while k < TOKEN_BLOCKS
        invariant
            k <= TOKEN_BLOCKS,
            8 <= pos <= bytes@.len(),
            n == TOKEN_BLOCKS,
            s == bytes@.subrange(8, bytes@.len() as int),
            parse_blocks(s, k as nat) matches Some(read) && read.1 == bytes@.subrange(
                pos as int,
                bytes@.len() as int,
            ),
        decreases TOKEN_BLOCKS - k,
    {
        let ghost rest = bytes@.subrange(pos as int, bytes@.len() as int);
        if bytes.len() - pos < 2 {
            proof {
                if parse_blocks(s, n) is Some {
                    lemma_parse_fewer_blocks(s, (k + 1) as nat, n);
                }
            }
            return false;
        }
        let len: usize = bytes[pos] as usize * 0x100 + bytes[pos + 1] as usize;
        proof {
            lemma_u16_of_be(rest.subrange(0, 2));
            assert(rest.subrange(0, 2)[0] == bytes@[pos as int]);
            assert(rest.subrange(0, 2)[1] == bytes@[pos + 1]);
        }
        if bytes.len() - pos - 2 < len {
            proof {
                if parse_blocks(s, n) is Some {
                    lemma_parse_fewer_blocks(s, (k + 1) as nat, n);
                }
            }
            return false;
        }
        assert(rest.subrange(2 + len, rest.len() as int) =~= bytes@.subrange(
            pos + 2 + len,
            bytes@.len() as int,
        ));
        pos = pos + 2 + len;
        k += 1;
    }
    true
}

} // verus!
