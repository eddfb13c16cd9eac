use bytes::Bytes;
use rs_qq::client::Client;
use rs_qq::signature::SignatureState;
use rs_qq::token::{decode_token, encode_token, is_token, read_bytes_short, write_bytes_short};
use tokio::sync::mpsc::unbounded_channel;

fn fresh_client() -> Client {
    let (tx, _rx) = unbounded_channel::<Bytes>();
    Client::new(tx)
}

fn populated_client() -> Client {
    let mut client = fresh_client();
    client.uin = 0x0102030405060708;
    client.sig.d2 = Bytes::from_static(b"d2");
    client.sig.d2key = Bytes::from_static(b"d2key");
    client.sig.tgt = Bytes::from_static(b"tgt");
    client.sig.srm_token = Bytes::from_static(b"srm");
    client.sig.t133 = Bytes::from_static(b"t133");
    client.sig.encrypted_a1 = Bytes::from_static(b"a1");
    client.wt_session_ticket_key = Bytes::from_static(b"wt");
    client.sig.out_packet_session_id = Bytes::from_static(&[0x02, 0xb0, 0x5b, 0x8b]);
    client.sig.tgtgt_key = Bytes::from_static(b"0123456789abcdef");
    client
}

#[test]
fn token_of_a_blank_client_is_the_account_number_and_nine_empty_blocks() {
    let client = fresh_client();
    let token = client.gen_token();
    let mut expected = vec![0u8; 8];
    expected.extend_from_slice(&[0u8; 18]);
    assert_eq!(&token[..], &expected[..]);
}

#[test]
fn token_layout_is_fixed() {
    let client = populated_client();
    let token = client.gen_token();
    let mut expected: Vec<u8> = vec![1, 2, 3, 4, 5, 6, 7, 8];
    expected.extend_from_slice(&[0, 2]);
    expected.extend_from_slice(b"d2");
    expected.extend_from_slice(&[0, 5]);
    expected.extend_from_slice(b"d2key");
    expected.extend_from_slice(&[0, 3]);
    expected.extend_from_slice(b"tgt");
    expected.extend_from_slice(&[0, 3]);
    expected.extend_from_slice(b"srm");
    expected.extend_from_slice(&[0, 4]);
    expected.extend_from_slice(b"t133");
    expected.extend_from_slice(&[0, 2]);
    expected.extend_from_slice(b"a1");
    expected.extend_from_slice(&[0, 2]);
    expected.extend_from_slice(b"wt");
    expected.extend_from_slice(&[0, 4]);
    expected.extend_from_slice(&[0x02, 0xb0, 0x5b, 0x8b]);
    expected.extend_from_slice(&[0, 16]);
    expected.extend_from_slice(b"0123456789abcdef");
    assert_eq!(&token[..], &expected[..]);
}

#[test]
fn negative_account_number_is_written_in_twos_complement() {
    let mut client = fresh_client();
    client.uin = -2;
    let token = client.gen_token();
    assert_eq!(&token[..8], &[0xff, 0xff, 0xff, 0xff, 0xff, 0xff, 0xff, 0xfe]);
    let mut other = fresh_client();
    let mut bytes = token.clone();
    other.load_token(&mut bytes);
    assert_eq!(other.uin, -2);
    client.uin = i64::MIN;
    assert_eq!(&client.gen_token()[..8], &[0x80, 0, 0, 0, 0, 0, 0, 0]);
}

#[test]
fn token_round_trip_reproduces_every_field() {
    let client = populated_client();
    let mut token = client.gen_token();
    let mut other = fresh_client();
    other.sig.sync_cookie = Some(Bytes::from_static(b"cookie"));
    assert!(other.try_load_token(&mut token));
    assert!(token.is_empty());
    assert_eq!(other.uin, client.uin);
    assert_eq!(other.sig.d2, client.sig.d2);
    assert_eq!(other.sig.d2key, client.sig.d2key);
    assert_eq!(other.sig.tgt, client.sig.tgt);
    assert_eq!(other.sig.srm_token, client.sig.srm_token);
    assert_eq!(other.sig.t133, client.sig.t133);
    assert_eq!(other.sig.encrypted_a1, client.sig.encrypted_a1);
    assert_eq!(other.wt_session_ticket_key, client.wt_session_ticket_key);
    assert_eq!(other.sig.out_packet_session_id, client.sig.out_packet_session_id);
    assert_eq!(other.sig.tgtgt_key, client.sig.tgtgt_key);
    assert_eq!(other.sig.sync_cookie, Some(Bytes::from_static(b"cookie")));
    assert_eq!(other.sig.pub_account_cookie, None);
    assert_eq!(other.gen_token(), client.gen_token());
}

#[test]
fn round_trip_with_the_longest_block() {
    let mut client = populated_client();
    client.sig.tgt = Bytes::from(vec![0xabu8; 0xffff]);
    let mut token = client.gen_token();
    assert_eq!(token.len(), 8 + 18 + 2 + 5 + 0xffff + 3 + 4 + 2 + 2 + 4 + 16);
    let mut other = fresh_client();
    other.load_token(&mut token);
    assert_eq!(other.sig.tgt, client.sig.tgt);
    assert_eq!(other.sig.tgtgt_key, client.sig.tgtgt_key);
}

#[test]
fn a_block_of_65536_bytes_is_written_with_length_zero() {
    let mut buf = bytes::BytesMut::new();
    let data = vec![7u8; 0x1_0000];
    write_bytes_short(&mut buf, &data);
    assert_eq!(buf.len(), 2 + 0x1_0000);
    assert_eq!(&buf[..2], &[0, 0]);
    let mut client = populated_client();
    client.sig.d2 = Bytes::from(data);
    let mut token = client.gen_token();
    let mut other = fresh_client();
    assert!(!other.try_load_token(&mut token) || other.sig.d2 != client.sig.d2);
}

#[test]
fn load_token_leaves_what_follows_the_record() {
    let client = populated_client();
    let mut bytes = client.gen_token().to_vec();
    bytes.extend_from_slice(b"tail");
    let mut token = Bytes::from(bytes);
    let mut other = fresh_client();
    other.load_token(&mut token);
    assert_eq!(&token[..], b"tail");
    assert_eq!(other.sig.tgtgt_key, client.sig.tgtgt_key);
}

#[test]
fn try_load_token_refuses_a_cut_record_and_changes_nothing() {
    let client = populated_client();
    let whole = client.gen_token();
    for cut in 0..whole.len() {
        let mut token = whole.slice(..cut);
        let mut other = populated_client();
        other.uin = 42;
        assert!(!is_token(&token));
        assert!(!other.try_load_token(&mut token));
        assert_eq!(token.len(), cut);
        assert_eq!(other.uin, 42);
        assert_eq!(other.sig, client.sig);
    }
    assert!(is_token(&whole));
}

#[test]
fn is_token_accepts_the_shortest_record() {
    assert!(is_token(&[0u8; 26]));
    assert!(!is_token(&[0u8; 25]));
    assert!(!is_token(&[]));
    let mut bytes = vec![0u8; 26];
    bytes[25] = 1;
    assert!(!is_token(&bytes));
    bytes.push(9);
    assert!(is_token(&bytes));
}

#[test]
fn write_bytes_short_prefixes_the_length_in_big_endian() {
    let mut buf = bytes::BytesMut::new();
    write_bytes_short(&mut buf, &[0xaa; 0x0102]);
    assert_eq!(&buf[..2], &[0x01, 0x02]);
    assert_eq!(buf.len(), 2 + 0x0102);
    write_bytes_short(&mut buf, b"");
    assert_eq!(&buf[2 + 0x0102..], &[0, 0]);
}

#[test]
fn read_bytes_short_takes_one_block() {
    let mut bytes = Bytes::from_static(&[0, 3, b'a', b'b', b'c', 0, 0, 9]);
    assert_eq!(read_bytes_short(&mut bytes), Bytes::from_static(b"abc"));
    assert_eq!(read_bytes_short(&mut bytes), Bytes::new());
    assert_eq!(&bytes[..], &[9]);
}

#[test]
fn encode_and_decode_work_on_a_signature_state() {
    let mut sig = SignatureState::new();
    sig.d2 = Bytes::from_static(b"x");
    sig.pub_account_cookie = Some(Bytes::from_static(b"pc"));
    let mut token = encode_token(-1, &sig, &Bytes::from_static(b"key"));
    let mut into = SignatureState::new();
    let (uin, key) = decode_token(&mut token, &mut into);
    assert_eq!(uin, -1);
    assert_eq!(key, Bytes::from_static(b"key"));
    assert_eq!(into.d2, Bytes::from_static(b"x"));
    assert_eq!(into.pub_account_cookie, None);
}
