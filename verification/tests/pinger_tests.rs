use dnet::pinger::{echo_request, read_timeout_ms, reply_rtt, request_from, split_draw, ttl_of, TOKEN_SIZE};

#[test]
fn request_takes_what_is_given() {
    let token = [7u8; TOKEN_SIZE];
    let r = echo_request(Some(9), Some(3), Some(token)).unwrap();
    assert_eq!((r.ident, r.seq_cnt, r.payload), (9, 3, token));
    if let Some(r) = echo_request(None, None, Some(token)) {
        assert_eq!(r.seq_cnt, 1);
        assert_eq!(r.payload, token);
    }
}

#[test]
fn request_fills_in_drawn_values() {
    let drawn = (513u16, [1u8; 24]);
    let r = request_from(None, None, None, drawn);
    assert_eq!((r.ident, r.seq_cnt, r.payload), (513, 1, [1u8; 24]));
    let r = request_from(Some(2), Some(0), None, drawn);
    assert_eq!((r.ident, r.seq_cnt, r.payload), (2, 0, [1u8; 24]));
}

#[test]
fn defaults_of_a_ping() {
    assert_eq!(read_timeout_ms(None), 4000);
    assert_eq!(read_timeout_ms(Some(7000)), 7000);
    assert_eq!(ttl_of(None), 64);
    assert_eq!(ttl_of(Some(1)), 1);
}

#[test]
fn reply_must_answer_the_request() {
    let r = request_from(Some(11), Some(3), None, (0, [0u8; 24]));
    assert_eq!(reply_rtt(&r, Some((11, 3)), 1234), Some(1234));
    assert_eq!(reply_rtt(&r, Some((11, 4)), 1234), None);
    assert_eq!(reply_rtt(&r, Some((12, 3)), 1234), None);
    assert_eq!(reply_rtt(&r, None, 1234), None);
}

#[test]
fn drawn_bytes_give_identifier_and_payload() {
    let mut b = [0u8; 26];
    for (i, x) in b.iter_mut().enumerate() {
        *x = i as u8 + 1;
    }
    let (ident, payload) = split_draw(b);
    assert_eq!(ident, 0x0102);
    assert_eq!(payload.to_vec(), (3u8..=26).collect::<Vec<u8>>());
}
