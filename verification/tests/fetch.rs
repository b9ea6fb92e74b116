//! The wire format of the outbound-HTTP extension.

use http_wasm_host::fetch::codec::{
    decode_request, encode_response, put_bytes, put_u32, take_bytes, take_u32,
};
use http_wasm_host::FetchResponse;

#[test]
fn request_roundtrips() {
    // Build a request the way the guest would, then decode it.
    let mut buf = Vec::new();
    put_bytes(&mut buf, b"POST");
    put_bytes(&mut buf, b"http://x/y");
    buf.extend_from_slice(&1u32.to_le_bytes());
    put_bytes(&mut buf, b"x-api-key");
    put_bytes(&mut buf, b"secret");
    put_bytes(&mut buf, b"hello");

    let req = decode_request(&buf).unwrap();
    assert_eq!(req.method, "POST");
    assert_eq!(req.url, "http://x/y");
    assert_eq!(req.headers, vec![("x-api-key".into(), "secret".into())]);
    assert_eq!(req.body, b"hello");
}

#[test]
fn truncated_request_is_rejected() {
    assert!(decode_request(&[0, 0]).is_none());
}

#[test]
fn response_encodes_status_and_body() {
    let resp = FetchResponse {
        status: 403,
        headers: vec![],
        body: b"banned".to_vec(),
    };
    let enc = encode_response(&resp);
    assert_eq!(u32::from_le_bytes(enc[0..4].try_into().unwrap()), 403);
}

/// A request with one header and a body, as a guest writes it.
fn sample() -> Vec<u8> {
    let mut buf = Vec::new();
    put_bytes(&mut buf, b"PUT");
    put_bytes(&mut buf, "http://h/\u{e9}".as_bytes());
    put_u32(&mut buf, 1);
    put_bytes(&mut buf, b"n");
    put_bytes(&mut buf, b"");
    put_bytes(&mut buf, &[0, 255]);
    buf
}

#[test]
fn every_cut_is_rejected() {
    let whole = sample();
    for k in 0..whole.len() {
        assert!(decode_request(&whole[..k]).is_none(), "cut at {k}");
    }
    assert!(decode_request(&whole).is_some());
}

#[test]
fn bytes_behind_a_request_are_ignored() {
    let mut buf = sample();
    buf.extend_from_slice(b"trailing");
    let req = decode_request(&buf).unwrap();
    assert_eq!(req.method, "PUT");
    assert_eq!(req.url, "http://h/\u{e9}");
    assert_eq!(req.headers, vec![("n".to_string(), String::new())]);
    assert_eq!(req.body, vec![0, 255]);
}

#[test]
fn text_must_be_utf8_but_a_body_need_not() {
    let mut buf = Vec::new();
    put_bytes(&mut buf, &[0xff]);
    put_bytes(&mut buf, b"u");
    put_u32(&mut buf, 0);
    put_bytes(&mut buf, b"");
    assert!(decode_request(&buf).is_none());

    let mut buf = Vec::new();
    put_bytes(&mut buf, b"GET");
    put_bytes(&mut buf, b"u");
    put_u32(&mut buf, 0);
    put_bytes(&mut buf, &[0xff]);
    assert_eq!(decode_request(&buf).unwrap().body, vec![0xff]);
}

#[test]
fn a_lying_header_count_is_rejected() {
    let mut buf = Vec::new();
    put_bytes(&mut buf, b"GET");
    put_bytes(&mut buf, b"u");
    put_u32(&mut buf, u32::MAX);
    put_bytes(&mut buf, b"");
    assert!(decode_request(&buf).is_none());
}

#[test]
fn response_layout_is_exact() {
    let resp = FetchResponse {
        status: 0x0102,
        headers: vec![("a".to_string(), "bc".to_string())],
        body: vec![9],
    };
    let expected = vec![
        2, 1, 0, 0, // status
        1, 0, 0, 0, // header count
        1, 0, 0, 0, b'a', // name
        2, 0, 0, 0, b'b', b'c', // value
        1, 0, 0, 0, 9, // body
    ];
    assert_eq!(encode_response(&resp), expected);
}

#[test]
fn numbers_and_fields_are_taken_in_turn() {
    let mut buf = Vec::new();
    put_u32(&mut buf, 0x0403_0201);
    assert_eq!(buf, vec![1, 2, 3, 4]);
    put_bytes(&mut buf, b"xy");

    let mut pos = 0;
    assert_eq!(take_u32(&buf, &mut pos), Some(0x0403_0201));
    assert_eq!(pos, 4);
    assert_eq!(take_bytes(&buf, &mut pos), Some(b"xy".to_vec()));
    assert_eq!(pos, 10);
    assert_eq!(take_u32(&buf, &mut pos), None);
    assert_eq!(take_bytes(&buf, &mut pos), None);
    assert_eq!(pos, 10);

    let mut far = usize::MAX;
    assert_eq!(take_u32(&buf, &mut far), None);
    assert_eq!(take_bytes(&buf, &mut far), None);
    assert_eq!(far, usize::MAX);
}
