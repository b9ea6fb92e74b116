//! Wire format of `http_fetch` and `http_send`: a sequence of length-prefixed
//! fields. All lengths are little-endian `u32`.
//!
//! ```text
//! Request  = method, url, header-count, [name, value]*, body
//! Response = status(u32), header-count, [name, value]*, body
//! ```

use vstd::prelude::*;
use vstd::utf8::{decode_utf8, encode_utf8, valid_utf8};

use super::{header_texts, FetchRequest, FetchResponse, RequestView, ResponseView};
use crate::memory::{len32, length32};
use crate::text::strict_string;

verus! {

// ---- Writing ----

/// The four bytes of `n`, least significant first.
pub open spec fn le32(n: u32) -> Seq<u8> {
    seq![
        (n % 0x100) as u8,
        (n / 0x100 % 0x100) as u8,
        (n / 0x1_0000 % 0x100) as u8,
        (n / 0x100_0000) as u8,
    ]
}

/// A field: its length, then its bytes.
pub open spec fn framed(bytes: Seq<u8>) -> Seq<u8> {
    le32(len32(bytes.len())) + bytes
}

/// A field that holds text.
pub open spec fn framed_text(text: Seq<char>) -> Seq<u8> {
    framed(encode_utf8(text))
}

/// The name and value fields of each header in turn.
pub open spec fn header_fields(headers: Seq<(Seq<char>, Seq<char>)>) -> Seq<u8>
    decreases headers.len(),
{
    if headers.len() == 0 {
        seq![]
    } else {
        header_fields(headers.drop_last()) + framed_text(headers.last().0) + framed_text(
            headers.last().1,
        )
    }
}

/// A header count, then the headers.
pub open spec fn header_block(headers: Seq<(Seq<char>, Seq<char>)>) -> Seq<u8> {
    le32(len32(headers.len())) + header_fields(headers)
}

/// The encoding of a request, as a guest writes it.
pub open spec fn request_bytes(request: RequestView) -> Seq<u8> {
    framed_text(request.method) + framed_text(request.url) + header_block(request.headers)
        + framed(request.body)
}

/// The encoding of a response, as the host writes it.
pub open spec fn response_bytes(response: ResponseView) -> Seq<u8> {
    le32(response.status as u32) + header_block(response.headers) + framed(response.body)
}

/// Append `n` in four bytes, least significant first.
pub fn put_u32(out: &mut Vec<u8>, n: u32)
    ensures
        final(out)@ == old(out)@ + le32(n),
{
    out.push((n % 0x100) as u8);
    out.push((n / 0x100 % 0x100) as u8);
    out.push((n / 0x1_0000 % 0x100) as u8);
    out.push((n / 0x100_0000) as u8);
    assert(out@ =~= old(out)@ + le32(n));
}

/// Append a field: the length of `b`, then `b`.
pub fn put_bytes(out: &mut Vec<u8>, b: &[u8])
    ensures
        final(out)@ == old(out)@ + framed(b@),
{
    put_u32(out, length32(b.len()));
    out.extend_from_slice(b);
    assert(out@ =~= old(out)@ + framed(b@));
}

/// Encode a response for the guest to read back.
pub fn encode_response(resp: &FetchResponse) -> (bytes: Vec<u8>)
    ensures
        bytes@ == response_bytes(resp@),
{
    let ghost headers = header_texts(resp.headers@);
    let mut out: Vec<u8> = Vec::new();
    put_u32(&mut out, resp.status as u32);
    put_u32(&mut out, length32(resp.headers.len()));
    let ghost start = out@;
    assert(headers.take(0) =~= seq![]);
    let mut i: usize = 0;
    while i < resp.headers.len()
        invariant
            i <= resp.headers@.len(),
            headers == header_texts(resp.headers@),
            out@ == start + header_fields(headers.take(i as int)),
        decreases resp.headers@.len() - i,
    {
        put_bytes(&mut out, resp.headers[i].0.as_str().as_bytes());
        put_bytes(&mut out, resp.headers[i].1.as_str().as_bytes());
        proof {
            let seen = headers.take(i + 1);
            assert(seen.drop_last() =~= headers.take(i as int));
            assert(seen.last() == headers[i as int]);
            assert(out@ =~= start + header_fields(seen));
        }
        i = i + 1;
    }
    assert(headers.take(headers.len() as int) =~= headers);
    put_bytes(&mut out, resp.body.as_slice());
    assert(out@ =~= response_bytes(resp@));
    out
}

// ---- Reading ----

/// The number whose four bytes, least significant first, are the given ones.
pub open spec fn number(b0: u8, b1: u8, b2: u8, b3: u8) -> u32 {
    (b0 + 0x100 * b1 + 0x1_0000 * b2 + 0x100_0000 * b3) as u32
}

/// The number at `pos`, and the position behind it.
pub open spec fn u32_at(buf: Seq<u8>, pos: int) -> Option<(u32, int)> {
    if pos + 4 <= buf.len() {
        Some((number(buf[pos], buf[pos + 1], buf[pos + 2], buf[pos + 3]), pos + 4))
    } else {
        None
    }
}

/// The contents of the field at `pos`, and the position behind it.
pub open spec fn field_at(buf: Seq<u8>, pos: int) -> Option<(Seq<u8>, int)> {
    match u32_at(buf, pos) {
        Some((len, start)) if start + len <= buf.len() => Some(
            (buf.subrange(start, start + len), start + len),
        ),
        _ => None,
    }
}

/// The text in the field at `pos`, and the position behind it. A field that is
/// not UTF-8 holds none.
pub open spec fn text_field_at(buf: Seq<u8>, pos: int) -> Option<(Seq<char>, int)> {
    match field_at(buf, pos) {
        Some((bytes, end)) if valid_utf8(bytes) => Some((decode_utf8(bytes), end)),
        _ => None,
    }
}

/// The header at `pos`, and the position behind it.
pub open spec fn header_at(buf: Seq<u8>, pos: int) -> Option<((Seq<char>, Seq<char>), int)> {
    match text_field_at(buf, pos) {
        Some((name, mid)) => match text_field_at(buf, mid) {
            Some((value, end)) => Some(((name, value), end)),
            None => None,
        },
        None => None,
    }
}

/// The `count` headers from `pos` on, and the position behind them.
pub open spec fn headers_at(buf: Seq<u8>, pos: int, count: nat) -> Option<
    (Seq<(Seq<char>, Seq<char>)>, int),
>
    decreases count,
{
    if count == 0 {
        Some((seq![], pos))
    } else {
        match headers_at(buf, pos, (count - 1) as nat) {
            Some((headers, mid)) => match header_at(buf, mid) {
                Some((header, end)) => Some((headers.push(header), end)),
                None => None,
            },
            None => None,
        }
    }
}

/// The header count and the headers at `pos`, and the position behind them.
pub open spec fn header_block_at(buf: Seq<u8>, pos: int) -> Option<
    (Seq<(Seq<char>, Seq<char>)>, int),
> {
    match u32_at(buf, pos) {
        Some((count, start)) => headers_at(buf, start, count as nat),
        None => None,
    }
}

/// The request at the start of `buf`, and the position behind it.
pub open spec fn parsed_request(buf: Seq<u8>) -> Option<(RequestView, int)> {
    match text_field_at(buf, 0) {
        Some((method, p1)) => match text_field_at(buf, p1) {
            Some((url, p2)) => match header_block_at(buf, p2) {
                Some((headers, p3)) => match field_at(buf, p3) {
                    Some((body, end)) => Some((RequestView { method, url, headers, body }, end)),
                    None => None,
                },
                None => None,
            },
            None => None,
        },
        None => None,
    }
}

/// The response at the start of `buf`, and the position behind it, as a guest
/// reads them.
pub open spec fn parsed_response(buf: Seq<u8>) -> Option<(ResponseView, int)> {
    match u32_at(buf, 0) {
        Some((status, p1)) if status <= u16::MAX => match header_block_at(buf, p1) {
            Some((headers, p2)) => match field_at(buf, p2) {
                Some((body, end)) => Some(
                    (ResponseView { status: status as u16, headers, body }, end),
                ),
                None => None,
            },
            None => None,
        },
        _ => None,
    }
}

/// Take the number at `pos` and step behind it. `None`, with `pos` where it
/// was, if the buffer ends before.
pub fn take_u32(buf: &[u8], pos: &mut usize) -> (n: Option<u32>)
    ensures
        match u32_at(buf@, *old(pos) as int) {
            Some((v, end)) => n == Some(v) && *final(pos) == end,
            None => n is None && *final(pos) == *old(pos),
        },
{
    let start = *pos;
    if buf.len() < 4 || start > buf.len() - 4 {
        return None;
    }
    let v = buf[start] as u32 + 0x100 * buf[start + 1] as u32 + 0x1_0000 * buf[start + 2] as u32
        + 0x100_0000 * buf[start + 3] as u32;
    *pos = start + 4;
    Some(v)
}

/// Take the contents of the field at `pos` and step behind it. `None`, with
/// `pos` where it was, if the buffer ends before.
pub fn take_bytes(buf: &[u8], pos: &mut usize) -> (bytes: Option<Vec<u8>>)
    ensures
        match field_at(buf@, *old(pos) as int) {
            Some((v, end)) => bytes matches Some(b) && b@ == v && *final(pos) == end,
            None => bytes is None && *final(pos) == *old(pos),
        },
{
    let mut start: usize = *pos;
    let len: usize = match take_u32(buf, &mut start) {
        Some(n) => n as usize,
        None => return None,
    };
    if len > buf.len() - start {
        return None;
    }
    let end = start + len;
    *pos = end;
    Some(vstd::slice::slice_to_vec(vstd::slice::slice_subrange(buf, start, end)))
}

/// Take the text in the field at `pos` and step behind it. `None` if the buffer
/// ends before or the field is not UTF-8.
fn take_text(buf: &[u8], pos: &mut usize) -> (text: Option<String>)
    ensures
        match text_field_at(buf@, *old(pos) as int) {
            Some((v, end)) => text matches Some(s) && s@ == v && *final(pos) == end,
            None => text is None,
        },
{
    match take_bytes(buf, pos) {
        Some(bytes) => strict_string(bytes),
        None => None,
    }
}

/// Once a header cannot be read, neither can any longer list of them.
proof fn headers_fail_for_good(buf: Seq<u8>, pos: int, few: nat, many: nat)
    requires
        few <= many,
        headers_at(buf, pos, few) is None,
    ensures
        headers_at(buf, pos, many) is None,
    decreases many,
{
    if few < many {
        headers_fail_for_good(buf, pos, few, (many - 1) as nat);
    }
}

/// Take the header count and the headers at `pos` and step behind them. `None`
/// if the buffer ends before or a name or value is not UTF-8.
fn take_headers(buf: &[u8], pos: &mut usize) -> (headers: Option<Vec<(String, String)>>)
    ensures
        match header_block_at(buf@, *old(pos) as int) {
            Some((v, end)) => headers matches Some(h) && header_texts(h@) == v && *final(pos)
                == end,
            None => headers is None,
        },
{
    let count = match take_u32(buf, pos) {
        Some(n) => n,
        None => return None,
    };
    let ghost start = *pos as int;
    let mut headers: Vec<(String, String)> = Vec::new();
    assert(header_texts(headers@) =~= seq![]);
    let mut i: u32 = 0;
    while i < count
        invariant
            i <= count,
            header_block_at(buf@, *old(pos) as int) == headers_at(buf@, start, count as nat),
            headers_at(buf@, start, i as nat) == Some((header_texts(headers@), *pos as int)),
        decreases count - i,
    {
        let ghost before = header_texts(headers@);
        proof {
            if headers_at(buf@, start, (i + 1) as nat) is None {
                headers_fail_for_good(buf@, start, (i + 1) as nat, count as nat);
            }
        }
        let name = match take_text(buf, pos) {
            Some(s) => s,
            None => return None,
        };
        let value = match take_text(buf, pos) {
            Some(s) => s,
            None => return None,
        };
        headers.push((name, value));
        assert(header_texts(headers@) =~= before.push((name@, value@)));
        i = i + 1;
    }
    Some(headers)
}

/// Decode a request the guest wrote into linear memory. Bytes behind the
/// request are ignored.
pub fn decode_request(buf: &[u8]) -> (request: Option<FetchRequest>)
    ensures
        match parsed_request(buf@) {
            Some((v, _)) => request matches Some(r) && r@ == v,
            None => request is None,
        },
{
    let mut pos: usize = 0;
    let method = match take_text(buf, &mut pos) {
        Some(s) => s,
        None => return None,
    };
    let url = match take_text(buf, &mut pos) {
        Some(s) => s,
        None => return None,
    };
    let headers = match take_headers(buf, &mut pos) {
        Some(h) => h,
        None => return None,
    };
    let body = match take_bytes(buf, &mut pos) {
        Some(b) => b,
        None => return None,
    };
    Some(FetchRequest { method, url, headers, body })
}

} // verus!
