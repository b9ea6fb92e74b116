//! What the wire format promises: what was written is what is read, no matter
//! what follows, and nothing that was cut short is accepted.

use vstd::prelude::*;
use vstd::utf8::{
    decode_utf8_encode_utf8, encode_utf8, encode_utf8_decode_utf8, encode_utf8_valid_utf8,
};

use super::codec::{
    field_at, framed, framed_text, header_block, header_block_at, header_fields, headers_at, le32,
    number, parsed_request, parsed_response, request_bytes, response_bytes, text_field_at, u32_at,
};
use super::{RequestView, ResponseView};
use crate::memory::len32;

verus! {

/// Whether a length can be written in 32 bits.
pub open spec fn len_fits(n: nat) -> bool {
    n < 0x1_0000_0000
}

/// Whether a text can be written as a field.
pub open spec fn text_fits(text: Seq<char>) -> bool {
    len_fits(encode_utf8(text).len())
}

/// Whether a list of headers can be written.
pub open spec fn headers_fit(headers: Seq<(Seq<char>, Seq<char>)>) -> bool {
    &&& len_fits(headers.len())
    &&& forall|i: int|
        #![trigger headers[i]]
        0 <= i < headers.len() ==> text_fits(headers[i].0) && text_fits(headers[i].1)
}

/// Whether a request can be written: every length fits in its prefix.
pub open spec fn request_fits(request: RequestView) -> bool {
    &&& text_fits(request.method)
    &&& text_fits(request.url)
    &&& headers_fit(request.headers)
    &&& len_fits(request.body.len())
}

/// Whether a response can be written: every length fits in its prefix.
pub open spec fn response_fits(response: ResponseView) -> bool {
    &&& headers_fit(response.headers)
    &&& len_fits(response.body.len())
}

// ---- Writing, then reading ----

/// Two parts in the middle of a buffer can be seen one at a time.
proof fn split_in_two(before: Seq<u8>, a: Seq<u8>, b: Seq<u8>, after: Seq<u8>)
    ensures
        before + (a + b) + after == before + a + (b + after),
        before + (a + b) + after == before + a + b + after,
        before + (a + b) == before + a + b,
{
    assert(before + (a + b) =~= before + a + b);
    assert(before + (a + b) + after =~= before + a + (b + after));
}

/// So can three.
proof fn split_in_three(before: Seq<u8>, a: Seq<u8>, b: Seq<u8>, c: Seq<u8>, after: Seq<u8>)
    ensures
        before + (a + b + c) + after == before + a + (b + c + after),
        before + (a + b + c) + after == before + a + b + (c + after),
        before + (a + b + c) + after == before + a + b + c + after,
        before + (a + b + c) == before + a + b + c,
{
    split_in_two(before, a + b, c, after);
    split_in_two(before, a, b, c + after);
    assert(b + (c + after) =~= b + c + after);
}

/// Nothing stands in front of the first part.
proof fn from_the_start(a: Seq<u8>)
    ensures
        Seq::<u8>::empty() + a == a,
{
    assert(Seq::<u8>::empty() + a =~= a);
}

/// The four bytes of a number give it back.
proof fn number_of_le32(n: u32)
    ensures
        number(le32(n)[0], le32(n)[1], le32(n)[2], le32(n)[3]) == n,
{
}

/// A written number is read back.
proof fn u32_read_back(before: Seq<u8>, n: u32, after: Seq<u8>)
    ensures
        u32_at(before + le32(n) + after, before.len() as int) == Some(
            (n, (before.len() + 4) as int),
        ),
{
    let buf = before + le32(n) + after;
    let p = before.len() as int;
    assert(buf[p] == le32(n)[0]);
    assert(buf[p + 1] == le32(n)[1]);
    assert(buf[p + 2] == le32(n)[2]);
    assert(buf[p + 3] == le32(n)[3]);
    number_of_le32(n);
}

/// What stands in the middle is a range.
proof fn in_the_middle(before: Seq<u8>, bytes: Seq<u8>, after: Seq<u8>)
    ensures
        (before + bytes + after).subrange(
            before.len() as int,
            (before.len() + bytes.len()) as int,
        ) == bytes,
{
    assert((before + bytes + after).subrange(
        before.len() as int,
        (before.len() + bytes.len()) as int,
    ) =~= bytes);
}

/// A written field is read back.
#[verifier::spinoff_prover]
proof fn field_read_back(before: Seq<u8>, bytes: Seq<u8>, after: Seq<u8>)
    requires
        len_fits(bytes.len()),
    ensures
        field_at(before + framed(bytes) + after, before.len() as int) == Some(
            (bytes, (before + framed(bytes)).len() as int),
        ),
{
    let n = len32(bytes.len());
    let buf = before + framed(bytes) + after;
    split_in_two(before, le32(n), bytes, after);
    u32_read_back(before, n, bytes + after);
    in_the_middle(before + le32(n), bytes, after);
}

/// A written text is read back.
proof fn text_read_back(before: Seq<u8>, text: Seq<char>, after: Seq<u8>)
    requires
        text_fits(text),
    ensures
        text_field_at(before + framed_text(text) + after, before.len() as int) == Some(
            (text, (before + framed_text(text)).len() as int),
        ),
{
    field_read_back(before, encode_utf8(text), after);
    encode_utf8_valid_utf8(text);
    encode_utf8_decode_utf8(text);
}

/// Written headers are read back.
#[verifier::spinoff_prover]
proof fn headers_read_back(
    before: Seq<u8>,
    headers: Seq<(Seq<char>, Seq<char>)>,
    after: Seq<u8>,
)
    requires
        headers_fit(headers),
    ensures
        headers_at(before + header_fields(headers) + after, before.len() as int, headers.len())
            == Some((headers, (before + header_fields(headers)).len() as int)),
    decreases headers.len(),
{
    let buf = before + header_fields(headers) + after;
    if headers.len() == 0 {
        assert(headers =~= seq![]);
    } else {
        let rest = headers.drop_last();
        let name = framed_text(headers.last().0);
        let value = framed_text(headers.last().1);
        assert forall|i: int| 0 <= i < rest.len() implies text_fits(#[trigger] rest[i].0)
            && text_fits(rest[i].1) by {
            assert(rest[i] == headers[i]);
        }
        assert(headers.last() == headers[headers.len() - 1]);
        assert(header_fields(headers) == header_fields(rest) + name + value);
        split_in_three(before, header_fields(rest), name, value, after);
        headers_read_back(before, rest, name + value + after);
        let p1 = before + header_fields(rest);
        text_read_back(p1, headers.last().0, value + after);
        let p2 = p1 + name;
        text_read_back(p2, headers.last().1, after);
        assert(rest.push(headers.last()) =~= headers);
    }
}

/// A written header block is read back.
#[verifier::spinoff_prover]
proof fn header_block_read_back(
    before: Seq<u8>,
    headers: Seq<(Seq<char>, Seq<char>)>,
    after: Seq<u8>,
)
    requires
        headers_fit(headers),
    ensures
        header_block_at(before + header_block(headers) + after, before.len() as int) == Some(
            (headers, (before + header_block(headers)).len() as int),
        ),
{
    let n = len32(headers.len());
    let buf = before + header_block(headers) + after;
    split_in_two(before, le32(n), header_fields(headers), after);
    u32_read_back(before, n, header_fields(headers) + after);
    headers_read_back(before + le32(n), headers, after);
}

/// Decoding what a guest encoded gives the request it encoded, whatever bytes
/// follow it in the buffer.
#[verifier::spinoff_prover]
pub proof fn request_read_back(request: RequestView, after: Seq<u8>)
    requires
        request_fits(request),
    ensures
        parsed_request(request_bytes(request) + after) == Some(
            (request, request_bytes(request).len() as int),
        ),
{
    let method = framed_text(request.method);
    let url = framed_text(request.url);
    let headers = header_block(request.headers);
    let body = framed(request.body);
    let none = Seq::<u8>::empty();
    split_in_two(none, method + url + headers, body, after);
    split_in_three(none, method, url, headers, body + after);
    from_the_start(method);
    from_the_start(method + url + headers + body);
    text_read_back(none, request.method, url + headers + (body + after));
    text_read_back(method, request.url, headers + (body + after));
    header_block_read_back(method + url, request.headers, body + after);
    field_read_back(method + url + headers, request.body, after);
}

/// What the host encodes of a response is the whole of it: a guest that reads
/// the bytes gets the status, the headers and the body back.
#[verifier::spinoff_prover]
pub proof fn response_read_back(response: ResponseView, after: Seq<u8>)
    requires
        response_fits(response),
    ensures
        parsed_response(response_bytes(response) + after) == Some(
            (response, response_bytes(response).len() as int),
        ),
{
    let status = le32(response.status as u32);
    let headers = header_block(response.headers);
    let body = framed(response.body);
    let none = Seq::<u8>::empty();
    split_in_three(none, status, headers, body, after);
    from_the_start(status);
    from_the_start(status + headers + body);
    u32_read_back(none, response.status as u32, headers + body + after);
    split_in_two(status, headers, body, after);
    header_block_read_back(status, response.headers, body + after);
    field_read_back(status + headers, response.body, after);
}

// ---- Reading a part ----

/// A field that lies in the first `k` bytes is read the same from all of them.
proof fn field_in_prefix(buf: Seq<u8>, k: int, pos: int)
    requires
        0 <= k <= buf.len(),
        0 <= pos,
        field_at(buf.take(k), pos) is Some,
    ensures
        field_at(buf, pos) == field_at(buf.take(k), pos),
        pos < field_at(buf, pos)->Some_0.1 <= k,
{
    let part = buf.take(k);
    assert(part[pos] == buf[pos]);
    assert(part[pos + 1] == buf[pos + 1]);
    assert(part[pos + 2] == buf[pos + 2]);
    assert(part[pos + 3] == buf[pos + 3]);
    let (len, start) = u32_at(part, pos)->Some_0;
    assert(part.subrange(start, start + len) =~= buf.subrange(start, start + len));
}

/// Headers that lie in the first `k` bytes are read the same from all of them.
proof fn headers_in_prefix(buf: Seq<u8>, k: int, pos: int, count: nat)
    requires
        0 <= k <= buf.len(),
        0 <= pos <= k,
        headers_at(buf.take(k), pos, count) is Some,
    ensures
        headers_at(buf, pos, count) == headers_at(buf.take(k), pos, count),
        pos <= headers_at(buf, pos, count)->Some_0.1 <= k,
    decreases count,
{
    if count > 0 {
        headers_in_prefix(buf, k, pos, (count - 1) as nat);
        let mid = headers_at(buf, pos, (count - 1) as nat)->Some_0.1;
        field_in_prefix(buf, k, mid);
        field_in_prefix(buf, k, field_at(buf, mid)->Some_0.1);
    }
}

/// A header block that lies in the first `k` bytes is read the same from all of
/// them.
proof fn header_block_in_prefix(buf: Seq<u8>, k: int, pos: int)
    requires
        0 <= k <= buf.len(),
        0 <= pos,
        header_block_at(buf.take(k), pos) is Some,
    ensures
        header_block_at(buf, pos) == header_block_at(buf.take(k), pos),
        pos <= header_block_at(buf, pos)->Some_0.1 <= k,
{
    let part = buf.take(k);
    assert(part[pos] == buf[pos]);
    assert(part[pos + 1] == buf[pos + 1]);
    assert(part[pos + 2] == buf[pos + 2]);
    assert(part[pos + 3] == buf[pos + 3]);
    let (count, start) = u32_at(part, pos)->Some_0;
    headers_in_prefix(buf, k, start, count as nat);
}

/// Decoding depends on nothing behind the request: one that is decoded from the
/// first `k` bytes of a buffer is decoded from the whole buffer, and ends within
/// those bytes.
pub proof fn request_in_prefix(buf: Seq<u8>, k: int)
    requires
        0 <= k <= buf.len(),
        parsed_request(buf.take(k)) is Some,
    ensures
        parsed_request(buf) == parsed_request(buf.take(k)),
        parsed_request(buf)->Some_0.1 <= k,
{
    field_in_prefix(buf, k, 0);
    let p1 = field_at(buf, 0)->Some_0.1;
    field_in_prefix(buf, k, p1);
    let p2 = field_at(buf, p1)->Some_0.1;
    header_block_in_prefix(buf, k, p2);
    let p3 = header_block_at(buf, p2)->Some_0.1;
    field_in_prefix(buf, k, p3);
}

/// A request that is cut short anywhere is rejected.
pub proof fn cut_request_is_rejected(buf: Seq<u8>, k: int)
    requires
        parsed_request(buf) is Some,
        0 <= k < parsed_request(buf)->Some_0.1,
        k <= buf.len(),
    ensures
        parsed_request(buf.take(k)) is None,
{
    if parsed_request(buf.take(k)) is Some {
        request_in_prefix(buf, k);
    }
}

// ---- Reading, then writing ----

/// A number that was read has the bytes it was read from.
proof fn le32_of_number(b0: u8, b1: u8, b2: u8, b3: u8)
    ensures
        le32(number(b0, b1, b2, b3)) == seq![b0, b1, b2, b3],
{
    let n = number(b0, b1, b2, b3);
    assert(n % 0x100 == b0 && n / 0x100 % 0x100 == b1 && n / 0x1_0000 % 0x100 == b2 && n
        / 0x100_0000 == b3) by (bit_vector)
        requires
            n == b0 + 0x100 * b1 + 0x1_0000 * b2 + 0x100_0000 * b3,
    ;
    assert(le32(n) =~= seq![b0, b1, b2, b3]);
}

/// Appending is associative.
proof fn appended(a: Seq<u8>, b: Seq<u8>, c: Seq<u8>)
    ensures
        a + (b + c) == a + b + c,
{
    assert(a + (b + c) =~= a + b + c);
}

/// A prefix and the bytes behind it make the longer prefix.
proof fn longer_prefix(buf: Seq<u8>, from: int, to: int)
    requires
        0 <= from <= to <= buf.len(),
    ensures
        buf.take(from) + buf.subrange(from, to) == buf.take(to),
{
    assert(buf.take(from) + buf.subrange(from, to) =~= buf.take(to));
}

/// A number takes four bytes, which are the ones written for it.
proof fn u32_written_back(buf: Seq<u8>, pos: int)
    requires
        0 <= pos,
        u32_at(buf, pos) is Some,
    ensures
        buf.take(pos) + le32(u32_at(buf, pos)->Some_0.0) == buf.take(pos + 4),
{
    le32_of_number(buf[pos], buf[pos + 1], buf[pos + 2], buf[pos + 3]);
    longer_prefix(buf, pos, pos + 4);
    assert(buf.subrange(pos, pos + 4) =~= seq![buf[pos], buf[pos + 1], buf[pos + 2], buf[pos + 3]]);
}

/// A field takes the bytes that are written for its contents.
#[verifier::spinoff_prover]
proof fn field_written_back(buf: Seq<u8>, pos: int)
    requires
        0 <= pos,
        field_at(buf, pos) is Some,
    ensures
        field_at(buf, pos) matches Some((bytes, end)) && end <= buf.len() && len_fits(bytes.len())
            && buf.take(pos) + framed(bytes) == buf.take(end),
{
    let (bytes, end) = field_at(buf, pos)->Some_0;
    u32_written_back(buf, pos);
    appended(buf.take(pos), le32(len32(bytes.len())), bytes);
    longer_prefix(buf, pos + 4, end);
}

/// A text takes the bytes that are written for it.
proof fn text_written_back(buf: Seq<u8>, pos: int)
    requires
        0 <= pos,
        text_field_at(buf, pos) is Some,
    ensures
        text_field_at(buf, pos) matches Some((text, end)) && pos <= end <= buf.len() && text_fits(
            text,
        ) && buf.take(pos) + framed_text(text) == buf.take(end),
{
    field_written_back(buf, pos);
    decode_utf8_encode_utf8(field_at(buf, pos)->Some_0.0);
}

/// Headers take the bytes that are written for them.
#[verifier::spinoff_prover]
proof fn headers_written_back(buf: Seq<u8>, pos: int, count: nat)
    requires
        0 <= pos <= buf.len(),
        len_fits(count),
        headers_at(buf, pos, count) is Some,
    ensures
        headers_at(buf, pos, count) matches Some((headers, end)) && pos <= end <= buf.len()
            && headers.len() == count && headers_fit(headers) && buf.take(pos) + header_fields(
            headers,
        ) == buf.take(end),
    decreases count,
{
    let (headers, end) = headers_at(buf, pos, count)->Some_0;
    if count == 0 {
        assert(buf.take(pos) + header_fields(headers) =~= buf.take(end));
    } else {
        let (rest, mid) = headers_at(buf, pos, (count - 1) as nat)->Some_0;
        headers_written_back(buf, pos, (count - 1) as nat);
        text_written_back(buf, mid);
        let next = text_field_at(buf, mid)->Some_0.1;
        text_written_back(buf, next);
        assert(headers.drop_last() =~= rest);
        assert forall|i: int| 0 <= i < headers.len() implies text_fits(#[trigger] headers[i].0)
            && text_fits(headers[i].1) by {
            if i < rest.len() {
                assert(headers[i] == rest[i]);
            }
        }
        let name = framed_text(headers.last().0);
        let value = framed_text(headers.last().1);
        appended(buf.take(pos), header_fields(rest) + name, value);
        appended(buf.take(pos), header_fields(rest), name);
    }
}

/// A header block takes the bytes that are written for it.
#[verifier::spinoff_prover]
proof fn header_block_written_back(buf: Seq<u8>, pos: int)
    requires
        0 <= pos,
        header_block_at(buf, pos) is Some,
    ensures
        header_block_at(buf, pos) matches Some((headers, end)) && pos <= end <= buf.len()
            && headers_fit(headers) && buf.take(pos) + header_block(headers) == buf.take(end),
{
    let (count, start) = u32_at(buf, pos)->Some_0;
    u32_written_back(buf, pos);
    headers_written_back(buf, start, count as nat);
    let (headers, end) = header_block_at(buf, pos)->Some_0;
    assert(len32(headers.len()) == count);
    assert(header_block(headers) == le32(count) + header_fields(headers));
    appended(buf.take(pos), le32(count), header_fields(headers));
    assert(buf.take(pos) + header_block(headers) == buf.take(end));
}

/// Nothing stands in front of the first field.
proof fn first_field(buf: Seq<u8>, field: Seq<u8>, end: int)
    requires
        buf.take(0) + field == buf.take(end),
    ensures
        field == buf.take(end),
{
    assert(buf.take(0) + field =~= field);
}

/// A decoded request takes exactly the bytes that encode it, so no two
/// encodings stand for one request.
#[verifier::spinoff_prover]
pub proof fn request_written_back(buf: Seq<u8>)
    requires
        parsed_request(buf) is Some,
    ensures
        parsed_request(buf) matches Some((request, end)) && 0 <= end <= buf.len() && request_fits(
            request,
        ) && request_bytes(request) == buf.take(end),
{
    let (request, end) = parsed_request(buf)->Some_0;
    text_written_back(buf, 0);
    let p1 = text_field_at(buf, 0)->Some_0.1;
    first_field(buf, framed_text(request.method), p1);
    text_written_back(buf, p1);
    let p2 = text_field_at(buf, p1)->Some_0.1;
    header_block_written_back(buf, p2);
    let p3 = header_block_at(buf, p2)->Some_0.1;
    field_written_back(buf, p3);
}

} // verus!
