//! The wire format byte by byte, as the other side of a fetch or a send sees it.

use vstd::prelude::*;
use vstd::utf8::encode_utf8;

use super::codec::{
    decode_request, encode_response, framed, framed_text, header_block, header_fields, le32,
    parsed_request, put_bytes, put_u32, request_bytes, response_bytes, take_bytes, take_u32,
};
use super::laws::{
    headers_fit, request_fits, request_read_back, request_written_back, text_fits,
};
use super::{header_texts, FetchRequest, FetchResponse, RequestView, ResponseView};
use crate::memory::len32;

verus! {

/// A length that fits is told as it is.
proof fn count_is(n: nat)
    requires
        n < 0x1_0000_0000,
    ensures
        len32(n) == n as u32,
{
}

/// A field is its length and its bytes.
proof fn field_is(bytes: Seq<u8>)
    requires
        bytes.len() < 0x1_0000_0000,
    ensures
        framed(bytes) == le32(bytes.len() as u32) + bytes,
{
    count_is(bytes.len());
}

/// Appending is associative.
proof fn appended(a: Seq<u8>, b: Seq<u8>, c: Seq<u8>)
    ensures
        a + (b + c) == a + b + c,
{
    assert(a + (b + c) =~= a + b + c);
}

/// The four bytes of a number are its digits to the base of 256, the least
/// significant one first.
pub proof fn numbers_are_little_endian(n: u32)
    ensures
        le32(n).len() == 4,
        le32(n)[0] + 0x100 * le32(n)[1] + 0x1_0000 * le32(n)[2] + 0x100_0000 * le32(n)[3] == n,
{
}

/// Putting a number or a field appends its bytes, a field with its length in front.
pub proof fn what_is_put(
    out: &mut Vec<u8>,
    n: u32,
    other: &mut Vec<u8>,
    b: &[u8],
)
    requires
        call_ensures(put_u32, (out, n), ()),
        call_ensures(put_bytes, (other, b), ()),
        b@.len() < 0x1_0000_0000,
    ensures
        final(out)@ == old(out)@ + le32(n),
        final(other)@ == old(other)@ + le32(b@.len() as u32) + b@,
{
    appended(old(other)@, le32(b@.len() as u32), b@);
}

/// Taking a number reads four bytes and steps behind them, or does nothing if there
/// are fewer left.
pub proof fn what_number_is_taken(buf: &[u8], pos: &mut usize, n: Option<u32>)
    requires
        call_ensures(take_u32, (buf, pos), n),
    ensures
        ({
            let p = *old(pos) as int;
            if p + 4 <= buf@.len() {
                &&& *final(pos) == p + 4
                &&& n matches Some(v) && v as int == buf@[p] + 0x100 * buf@[p
                    + 1] + 0x1_0000 * buf@[p + 2] + 0x100_0000 * buf@[p + 3]
            } else {
                *final(pos) == p && n is None
            }
        }),
{
}

/// Taking a field reads its length and as many bytes and steps behind them, or does
/// nothing if there are fewer left.
pub proof fn what_field_is_taken(buf: &[u8], pos: &mut usize, bytes: Option<Vec<u8>>)
    requires
        call_ensures(take_bytes, (buf, pos), bytes),
    ensures
        ({
            let p = *old(pos) as int;
            let len = buf@[p] + 0x100 * buf@[p + 1] + 0x1_0000 * buf@[p + 2] + 0x100_0000 * buf@[p
                + 3];
            if p + 4 <= buf@.len() && p + 4 + len <= buf@.len() {
                &&& *final(pos) == p + 4 + len
                &&& bytes matches Some(b) && b@ == buf@.subrange(
                    p + 4,
                    p + 4 + len,
                )
            } else {
                *final(pos) == p && bytes is None
            }
        }),
{
}

/// Two pairs behind something are four parts behind it.
proof fn one_more_header(before: Seq<u8>, a: Seq<u8>, b: Seq<u8>, c: Seq<u8>, d: Seq<u8>)
    ensures
        before + (a + b) + (c + d) == before + (a + b + c + d),
{
    appended(a + b, c, d);
    appended(before, a + b, c + d);
}

/// The fields of the last header stand behind those of the others.
proof fn last_header(headers: Seq<(Seq<char>, Seq<char>)>)
    requires
        headers.len() > 0,
        encode_utf8(headers.last().0).len() < 0x1_0000_0000,
        encode_utf8(headers.last().1).len() < 0x1_0000_0000,
    ensures
        header_fields(headers) == header_fields(headers.drop_last()) + (le32(
            encode_utf8(headers.last().0).len() as u32,
        ) + encode_utf8(headers.last().0) + le32(encode_utf8(headers.last().1).len() as u32)
            + encode_utf8(headers.last().1)),
{
    let last = headers.last();
    field_is(encode_utf8(last.0));
    field_is(encode_utf8(last.1));
    assert(header_fields(headers) == header_fields(headers.drop_last()) + framed_text(last.0)
        + framed_text(last.1));
    one_more_header(
        header_fields(headers.drop_last()),
        le32(encode_utf8(last.0).len() as u32),
        encode_utf8(last.0),
        le32(encode_utf8(last.1).len() as u32),
        encode_utf8(last.1),
    );
}

/// The fields of all headers stand one behind the other.
#[verifier::rlimit(60)]
#[verifier::spinoff_prover]
proof fn header_fields_in_a_row(headers: Seq<(Seq<char>, Seq<char>)>)
    requires
        forall|i: int|
            #![trigger headers[i]]
            0 <= i < headers.len() ==> encode_utf8(headers[i].0).len() < 0x1_0000_0000
                && encode_utf8(headers[i].1).len() < 0x1_0000_0000,
    ensures
        header_fields(headers) == headers.map_values(
            |h: (Seq<char>, Seq<char>)|
                le32(encode_utf8(h.0).len() as u32) + encode_utf8(h.0) + le32(
                    encode_utf8(h.1).len() as u32,
                ) + encode_utf8(h.1),
        ).flatten(),
    decreases headers.len(),
{
    let field = |h: (Seq<char>, Seq<char>)|
        le32(encode_utf8(h.0).len() as u32) + encode_utf8(h.0) + le32(
            encode_utf8(h.1).len() as u32,
        ) + encode_utf8(h.1);
    let fields = headers.map_values(field);
    fields.lemma_flatten_and_flatten_alt_are_equivalent();
    if headers.len() > 0 {
        let rest = headers.drop_last();
        assert forall|i: int| 0 <= i < rest.len() implies encode_utf8(
            (#[trigger] rest[i]).0,
        ).len() < 0x1_0000_0000 && encode_utf8(rest[i].1).len() < 0x1_0000_0000 by {
            assert(rest[i] == headers[i]);
        }
        header_fields_in_a_row(rest);
        let rest_fields = rest.map_values(field);
        rest_fields.lemma_flatten_and_flatten_alt_are_equivalent();
        assert(fields.drop_last() =~= rest_fields);
        let last = headers.last();
        assert(last == headers[headers.len() - 1]);
        assert(fields.last() == field(last));
        last_header(headers);
    }
}

/// The texts of headers have the fields of the headers.
proof fn header_texts_in_a_row(headers: Seq<(String, String)>)
    requires
        forall|i: int|
            #![trigger headers[i]]
            0 <= i < headers.len() ==> encode_utf8(headers[i].0@).len() < 0x1_0000_0000
                && encode_utf8(headers[i].1@).len() < 0x1_0000_0000,
    ensures
        header_fields(header_texts(headers)) == headers.map_values(
            |h: (String, String)|
                le32(encode_utf8(h.0@).len() as u32) + encode_utf8(h.0@) + le32(
                    encode_utf8(h.1@).len() as u32,
                ) + encode_utf8(h.1@),
        ).flatten(),
{
    let texts = header_texts(headers);
    assert forall|i: int| 0 <= i < texts.len() implies encode_utf8((#[trigger] texts[i]).0).len()
        < 0x1_0000_0000 && encode_utf8(texts[i].1).len() < 0x1_0000_0000 by {
        assert(headers[i].0@ == texts[i].0);
    }
    header_fields_in_a_row(texts);
    assert(texts.map_values(
        |h: (Seq<char>, Seq<char>)|
            le32(encode_utf8(h.0).len() as u32) + encode_utf8(h.0) + le32(
                encode_utf8(h.1).len() as u32,
            ) + encode_utf8(h.1),
    ) =~= headers.map_values(
        |h: (String, String)|
            le32(encode_utf8(h.0@).len() as u32) + encode_utf8(h.0@) + le32(
                encode_utf8(h.1@).len() as u32,
            ) + encode_utf8(h.1@),
    ));
}

/// The parts of a response stand in a row.
#[verifier::spinoff_prover]
pub proof fn response_in_a_row(response: ResponseView)
    requires
        response.headers.len() < 0x1_0000_0000,
        response.body.len() < 0x1_0000_0000,
    ensures
        response_bytes(response) == le32(response.status as u32) + le32(
            response.headers.len() as u32,
        ) + header_fields(response.headers) + le32(response.body.len() as u32) + response.body,
{
    let status = le32(response.status as u32);
    let count = le32(response.headers.len() as u32);
    let fields = header_fields(response.headers);
    field_is(response.body);
    count_is(response.headers.len());
    assert(response_bytes(response) == status + header_block(response.headers) + framed(
        response.body,
    ));
    appended(status, count, fields);
    appended(status + count + fields, le32(response.body.len() as u32), response.body);
}

/// The bytes of a response whose lengths fit stand in a row.
pub proof fn response_bytes_in_a_row(resp: FetchResponse)
    requires
        resp.headers@.len() < 0x1_0000_0000 && resp.body@.len() < 0x1_0000_0000 && (forall|i: int|
            #![trigger resp.headers@[i]]
            0 <= i < resp.headers@.len() ==> encode_utf8(resp.headers@[i].0@).len() < 0x1_0000_0000
                && encode_utf8(resp.headers@[i].1@).len() < 0x1_0000_0000),
    ensures
        response_bytes(resp@) == le32(resp.status as u32) + le32(resp.headers@.len() as u32)
            + resp.headers@.map_values(
            |h: (String, String)|
                le32(encode_utf8(h.0@).len() as u32) + encode_utf8(h.0@) + le32(
                    encode_utf8(h.1@).len() as u32,
                ) + encode_utf8(h.1@),
        ).flatten() + le32(resp.body@.len() as u32) + resp.body@,
{
    header_texts_in_a_row(resp.headers@);
    response_in_a_row(resp@);
}

/// A response is encoded as its status, the number of its headers, the name and the
/// value of each in turn, and its body.
pub proof fn how_a_response_is_encoded(resp: &FetchResponse, out: Vec<u8>)
    requires
        call_ensures(encode_response, (resp,), out),
        resp.headers@.len() < 0x1_0000_0000 && resp.body@.len() < 0x1_0000_0000 && (forall|i: int|
            #![trigger resp.headers@[i]]
            0 <= i < resp.headers@.len() ==> encode_utf8(resp.headers@[i].0@).len() < 0x1_0000_0000
                && encode_utf8(resp.headers@[i].1@).len() < 0x1_0000_0000),
    ensures
        out@ == le32(resp.status as u32) + le32(resp.headers@.len() as u32)
            + resp.headers@.map_values(
            |h: (String, String)|
                le32(encode_utf8(h.0@).len() as u32) + encode_utf8(h.0@) + le32(
                    encode_utf8(h.1@).len() as u32,
                ) + encode_utf8(h.1@),
        ).flatten() + le32(resp.body@.len() as u32) + resp.body@,
{
    response_bytes_in_a_row(*resp);
}

/// A request that is encoded as its method, its URL, the number of its headers, the
/// name and the value of each in turn, and its body is decoded, whatever follows it.
pub proof fn which_requests_are_decoded(
    buf: &[u8],
    out: Option<FetchRequest>,
    method: Seq<char>,
    url: Seq<char>,
    headers: Seq<(Seq<char>, Seq<char>)>,
    body: Seq<u8>,
    after: Seq<u8>,
)
    requires
        call_ensures(decode_request, (buf,), out),
        headers.len() < 0x1_0000_0000,
        body.len() < 0x1_0000_0000,
        encode_utf8(method).len() < 0x1_0000_0000,
        encode_utf8(url).len() < 0x1_0000_0000,
        forall|i: int|
            #![trigger headers[i]]
            0 <= i < headers.len() ==> encode_utf8(headers[i].0).len() < 0x1_0000_0000
                && encode_utf8(
                headers[i].1,
            ).len() < 0x1_0000_0000,
        buf@ == le32(encode_utf8(method).len() as u32) + encode_utf8(method) + le32(
            encode_utf8(url).len() as u32,
        ) + encode_utf8(url) + le32(headers.len() as u32) + headers.map_values(
            |h: (Seq<char>, Seq<char>)|
                le32(encode_utf8(h.0).len() as u32) + encode_utf8(h.0) + le32(
                    encode_utf8(h.1).len() as u32,
                ) + encode_utf8(h.1),
        ).flatten() + le32(body.len() as u32) + body + after,
    ensures
        out matches Some(r) && r.method@ == method && r.url@ == url && r.body@ == body
            && r.headers@.len() == headers.len() && (
        forall|i: int|
            #![trigger r.headers@[i]]
            0 <= i < headers.len() ==> r.headers@[i].0@ == headers[i].0 && r.headers@[i].1@
                == headers[i].1),
{
    let request = RequestView { method, url, headers, body };
    request_is_parsed(buf@, request, after);
    let r = out->Some_0;
    assert(header_texts(r.headers@) == headers);
    assert forall|i: int| 0 <= i < headers.len() implies (#[trigger] r.headers@[i]).0@
        == headers[i].0 && r.headers@[i].1@ == headers[i].1 by {
        assert(header_texts(r.headers@)[i] == headers[i]);
    }
}

/// The same of what is parsed.
pub proof fn request_is_parsed(buf: Seq<u8>, request: RequestView, after: Seq<u8>)
    requires
        ({
            let RequestView { method, url, headers, body } = request;
            &&& headers.len() < 0x1_0000_0000
            &&& body.len() < 0x1_0000_0000
            &&& encode_utf8(method).len() < 0x1_0000_0000
            &&& encode_utf8(url).len() < 0x1_0000_0000
            &&& forall|i: int|
                #![trigger headers[i]]
                0 <= i < headers.len() ==> encode_utf8(headers[i].0).len() < 0x1_0000_0000
                    && encode_utf8(headers[i].1).len() < 0x1_0000_0000
            &&& buf == le32(encode_utf8(method).len() as u32) + encode_utf8(method) + le32(
                encode_utf8(url).len() as u32,
            ) + encode_utf8(url) + le32(headers.len() as u32) + headers.map_values(
                |h: (Seq<char>, Seq<char>)|
                    le32(encode_utf8(h.0).len() as u32) + encode_utf8(h.0) + le32(
                        encode_utf8(h.1).len() as u32,
                    ) + encode_utf8(h.1),
            ).flatten() + le32(body.len() as u32) + body + after
        }),
    ensures
        parsed_request(buf) == Some((request, request_bytes(request).len() as int)),
{
    let RequestView { method, url, headers, body } = request;
    header_fields_in_a_row(headers);
    in_a_row(request);
    assert(headers_fit(headers)) by {
        assert forall|i: int| 0 <= i < headers.len() implies text_fits((#[trigger] headers[i]).0)
            && text_fits(headers[i].1) by {
        }
    }
    request_read_back(request, after);
}

/// Nothing but an encoded request is decoded.
pub proof fn only_requests_are_decoded(buf: &[u8], r: FetchRequest)
    requires
        call_ensures(decode_request, (buf,), Some(r)),
    ensures
        exists|end: int|
            0 <= end <= buf@.len() && #[trigger] buf@.take(end)
                == le32(encode_utf8(r.method@).len() as u32) + encode_utf8(r.method@) + le32(
                encode_utf8(r.url@).len() as u32,
            ) + encode_utf8(r.url@) + le32(r.headers@.len() as u32) + r.headers@.map_values(
                |h: (String, String)|
                    le32(encode_utf8(h.0@).len() as u32) + encode_utf8(h.0@) + le32(
                        encode_utf8(h.1@).len() as u32,
                    ) + encode_utf8(h.1@),
            ).flatten() + le32(r.body@.len() as u32) + r.body@,
{
    request_written_back(buf@);
    let (request, end) = parsed_request(buf@)->Some_0;
    request_bytes_in_a_row(r);
    assert(buf@.take(end) == request_bytes(r@));
}

/// Four pairs in a row are eight parts in a row.
proof fn regrouped(
    a: Seq<u8>,
    b: Seq<u8>,
    c: Seq<u8>,
    d: Seq<u8>,
    e: Seq<u8>,
    f: Seq<u8>,
    g: Seq<u8>,
    h: Seq<u8>,
)
    ensures
        (a + b) + (c + d) + (e + f) + (g + h) == a + b + c + d + e + f + g + h,
{
    appended(a + b, c, d);
    appended(a + b + c + d, e, f);
    appended(a + b + c + d + e + f, g, h);
}

/// The parts of a request stand in a row.
#[verifier::spinoff_prover]
#[verifier::rlimit(60)]
proof fn in_a_row(request: RequestView)
    requires
        request.headers.len() < 0x1_0000_0000,
        request.body.len() < 0x1_0000_0000,
        encode_utf8(request.method).len() < 0x1_0000_0000,
        encode_utf8(request.url).len() < 0x1_0000_0000,
    ensures
        request_bytes(request) == le32(encode_utf8(request.method).len() as u32) + encode_utf8(
            request.method,
        ) + le32(encode_utf8(request.url).len() as u32) + encode_utf8(request.url) + le32(
            request.headers.len() as u32,
        ) + header_fields(request.headers) + le32(request.body.len() as u32) + request.body,
{
    field_is(encode_utf8(request.method));
    field_is(encode_utf8(request.url));
    field_is(request.body);
    count_is(request.headers.len());
    assert(request_bytes(request) == framed_text(request.method) + framed_text(request.url)
        + header_block(request.headers) + framed(request.body));
    regrouped(
        le32(encode_utf8(request.method).len() as u32),
        encode_utf8(request.method),
        le32(encode_utf8(request.url).len() as u32),
        encode_utf8(request.url),
        le32(request.headers.len() as u32),
        header_fields(request.headers),
        le32(request.body.len() as u32),
        request.body,
    );
}

/// The bytes of a request whose lengths fit stand in a row.
pub proof fn request_bytes_in_a_row(r: FetchRequest)
    requires
        request_fits(r@),
    ensures
        request_bytes(r@) == le32(encode_utf8(r.method@).len() as u32) + encode_utf8(r.method@)
            + le32(
            encode_utf8(r.url@).len() as u32,
        ) + encode_utf8(r.url@) + le32(r.headers@.len() as u32) + r.headers@.map_values(
            |h: (String, String)|
                le32(encode_utf8(h.0@).len() as u32) + encode_utf8(h.0@) + le32(
                    encode_utf8(h.1@).len() as u32,
                ) + encode_utf8(h.1@),
        ).flatten() + le32(r.body@.len() as u32) + r.body@,
{
    let headers = r.headers@;
    assert forall|i: int| 0 <= i < headers.len() implies encode_utf8((#[trigger] headers[i]).0@).len()
        < 0x1_0000_0000 && encode_utf8(headers[i].1@).len() < 0x1_0000_0000 by {
        assert(header_texts(headers)[i] == (headers[i].0@, headers[i].1@));
    }
    header_texts_in_a_row(headers);
    in_a_row(r@);
}

} // verus!
