//! What a guest and its embedder can rely on, host function by host function.
//!
//! Each statement is about [`dispatch`] as a whole: from the arguments of the call
//! and the bytes in the guest's memory to the method of the embedder that is run, and
//! from what that returns to the guest's memory and the result of the call.

use vstd::prelude::*;
use vstd::utf8::{
    decode_utf8_encode_utf8, encode_utf8, encode_utf8_decode_utf8, encode_utf8_valid_utf8,
    valid_utf8,
};

use super::answer::{answered, Answer, AnswerView};
use super::delivery::{answer_fits, deliver, delivered};
use super::dispatch;
use super::function::{HostFn, WasmValue};
use super::plan::{
    self, bad_text_is_marked, outcome_code, text_ranges, CallView, HostCall, Plan,
};
use crate::abi::{kind_of, level_of, unsigned32, HeaderKind, LogLevel};
use crate::fetch::codec::{le32, parsed_request, request_bytes, response_bytes};
use crate::fetch::laws::request_written_back;
use crate::fetch::wire::{request_bytes_in_a_row, request_is_parsed, response_bytes_in_a_row};
use crate::fetch::{
    header_texts, FetchRequest, FetchResponse, Fetcher, RequestView, SendOutcome, Sink,
};
use crate::host::Host;
use crate::memory::{bytes_at, clamped, is_marked, joined, text_at, texts, written};
use crate::text::utf8_lossy;

verus! {

/// What a request says, it says field by field.
proof fn request_says(r: FetchRequest, request: RequestView)
    requires
        r@ == request,
    ensures
        r.method@ == request.method,
        r.url@ == request.url,
        r.body@ == request.body,
        r.headers@.len() == request.headers.len(),
        forall|i: int|
            #![trigger r.headers@[i]]
            0 <= i < request.headers.len() ==> r.headers@[i].0@ == request.headers[i].0
                && r.headers@[i].1@ == request.headers[i].1,
{
    assert forall|i: int| 0 <= i < request.headers.len() implies (#[trigger] r.headers@[i]).0@
        == request.headers[i].0 && r.headers@[i].1@ == request.headers[i].1 by {
        assert(header_texts(r.headers@)[i] == request.headers[i]);
    }
}

/// A response is delivered part by part.
proof fn response_is_delivered(
    args: Seq<i32>,
    before: Seq<u8>,
    after: Seq<u8>,
    value: Option<WasmValue>,
    response: FetchResponse,
)
    requires
        (after, value) == delivered(
            HostFn::HttpFetch,
            args,
            before,
            AnswerView::Fetched(Some(response@)),
        ),
    ensures
        value matches Some(WasmValue::I64(q)) && q as int == 0x1_0000_0000 + response_bytes(
            response@,
        ).len() as int % 0x1_0000_0000,
        after == written(before, args[2], args[3], response_bytes(response@)),
{
}

/// Data that were written stand in the memory byte by byte.
proof fn bytes_are_placed(before: Seq<u8>, after: Seq<u8>, ptr: i32, limit: i32, data: Seq<u8>)
    requires
        after == written(before, ptr, limit, data),
    ensures
        after.len() == before.len(),
        ({
            let n = if limit <= 0 {
                0
            } else if limit < data.len() {
                limit as int
            } else {
                data.len() as int
            };
            forall|i: int|
                0 <= i < before.len() ==> #[trigger] after[i] == if 0 <= ptr
                    && ptr + n <= before.len()
                    && ptr <= i < ptr + n {
                    data[i - ptr]
                } else {
                    before[i]
                }
        }),
{
}

/// A length is told modulo 2^32.
pub proof fn length_is_told(n: nat, value: Option<WasmValue>)
    requires
        value == Some(super::delivery::length_result(n)),
    ensures
        value matches Some(WasmValue::I32(r)) && (r as int - n as int) % 0x1_0000_0000 == 0,
{
}

/// Two lengths are told modulo 2^32 each.
pub proof fn pair_is_told(upper: nat, lower: nat, value: Option<WasmValue>)
    requires
        value == Some(
            super::delivery::pair_result(
                crate::memory::len32(upper),
                crate::memory::len32(lower),
            ),
        ),
    ensures
        value matches Some(WasmValue::I64(r)) && (r as int - ((upper as int % 0x1_0000_0000)
            * 0x1_0000_0000 + lower as int % 0x1_0000_0000)) % 0x1_0000_0000_0000_0000 == 0,
{
}

/// A text that is UTF-8 is seen as it is.
proof fn text_is_seen(mem: Seq<u8>, ptr: i32, len: i32)
    ensures
        ({
            let b = bytes_at(mem, ptr, len);
            if valid_utf8(b) {
                encode_utf8(text_at(mem, ptr, len)) == b
            } else {
                text_at(mem, ptr, len) == utf8_lossy(b)
            }
        }),
{
    if valid_utf8(bytes_at(mem, ptr, len)) {
        decode_utf8_encode_utf8(bytes_at(mem, ptr, len));
    }
}

/// A text that is not UTF-8 is seen with a replacement character.
proof fn marked(f: HostFn, args: Seq<i32>, mem: Seq<u8>, i: int)
    requires
        bad_text_is_marked(f, args, mem),
        0 <= i < text_ranges(f, args).len(),
    ensures
        is_marked(mem, text_ranges(f, args)[i].0, text_ranges(f, args)[i].1),
{
}

/// A text of the host is written into the guest's buffer as far as it fits there, and
/// the result tells its whole length: the method, the URI, the protocol version or
/// the client's address.
#[verifier::rlimit(30)]
#[verifier::spinoff_prover]
pub proof fn texts_are_got<H: Host + ?Sized, F: Fetcher + ?Sized, S: Sink + ?Sized>(
    host: &mut H,
    fetcher: Option<&F>,
    sink: Option<&S>,
    f: HostFn,
    args: &[i32],
    mem: &mut [u8],
    value: Option<WasmValue>,
)
    requires
        call_ensures(dispatch::<H, F, S>, (host, fetcher, sink, f, args, mem), value),
        args@.len() == 2,
        f is GetMethod || f is GetUri || f is GetProtocolVersion || f is GetSourceAddr,
    ensures
        &*final(host) == &*old(host),
        exists|v: String|
            (match f {
                HostFn::GetMethod => call_ensures(H::method, (&*old(host),), v),
                HostFn::GetUri => call_ensures(H::uri, (&*old(host),), v),
                HostFn::GetProtocolVersion => call_ensures(H::protocol_version, (&*old(host),), v),
                _ => call_ensures(H::source_addr, (&*old(host),), v),
            }) && (match value {
                Some(WasmValue::I32(r)) => (r as int - #[trigger] encode_utf8(v@).len() as int) % 0x1_0000_0000 == 0,
                _ => false,
            }) && ({
                let n = if args@[1] <= 0 {
                    0
                } else if args@[1] < encode_utf8(v@).len() {
                    args@[1] as int
                } else {
                    encode_utf8(v@).len() as int
                };
                &&& final(mem)@.len() == old(mem)@.len()
                &&& forall|i: int|
                    0 <= i < old(mem)@.len() ==> #[trigger] final(mem)@[i] == if 0 <= args@[0]
                        && args@[0] + n
                        <= old(mem)@.len() && args@[0] <= i < args@[0] + n {
                        encode_utf8(v@)[i - args@[0]]
                    } else {
                        old(mem)@[i]
                    }
            }),
{
    let call = match f {
        HostFn::GetMethod => CallView::Method,
        HostFn::GetUri => CallView::Uri,
        HostFn::GetProtocolVersion => CallView::ProtocolVersion,
        _ => CallView::SourceAddr,
    };
    let (h, answer) = choose|h: &mut H, answer: AnswerView|
        &*h == &*old(host) && &*final(h) == &*final(host) && #[trigger] answered(
            h,
            fetcher,
            sink,
            call,
            answer,
        ) && answer_fits(f, answer) && (final(mem)@, value) == delivered(
            f,
            args@,
            old(mem)@,
            answer,
        );
    let v = match f {
        HostFn::GetMethod => choose|v: String| #[trigger]
            call_ensures(H::method, (&*h,), v) && answer == AnswerView::Text(v@),
        HostFn::GetUri => choose|v: String| #[trigger]
            call_ensures(H::uri, (&*h,), v) && answer == AnswerView::Text(v@),
        HostFn::GetProtocolVersion => choose|v: String| #[trigger]
            call_ensures(H::protocol_version, (&*h,), v) && answer == AnswerView::Text(v@),
        _ => choose|v: String| #[trigger]
            call_ensures(H::source_addr, (&*h,), v) && answer == AnswerView::Text(v@),
    };
    bytes_are_placed(old(mem)@, final(mem)@, args@[0], args@[1], encode_utf8(v@));
    length_is_told(encode_utf8(v@).len(), value);
}

/// The configuration is written into the guest's buffer as far as it fits there, and
/// the result tells its whole length.
#[verifier::rlimit(30)]
#[verifier::spinoff_prover]
pub proof fn configuration_is_got<H: Host + ?Sized, F: Fetcher + ?Sized, S: Sink + ?Sized>(
    host: &mut H,
    fetcher: Option<&F>,
    sink: Option<&S>,
    args: &[i32],
    mem: &mut [u8],
    value: Option<WasmValue>,
)
    requires
        call_ensures(dispatch::<H, F, S>, (host, fetcher, sink, HostFn::GetConfig, args, mem),
            value),
        args@.len() == 2,
    ensures
        &*final(host) == &*old(host),
        exists|v: Vec<u8>| #[trigger]
            call_ensures(H::config, (&*old(host),), v) && (match value {
                Some(WasmValue::I32(r)) => (r as int - v@.len() as int) % 0x1_0000_0000 == 0,
                _ => false,
            }) && ({
                let n = if args@[1] <= 0 {
                    0
                } else if args@[1] < v@.len() {
                    args@[1] as int
                } else {
                    v@.len() as int
                };
                &&& final(mem)@.len() == old(mem)@.len()
                &&& forall|i: int|
                    0 <= i < old(mem)@.len() ==> #[trigger] final(mem)@[i] == if 0 <= args@[0]
                        && args@[0] + n
                        <= old(mem)@.len() && args@[0] <= i < args@[0] + n {
                        v@[i - args@[0]]
                    } else {
                        old(mem)@[i]
                    }
            }),
{
    let call = CallView::Config;
    let (h, answer) = choose|h: &mut H, answer: AnswerView|
        &*h == &*old(host) && &*final(h) == &*final(host) && #[trigger] answered(
            h,
            fetcher,
            sink,
            call,
            answer,
        ) && answer_fits(HostFn::GetConfig, answer) && (final(mem)@, value) == delivered(
            HostFn::GetConfig,
            args@,
            old(mem)@,
            answer,
        );
    let v = choose|v: Vec<u8>| #[trigger]
        call_ensures(H::config, (&*h,), v) && answer == AnswerView::Bytes(v@);
    bytes_are_placed(old(mem)@, final(mem)@, args@[0], args@[1], v@);
    length_is_told(v@.len(), value);
}

/// The host's method is set to the text that the guest has in its memory. Nothing else
/// happens.
#[verifier::rlimit(30)]
#[verifier::spinoff_prover]
pub proof fn method_is_set<H: Host + ?Sized, F: Fetcher + ?Sized, S: Sink + ?Sized>(
    host: &mut H,
    fetcher: Option<&F>,
    sink: Option<&S>,
    args: &[i32],
    mem: &mut [u8],
    value: Option<WasmValue>,
)
    requires
        call_ensures(dispatch::<H, F, S>, (host, fetcher, sink, HostFn::SetMethod, args, mem),
            value),
        args@.len() == 2,
    ensures
        value is None,
        final(mem)@ == old(mem)@,
        exists|h: &mut H, m: &str|
            &*h == &*old(host) && &*final(h) == &*final(host)
                && #[trigger] call_ensures(H::set_method, (h, m), ()) && (exists|b: Seq<u8>|
                b.len() == if args@[1] > 0 {
                    args@[1] as int
                } else {
                    0
                } && (forall|i: int|
                    0 <= i < b.len() ==> #[trigger] b[i] == if 0 <= args@[0]
                        && args@[0] + b.len() <= old(mem)@.len() {
                        old(mem)@[args@[0] + i]
                    } else {
                        0
                    }) && if #[trigger] valid_utf8(b) {
                    encode_utf8(m@) == b
                } else {
                    m@ == utf8_lossy(b) && m@.contains('\u{FFFD}')
                }),
{
    let given = text_at(old(mem)@, args@[0], args@[1]);
    text_is_seen(old(mem)@, args@[0], args@[1]);
    let call = CallView::SetMethod(given);
    let (h, answer) = choose|h: &mut H, answer: AnswerView|
        &*h == &*old(host) && &*final(h) == &*final(host) && #[trigger] answered(
            h,
            fetcher,
            sink,
            call,
            answer,
        ) && answer_fits(HostFn::SetMethod, answer) && (final(mem)@, value) == delivered(
            HostFn::SetMethod,
            args@,
            old(mem)@,
            answer,
        );
    marked(HostFn::SetMethod, args@, old(mem)@, 0);
    let m = choose|m: &str| m@ == given && #[trigger] call_ensures(H::set_method, (h, m), ());
}

/// The host's URI is set to the text that the guest has in its memory. Nothing else
/// happens.
#[verifier::rlimit(30)]
#[verifier::spinoff_prover]
pub proof fn uri_is_set<H: Host + ?Sized, F: Fetcher + ?Sized, S: Sink + ?Sized>(
    host: &mut H,
    fetcher: Option<&F>,
    sink: Option<&S>,
    args: &[i32],
    mem: &mut [u8],
    value: Option<WasmValue>,
)
    requires
        call_ensures(dispatch::<H, F, S>, (host, fetcher, sink, HostFn::SetUri, args, mem), value),
        args@.len() == 2,
    ensures
        value is None,
        final(mem)@ == old(mem)@,
        exists|h: &mut H, m: &str|
            &*h == &*old(host) && &*final(h) == &*final(host)
                && #[trigger] call_ensures(H::set_uri, (h, m), ()) && (exists|b: Seq<u8>|
                b.len() == if args@[1] > 0 {
                    args@[1] as int
                } else {
                    0
                } && (forall|i: int|
                    0 <= i < b.len() ==> #[trigger] b[i] == if 0 <= args@[0]
                        && args@[0] + b.len() <= old(mem)@.len() {
                        old(mem)@[args@[0] + i]
                    } else {
                        0
                    }) && if #[trigger] valid_utf8(b) {
                    encode_utf8(m@) == b
                } else {
                    m@ == utf8_lossy(b) && m@.contains('\u{FFFD}')
                }),
{
    let given = text_at(old(mem)@, args@[0], args@[1]);
    text_is_seen(old(mem)@, args@[0], args@[1]);
    let call = CallView::SetUri(given);
    let (h, answer) = choose|h: &mut H, answer: AnswerView|
        &*h == &*old(host) && &*final(h) == &*final(host) && #[trigger] answered(
            h,
            fetcher,
            sink,
            call,
            answer,
        ) && answer_fits(HostFn::SetUri, answer) && (final(mem)@, value) == delivered(
            HostFn::SetUri,
            args@,
            old(mem)@,
            answer,
        );
    marked(HostFn::SetUri, args@, old(mem)@, 0);
    let m = choose|m: &str| m@ == given && #[trigger] call_ensures(H::set_uri, (h, m), ());
}

/// The status code of the host reaches the guest bit by bit, and nothing changes.
#[verifier::rlimit(30)]
#[verifier::spinoff_prover]
pub proof fn status_code_is_got<H: Host + ?Sized, F: Fetcher + ?Sized, S: Sink + ?Sized>(
    host: &mut H,
    fetcher: Option<&F>,
    sink: Option<&S>,
    args: &[i32],
    mem: &mut [u8],
    value: Option<WasmValue>,
)
    requires
        call_ensures(dispatch::<H, F, S>, (host, fetcher, sink, HostFn::GetStatusCode, args, mem),
            value),
        args@.len() == 0,
    ensures
        &*final(host) == &*old(host),
        final(mem)@ == old(mem)@,
        exists|n: u32| #[trigger]
            call_ensures(H::status_code, (&*old(host),), n) && match value {
                Some(WasmValue::I32(r)) => r as int == n as int
                    || r as int == n as int - 0x1_0000_0000,
                _ => false,
            },
{
    let call = CallView::StatusCode;
    let (h, answer) = choose|h: &mut H, answer: AnswerView|
        &*h == &*old(host) && &*final(h) == &*final(host) && #[trigger] answered(
            h,
            fetcher,
            sink,
            call,
            answer,
        ) && answer_fits(HostFn::GetStatusCode, answer) && (final(mem)@, value) == delivered(
            HostFn::GetStatusCode,
            args@,
            old(mem)@,
            answer,
        );
    let n = choose|n: u32| #[trigger]
        call_ensures(H::status_code, (&*h,), n) && answer == AnswerView::Number(n);
}

/// The status code that the guest gives reaches the host bit by bit, and nothing else
/// happens.
#[verifier::rlimit(30)]
#[verifier::spinoff_prover]
pub proof fn status_code_is_set<H: Host + ?Sized, F: Fetcher + ?Sized, S: Sink + ?Sized>(
    host: &mut H,
    fetcher: Option<&F>,
    sink: Option<&S>,
    args: &[i32],
    mem: &mut [u8],
    value: Option<WasmValue>,
)
    requires
        call_ensures(dispatch::<H, F, S>, (host, fetcher, sink, HostFn::SetStatusCode, args, mem),
            value),
        args@.len() == 1,
    ensures
        value is None,
        final(mem)@ == old(mem)@,
        exists|h: &mut H, n: u32|
            &*h == &*old(host) && &*final(h) == &*final(host)
                && #[trigger] call_ensures(H::set_status_code, (h, n), ())
                    && (n as int == args@[0] as int
                || n as int == args@[0] as int + 0x1_0000_0000),
{
    let call = CallView::SetStatusCode(unsigned32(args@[0]) as u32);
    let (h, answer) = choose|h: &mut H, answer: AnswerView|
        &*h == &*old(host) && &*final(h) == &*final(host) && #[trigger] answered(
            h,
            fetcher,
            sink,
            call,
            answer,
        ) && answer_fits(HostFn::SetStatusCode, answer) && (final(mem)@, value) == delivered(
            HostFn::SetStatusCode,
            args@,
            old(mem)@,
            answer,
        );
    assert(call_ensures(H::set_status_code, (h, unsigned32(args@[0]) as u32), ()));
}

/// The names of all headers of the kind that the guest asks for are written into its
/// buffer, each followed by a NUL, as far as they fit there. The result tells how
/// many there are and how many bytes they take.
#[verifier::rlimit(30)]
#[verifier::spinoff_prover]
pub proof fn header_names_are_got<H: Host + ?Sized, F: Fetcher + ?Sized, S: Sink + ?Sized>(
    host: &mut H,
    fetcher: Option<&F>,
    sink: Option<&S>,
    args: &[i32],
    mem: &mut [u8],
    value: Option<WasmValue>,
)
    requires
        call_ensures(dispatch::<H, F, S>, (host, fetcher, sink, HostFn::GetHeaderNames, args,
            mem), value),
        args@.len() == 3,
        0 <= args@[0] <= 3,
    ensures
        &*final(host) == &*old(host),
        exists|kind: HeaderKind, v: Vec<String>|
            (match kind {
                HeaderKind::Request => 0int,
                HeaderKind::Response => 1,
                HeaderKind::RequestTrailers => 2,
                HeaderKind::ResponseTrailers => 3,
            }) == args@[0] && #[trigger] call_ensures(H::header_names, (&*old(host), kind), v) && ({
                let bytes = joined(v@.map_values(|s: String| s@));
                &&& (match value {
                    Some(WasmValue::I64(r)) => (r as int - ((v@.len() as int % 0x1_0000_0000) * 0x1_0000_0000 + bytes.len() as int
                        % 0x1_0000_0000)) % 0x1_0000_0000_0000_0000 == 0,
                    _ => false,
                })
                &&& ({
                    let n = if args@[2] <= 0 {
                        0
                    } else if args@[2] < bytes.len() {
                        args@[2] as int
                    } else {
                        bytes.len() as int
                    };
                    &&& final(mem)@.len() == old(mem)@.len()
                    &&& forall|i: int|
                        0 <= i < old(mem)@.len() ==> #[trigger] final(mem)@[i]
                            == if 0 <= args@[1] && args@[1] + n
                            <= old(mem)@.len() && args@[1] <= i < args@[1] + n {
                            bytes[i - args@[1]]
                        } else {
                            old(mem)@[i]
                        }
                })
            }),
{
    let kind = kind_of(args@[0] as int)->Some_0;
    let call = CallView::HeaderNames(kind);
    let (h, answer) = choose|h: &mut H, answer: AnswerView|
        &*h == &*old(host) && &*final(h) == &*final(host) && #[trigger] answered(
            h,
            fetcher,
            sink,
            call,
            answer,
        ) && answer_fits(HostFn::GetHeaderNames, answer) && (final(mem)@, value) == delivered(
            HostFn::GetHeaderNames,
            args@,
            old(mem)@,
            answer,
        );
    let v = choose|v: Vec<String>| #[trigger]
        call_ensures(H::header_names, (&*h, kind), v) && answer == AnswerView::List(texts(v@));
    assert(texts(v@) =~= v@.map_values(|s: String| s@));
    bytes_are_placed(old(mem)@, final(mem)@, args@[1], args@[2], joined(texts(v@)));
    pair_is_told(v@.len(), joined(texts(v@)).len(), value);
}

/// The values of exactly the header that the guest names, in the message of exactly
/// the kind that it asks for, are written into its buffer, each followed by a NUL, as
/// far as they fit there. The result tells how many there are and how many bytes they
/// take.
#[verifier::rlimit(30)]
#[verifier::spinoff_prover]
pub proof fn header_values_are_got<H: Host + ?Sized, F: Fetcher + ?Sized, S: Sink + ?Sized>(
    host: &mut H,
    fetcher: Option<&F>,
    sink: Option<&S>,
    args: &[i32],
    mem: &mut [u8],
    value: Option<WasmValue>,
)
    requires
        call_ensures(dispatch::<H, F, S>, (host, fetcher, sink, HostFn::GetHeaderValues, args,
            mem), value),
        args@.len() == 5,
        0 <= args@[0] <= 3,
    ensures
        &*final(host) == &*old(host),
        exists|kind: HeaderKind, name: &str, v: Vec<String>|
            (match kind {
                HeaderKind::Request => 0int,
                HeaderKind::Response => 1,
                HeaderKind::RequestTrailers => 2,
                HeaderKind::ResponseTrailers => 3,
            }) == args@[0] && #[trigger] call_ensures(H::header_values, (&*old(host), kind, name),
                v)
                && (exists|b: Seq<u8>|
                    b.len() == if args@[2] > 0 {
                        args@[2] as int
                    } else {
                        0
                    } && (forall|i: int|
                        0 <= i < b.len() ==> #[trigger] b[i] == if 0 <= args@[1]
                            && args@[1] + b.len() <= old(mem)@.len() {
                            old(mem)@[args@[1] + i]
                        } else {
                            0
                        }) && if #[trigger] valid_utf8(b) {
                        encode_utf8(name@) == b
                    } else {
                        name@ == utf8_lossy(b) && name@.contains('\u{FFFD}')
                    }) && ({
                let bytes = joined(v@.map_values(|s: String| s@));
                &&& (match value {
                    Some(WasmValue::I64(r)) => (r as int - ((v@.len() as int % 0x1_0000_0000) * 0x1_0000_0000 + bytes.len() as int
                        % 0x1_0000_0000)) % 0x1_0000_0000_0000_0000 == 0,
                    _ => false,
                })
                &&& ({
                    let n = if args@[4] <= 0 {
                        0
                    } else if args@[4] < bytes.len() {
                        args@[4] as int
                    } else {
                        bytes.len() as int
                    };
                    &&& final(mem)@.len() == old(mem)@.len()
                    &&& forall|i: int|
                        0 <= i < old(mem)@.len() ==> #[trigger] final(mem)@[i]
                            == if 0 <= args@[3] && args@[3] + n
                            <= old(mem)@.len() && args@[3] <= i < args@[3] + n {
                            bytes[i - args@[3]]
                        } else {
                            old(mem)@[i]
                        }
                })
            }),
{
    let kind = kind_of(args@[0] as int)->Some_0;
    let asked = text_at(old(mem)@, args@[1], args@[2]);
    text_is_seen(old(mem)@, args@[1], args@[2]);
    let call = CallView::HeaderValues(kind, asked);
    let (h, answer) = choose|h: &mut H, answer: AnswerView|
        &*h == &*old(host) && &*final(h) == &*final(host) && #[trigger] answered(
            h,
            fetcher,
            sink,
            call,
            answer,
        ) && answer_fits(HostFn::GetHeaderValues, answer) && (final(mem)@, value) == delivered(
            HostFn::GetHeaderValues,
            args@,
            old(mem)@,
            answer,
        );
    marked(HostFn::GetHeaderValues, args@, old(mem)@, 0);
    let (name, v) = choose|name: &str, v: Vec<String>|
        name@ == asked && #[trigger] call_ensures(H::header_values, (&*h, kind, name), v) && answer
            == AnswerView::List(texts(v@));
    assert(texts(v@) =~= v@.map_values(|s: String| s@));
    bytes_are_placed(old(mem)@, final(mem)@, args@[3], args@[4], joined(texts(v@)));
    pair_is_told(v@.len(), joined(texts(v@)).len(), value);
}

/// The header that the guest names is set to the value that it gives, in
/// the message of the kind that it asks for. Nothing else happens.
#[verifier::rlimit(30)]
#[verifier::spinoff_prover]
pub proof fn header_value_is_set<H: Host + ?Sized, F: Fetcher + ?Sized, S: Sink + ?Sized>(
    host: &mut H,
    fetcher: Option<&F>,
    sink: Option<&S>,
    args: &[i32],
    mem: &mut [u8],
    value: Option<WasmValue>,
)
    requires
        call_ensures(dispatch::<H, F, S>, (host, fetcher, sink, HostFn::SetHeaderValue, args,
            mem), value),
        args@.len() == 5,
        0 <= args@[0] <= 3,
    ensures
        value is None,
        final(mem)@ == old(mem)@,
        exists|h: &mut H, kind: HeaderKind, name: &str, v: &str|
            &*h == &*old(host) && &*final(h) == &*final(host) && (match kind {
                HeaderKind::Request => 0int,
                HeaderKind::Response => 1,
                HeaderKind::RequestTrailers => 2,
                HeaderKind::ResponseTrailers => 3,
            }) == args@[0] && #[trigger] call_ensures(H::set_header_value, (h, kind, name, v), ())
                && (exists|b: Seq<u8>|
                    b.len() == if args@[2] > 0 {
                        args@[2] as int
                    } else {
                        0
                    } && (forall|i: int|
                        0 <= i < b.len() ==> #[trigger] b[i] == if 0 <= args@[1]
                            && args@[1] + b.len() <= old(mem)@.len() {
                            old(mem)@[args@[1] + i]
                        } else {
                            0
                        }) && if #[trigger] valid_utf8(b) {
                        encode_utf8(name@) == b
                    } else {
                        name@ == utf8_lossy(b) && name@.contains('\u{FFFD}')
                    }) && (exists|b: Seq<u8>|
                    b.len() == if args@[4] > 0 {
                        args@[4] as int
                    } else {
                        0
                    } && (forall|i: int|
                        0 <= i < b.len() ==> #[trigger] b[i] == if 0 <= args@[3]
                            && args@[3] + b.len() <= old(mem)@.len() {
                            old(mem)@[args@[3] + i]
                        } else {
                            0
                        }) && if #[trigger] valid_utf8(b) {
                        encode_utf8(v@) == b
                    } else {
                        v@ == utf8_lossy(b) && v@.contains('\u{FFFD}')
                    }),
{
    let kind = kind_of(args@[0] as int)->Some_0;
    let named = text_at(old(mem)@, args@[1], args@[2]);
    let given = text_at(old(mem)@, args@[3], args@[4]);
    text_is_seen(old(mem)@, args@[1], args@[2]);
    text_is_seen(old(mem)@, args@[3], args@[4]);
    let call = CallView::SetHeaderValue(kind, named, given);
    let (h, answer) = choose|h: &mut H, answer: AnswerView|
        &*h == &*old(host) && &*final(h) == &*final(host) && #[trigger] answered(
            h,
            fetcher,
            sink,
            call,
            answer,
        ) && answer_fits(HostFn::SetHeaderValue, answer) && (final(mem)@, value) == delivered(
            HostFn::SetHeaderValue,
            args@,
            old(mem)@,
            answer,
        );
    marked(HostFn::SetHeaderValue, args@, old(mem)@, 0);
    marked(HostFn::SetHeaderValue, args@, old(mem)@, 1);
    let (name, v) = choose|name: &str, v: &str|
        name@ == named && v@ == given
            && #[trigger] call_ensures(H::set_header_value, (h, kind, name, v), ());
}

/// The header that the guest names has the value that it gives added, in
/// the message of the kind that it asks for. Nothing else happens.
#[verifier::rlimit(30)]
#[verifier::spinoff_prover]
pub proof fn header_value_is_added<H: Host + ?Sized, F: Fetcher + ?Sized, S: Sink + ?Sized>(
    host: &mut H,
    fetcher: Option<&F>,
    sink: Option<&S>,
    args: &[i32],
    mem: &mut [u8],
    value: Option<WasmValue>,
)
    requires
        call_ensures(dispatch::<H, F, S>, (host, fetcher, sink, HostFn::AddHeaderValue, args,
            mem), value),
        args@.len() == 5,
        0 <= args@[0] <= 3,
    ensures
        value is None,
        final(mem)@ == old(mem)@,
        exists|h: &mut H, kind: HeaderKind, name: &str, v: &str|
            &*h == &*old(host) && &*final(h) == &*final(host) && (match kind {
                HeaderKind::Request => 0int,
                HeaderKind::Response => 1,
                HeaderKind::RequestTrailers => 2,
                HeaderKind::ResponseTrailers => 3,
            }) == args@[0] && #[trigger] call_ensures(H::add_header_value, (h, kind, name, v), ())
                && (exists|b: Seq<u8>|
                    b.len() == if args@[2] > 0 {
                        args@[2] as int
                    } else {
                        0
                    } && (forall|i: int|
                        0 <= i < b.len() ==> #[trigger] b[i] == if 0 <= args@[1]
                            && args@[1] + b.len() <= old(mem)@.len() {
                            old(mem)@[args@[1] + i]
                        } else {
                            0
                        }) && if #[trigger] valid_utf8(b) {
                        encode_utf8(name@) == b
                    } else {
                        name@ == utf8_lossy(b) && name@.contains('\u{FFFD}')
                    }) && (exists|b: Seq<u8>|
                    b.len() == if args@[4] > 0 {
                        args@[4] as int
                    } else {
                        0
                    } && (forall|i: int|
                        0 <= i < b.len() ==> #[trigger] b[i] == if 0 <= args@[3]
                            && args@[3] + b.len() <= old(mem)@.len() {
                            old(mem)@[args@[3] + i]
                        } else {
                            0
                        }) && if #[trigger] valid_utf8(b) {
                        encode_utf8(v@) == b
                    } else {
                        v@ == utf8_lossy(b) && v@.contains('\u{FFFD}')
                    }),
{
    let kind = kind_of(args@[0] as int)->Some_0;
    let named = text_at(old(mem)@, args@[1], args@[2]);
    let given = text_at(old(mem)@, args@[3], args@[4]);
    text_is_seen(old(mem)@, args@[1], args@[2]);
    text_is_seen(old(mem)@, args@[3], args@[4]);
    let call = CallView::AddHeaderValue(kind, named, given);
    let (h, answer) = choose|h: &mut H, answer: AnswerView|
        &*h == &*old(host) && &*final(h) == &*final(host) && #[trigger] answered(
            h,
            fetcher,
            sink,
            call,
            answer,
        ) && answer_fits(HostFn::AddHeaderValue, answer) && (final(mem)@, value) == delivered(
            HostFn::AddHeaderValue,
            args@,
            old(mem)@,
            answer,
        );
    marked(HostFn::AddHeaderValue, args@, old(mem)@, 0);
    marked(HostFn::AddHeaderValue, args@, old(mem)@, 1);
    let (name, v) = choose|name: &str, v: &str|
        name@ == named && v@ == given
            && #[trigger] call_ensures(H::add_header_value, (h, kind, name, v), ());
}

/// The header that the guest names is removed from the message of the kind that it asks
/// for. Nothing else happens.
#[verifier::rlimit(30)]
#[verifier::spinoff_prover]
pub proof fn header_is_removed<H: Host + ?Sized, F: Fetcher + ?Sized, S: Sink + ?Sized>(
    host: &mut H,
    fetcher: Option<&F>,
    sink: Option<&S>,
    args: &[i32],
    mem: &mut [u8],
    value: Option<WasmValue>,
)
    requires
        call_ensures(dispatch::<H, F, S>, (host, fetcher, sink, HostFn::RemoveHeader, args, mem),
            value),
        args@.len() == 3,
        0 <= args@[0] <= 3,
    ensures
        value is None,
        final(mem)@ == old(mem)@,
        exists|h: &mut H, kind: HeaderKind, name: &str|
            &*h == &*old(host) && &*final(h) == &*final(host) && (match kind {
                HeaderKind::Request => 0int,
                HeaderKind::Response => 1,
                HeaderKind::RequestTrailers => 2,
                HeaderKind::ResponseTrailers => 3,
            }) == args@[0] && #[trigger] call_ensures(H::remove_header, (h, kind, name), ())
                && (exists|b: Seq<u8>|
                    b.len() == if args@[2] > 0 {
                        args@[2] as int
                    } else {
                        0
                    } && (forall|i: int|
                        0 <= i < b.len() ==> #[trigger] b[i] == if 0 <= args@[1]
                            && args@[1] + b.len() <= old(mem)@.len() {
                            old(mem)@[args@[1] + i]
                        } else {
                            0
                        }) && if #[trigger] valid_utf8(b) {
                        encode_utf8(name@) == b
                    } else {
                        name@ == utf8_lossy(b) && name@.contains('\u{FFFD}')
                    }),
{
    let kind = kind_of(args@[0] as int)->Some_0;
    let named = text_at(old(mem)@, args@[1], args@[2]);
    text_is_seen(old(mem)@, args@[1], args@[2]);
    let call = CallView::RemoveHeader(kind, named);
    let (h, answer) = choose|h: &mut H, answer: AnswerView|
        &*h == &*old(host) && &*final(h) == &*final(host) && #[trigger] answered(
            h,
            fetcher,
            sink,
            call,
            answer,
        ) && answer_fits(HostFn::RemoveHeader, answer) && (final(mem)@, value) == delivered(
            HostFn::RemoveHeader,
            args@,
            old(mem)@,
            answer,
        );
    marked(HostFn::RemoveHeader, args@, old(mem)@, 0);
    let name = choose|name: &str|
        name@ == named && #[trigger] call_ensures(H::remove_header, (h, kind, name), ());
}

/// The host is asked for as many bytes of the body as the guest's buffer has room for.
/// What it gives is written there as far as it fits, and the result tells its length
/// and, in the upper half, whether it was nothing, which is the end of the body.
#[verifier::rlimit(30)]
#[verifier::spinoff_prover]
pub proof fn body_is_read<H: Host + ?Sized, F: Fetcher + ?Sized, S: Sink + ?Sized>(
    host: &mut H,
    fetcher: Option<&F>,
    sink: Option<&S>,
    args: &[i32],
    mem: &mut [u8],
    value: Option<WasmValue>,
)
    requires
        call_ensures(dispatch::<H, F, S>, (host, fetcher, sink, HostFn::ReadBody, args, mem),
            value),
        args@.len() == 3,
        0 <= args@[0] <= 3,
    ensures
        exists|h: &mut H, kind: HeaderKind, max: usize, v: Vec<u8>|
            &*h == &*old(host) && &*final(h) == &*final(host) && (match kind {
                HeaderKind::Request => 0int,
                HeaderKind::Response => 1,
                HeaderKind::RequestTrailers => 2,
                HeaderKind::ResponseTrailers => 3,
            }) == args@[0] && #[trigger] call_ensures(H::read_body, (h, kind, max), v) && max
                == (if args@[2] > 0 {
                args@[2] as int
            } else {
                0
            }) && (match value {
                Some(WasmValue::I64(r)) => r as int == (if v@.len() == 0 {
                    0x1_0000_0000
                } else {
                    v@.len() as int % 0x1_0000_0000
                }),
                _ => false,
            }) && ({
                let n = if args@[2] <= 0 {
                    0
                } else if args@[2] < v@.len() {
                    args@[2] as int
                } else {
                    v@.len() as int
                };
                &&& final(mem)@.len() == old(mem)@.len()
                &&& forall|i: int|
                    0 <= i < old(mem)@.len() ==> #[trigger] final(mem)@[i] == if 0 <= args@[1]
                        && args@[1] + n
                        <= old(mem)@.len() && args@[1] <= i < args@[1] + n {
                        v@[i - args@[1]]
                    } else {
                        old(mem)@[i]
                    }
            }),
{
    let kind = kind_of(args@[0] as int)->Some_0;
    let room = clamped(args@[2]);
    let call = CallView::ReadBody(kind, room);
    let (h, answer) = choose|h: &mut H, answer: AnswerView|
        &*h == &*old(host) && &*final(h) == &*final(host) && #[trigger] answered(
            h,
            fetcher,
            sink,
            call,
            answer,
        ) && answer_fits(HostFn::ReadBody, answer) && (final(mem)@, value) == delivered(
            HostFn::ReadBody,
            args@,
            old(mem)@,
            answer,
        );
    let (max, v) = choose|max: usize, v: Vec<u8>|
        max == room && #[trigger] call_ensures(H::read_body, (h, kind, max), v) && answer
            == AnswerView::Bytes(v@);
    bytes_are_placed(old(mem)@, final(mem)@, args@[1], args@[2], v@);
}

/// The body is written with the bytes that the guest has in its memory, as they are.
/// Nothing else happens.
#[verifier::rlimit(30)]
#[verifier::spinoff_prover]
pub proof fn body_is_written<H: Host + ?Sized, F: Fetcher + ?Sized, S: Sink + ?Sized>(
    host: &mut H,
    fetcher: Option<&F>,
    sink: Option<&S>,
    args: &[i32],
    mem: &mut [u8],
    value: Option<WasmValue>,
)
    requires
        call_ensures(dispatch::<H, F, S>, (host, fetcher, sink, HostFn::WriteBody, args, mem),
            value),
        args@.len() == 3,
        0 <= args@[0] <= 3,
    ensures
        value is None,
        final(mem)@ == old(mem)@,
        exists|h: &mut H, kind: HeaderKind, d: &[u8]|
            &*h == &*old(host) && &*final(h) == &*final(host) && (match kind {
                HeaderKind::Request => 0int,
                HeaderKind::Response => 1,
                HeaderKind::RequestTrailers => 2,
                HeaderKind::ResponseTrailers => 3,
            }) == args@[0] && #[trigger] call_ensures(H::write_body, (h, kind, d), ())
                && d@.len() == if args@[2] > 0 {
                args@[2] as int
            } else {
                0
            } && (forall|i: int|
                0 <= i < d@.len() ==> #[trigger] d@[i] == if 0 <= args@[1]
                    && args@[1] + d@.len() <= old(mem)@.len() {
                    old(mem)@[args@[1] + i]
                } else {
                    0
                }),
{
    let kind = kind_of(args@[0] as int)->Some_0;
    let given = bytes_at(old(mem)@, args@[1], args@[2]);
    let call = CallView::WriteBody(kind, given);
    let (h, answer) = choose|h: &mut H, answer: AnswerView|
        &*h == &*old(host) && &*final(h) == &*final(host) && #[trigger] answered(
            h,
            fetcher,
            sink,
            call,
            answer,
        ) && answer_fits(HostFn::WriteBody, answer) && (final(mem)@, value) == delivered(
            HostFn::WriteBody,
            args@,
            old(mem)@,
            answer,
        );
    let d = choose|d: &[u8]|
        d@ == given && #[trigger] call_ensures(H::write_body, (h, kind, d), ());
}

/// With a kind that there is not, nothing is asked and nothing changes: there are no
/// headers, and the body is at its end.
#[verifier::rlimit(30)]
#[verifier::spinoff_prover]
pub proof fn unknown_kinds_do_nothing<H: Host + ?Sized, F: Fetcher + ?Sized, S: Sink + ?Sized>(
    host: &mut H,
    fetcher: Option<&F>,
    sink: Option<&S>,
    f: HostFn,
    args: &[i32],
    mem: &mut [u8],
    value: Option<WasmValue>,
)
    requires
        call_ensures(dispatch::<H, F, S>, (host, fetcher, sink, f, args, mem), value),
        args@.len() == f.argument_count(),
        f is GetHeaderNames || f is GetHeaderValues || f is SetHeaderValue || f is AddHeaderValue
            || f is RemoveHeader || f is ReadBody || f is WriteBody,
        args@[0] < 0 || 3 < args@[0],
    ensures
        &*final(host) == &*old(host),
        final(mem)@ == old(mem)@,
        f is GetHeaderNames || f is GetHeaderValues ==> value == Some(WasmValue::I64(0)),
        f is ReadBody ==> value == Some(WasmValue::I64(0x1_0000_0000)),
        f is SetHeaderValue || f is AddHeaderValue || f is RemoveHeader || f is WriteBody ==> value
            is None,
{
}

/// Every feature that the guest asks for is told to be there, and nothing changes.
#[verifier::rlimit(30)]
#[verifier::spinoff_prover]
pub proof fn features_are_granted<H: Host + ?Sized, F: Fetcher + ?Sized, S: Sink + ?Sized>(
    host: &mut H,
    fetcher: Option<&F>,
    sink: Option<&S>,
    args: &[i32],
    mem: &mut [u8],
    value: Option<WasmValue>,
)
    requires
        call_ensures(dispatch::<H, F, S>, (host, fetcher, sink, HostFn::EnableFeatures, args,
            mem), value),
        args@.len() == 1,
    ensures
        &*final(host) == &*old(host),
        final(mem)@ == old(mem)@,
        value == Some(WasmValue::I32(args@[0])),
{
}

/// The line that the guest has in its memory is logged with the level that it gives.
/// Nothing else happens.
#[verifier::rlimit(30)]
#[verifier::spinoff_prover]
pub proof fn lines_are_logged<H: Host + ?Sized, F: Fetcher + ?Sized, S: Sink + ?Sized>(
    host: &mut H,
    fetcher: Option<&F>,
    sink: Option<&S>,
    args: &[i32],
    mem: &mut [u8],
    value: Option<WasmValue>,
)
    requires
        call_ensures(dispatch::<H, F, S>, (host, fetcher, sink, HostFn::Log, args, mem), value),
        args@.len() == 3,
    ensures
        value is None,
        final(mem)@ == old(mem)@,
        &*final(host) == &*old(host),
        exists|level: LogLevel, m: &str| #[trigger]
            call_ensures(H::log, (&*old(host), level, m), ()) && level == (if args@[0] == -1 {
                LogLevel::Debug
            } else if args@[0] == 1 {
                LogLevel::Warn
            } else if args@[0] == 2 {
                LogLevel::Error
            } else if args@[0] == 3 {
                LogLevel::Off
            } else {
                LogLevel::Info
            }) && (exists|b: Seq<u8>|
                b.len() == if args@[2] > 0 {
                    args@[2] as int
                } else {
                    0
                } && (forall|i: int|
                    0 <= i < b.len() ==> #[trigger] b[i] == if 0 <= args@[1]
                        && args@[1] + b.len() <= old(mem)@.len() {
                        old(mem)@[args@[1] + i]
                    } else {
                        0
                    }) && if #[trigger] valid_utf8(b) {
                    encode_utf8(m@) == b
                } else {
                    m@ == utf8_lossy(b) && m@.contains('\u{FFFD}')
                }),
{
    let level = level_of(args@[0] as int);
    let line = text_at(old(mem)@, args@[1], args@[2]);
    text_is_seen(old(mem)@, args@[1], args@[2]);
    let call = CallView::Log(level, line);
    let (h, answer) = choose|h: &mut H, answer: AnswerView|
        &*h == &*old(host) && &*final(h) == &*final(host) && #[trigger] answered(
            h,
            fetcher,
            sink,
            call,
            answer,
        ) && answer_fits(HostFn::Log, answer) && (final(mem)@, value) == delivered(
            HostFn::Log,
            args@,
            old(mem)@,
            answer,
        );
    marked(HostFn::Log, args@, old(mem)@, 0);
    let m = choose|m: &str|
        m@ == line && #[trigger] call_ensures(H::log, (&*h, level, m), ());
}

/// The guest is told whether the host emits lines of the level that it asks for, and
/// nothing changes.
#[verifier::rlimit(30)]
#[verifier::spinoff_prover]
pub proof fn logging_is_told<H: Host + ?Sized, F: Fetcher + ?Sized, S: Sink + ?Sized>(
    host: &mut H,
    fetcher: Option<&F>,
    sink: Option<&S>,
    args: &[i32],
    mem: &mut [u8],
    value: Option<WasmValue>,
)
    requires
        call_ensures(dispatch::<H, F, S>, (host, fetcher, sink, HostFn::LogEnabled, args, mem),
            value),
        args@.len() == 1,
    ensures
        final(mem)@ == old(mem)@,
        &*final(host) == &*old(host),
        exists|level: LogLevel, b: bool| #[trigger]
            call_ensures(H::log_enabled, (&*old(host), level), b) && level == (if args@[0] == -1 {
                LogLevel::Debug
            } else if args@[0] == 1 {
                LogLevel::Warn
            } else if args@[0] == 2 {
                LogLevel::Error
            } else if args@[0] == 3 {
                LogLevel::Off
            } else {
                LogLevel::Info
            }) && value == Some(
                WasmValue::I32(
                    if b {
                        1
                    } else {
                        0
                    },
                ),
            ),
{
    let level = level_of(args@[0] as int);
    let call = CallView::LogEnabled(level);
    let (h, answer) = choose|h: &mut H, answer: AnswerView|
        &*h == &*old(host) && &*final(h) == &*final(host) && #[trigger] answered(
            h,
            fetcher,
            sink,
            call,
            answer,
        ) && answer_fits(HostFn::LogEnabled, answer) && (final(mem)@, value) == delivered(
            HostFn::LogEnabled,
            args@,
            old(mem)@,
            answer,
        );
    let b = choose|b: bool| #[trigger]
        call_ensures(H::log_enabled, (&*h, level), b) && answer == AnswerView::Flag(b);
}

/// The request that the guest has encoded into its memory is put to the fetcher. If it
/// succeeds, its response is encoded into the guest's buffer as far as it fits there:
/// the status, every header in its order, and the body. The result tells the length
/// and, in the upper half, that there is one. If it fails, the result is 0 and the
/// memory stays as it is.
#[verifier::rlimit(60)]
#[verifier::spinoff_prover]
pub proof fn fetch_is_performed<H: Host + ?Sized, F: Fetcher + ?Sized, S: Sink + ?Sized>(
    host: &mut H,
    fetcher: &F,
    sink: Option<&S>,
    args: &[i32],
    mem: &mut [u8],
    value: Option<WasmValue>,
    b: Seq<u8>,
    method: Seq<char>,
    url: Seq<char>,
    headers: Seq<(Seq<char>, Seq<char>)>,
    body: Seq<u8>,
    after: Seq<u8>,
)
    requires
        call_ensures(dispatch::<H, F, S>, (host, Some(fetcher), sink, HostFn::HttpFetch, args,
            mem), value),
        args@.len() == 4,
        b.len() == if args@[1] > 0 {
            args@[1] as int
        } else {
            0
        } && (forall|i: int|
            0 <= i < b.len() ==> #[trigger] b[i] == if 0 <= args@[0]
                && args@[0] + b.len() <= old(mem)@.len() {
                old(mem)@[args@[0] + i]
            } else {
                0
            }),
        headers.len() < 0x1_0000_0000,
        body.len() < 0x1_0000_0000,
        encode_utf8(method).len() < 0x1_0000_0000,
        encode_utf8(url).len() < 0x1_0000_0000,
        forall|i: int|
            #![trigger headers[i]]
            0 <= i < headers.len() ==> encode_utf8(headers[i].0).len() < 0x1_0000_0000
                && encode_utf8(
                headers[i].1,
            ).len() < 0x1_0000_0000,
        b == le32(encode_utf8(method).len() as u32) + encode_utf8(method) + le32(
            encode_utf8(url).len() as u32,
        ) + encode_utf8(url) + le32(headers.len() as u32) + headers.map_values(
            |h: (Seq<char>, Seq<char>)|
                le32(encode_utf8(h.0).len() as u32) + encode_utf8(h.0) + le32(
                    encode_utf8(h.1).len() as u32,
                ) + encode_utf8(h.1),
        ).flatten() + le32(body.len() as u32) + body + after,
    ensures
        &*final(host) == &*old(host),
        exists|r: FetchRequest, v: Result<FetchResponse, String>| #[trigger]
            call_ensures(F::fetch, (fetcher, r), v) && r.method@ == method && r.url@ == url
                && r.body@ == body && r.headers@.len() == headers.len() && (
            forall|i: int|
                #![trigger r.headers@[i]]
                0 <= i < headers.len() ==> r.headers@[i].0@ == headers[i].0 && r.headers@[i].1@
                    == headers[i].1) && match v {
                Ok(response) => response.headers@.len() < 0x1_0000_0000
                    && response.body@.len() < 0x1_0000_0000 && (forall|i: int|
                    #![trigger response.headers@[i]]
                    0 <= i < response.headers@.len()
                        ==> encode_utf8(response.headers@[i].0@).len() < 0x1_0000_0000
                        && encode_utf8(response.headers@[i].1@).len() < 0x1_0000_0000) ==> ({
                    let bytes = le32(response.status as u32)
                        + le32(response.headers@.len() as u32) + response.headers@.map_values(
                        |h: (String, String)|
                            le32(encode_utf8(h.0@).len() as u32) + encode_utf8(h.0@) + le32(
                                encode_utf8(h.1@).len() as u32,
                            ) + encode_utf8(h.1@),
                    ).flatten() + le32(response.body@.len() as u32) + response.body@;
                    &&& value matches Some(WasmValue::I64(q))
                        && q as int == 0x1_0000_0000 + bytes.len() as int % 0x1_0000_0000
                    &&& ({
                        let n = if args@[3] <= 0 {
                            0
                        } else if args@[3] < bytes.len() {
                            args@[3] as int
                        } else {
                            bytes.len() as int
                        };
                        &&& final(mem)@.len() == old(mem)@.len()
                        &&& forall|i: int|
                            0 <= i < old(mem)@.len() ==> #[trigger] final(mem)@[i]
                                == if 0 <= args@[2] && args@[2] + n
                                <= old(mem)@.len() && args@[2] <= i < args@[2] + n {
                                bytes[i - args@[2]]
                            } else {
                                old(mem)@[i]
                            }
                    })
                }),
                Err(_) => value == Some(WasmValue::I64(0)) && final(mem)@ == old(mem)@,
            },
{
    let request = RequestView { method, url, headers, body };
    assert(b =~= bytes_at(old(mem)@, args@[0], args@[1]));
    request_is_parsed(b, request, after);
    let call = CallView::Fetch(request);
    let (h, answer) = choose|h: &mut H, answer: AnswerView|
        &*h == &*old(host) && &*final(h) == &*final(host) && #[trigger] answered(
            h,
            Some(fetcher),
            sink,
            call,
            answer,
        ) && answer_fits(HostFn::HttpFetch, answer) && (final(mem)@, value) == delivered(
            HostFn::HttpFetch,
            args@,
            old(mem)@,
            answer,
        );
    let (r, v) = choose|r: FetchRequest, v: Result<FetchResponse, String>|
        r@ == request && #[trigger] call_ensures(F::fetch, (fetcher, r), v) && answer
            == AnswerView::Fetched(
            match v {
                Ok(response) => Some(response@),
                Err(_) => None,
            },
        );
    request_says(r, request);
    if let Ok(response) = v {
        response_is_delivered(args@, old(mem)@, final(mem)@, value, response);
        bytes_are_placed(
            old(mem)@,
            final(mem)@,
            args@[2],
            args@[3],
            response_bytes(response@),
        );
        if response.headers@.len() < 0x1_0000_0000 && response.body@.len() < 0x1_0000_0000
            && (forall|i: int|
            #![trigger response.headers@[i]]
            0 <= i < response.headers@.len()
                ==> encode_utf8(response.headers@[i].0@).len() < 0x1_0000_0000
                && encode_utf8(response.headers@[i].1@).len() < 0x1_0000_0000) {
            response_bytes_in_a_row(response);
        }
    }
}

/// Nothing but a request is put to the fetcher, and only what the guest has in its
/// memory: if that is no encoded request, the result is 0 and nothing changes.
#[verifier::rlimit(60)]
#[verifier::spinoff_prover]
pub proof fn only_requests_are_fetched<H: Host + ?Sized, F: Fetcher + ?Sized, S: Sink + ?Sized>(
    host: &mut H,
    fetcher: &F,
    sink: Option<&S>,
    args: &[i32],
    mem: &mut [u8],
    value: Option<WasmValue>,
    b: Seq<u8>,
)
    requires
        call_ensures(dispatch::<H, F, S>, (host, Some(fetcher), sink, HostFn::HttpFetch, args,
            mem), value),
        args@.len() == 4,
        b.len() == if args@[1] > 0 {
            args@[1] as int
        } else {
            0
        } && (forall|i: int|
            0 <= i < b.len() ==> #[trigger] b[i] == if 0 <= args@[0]
                && args@[0] + b.len() <= old(mem)@.len() {
                old(mem)@[args@[0] + i]
            } else {
                0
            }),
    ensures
        &*final(host) == &*old(host),
        (value == Some(WasmValue::I64(0)) && final(mem)@ == old(mem)@) || exists|
            r: FetchRequest,
            v: Result<FetchResponse, String>,
            end: int,
        | #[trigger]
            call_ensures(F::fetch, (fetcher, r), v) && 0 <= end <= b.len()
                && #[trigger] b.take(end) == le32(encode_utf8(r.method@).len() as u32)
                    + encode_utf8(r.method@) + le32(
                encode_utf8(r.url@).len() as u32,
            ) + encode_utf8(r.url@) + le32(r.headers@.len() as u32) + r.headers@.map_values(
                |h: (String, String)|
                    le32(encode_utf8(h.0@).len() as u32) + encode_utf8(h.0@) + le32(
                        encode_utf8(h.1@).len() as u32,
                    ) + encode_utf8(h.1@),
            ).flatten() + le32(r.body@.len() as u32) + r.body@,
{
    assert(b =~= bytes_at(old(mem)@, args@[0], args@[1]));
    if let Some((request, end)) = parsed_request(b) {
        let call = CallView::Fetch(request);
        let (h, answer) = choose|h: &mut H, answer: AnswerView|
            &*h == &*old(host) && &*final(h) == &*final(host) && #[trigger] answered(
                h,
                Some(fetcher),
                sink,
                call,
                answer,
            ) && answer_fits(HostFn::HttpFetch, answer) && (final(mem)@, value) == delivered(
                HostFn::HttpFetch,
                args@,
                old(mem)@,
                answer,
            );
        let (r, v) = choose|r: FetchRequest, v: Result<FetchResponse, String>|
            r@ == request && #[trigger] call_ensures(F::fetch, (fetcher, r), v);
        request_written_back(b);
        request_bytes_in_a_row(r);
        assert(b.take(end) == request_bytes(r@));
    }
}

/// The request that the guest has encoded into its memory is put to the sink, and the
/// result tells what became of it. Nothing changes.
#[verifier::rlimit(60)]
#[verifier::spinoff_prover]
pub proof fn send_is_performed<H: Host + ?Sized, F: Fetcher + ?Sized, S: Sink + ?Sized>(
    host: &mut H,
    fetcher: Option<&F>,
    sink: &S,
    args: &[i32],
    mem: &mut [u8],
    value: Option<WasmValue>,
    b: Seq<u8>,
    method: Seq<char>,
    url: Seq<char>,
    headers: Seq<(Seq<char>, Seq<char>)>,
    body: Seq<u8>,
    after: Seq<u8>,
)
    requires
        call_ensures(dispatch::<H, F, S>, (host, fetcher, Some(sink), HostFn::HttpSend, args,
            mem), value),
        args@.len() == 2,
        b.len() == if args@[1] > 0 {
            args@[1] as int
        } else {
            0
        } && (forall|i: int|
            0 <= i < b.len() ==> #[trigger] b[i] == if 0 <= args@[0]
                && args@[0] + b.len() <= old(mem)@.len() {
                old(mem)@[args@[0] + i]
            } else {
                0
            }),
        headers.len() < 0x1_0000_0000,
        body.len() < 0x1_0000_0000,
        encode_utf8(method).len() < 0x1_0000_0000,
        encode_utf8(url).len() < 0x1_0000_0000,
        forall|i: int|
            #![trigger headers[i]]
            0 <= i < headers.len() ==> encode_utf8(headers[i].0).len() < 0x1_0000_0000
                && encode_utf8(
                headers[i].1,
            ).len() < 0x1_0000_0000,
        b == le32(encode_utf8(method).len() as u32) + encode_utf8(method) + le32(
            encode_utf8(url).len() as u32,
        ) + encode_utf8(url) + le32(headers.len() as u32) + headers.map_values(
            |h: (Seq<char>, Seq<char>)|
                le32(encode_utf8(h.0).len() as u32) + encode_utf8(h.0) + le32(
                    encode_utf8(h.1).len() as u32,
                ) + encode_utf8(h.1),
        ).flatten() + le32(body.len() as u32) + body + after,
    ensures
        &*final(host) == &*old(host),
        final(mem)@ == old(mem)@,
        exists|r: FetchRequest, v: SendOutcome| #[trigger]
            call_ensures(S::send, (sink, r), v) && r.method@ == method && r.url@ == url
                && r.body@ == body && r.headers@.len() == headers.len() && (
            forall|i: int|
                #![trigger r.headers@[i]]
                0 <= i < headers.len() ==> r.headers@[i].0@ == headers[i].0 && r.headers@[i].1@
                    == headers[i].1) && value == Some(
                WasmValue::I32(
                    match v {
                        SendOutcome::Queued => 0,
                        SendOutcome::QueueFull => 1,
                        SendOutcome::Rejected => 2,
                    },
                ),
            ),
{
    let request = RequestView { method, url, headers, body };
    assert(b =~= bytes_at(old(mem)@, args@[0], args@[1]));
    request_is_parsed(b, request, after);
    let call = CallView::Send(request);
    let (h, answer) = choose|h: &mut H, answer: AnswerView|
        &*h == &*old(host) && &*final(h) == &*final(host) && #[trigger] answered(
            h,
            fetcher,
            Some(sink),
            call,
            answer,
        ) && answer_fits(HostFn::HttpSend, answer) && (final(mem)@, value) == delivered(
            HostFn::HttpSend,
            args@,
            old(mem)@,
            answer,
        );
    let (r, v) = choose|r: FetchRequest, v: SendOutcome|
        r@ == request && #[trigger] call_ensures(S::send, (sink, r), v)
            && answer == AnswerView::Sent(v);
    request_says(r, request);
}

/// Nothing but a request is put to the sink, and only what the guest has in its memory:
/// if that is no encoded request, the result tells that it was rejected.
#[verifier::rlimit(60)]
#[verifier::spinoff_prover]
pub proof fn only_requests_are_sent<H: Host + ?Sized, F: Fetcher + ?Sized, S: Sink + ?Sized>(
    host: &mut H,
    fetcher: Option<&F>,
    sink: &S,
    args: &[i32],
    mem: &mut [u8],
    value: Option<WasmValue>,
    b: Seq<u8>,
)
    requires
        call_ensures(dispatch::<H, F, S>, (host, fetcher, Some(sink), HostFn::HttpSend, args,
            mem), value),
        args@.len() == 2,
        b.len() == if args@[1] > 0 {
            args@[1] as int
        } else {
            0
        } && (forall|i: int|
            0 <= i < b.len() ==> #[trigger] b[i] == if 0 <= args@[0]
                && args@[0] + b.len() <= old(mem)@.len() {
                old(mem)@[args@[0] + i]
            } else {
                0
            }),
    ensures
        &*final(host) == &*old(host),
        final(mem)@ == old(mem)@,
        value == Some(WasmValue::I32(2))
            || exists|r: FetchRequest, v: SendOutcome, end: int| #[trigger]
            call_ensures(S::send, (sink, r), v) && 0 <= end <= b.len()
                && #[trigger] b.take(end) == le32(encode_utf8(r.method@).len() as u32)
                    + encode_utf8(r.method@) + le32(
                encode_utf8(r.url@).len() as u32,
            ) + encode_utf8(r.url@) + le32(r.headers@.len() as u32) + r.headers@.map_values(
                |h: (String, String)|
                    le32(encode_utf8(h.0@).len() as u32) + encode_utf8(h.0@) + le32(
                        encode_utf8(h.1@).len() as u32,
                    ) + encode_utf8(h.1@),
            ).flatten() + le32(r.body@.len() as u32) + r.body@,
{
    assert(b =~= bytes_at(old(mem)@, args@[0], args@[1]));
    if let Some((request, end)) = parsed_request(b) {
        let call = CallView::Send(request);
        let (h, answer) = choose|h: &mut H, answer: AnswerView|
            &*h == &*old(host) && &*final(h) == &*final(host) && #[trigger] answered(
                h,
                fetcher,
                Some(sink),
                call,
                answer,
            ) && answer_fits(HostFn::HttpSend, answer) && (final(mem)@, value) == delivered(
                HostFn::HttpSend,
                args@,
                old(mem)@,
                answer,
            );
        let (r, v) = choose|r: FetchRequest, v: SendOutcome|
            r@ == request && #[trigger] call_ensures(S::send, (sink, r), v);
        request_written_back(b);
        request_bytes_in_a_row(r);
        assert(b.take(end) == request_bytes(r@));
    }
}

/// Without a fetcher every fetch fails, and without a sink every request to be sent is
/// rejected. Nothing changes.
#[verifier::rlimit(60)]
#[verifier::spinoff_prover]
pub proof fn nothing_leaves_without_a_way<H: Host + ?Sized, F: Fetcher + ?Sized, S: Sink + ?Sized>(
    host: &mut H,
    fetcher: Option<&F>,
    sink: Option<&S>,
    f: HostFn,
    args: &[i32],
    mem: &mut [u8],
    value: Option<WasmValue>,
)
    requires
        call_ensures(dispatch::<H, F, S>, (host, fetcher, sink, f, args, mem), value),
        args@.len() == f.argument_count(),
        f is HttpFetch && fetcher is None || f is HttpSend && sink is None,
    ensures
        &*final(host) == &*old(host),
        final(mem)@ == old(mem)@,
        f is HttpFetch ==> value == Some(WasmValue::I64(0)),
        f is HttpSend ==> value == Some(WasmValue::I32(2)),
{
    let b = bytes_at(old(mem)@, args@[0], args@[1]);
    if let Some((request, end)) = parsed_request(b) {
        let call = match f {
            HostFn::HttpFetch => CallView::Fetch(request),
            _ => CallView::Send(request),
        };
        let (h, answer) = choose|h: &mut H, answer: AnswerView|
            &*h == &*old(host) && &*final(h) == &*final(host) && #[trigger] answered(
                h,
                fetcher,
                sink,
                call,
                answer,
            ) && answer_fits(f, answer) && (final(mem)@, value) == delivered(
                f,
                args@,
                old(mem)@,
                answer,
            );
    }
}

/// What is planned for a header or a body is about the message whose number the guest
/// gives, for every function that takes one: the question is that of the function.
pub proof fn kind_is_the_one_asked_for(f: HostFn, args: &[i32], mem: &[u8], p: Plan)
    requires
        call_ensures(plan::plan, (f, args, mem), p),
        args@.len() == f.argument_count(),
        f is GetHeaderNames || f is GetHeaderValues || f is SetHeaderValue || f is AddHeaderValue
            || f is RemoveHeader || f is ReadBody || f is WriteBody,
    ensures
        p is Ask <==> 0 <= args@[0] <= 3,
        p matches Plan::Ask(call) ==> match call {
            HostCall::HeaderNames(kind) => f is GetHeaderNames && (match kind {
                HeaderKind::Request => 0int,
                HeaderKind::Response => 1,
                HeaderKind::RequestTrailers => 2,
                HeaderKind::ResponseTrailers => 3,
            }) == args@[0],
            HostCall::HeaderValues(kind, _) => f is GetHeaderValues && (match kind {
                HeaderKind::Request => 0int,
                HeaderKind::Response => 1,
                HeaderKind::RequestTrailers => 2,
                HeaderKind::ResponseTrailers => 3,
            }) == args@[0],
            HostCall::SetHeaderValue(kind, _, _) => f is SetHeaderValue && (match kind {
                HeaderKind::Request => 0int,
                HeaderKind::Response => 1,
                HeaderKind::RequestTrailers => 2,
                HeaderKind::ResponseTrailers => 3,
            }) == args@[0],
            HostCall::AddHeaderValue(kind, _, _) => f is AddHeaderValue && (match kind {
                HeaderKind::Request => 0int,
                HeaderKind::Response => 1,
                HeaderKind::RequestTrailers => 2,
                HeaderKind::ResponseTrailers => 3,
            }) == args@[0],
            HostCall::RemoveHeader(kind, _) => f is RemoveHeader && (match kind {
                HeaderKind::Request => 0int,
                HeaderKind::Response => 1,
                HeaderKind::RequestTrailers => 2,
                HeaderKind::ResponseTrailers => 3,
            }) == args@[0],
            HostCall::ReadBody(kind, _) => f is ReadBody && (match kind {
                HeaderKind::Request => 0int,
                HeaderKind::Response => 1,
                HeaderKind::RequestTrailers => 2,
                HeaderKind::ResponseTrailers => 3,
            }) == args@[0],
            HostCall::WriteBody(kind, _) => f is WriteBody && (match kind {
                HeaderKind::Request => 0int,
                HeaderKind::Response => 1,
                HeaderKind::RequestTrailers => 2,
                HeaderKind::ResponseTrailers => 3,
            }) == args@[0],
            _ => false,
        },
{
}

/// A header is asked for by the name that the guest has in its memory.
pub proof fn name_is_the_one_asked_for(args: &[i32], mem: &[u8], p: Plan, name: Seq<char>)
    requires
        call_ensures(plan::plan, (HostFn::GetHeaderValues, args, mem), p),
        args@.len() == 5,
        0 <= args@[0] <= 3,
        0 <= args@[1],
        args@[1] + encode_utf8(name).len() <= mem@.len(),
        args@[2] == encode_utf8(name).len(),
        forall|i: int|
            0 <= i < encode_utf8(name).len() ==> #[trigger] encode_utf8(name)[i]
                == mem@[args@[1] + i],
    ensures
        p matches Plan::Ask(HostCall::HeaderValues(_, asked)) && asked@ == name,
{
    let b = bytes_at(mem@, args@[1], args@[2]);
    assert(b =~= encode_utf8(name));
    encode_utf8_valid_utf8(name);
    encode_utf8_decode_utf8(name);
}

/// A number that the embedder answers reaches the guest bit by bit, for every number,
/// and the memory stays as it is.
pub proof fn numbers_are_delivered(args: &[i32], mem: &mut [u8], n: u32, value: Option<WasmValue>)
    requires
        call_ensures(deliver, (HostFn::GetStatusCode, args, mem, Answer::Number(n)), value),
        args@.len() == 0,
    ensures
        value matches Some(WasmValue::I32(r)) && (r as int == n as int || r as int == n as int
            - 0x1_0000_0000),
        final(mem)@ == old(mem)@,
{
}

/// What becomes of a request to be sent is told by three numbers.
pub proof fn outcomes_are_numbered(outcome: SendOutcome, code: i32)
    requires
        call_ensures(outcome_code, (outcome,), code),
    ensures
        outcome == SendOutcome::Queued <==> code == 0,
        outcome == SendOutcome::QueueFull <==> code == 1,
        outcome == SendOutcome::Rejected <==> code == 2,
{
}

} // verus!
