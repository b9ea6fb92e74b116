//! What a guest can rely on before its memory is resolved, as in a start function:
//! [`dispatch_early`] answers what needs no memory as [`dispatch`](super::dispatch)
//! does, and refuses the rest.

use vstd::prelude::*;
use vstd::utf8::encode_utf8;

use super::answer::{answered, AnswerView};
use super::delivery::{answer_fits, delivered, fills};
use super::dispatch_early;
use super::function::{HostFn, WasmValue};
use super::guarantees::{length_is_told, pair_is_told};
use super::plan::CallView;
use crate::abi::{kind_of, level_of, unsigned32, HeaderKind, LogLevel};
use crate::fetch::{Fetcher, Sink};
use crate::host::Host;
use crate::memory::{clamped, joined, texts};

verus! {

/// A call that reads the guest's memory fails, and nothing is asked.
#[verifier::rlimit(30)]
#[verifier::spinoff_prover]
pub proof fn reading_needs_the_memory<H: Host + ?Sized, F: Fetcher + ?Sized, S: Sink + ?Sized>(
    host: &mut H,
    fetcher: Option<&F>,
    sink: Option<&S>,
    f: HostFn,
    args: &[i32],
    done: Option<Option<WasmValue>>,
)
    requires
        call_ensures(dispatch_early::<H, F, S>, (host, fetcher, sink, f, args), done),
        args@.len() == f.argument_count(),
        f is SetMethod || f is SetUri || f is Log || f is HttpFetch || f is HttpSend || ((
        f is GetHeaderValues || f is SetHeaderValue || f is AddHeaderValue || f is RemoveHeader
            || f is WriteBody) && 0 <= args@[0] <= 3),
    ensures
        done is None,
        &*final(host) == &*old(host),
{
}

/// With a kind that there is not, nothing is asked and nothing changes, and no memory is
/// needed.
#[verifier::rlimit(30)]
#[verifier::spinoff_prover]
pub proof fn unknown_kinds_need_no_memory<H: Host + ?Sized, F: Fetcher + ?Sized, S: Sink + ?Sized>(
    host: &mut H,
    fetcher: Option<&F>,
    sink: Option<&S>,
    f: HostFn,
    args: &[i32],
    done: Option<Option<WasmValue>>,
)
    requires
        call_ensures(dispatch_early::<H, F, S>, (host, fetcher, sink, f, args), done),
        args@.len() == f.argument_count(),
        f is GetHeaderNames || f is GetHeaderValues || f is SetHeaderValue || f is AddHeaderValue
            || f is RemoveHeader || f is ReadBody || f is WriteBody,
        args@[0] < 0 || 3 < args@[0],
    ensures
        &*final(host) == &*old(host),
        f is GetHeaderNames || f is GetHeaderValues ==> done == Some(Some(WasmValue::I64(0))),
        f is ReadBody ==> done == Some(Some(WasmValue::I64(0x1_0000_0000))),
        f is SetHeaderValue || f is AddHeaderValue || f is RemoveHeader || f is WriteBody ==> done
            == Some(None::<WasmValue>),
{
}

/// Features are granted without a memory.
#[verifier::rlimit(30)]
#[verifier::spinoff_prover]
pub proof fn features_need_no_memory<H: Host + ?Sized, F: Fetcher + ?Sized, S: Sink + ?Sized>(
    host: &mut H,
    fetcher: Option<&F>,
    sink: Option<&S>,
    args: &[i32],
    done: Option<Option<WasmValue>>,
)
    requires
        call_ensures(dispatch_early::<H, F, S>, (host, fetcher, sink, HostFn::EnableFeatures,
            args), done),
        args@.len() == 1,
    ensures
        &*final(host) == &*old(host),
        done == Some(Some(WasmValue::I32(args@[0]))),
{
}

/// The status code of the host reaches the guest without a memory.
#[verifier::rlimit(30)]
#[verifier::spinoff_prover]
pub proof fn status_code_needs_no_memory<H: Host + ?Sized, F: Fetcher + ?Sized, S: Sink + ?Sized>(
    host: &mut H,
    fetcher: Option<&F>,
    sink: Option<&S>,
    args: &[i32],
    done: Option<Option<WasmValue>>,
)
    requires
        call_ensures(dispatch_early::<H, F, S>, (host, fetcher, sink, HostFn::GetStatusCode,
            args), done),
        args@.len() == 0,
    ensures
        &*final(host) == &*old(host),
        exists|n: u32| #[trigger]
            call_ensures(H::status_code, (&*old(host),), n) && match done {
                Some(Some(WasmValue::I32(r))) => r as int == n as int || r as int == n as int
                    - 0x1_0000_0000,
                _ => false,
            },
{
    let call = CallView::StatusCode;
    let (h, answer) = choose|h: &mut H, answer: AnswerView|
        &*h == &*old(host) && &*final(h) == &*final(host) && #[trigger] answered(
            h,
            fetcher,
            sink,
            call,
            answer,
        ) && answer_fits(HostFn::GetStatusCode, answer) && done
            == if fills(HostFn::GetStatusCode, args@, answer) {
            None
        } else {
            Some(delivered(HostFn::GetStatusCode, args@, seq![], answer).1)
        };
    let n = choose|n: u32| #[trigger]
        call_ensures(H::status_code, (&*h,), n) && answer == AnswerView::Number(n);
}

/// The status code that the guest gives reaches the host without a memory.
#[verifier::rlimit(30)]
#[verifier::spinoff_prover]
pub proof fn setting_the_status_code_needs_no_memory<H: Host + ?Sized, F: Fetcher
    + ?Sized, S: Sink + ?Sized>(
    host: &mut H,
    fetcher: Option<&F>,
    sink: Option<&S>,
    args: &[i32],
    done: Option<Option<WasmValue>>,
)
    requires
        call_ensures(dispatch_early::<H, F, S>, (host, fetcher, sink, HostFn::SetStatusCode,
            args), done),
        args@.len() == 1,
    ensures
        done == Some(None::<WasmValue>),
        exists|h: &mut H, n: u32|
            &*h == &*old(host) && &*final(h) == &*final(host)
                && #[trigger] call_ensures(H::set_status_code, (h, n), ())
                    && (n as int == args@[0] as int
                || n as int == args@[0] as int + 0x1_0000_0000),
{
    let call = CallView::SetStatusCode(unsigned32(args@[0]) as u32);
    let (h, answer) = choose|h: &mut H, answer: AnswerView|
        &*h == &*old(host) && &*final(h) == &*final(host) && #[trigger] answered(
            h,
            fetcher,
            sink,
            call,
            answer,
        ) && answer_fits(HostFn::SetStatusCode, answer) && done
            == if fills(HostFn::SetStatusCode, args@, answer) {
            None
        } else {
            Some(delivered(HostFn::SetStatusCode, args@, seq![], answer).1)
        };
    assert(call_ensures(H::set_status_code, (h, unsigned32(args@[0]) as u32), ()));
}

/// The guest is told whether the host emits lines of a level without a memory.
#[verifier::rlimit(30)]
#[verifier::spinoff_prover]
pub proof fn logging_is_told_without_memory<H: Host + ?Sized, F: Fetcher + ?Sized, S: Sink
    + ?Sized>(
    host: &mut H,
    fetcher: Option<&F>,
    sink: Option<&S>,
    args: &[i32],
    done: Option<Option<WasmValue>>,
)
    requires
        call_ensures(dispatch_early::<H, F, S>, (host, fetcher, sink, HostFn::LogEnabled, args),
            done),
        args@.len() == 1,
    ensures
        &*final(host) == &*old(host),
        exists|level: LogLevel, b: bool| #[trigger]
            call_ensures(H::log_enabled, (&*old(host), level), b) && level == (if args@[0] == -1 {
                LogLevel::Debug
            } else if args@[0] == 1 {
                LogLevel::Warn
            } else if args@[0] == 2 {
                LogLevel::Error
            } else if args@[0] == 3 {
                LogLevel::Off
            } else {
                LogLevel::Info
            }) && done == Some(
                Some(
                    WasmValue::I32(
                        if b {
                            1
                        } else {
                            0
                        },
                    ),
                ),
            ),
{
    let level = level_of(args@[0] as int);
    let call = CallView::LogEnabled(level);
    let (h, answer) = choose|h: &mut H, answer: AnswerView|
        &*h == &*old(host) && &*final(h) == &*final(host) && #[trigger] answered(
            h,
            fetcher,
            sink,
            call,
            answer,
        ) && answer_fits(HostFn::LogEnabled, answer) && done
            == if fills(HostFn::LogEnabled, args@, answer) {
            None
        } else {
            Some(delivered(HostFn::LogEnabled, args@, seq![], answer).1)
        };
    let b = choose|b: bool| #[trigger]
        call_ensures(H::log_enabled, (&*h, level), b) && answer == AnswerView::Flag(b);
}

/// The length of a text of the host is told without a memory as long as there is nothing
/// to write.
#[verifier::rlimit(30)]
#[verifier::spinoff_prover]
pub proof fn length_of_a_text_needs_no_memory<H: Host + ?Sized, F: Fetcher + ?Sized, S: Sink
    + ?Sized>(
    host: &mut H,
    fetcher: Option<&F>,
    sink: Option<&S>,
    f: HostFn,
    args: &[i32],
    done: Option<Option<WasmValue>>,
)
    requires
        call_ensures(dispatch_early::<H, F, S>, (host, fetcher, sink, f, args), done),
        args@.len() == 2,
        f is GetMethod || f is GetUri || f is GetProtocolVersion || f is GetSourceAddr,
    ensures
        &*final(host) == &*old(host),
        exists|v: String|
            (match f {
                HostFn::GetMethod => call_ensures(H::method, (&*old(host),), v),
                HostFn::GetUri => call_ensures(H::uri, (&*old(host),), v),
                HostFn::GetProtocolVersion => call_ensures(H::protocol_version, (&*old(host),), v),
                _ => call_ensures(H::source_addr, (&*old(host),), v),
            }) && (if args@[1] > 0 && (#[trigger] encode_utf8(v@)).len() > 0 {
                done is None
            } else {
                match done {
                    Some(Some(WasmValue::I32(r))) => (r as int - encode_utf8(v@).len() as int) % 0x1_0000_0000 == 0,
                    _ => false,
                }
            }),
{
    let call = match f {
        HostFn::GetMethod => CallView::Method,
        HostFn::GetUri => CallView::Uri,
        HostFn::GetProtocolVersion => CallView::ProtocolVersion,
        _ => CallView::SourceAddr,
    };
    let (h, answer) = choose|h: &mut H, answer: AnswerView|
        &*h == &*old(host) && &*final(h) == &*final(host) && #[trigger] answered(
            h,
            fetcher,
            sink,
            call,
            answer,
        ) && answer_fits(f, answer) && done == if fills(f, args@, answer) {
            None
        } else {
            Some(delivered(f, args@, seq![], answer).1)
        };
    let v = match f {
        HostFn::GetMethod => choose|v: String| #[trigger]
            call_ensures(H::method, (&*h,), v) && answer == AnswerView::Text(v@),
        HostFn::GetUri => choose|v: String| #[trigger]
            call_ensures(H::uri, (&*h,), v) && answer == AnswerView::Text(v@),
        HostFn::GetProtocolVersion => choose|v: String| #[trigger]
            call_ensures(H::protocol_version, (&*h,), v) && answer == AnswerView::Text(v@),
        _ => choose|v: String| #[trigger]
            call_ensures(H::source_addr, (&*h,), v) && answer == AnswerView::Text(v@),
    };
    if done is Some {
        length_is_told(encode_utf8(v@).len(), done->Some_0);
    }
}

/// So is the length of the configuration.
#[verifier::rlimit(30)]
#[verifier::spinoff_prover]
pub proof fn length_of_the_configuration_needs_no_memory<H: Host + ?Sized, F: Fetcher
    + ?Sized, S: Sink + ?Sized>(
    host: &mut H,
    fetcher: Option<&F>,
    sink: Option<&S>,
    args: &[i32],
    done: Option<Option<WasmValue>>,
)
    requires
        call_ensures(dispatch_early::<H, F, S>, (host, fetcher, sink, HostFn::GetConfig, args),
            done),
        args@.len() == 2,
    ensures
        &*final(host) == &*old(host),
        exists|v: Vec<u8>| #[trigger]
            call_ensures(H::config, (&*old(host),), v) && (if args@[1] > 0 && v@.len() > 0 {
                done is None
            } else {
                match done {
                    Some(Some(WasmValue::I32(r))) => (r as int - v@.len() as int) % 0x1_0000_0000 == 0,
                    _ => false,
                }
            }),
{
    let call = CallView::Config;
    let (h, answer) = choose|h: &mut H, answer: AnswerView|
        &*h == &*old(host) && &*final(h) == &*final(host) && #[trigger] answered(
            h,
            fetcher,
            sink,
            call,
            answer,
        ) && answer_fits(HostFn::GetConfig, answer) && done
            == if fills(HostFn::GetConfig, args@, answer) {
            None
        } else {
            Some(delivered(HostFn::GetConfig, args@, seq![], answer).1)
        };
    let v = choose|v: Vec<u8>| #[trigger]
        call_ensures(H::config, (&*h,), v) && answer == AnswerView::Bytes(v@);
    if done is Some {
        length_is_told(v@.len(), done->Some_0);
    }
}

/// So are the number of headers and the bytes that their names take.
#[verifier::rlimit(30)]
#[verifier::spinoff_prover]
pub proof fn number_of_headers_needs_no_memory<H: Host + ?Sized, F: Fetcher + ?Sized, S: Sink
    + ?Sized>(
    host: &mut H,
    fetcher: Option<&F>,
    sink: Option<&S>,
    args: &[i32],
    done: Option<Option<WasmValue>>,
)
    requires
        call_ensures(dispatch_early::<H, F, S>, (host, fetcher, sink, HostFn::GetHeaderNames,
            args), done),
        args@.len() == 3,
        0 <= args@[0] <= 3,
    ensures
        &*final(host) == &*old(host),
        exists|kind: HeaderKind, v: Vec<String>|
            (match kind {
                HeaderKind::Request => 0int,
                HeaderKind::Response => 1,
                HeaderKind::RequestTrailers => 2,
                HeaderKind::ResponseTrailers => 3,
            }) == args@[0] && #[trigger] call_ensures(H::header_names, (&*old(host), kind), v) && ({
                let bytes = joined(v@.map_values(|s: String| s@));
                if args@[2] > 0 && bytes.len() > 0 {
                    done is None
                } else {
                    match done {
                        Some(Some(WasmValue::I64(r))) => (r as int - ((v@.len() as int % 0x1_0000_0000)
                            * 0x1_0000_0000 + bytes.len() as int % 0x1_0000_0000)) % 0x1_0000_0000_0000_0000
                            == 0,
                        _ => false,
                    }
                }
            }),
{
    let kind = kind_of(args@[0] as int)->Some_0;
    let call = CallView::HeaderNames(kind);
    let (h, answer) = choose|h: &mut H, answer: AnswerView|
        &*h == &*old(host) && &*final(h) == &*final(host) && #[trigger] answered(
            h,
            fetcher,
            sink,
            call,
            answer,
        ) && answer_fits(HostFn::GetHeaderNames, answer) && done
            == if fills(HostFn::GetHeaderNames, args@, answer) {
            None
        } else {
            Some(delivered(HostFn::GetHeaderNames, args@, seq![], answer).1)
        };
    let v = choose|v: Vec<String>| #[trigger]
        call_ensures(H::header_names, (&*h, kind), v) && answer == AnswerView::List(texts(v@));
    assert(texts(v@) =~= v@.map_values(|s: String| s@));
    if done is Some {
        pair_is_told(v@.len(), joined(texts(v@)).len(), done->Some_0);
    }
}

/// The host is asked for a body without a memory, and what it gives is told as long as
/// there is nothing to write.
#[verifier::rlimit(30)]
#[verifier::spinoff_prover]
pub proof fn end_of_body_needs_no_memory<H: Host + ?Sized, F: Fetcher + ?Sized, S: Sink + ?Sized>(
    host: &mut H,
    fetcher: Option<&F>,
    sink: Option<&S>,
    args: &[i32],
    done: Option<Option<WasmValue>>,
)
    requires
        call_ensures(dispatch_early::<H, F, S>, (host, fetcher, sink, HostFn::ReadBody, args),
            done),
        args@.len() == 3,
        0 <= args@[0] <= 3,
    ensures
        exists|h: &mut H, kind: HeaderKind, max: usize, v: Vec<u8>|
            &*h == &*old(host) && &*final(h) == &*final(host) && (match kind {
                HeaderKind::Request => 0int,
                HeaderKind::Response => 1,
                HeaderKind::RequestTrailers => 2,
                HeaderKind::ResponseTrailers => 3,
            }) == args@[0] && #[trigger] call_ensures(H::read_body, (h, kind, max), v) && max
                == (if args@[2] > 0 {
                args@[2] as int
            } else {
                0
            }) && (if args@[2] > 0 && v@.len() > 0 {
                done is None
            } else {
                match done {
                    Some(Some(WasmValue::I64(r))) => r as int == (if v@.len() == 0 {
                        0x1_0000_0000
                    } else {
                        v@.len() as int % 0x1_0000_0000
                    }),
                    _ => false,
                }
            }),
{
    let kind = kind_of(args@[0] as int)->Some_0;
    let room = clamped(args@[2]);
    let call = CallView::ReadBody(kind, room);
    let (h, answer) = choose|h: &mut H, answer: AnswerView|
        &*h == &*old(host) && &*final(h) == &*final(host) && #[trigger] answered(
            h,
            fetcher,
            sink,
            call,
            answer,
        ) && answer_fits(HostFn::ReadBody, answer) && done
            == if fills(HostFn::ReadBody, args@, answer) {
            None
        } else {
            Some(delivered(HostFn::ReadBody, args@, seq![], answer).1)
        };
    let (max, v) = choose|max: usize, v: Vec<u8>|
        max == room && #[trigger] call_ensures(H::read_body, (h, kind, max), v) && answer
            == AnswerView::Bytes(v@);
}

} // verus!
