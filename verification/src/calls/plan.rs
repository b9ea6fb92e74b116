//! From the raw arguments of a call to what is asked of the embedder.

use vstd::prelude::*;

use super::function::{HostFn, WasmValue};
use crate::abi::{
    as_unsigned, encode_eof_len, encode_ok_len, flag, kind_of, level_of, packed, unsigned32,
    HeaderKind, LogLevel,
};
use crate::fetch::codec::{decode_request, parsed_request};
use crate::fetch::{FetchRequest, RequestView, SendOutcome};
use crate::memory::{bytes_at, clamped, is_marked, read_mem, read_str, text_at};

verus! {

/// Something to ask of the embedder.
pub enum HostCall {
    Method,
    SetMethod(String),
    Uri,
    SetUri(String),
    ProtocolVersion,
    SourceAddr,
    StatusCode,
    SetStatusCode(u32),
    HeaderNames(HeaderKind),
    HeaderValues(HeaderKind, String),
    SetHeaderValue(HeaderKind, String, String),
    AddHeaderValue(HeaderKind, String, String),
    RemoveHeader(HeaderKind, String),
    ReadBody(HeaderKind, usize),
    WriteBody(HeaderKind, Vec<u8>),
    Config,
    Log(LogLevel, String),
    LogEnabled(LogLevel),
    Fetch(FetchRequest),
    Send(FetchRequest),
}

/// What a [`HostCall`] asks.
pub enum CallView {
    Method,
    SetMethod(Seq<char>),
    Uri,
    SetUri(Seq<char>),
    ProtocolVersion,
    SourceAddr,
    StatusCode,
    SetStatusCode(u32),
    HeaderNames(HeaderKind),
    HeaderValues(HeaderKind, Seq<char>),
    SetHeaderValue(HeaderKind, Seq<char>, Seq<char>),
    AddHeaderValue(HeaderKind, Seq<char>, Seq<char>),
    RemoveHeader(HeaderKind, Seq<char>),
    ReadBody(HeaderKind, int),
    WriteBody(HeaderKind, Seq<u8>),
    Config,
    Log(LogLevel, Seq<char>),
    LogEnabled(LogLevel),
    Fetch(RequestView),
    Send(RequestView),
}

impl View for HostCall {
    type V = CallView;

    open spec fn view(&self) -> CallView {
        match *self {
            HostCall::Method => CallView::Method,
            HostCall::SetMethod(method) => CallView::SetMethod(method@),
            HostCall::Uri => CallView::Uri,
            HostCall::SetUri(uri) => CallView::SetUri(uri@),
            HostCall::ProtocolVersion => CallView::ProtocolVersion,
            HostCall::SourceAddr => CallView::SourceAddr,
            HostCall::StatusCode => CallView::StatusCode,
            HostCall::SetStatusCode(status) => CallView::SetStatusCode(status),
            HostCall::HeaderNames(kind) => CallView::HeaderNames(kind),
            HostCall::HeaderValues(kind, name) => CallView::HeaderValues(kind, name@),
            HostCall::SetHeaderValue(kind, name, value) => CallView::SetHeaderValue(
                kind,
                name@,
                value@,
            ),
            HostCall::AddHeaderValue(kind, name, value) => CallView::AddHeaderValue(
                kind,
                name@,
                value@,
            ),
            HostCall::RemoveHeader(kind, name) => CallView::RemoveHeader(kind, name@),
            HostCall::ReadBody(kind, max) => CallView::ReadBody(kind, max as int),
            HostCall::WriteBody(kind, data) => CallView::WriteBody(kind, data@),
            HostCall::Config => CallView::Config,
            HostCall::Log(level, message) => CallView::Log(level, message@),
            HostCall::LogEnabled(level) => CallView::LogEnabled(level),
            HostCall::Fetch(request) => CallView::Fetch(request@),
            HostCall::Send(request) => CallView::Send(request@),
        }
    }
}

/// How a call goes on: with a result at once, or with a question.
pub enum Plan {
    Now(Option<WasmValue>),
    Ask(HostCall),
}

/// What a [`Plan`] says.
pub enum PlanView {
    Now(Option<WasmValue>),
    Ask(CallView),
}

impl View for Plan {
    type V = PlanView;

    open spec fn view(&self) -> PlanView {
        match *self {
            Plan::Now(value) => PlanView::Now(value),
            Plan::Ask(call) => PlanView::Ask(call@),
        }
    }
}

/// The number by which a guest is told the outcome of `http_send`.
pub open spec fn outcome_number(outcome: SendOutcome) -> i32 {
    match outcome {
        SendOutcome::Queued => 0,
        SendOutcome::QueueFull => 1,
        SendOutcome::Rejected => 2,
    }
}

/// The number by which a guest is told the outcome of `http_send`: 0 if the
/// request was queued, 1 if the queue is full, 2 if the request was rejected.
pub fn outcome_code(outcome: SendOutcome) -> (code: i32)
    ensures
        code == outcome_number(outcome),
{
    match outcome {
        SendOutcome::Queued => 0,
        SendOutcome::QueueFull => 1,
        SendOutcome::Rejected => 2,
    }
}

/// How the call of `f` with `args` goes on, for a guest with the memory `mem`.
///
/// An operation on an unknown `kind` asks nothing: it reports no headers, or a
/// body at its end, or has no effect. Neither does a request that cannot be
/// decoded, which counts as a failed fetch and as a rejected send.
pub open spec fn planned(f: HostFn, args: Seq<i32>, mem: Seq<u8>) -> PlanView {
    match f {
        HostFn::GetMethod => PlanView::Ask(CallView::Method),
        HostFn::SetMethod => PlanView::Ask(CallView::SetMethod(text_at(mem, args[0], args[1]))),
        HostFn::GetUri => PlanView::Ask(CallView::Uri),
        HostFn::SetUri => PlanView::Ask(CallView::SetUri(text_at(mem, args[0], args[1]))),
        HostFn::GetProtocolVersion => PlanView::Ask(CallView::ProtocolVersion),
        HostFn::GetSourceAddr => PlanView::Ask(CallView::SourceAddr),
        HostFn::GetStatusCode => PlanView::Ask(CallView::StatusCode),
        HostFn::SetStatusCode => PlanView::Ask(
            CallView::SetStatusCode(unsigned32(args[0]) as u32),
        ),
        HostFn::GetHeaderNames => match kind_of(args[0] as int) {
            Some(kind) => PlanView::Ask(CallView::HeaderNames(kind)),
            None => PlanView::Now(Some(WasmValue::I64(0))),
        },
        HostFn::GetHeaderValues => match kind_of(args[0] as int) {
            Some(kind) => PlanView::Ask(
                CallView::HeaderValues(kind, text_at(mem, args[1], args[2])),
            ),
            None => PlanView::Now(Some(WasmValue::I64(0))),
        },
        HostFn::SetHeaderValue => match kind_of(args[0] as int) {
            Some(kind) => PlanView::Ask(
                CallView::SetHeaderValue(
                    kind,
                    text_at(mem, args[1], args[2]),
                    text_at(mem, args[3], args[4]),
                ),
            ),
            None => PlanView::Now(None),
        },
        HostFn::AddHeaderValue => match kind_of(args[0] as int) {
            Some(kind) => PlanView::Ask(
                CallView::AddHeaderValue(
                    kind,
                    text_at(mem, args[1], args[2]),
                    text_at(mem, args[3], args[4]),
                ),
            ),
            None => PlanView::Now(None),
        },
        HostFn::RemoveHeader => match kind_of(args[0] as int) {
            Some(kind) => PlanView::Ask(
                CallView::RemoveHeader(kind, text_at(mem, args[1], args[2])),
            ),
            None => PlanView::Now(None),
        },
        HostFn::ReadBody => match kind_of(args[0] as int) {
            Some(kind) => PlanView::Ask(CallView::ReadBody(kind, clamped(args[2]))),
            None => PlanView::Now(Some(WasmValue::I64(packed(flag(true), 0) as i64))),
        },
        HostFn::WriteBody => match kind_of(args[0] as int) {
            Some(kind) => PlanView::Ask(CallView::WriteBody(kind, bytes_at(mem, args[1], args[2]))),
            None => PlanView::Now(None),
        },
        HostFn::GetConfig => PlanView::Ask(CallView::Config),
        HostFn::EnableFeatures => PlanView::Now(Some(WasmValue::I32(args[0]))),
        HostFn::Log => PlanView::Ask(
            CallView::Log(level_of(args[0] as int), text_at(mem, args[1], args[2])),
        ),
        HostFn::LogEnabled => PlanView::Ask(CallView::LogEnabled(level_of(args[0] as int))),
        HostFn::HttpFetch => match parsed_request(bytes_at(mem, args[0], args[1])) {
            Some((request, _)) => PlanView::Ask(CallView::Fetch(request)),
            None => PlanView::Now(Some(WasmValue::I64(packed(flag(false), 0) as i64))),
        },
        HostFn::HttpSend => match parsed_request(bytes_at(mem, args[0], args[1])) {
            Some((request, _)) => PlanView::Ask(CallView::Send(request)),
            None => PlanView::Now(Some(WasmValue::I32(outcome_number(SendOutcome::Rejected)))),
        },
    }
}

/// Whether the call of `f` with `args` reads the guest's memory before anything
/// else.
pub open spec fn reads_memory(f: HostFn, args: Seq<i32>) -> bool {
    match f {
        HostFn::SetMethod
        | HostFn::SetUri
        | HostFn::Log
        | HostFn::HttpFetch
        | HostFn::HttpSend => true,
        HostFn::GetHeaderValues
        | HostFn::SetHeaderValue
        | HostFn::AddHeaderValue
        | HostFn::RemoveHeader
        | HostFn::WriteBody => kind_of(args[0] as int) is Some,
        _ => false,
    }
}

/// Whether the call of `f` with `args` reads the guest's memory before anything
/// else.
pub fn needs_memory(f: HostFn, args: &[i32]) -> (needs: bool)
    requires
        args@.len() == f.argument_count(),
    ensures
        needs == reads_memory(f, args@),
{
    match f {
        HostFn::SetMethod
        | HostFn::SetUri
        | HostFn::Log
        | HostFn::HttpFetch
        | HostFn::HttpSend => true,
        HostFn::GetHeaderValues
        | HostFn::SetHeaderValue
        | HostFn::AddHeaderValue
        | HostFn::RemoveHeader
        | HostFn::WriteBody => HeaderKind::from_i32(args[0]).is_some(),
        _ => false,
    }
}

/// Where the call of `f` with `args` has its texts in the guest's memory, if it is
/// not settled at once.
pub open spec fn text_ranges(f: HostFn, args: Seq<i32>) -> Seq<(i32, i32)> {
    match f {
        HostFn::SetMethod | HostFn::SetUri => seq![(args[0], args[1])],
        HostFn::GetHeaderValues | HostFn::RemoveHeader | HostFn::Log => seq![(args[1], args[2])],
        HostFn::SetHeaderValue | HostFn::AddHeaderValue => seq![
            (args[1], args[2]),
            (args[3], args[4]),
        ],
        _ => seq![],
    }
}

/// Whether every text of the call that is not UTF-8 shows it by a replacement
/// character.
pub open spec fn bad_text_is_marked(f: HostFn, args: Seq<i32>, mem: Seq<u8>) -> bool {
    forall|i: int|
        #![trigger text_ranges(f, args)[i]]
        0 <= i < text_ranges(f, args).len() ==> is_marked(
            mem,
            text_ranges(f, args)[i].0,
            text_ranges(f, args)[i].1,
        )
}

/// Decide how the call of `f` with `args` goes on.
pub fn plan(f: HostFn, args: &[i32], mem: &[u8]) -> (plan: Plan)
    requires
        args@.len() == f.argument_count(),
    ensures
        plan@ == planned(f, args@, mem@),
        plan is Ask ==> bad_text_is_marked(f, args@, mem@),
{
    match f {
        HostFn::GetMethod => Plan::Ask(HostCall::Method),
        HostFn::SetMethod => Plan::Ask(HostCall::SetMethod(read_str(mem, args[0], args[1]))),
        HostFn::GetUri => Plan::Ask(HostCall::Uri),
        HostFn::SetUri => Plan::Ask(HostCall::SetUri(read_str(mem, args[0], args[1]))),
        HostFn::GetProtocolVersion => Plan::Ask(HostCall::ProtocolVersion),
        HostFn::GetSourceAddr => Plan::Ask(HostCall::SourceAddr),
        HostFn::GetStatusCode => Plan::Ask(HostCall::StatusCode),
        HostFn::SetStatusCode => Plan::Ask(HostCall::SetStatusCode(as_unsigned(args[0]))),
        HostFn::GetHeaderNames => match HeaderKind::from_i32(args[0]) {
            Some(kind) => Plan::Ask(HostCall::HeaderNames(kind)),
            None => Plan::Now(Some(WasmValue::I64(0))),
        },
        HostFn::GetHeaderValues => match HeaderKind::from_i32(args[0]) {
            Some(kind) => Plan::Ask(HostCall::HeaderValues(kind, read_str(mem, args[1], args[2]))),
            None => Plan::Now(Some(WasmValue::I64(0))),
        },
        HostFn::SetHeaderValue => match HeaderKind::from_i32(args[0]) {
            Some(kind) => {
                let name = read_str(mem, args[1], args[2]);
                let value = read_str(mem, args[3], args[4]);
                Plan::Ask(HostCall::SetHeaderValue(kind, name, value))
            },
            None => Plan::Now(None),
        },
        HostFn::AddHeaderValue => match HeaderKind::from_i32(args[0]) {
            Some(kind) => {
                let name = read_str(mem, args[1], args[2]);
                let value = read_str(mem, args[3], args[4]);
                Plan::Ask(HostCall::AddHeaderValue(kind, name, value))
            },
            None => Plan::Now(None),
        },
        HostFn::RemoveHeader => match HeaderKind::from_i32(args[0]) {
            Some(kind) => Plan::Ask(HostCall::RemoveHeader(kind, read_str(mem, args[1], args[2]))),
            None => Plan::Now(None),
        },
        HostFn::ReadBody => match HeaderKind::from_i32(args[0]) {
            Some(kind) => {
                let max: usize = if args[2] > 0 {
                    args[2] as usize
                } else {
                    0
                };
                Plan::Ask(HostCall::ReadBody(kind, max))
            },
            None => Plan::Now(Some(WasmValue::I64(encode_eof_len(true, 0)))),
        },
        HostFn::WriteBody => match HeaderKind::from_i32(args[0]) {
            Some(kind) => Plan::Ask(HostCall::WriteBody(kind, read_mem(mem, args[1], args[2]))),
            None => Plan::Now(None),
        },
        HostFn::GetConfig => Plan::Ask(HostCall::Config),
        HostFn::EnableFeatures => Plan::Now(Some(WasmValue::I32(args[0]))),
        HostFn::Log => Plan::Ask(
            HostCall::Log(LogLevel::from_i32(args[0]), read_str(mem, args[1], args[2])),
        ),
        HostFn::LogEnabled => Plan::Ask(HostCall::LogEnabled(LogLevel::from_i32(args[0]))),
        HostFn::HttpFetch => match decode_request(read_mem(mem, args[0], args[1]).as_slice()) {
            Some(request) => Plan::Ask(HostCall::Fetch(request)),
            None => Plan::Now(Some(WasmValue::I64(encode_ok_len(false, 0)))),
        },
        HostFn::HttpSend => match decode_request(read_mem(mem, args[0], args[1]).as_slice()) {
            Some(request) => Plan::Ask(HostCall::Send(request)),
            None => Plan::Now(Some(WasmValue::I32(outcome_code(SendOutcome::Rejected)))),
        },
    }
}

} // verus!
