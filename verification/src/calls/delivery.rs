//! From the embedder's answer to the guest's memory and the result of the call.

use vstd::prelude::*;
use vstd::utf8::encode_utf8;

use super::answer::{Answer, AnswerView};
use super::function::{HostFn, WasmValue};
use super::plan::{outcome_code, outcome_number};
use crate::abi::{as_signed, encode_count_len, encode_eof_len, encode_ok_len, flag, packed, signed32};
use crate::fetch::codec::{encode_response, response_bytes};
use crate::memory::{capped, join_nul, joined, len32, write_capped, written};

verus! {

/// Whether `answer` is of the form that `f` gets to its question.
pub open spec fn answer_fits(f: HostFn, answer: AnswerView) -> bool {
    match f {
        HostFn::GetMethod
        | HostFn::GetUri
        | HostFn::GetProtocolVersion
        | HostFn::GetSourceAddr => answer is Text,
        HostFn::GetStatusCode => answer is Number,
        HostFn::GetHeaderNames | HostFn::GetHeaderValues => answer is List,
        HostFn::ReadBody | HostFn::GetConfig => answer is Bytes,
        HostFn::LogEnabled => answer is Flag,
        HostFn::HttpFetch => answer is Fetched,
        HostFn::HttpSend => answer is Sent,
        HostFn::SetMethod
        | HostFn::SetUri
        | HostFn::SetStatusCode
        | HostFn::SetHeaderValue
        | HostFn::AddHeaderValue
        | HostFn::RemoveHeader
        | HostFn::WriteBody
        | HostFn::Log => answer is Done,
        HostFn::EnableFeatures => false,
    }
}

/// The buffer that the guest of a call offers for the answer: its address and
/// its size.
pub open spec fn buffer(f: HostFn, args: Seq<i32>) -> (i32, i32) {
    match f {
        HostFn::GetHeaderNames | HostFn::ReadBody => (args[1], args[2]),
        HostFn::GetHeaderValues => (args[3], args[4]),
        HostFn::HttpFetch => (args[2], args[3]),
        _ => (args[0], args[1]),
    }
}

/// The guest's memory after `data` has gone into the buffer of the call.
pub open spec fn filled(f: HostFn, args: Seq<i32>, mem: Seq<u8>, data: Seq<u8>) -> Seq<u8> {
    written(mem, buffer(f, args).0, buffer(f, args).1, data)
}

/// A length as the result of a call.
pub open spec fn length_result(n: nat) -> WasmValue {
    WasmValue::I32(signed32(len32(n) as int) as i32)
}

/// A pair of 32-bit numbers as the result of a call.
pub open spec fn pair_result(upper: u32, lower: u32) -> WasmValue {
    WasmValue::I64(packed(upper, lower) as i64)
}

/// The guest's memory and the result of the call of `f` with `args` once
/// `answer` has come.
///
/// Text and configuration go into the buffer, and their full length is the
/// result. Lists go there with each item followed by a NUL, and the result is
/// their count and full length. A piece of a body goes there, and the result
/// tells whether it was empty (the end of the body) and its full length. So does
/// a fetched response, with the result telling that the fetch succeeded and the
/// full length.
pub open spec fn delivered(f: HostFn, args: Seq<i32>, mem: Seq<u8>, answer: AnswerView) -> (
    Seq<u8>,
    Option<WasmValue>,
) {
    match answer {
        AnswerView::Done => (mem, None),
        AnswerView::Text(text) => {
            let data = encode_utf8(text);
            (filled(f, args, mem, data), Some(length_result(data.len())))
        },
        AnswerView::Number(n) => (mem, Some(WasmValue::I32(signed32(n as int) as i32))),
        AnswerView::List(items) => {
            let data = joined(items);
            (
                filled(f, args, mem, data),
                Some(pair_result(len32(items.len()), len32(data.len()))),
            )
        },
        AnswerView::Bytes(data) => (
            filled(f, args, mem, data),
            Some(
                if f is ReadBody {
                    pair_result(flag(data.len() == 0), len32(data.len()))
                } else {
                    length_result(data.len())
                },
            ),
        ),
        AnswerView::Flag(b) => (mem, Some(WasmValue::I32(flag(b) as i32))),
        AnswerView::Fetched(Some(response)) => {
            let data = response_bytes(response);
            (filled(f, args, mem, data), Some(pair_result(flag(true), len32(data.len()))))
        },
        AnswerView::Fetched(None) => (mem, Some(pair_result(flag(false), 0))),
        AnswerView::Sent(outcome) => (mem, Some(WasmValue::I32(outcome_number(outcome)))),
    }
}

/// The bytes that an answer has for the guest's buffer.
pub open spec fn payload(answer: AnswerView) -> Seq<u8> {
    match answer {
        AnswerView::Text(text) => encode_utf8(text),
        AnswerView::List(items) => joined(items),
        AnswerView::Bytes(data) => data,
        AnswerView::Fetched(Some(response)) => response_bytes(response),
        _ => seq![],
    }
}

/// Whether any byte of the answer is for the buffer of the call: not if the answer
/// has none or the buffer no room.
pub open spec fn fills(f: HostFn, args: Seq<i32>, answer: AnswerView) -> bool {
    capped(buffer(f, args).1, payload(answer).len()) > 0
}

/// Whether any byte of the answer is for the buffer of the call.
pub fn fills_buffer(f: HostFn, args: &[i32], answer: &Answer) -> (b: bool)
    requires
        args@.len() == f.argument_count(),
        answer_fits(f, answer@),
    ensures
        b == fills(f, args@, answer@),
{
    let n: usize = match answer {
        Answer::Text(text) => text.as_str().as_bytes().len(),
        Answer::List(items) => join_nul(items.as_slice()).1.len(),
        Answer::Bytes(data) => data.len(),
        Answer::Fetched(Some(response)) => encode_response(response).len(),
        _ => 0,
    };
    if n == 0 {
        return false;
    }
    let limit = match f {
        HostFn::GetHeaderNames | HostFn::ReadBody => args[2],
        HostFn::GetHeaderValues => args[4],
        HostFn::HttpFetch => args[3],
        _ => args[1],
    };
    limit > 0
}

/// Write the answer to the call of `f` with `args` into the guest's memory, and
/// make the value that the guest gets back.
pub fn deliver(f: HostFn, args: &[i32], mem: &mut [u8], answer: Answer) -> (value: Option<
    WasmValue,
>)
    requires
        args@.len() == f.argument_count(),
        answer_fits(f, answer@),
    ensures
        (final(mem)@, value) == delivered(f, args@, old(mem)@, answer@),
        final(mem)@.len() == old(mem)@.len(),
{
    match answer {
        Answer::Done => None,
        Answer::Text(text) => {
            let full = write_capped(mem, args[0], args[1], text.as_str().as_bytes());
            Some(WasmValue::I32(as_signed(full)))
        },
        Answer::Number(n) => Some(WasmValue::I32(as_signed(n))),
        Answer::List(items) => {
            let (count, bytes) = join_nul(items.as_slice());
            let (ptr, limit) = match f {
                HostFn::GetHeaderNames => (args[1], args[2]),
                _ => (args[3], args[4]),
            };
            let full = write_capped(mem, ptr, limit, bytes.as_slice());
            Some(WasmValue::I64(encode_count_len(count, full)))
        },
        Answer::Bytes(data) => match f {
            HostFn::ReadBody => {
                let n = write_capped(mem, args[1], args[2], data.as_slice());
                Some(WasmValue::I64(encode_eof_len(data.len() == 0, n)))
            },
            _ => {
                let full = write_capped(mem, args[0], args[1], data.as_slice());
                Some(WasmValue::I32(as_signed(full)))
            },
        },
        Answer::Flag(b) => Some(
            WasmValue::I32(
                if b {
                    1
                } else {
                    0
                },
            ),
        ),
        Answer::Fetched(Some(response)) => {
            let bytes = encode_response(&response);
            let full = write_capped(mem, args[2], args[3], bytes.as_slice());
            Some(WasmValue::I64(encode_ok_len(true, full)))
        },
        Answer::Fetched(None) => Some(WasmValue::I64(encode_ok_len(false, 0))),
        Answer::Sent(outcome) => Some(WasmValue::I32(outcome_code(outcome))),
    }
}

} // verus!
