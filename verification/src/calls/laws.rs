//! What holds of every call of a host function.

use vstd::prelude::*;
use vstd::utf8::{encode_utf8, encode_utf8_decode_utf8, encode_utf8_valid_utf8};

use super::answer::AnswerView;
use super::delivery::{answer_fits, buffer, delivered, pair_result};
use super::function::{HostFn, WasmType, WasmValue};
use super::plan::{planned, CallView, PlanView};
use crate::abi::{flag, kind_of, lower_half, packed_halves, upper_half};
use crate::fetch::codec::{parsed_request, parsed_response, request_bytes, response_bytes};
use crate::fetch::laws::{request_fits, request_read_back, response_fits, response_read_back};
use crate::fetch::{RequestView, ResponseView};
use crate::memory::laws::{
    joined_list_splits, pieces, read_after_write, reported_length_suffices, write_stays_in_buffer,
};
use crate::memory::{bytes_at, clamped, in_range, joined, len32, text_at, written};

verus! {

/// The type of a value.
pub open spec fn type_of(value: WasmValue) -> WasmType {
    match value {
        WasmValue::I32(_) => WasmType::I32,
        WasmValue::I64(_) => WasmType::I64,
    }
}

/// Whether a result is of the type that `f` declares, or absent if it declares
/// none.
pub open spec fn well_typed(f: HostFn, value: Option<WasmValue>) -> bool {
    match value {
        Some(v) => f.result_type() == Some(type_of(v)),
        None => f.result_type() is None,
    }
}

/// A call has a result of the type that its function declares, whether it is
/// settled at once or by an answer.
pub proof fn results_are_well_typed(f: HostFn, args: Seq<i32>, mem: Seq<u8>, answer: AnswerView)
    requires
        args.len() == f.argument_count(),
    ensures
        planned(f, args, mem) matches PlanView::Now(value) ==> well_typed(f, value),
        answer_fits(f, answer) ==> well_typed(f, delivered(f, args, mem, answer).1),
{
}

/// Whether the first argument of `f` is a `kind`.
pub open spec fn takes_kind(f: HostFn) -> bool {
    match f {
        HostFn::GetHeaderNames
        | HostFn::GetHeaderValues
        | HostFn::SetHeaderValue
        | HostFn::AddHeaderValue
        | HostFn::RemoveHeader
        | HostFn::ReadBody
        | HostFn::WriteBody => true,
        _ => false,
    }
}

/// With an unknown `kind`, nothing is asked of the embedder: there are no
/// headers, the body is at its end, and a change has no effect.
pub proof fn unknown_kind_asks_nothing(f: HostFn, args: Seq<i32>, mem: Seq<u8>)
    requires
        takes_kind(f),
        args.len() == f.argument_count(),
        kind_of(args[0] as int) is None,
    ensures
        planned(f, args, mem) == PlanView::Now(
            match f {
                HostFn::GetHeaderNames | HostFn::GetHeaderValues => Some(WasmValue::I64(0)),
                HostFn::ReadBody => Some(WasmValue::I64(0x1_0000_0000)),
                _ => None,
            },
        ),
{
}

/// With a known `kind`, the embedder is always asked.
pub proof fn known_kind_asks(f: HostFn, args: Seq<i32>, mem: Seq<u8>)
    requires
        takes_kind(f),
        args.len() == f.argument_count(),
        kind_of(args[0] as int) is Some,
    ensures
        planned(f, args, mem) is Ask,
{
}

/// Whatever features a guest asks for are reported as supported.
pub proof fn features_are_echoed(args: Seq<i32>, mem: Seq<u8>)
    requires
        args.len() == HostFn::EnableFeatures.argument_count(),
    ensures
        planned(HostFn::EnableFeatures, args, mem) == PlanView::Now(Some(WasmValue::I32(args[0]))),
{
}

/// An answer changes no byte of the guest's memory outside the buffer that the
/// guest offered for it, and never its size.
pub proof fn delivery_stays_in_buffer(
    f: HostFn,
    args: Seq<i32>,
    mem: Seq<u8>,
    answer: AnswerView,
    i: int,
)
    requires
        args.len() == f.argument_count(),
        0 <= i < mem.len(),
        i < buffer(f, args).0 || buffer(f, args).0 + clamped(buffer(f, args).1) <= i,
    ensures
        delivered(f, args, mem, answer).0.len() == mem.len(),
        delivered(f, args, mem, answer).0[i] == mem[i],
{
    let (ptr, limit) = buffer(f, args);
    match answer {
        AnswerView::Text(text) => write_stays_in_buffer(mem, ptr, limit, encode_utf8(text), i),
        AnswerView::List(items) => write_stays_in_buffer(mem, ptr, limit, joined(items), i),
        AnswerView::Bytes(data) => write_stays_in_buffer(mem, ptr, limit, data, i),
        AnswerView::Fetched(Some(response)) => write_stays_in_buffer(
            mem,
            ptr,
            limit,
            response_bytes(response),
            i,
        ),
        _ => {},
    }
}

/// A text that a guest has put into its memory reaches the embedder as it is.
pub proof fn text_reaches_the_embedder(mem: Seq<u8>, ptr: i32, len: i32, text: Seq<char>)
    requires
        bytes_at(mem, ptr, len) == encode_utf8(text),
    ensures
        text_at(mem, ptr, len) == text,
{
    encode_utf8_valid_utf8(text);
    encode_utf8_decode_utf8(text);
}

/// A text that the embedder answers is in the guest's buffer afterwards if the
/// buffer is as large as the result says, and the result is then its length.
pub proof fn text_reaches_the_guest(f: HostFn, args: Seq<i32>, mem: Seq<u8>, text: Seq<char>)
    requires
        args.len() == f.argument_count(),
        answer_fits(f, AnswerView::Text(text)),
        encode_utf8(text).len() <= i32::MAX,
        args[1] == encode_utf8(text).len(),
        in_range(mem.len(), args[0], args[1] as int),
    ensures
        ({
            let (after, result) = delivered(f, args, mem, AnswerView::Text(text));
            &&& result == Some(WasmValue::I32(args[1]))
            &&& bytes_at(after, args[0], args[1]) == encode_utf8(text)
            &&& text_at(after, args[0], args[1]) == text
        }),
{
    let data = encode_utf8(text);
    reported_length_suffices(mem, args[0], args[1], data);
    let after = delivered(f, args, mem, AnswerView::Text(text)).0;
    text_reaches_the_embedder(after, args[0], args[1], text);
}

/// Data that fit into a buffer are in it once they have been written.
proof fn buffer_holds(mem: Seq<u8>, ptr: i32, limit: i32, data: Seq<u8>)
    requires
        data.len() <= limit,
        in_range(mem.len(), ptr, data.len() as int),
    ensures
        bytes_at(written(mem, ptr, limit, data), ptr, data.len() as i32) == data,
{
    read_after_write(mem, ptr, limit, data, data.len() as i32);
    whole(data);
}

/// A list that the embedder answers is in the guest's buffer afterwards if it fits
/// there: the result tells how many items there are and how many bytes they
/// take, and a guest that splits these at the NULs gets the items, as long as no
/// item holds a NUL itself.
pub proof fn list_reaches_the_guest(
    f: HostFn,
    args: Seq<i32>,
    mem: Seq<u8>,
    items: Seq<Seq<char>>,
)
    requires
        args.len() == f.argument_count(),
        answer_fits(f, AnswerView::List(items)),
        items.len() <= u32::MAX,
        joined(items).len() <= buffer(f, args).1,
        in_range(mem.len(), buffer(f, args).0, joined(items).len() as int),
        forall|i: int, j: int|
            0 <= i < items.len() && 0 <= j < items[i].len() ==> #[trigger] items[i][j] != '\0',
    ensures
        ({
            let n = joined(items).len();
            let (after, result) = delivered(f, args, mem, AnswerView::List(items));
            &&& result matches Some(WasmValue::I64(v)) && upper_half(v as int) == items.len()
                && lower_half(v as int) == n
            &&& pieces(bytes_at(after, buffer(f, args).0, n as i32), 0) == items.map_values(
                |text: Seq<char>| encode_utf8(text),
            )
        }),
{
    let (ptr, limit) = buffer(f, args);
    let data = joined(items);
    packed_halves(len32(items.len()), len32(data.len()));
    buffer_holds(mem, ptr, limit, data);
    joined_list_splits(items);
}

/// Bytes that the embedder answers, of a body or a configuration, are in the
/// guest's buffer afterwards if they fit there.
pub proof fn bytes_reach_the_guest(f: HostFn, args: Seq<i32>, mem: Seq<u8>, data: Seq<u8>)
    requires
        args.len() == f.argument_count(),
        answer_fits(f, AnswerView::Bytes(data)),
        data.len() <= buffer(f, args).1,
        in_range(mem.len(), buffer(f, args).0, data.len() as int),
    ensures
        bytes_at(
            delivered(f, args, mem, AnswerView::Bytes(data)).0,
            buffer(f, args).0,
            data.len() as i32,
        ) == data,
{
    let (ptr, limit) = buffer(f, args);
    buffer_holds(mem, ptr, limit, data);
}

/// The end of a body is reported exactly when the embedder has no more bytes,
/// along with the number of bytes it gave.
pub proof fn end_of_body_is_reported(args: Seq<i32>, mem: Seq<u8>, data: Seq<u8>)
    requires
        args.len() == HostFn::ReadBody.argument_count(),
    ensures
        delivered(HostFn::ReadBody, args, mem, AnswerView::Bytes(data)).1 matches Some(
            WasmValue::I64(v),
        ) && upper_half(v as int) == flag(data.len() == 0) && lower_half(v as int) == len32(
            data.len(),
        ),
{
    packed_halves(flag(data.len() == 0), len32(data.len()));
}

/// A request that a guest has encoded into its memory is what the fetcher, or
/// the sink, is asked to perform.
pub proof fn request_reaches_the_embedder(
    args: Seq<i32>,
    mem: Seq<u8>,
    request: RequestView,
    after: Seq<u8>,
)
    requires
        args.len() >= 2,
        request_fits(request),
        bytes_at(mem, args[0], args[1]) == request_bytes(request) + after,
    ensures
        planned(HostFn::HttpFetch, args, mem) == PlanView::Ask(CallView::Fetch(request)),
        planned(HostFn::HttpSend, args, mem) == PlanView::Ask(CallView::Send(request)),
{
    request_read_back(request, after);
}

/// A response that the fetcher gave can be read from the guest's buffer if it
/// fits there, and the result says that the fetch succeeded and how long the
/// encoded response is.
pub proof fn response_reaches_the_guest(args: Seq<i32>, mem: Seq<u8>, response: ResponseView)
    requires
        args.len() == HostFn::HttpFetch.argument_count(),
        response_fits(response),
        response_bytes(response).len() <= args[3],
        in_range(mem.len(), args[2], response_bytes(response).len() as int),
    ensures
        ({
            let n = response_bytes(response).len();
            let (after, result) = delivered(
                HostFn::HttpFetch,
                args,
                mem,
                AnswerView::Fetched(Some(response)),
            );
            &&& result matches Some(WasmValue::I64(v)) && upper_half(v as int) == 1 && lower_half(
                v as int,
            ) == n
            &&& parsed_response(bytes_at(after, args[2], n as i32)) == Some((response, n as int))
        }),
{
    let data = response_bytes(response);
    let (after, result) = delivered(
        HostFn::HttpFetch,
        args,
        mem,
        AnswerView::Fetched(Some(response)),
    );
    assert(after == written(mem, args[2], args[3], data) && result == Some(
        pair_result(1, len32(data.len())),
    ));
    pair_is_read_back(1, len32(data.len()));
    buffer_holds(mem, args[2], args[3], data);
    whole_response_is_parsed(response);
}

/// A guest reads both numbers back from a pair.
proof fn pair_is_read_back(upper: u32, lower: u32)
    ensures
        pair_result(upper, lower) matches WasmValue::I64(v) && upper_half(v as int) == upper
            && lower_half(v as int) == lower,
{
    packed_halves(upper, lower);
}

/// A response is parsed from exactly the bytes that encode it.
proof fn whole_response_is_parsed(response: ResponseView)
    requires
        response_fits(response),
    ensures
        parsed_response(response_bytes(response)) == Some(
            (response, response_bytes(response).len() as int),
        ),
{
    response_read_back(response, Seq::empty());
    whole(response_bytes(response));
}

/// All of a sequence is the sequence.
proof fn whole(bytes: Seq<u8>)
    ensures
        bytes.take(bytes.len() as int) == bytes,
        bytes + Seq::<u8>::empty() == bytes,
{
    assert(bytes.take(bytes.len() as int) =~= bytes);
    assert(bytes + Seq::<u8>::empty() =~= bytes);
}

/// A fetch that is denied, or whose request cannot be decoded, is reported as
/// failed and leaves the guest's memory as it is.
pub proof fn failed_fetch_is_reported(args: Seq<i32>, mem: Seq<u8>)
    requires
        args.len() == HostFn::HttpFetch.argument_count(),
    ensures
        delivered(HostFn::HttpFetch, args, mem, AnswerView::Fetched(None)) == (
            mem,
            Some(WasmValue::I64(0)),
        ),
        parsed_request(bytes_at(mem, args[0], args[1])) is None ==> planned(
            HostFn::HttpFetch,
            args,
            mem,
        ) == PlanView::Now(Some(WasmValue::I64(0))),
{
}

} // verus!
