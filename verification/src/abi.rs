//! Constants and encoding helpers of the http-wasm handler ABI.
//!
//! The ABI is a *core* WebAssembly module ABI (not the component model): the
//! guest imports host functions from the module named [`MODULE`] and exports
//! `handle_request`, `handle_response` and its `memory`.

use vstd::prelude::*;

pub mod features;

verus! {

/// Name of the host module the guest imports its functions from.
pub const MODULE: &'static str = "http_handler";

/// Which HTTP message a header/body/trailer operation targets. Passed as the
/// `kind` parameter to header and body functions.
#[derive(Debug, Clone, Copy, PartialEq, Eq, Structural)]
pub enum HeaderKind {
    Request,
    Response,
    RequestTrailers,
    ResponseTrailers,
}

/// The message that the raw `kind` value `v` selects, if it selects one.
pub open spec fn kind_of(v: int) -> Option<HeaderKind> {
    if v == 0 {
        Some(HeaderKind::Request)
    } else if v == 1 {
        Some(HeaderKind::Response)
    } else if v == 2 {
        Some(HeaderKind::RequestTrailers)
    } else if v == 3 {
        Some(HeaderKind::ResponseTrailers)
    } else {
        None
    }
}

impl HeaderKind {
    /// Decode the raw `kind` i32 from the ABI. Unknown values map to `None`.
    pub fn from_i32(v: i32) -> (kind: Option<Self>)
        ensures
            kind == kind_of(v as int),
    {
        match v {
            0 => Some(Self::Request),
            1 => Some(Self::Response),
            2 => Some(Self::RequestTrailers),
            3 => Some(Self::ResponseTrailers),
            _ => None,
        }
    }
}

/// Log levels of the http-wasm `log` ABI, where they are signed integers (debug
/// is negative). `Off` is the level that is never emitted.
#[derive(Debug, Clone, Copy, PartialEq, Eq, Structural)]
pub enum LogLevel {
    Debug,
    Info,
    Warn,
    Error,
    Off,
}

/// The number that stands for a level in the ABI.
pub open spec fn level_number(level: LogLevel) -> int {
    match level {
        LogLevel::Debug => -1,
        LogLevel::Info => 0,
        LogLevel::Warn => 1,
        LogLevel::Error => 2,
        LogLevel::Off => 3,
    }
}

/// The level that the raw value `v` stands for: the one with that number, and
/// `Info` where no level has it.
pub open spec fn level_of(v: int) -> LogLevel {
    if v == -1 {
        LogLevel::Debug
    } else if v == 1 {
        LogLevel::Warn
    } else if v == 2 {
        LogLevel::Error
    } else if v == 3 {
        LogLevel::Off
    } else {
        LogLevel::Info
    }
}

impl LogLevel {
    /// Decode the raw level i32 from the ABI: debug=-1, info=0, warn=1,
    /// error=2, off=3. Unknown values fall back to `Info`.
    pub fn from_i32(v: i32) -> (level: Self)
        ensures
            level == level_of(v as int),
    {
        match v {
            -1 => Self::Debug,
            0 => Self::Info,
            1 => Self::Warn,
            2 => Self::Error,
            3 => Self::Off,
            _ => Self::Info,
        }
    }
}

/// How severe an emitted log line is.
#[derive(Debug, Clone, Copy, PartialEq, Eq, Structural)]
pub enum Severity {
    Debug,
    Info,
    Warn,
    Error,
}

/// The severity with which a line of the given level is emitted, if it is emitted
/// at all.
pub open spec fn severity_of(level: LogLevel) -> Option<Severity> {
    match level {
        LogLevel::Debug => Some(Severity::Debug),
        LogLevel::Info => Some(Severity::Info),
        LogLevel::Warn => Some(Severity::Warn),
        LogLevel::Error => Some(Severity::Error),
        LogLevel::Off => None,
    }
}

/// The severity with which a line of the given level is emitted, if it is emitted
/// at all.
pub fn severity(level: LogLevel) -> (s: Option<Severity>)
    ensures
        s == severity_of(level),
{
    match level {
        LogLevel::Debug => Some(Severity::Debug),
        LogLevel::Info => Some(Severity::Info),
        LogLevel::Warn => Some(Severity::Warn),
        LogLevel::Error => Some(Severity::Error),
        LogLevel::Off => None,
    }
}

/// Every level is decoded from its own number.
pub proof fn level_round_trips(level: LogLevel)
    ensures
        level_of(level_number(level)) == level,
{
}

/// A value that is no level's number is decoded as `Info`.
pub proof fn unknown_level_is_info(v: int)
    requires
        forall|level: LogLevel| #[trigger] level_number(level) != v,
    ensures
        level_of(v) == LogLevel::Info,
{
    assert(level_number(LogLevel::Debug) != v);
    assert(level_number(LogLevel::Warn) != v);
    assert(level_number(LogLevel::Error) != v);
    assert(level_number(LogLevel::Off) != v);
}

/// The `i32` whose 32 bits are those of `n` modulo 2^32.
pub open spec fn signed32(n: int) -> int {
    let low = n % 0x1_0000_0000;
    if low < 0x8000_0000 {
        low
    } else {
        low - 0x1_0000_0000
    }
}

/// The `u32` whose 32 bits are those of `v`.
pub open spec fn unsigned32(v: i32) -> int {
    v as int % 0x1_0000_0000
}

/// The `i64` with `upper` in its upper and `lower` in its lower 32 bits.
pub open spec fn packed(upper: u32, lower: u32) -> int {
    let n = upper * 0x1_0000_0000 + lower;
    if n < 0x8000_0000_0000_0000 {
        n
    } else {
        n - 0x1_0000_0000_0000_0000
    }
}

/// The upper 32 bits of `v`, as an unsigned number.
pub open spec fn upper_half(v: int) -> int {
    (v / 0x1_0000_0000) % 0x1_0000_0000
}

/// The lower 32 bits of `v`, as an unsigned number.
pub open spec fn lower_half(v: int) -> int {
    v % 0x1_0000_0000
}

/// Both halves of a packed pair can be read back.
pub proof fn packed_halves(upper: u32, lower: u32)
    ensures
        upper_half(packed(upper, lower)) == upper,
        lower_half(packed(upper, lower)) == lower,
{
}

/// An `i64` is determined by its two halves.
pub proof fn halves_determine(v: i64, upper: u32, lower: u32)
    requires
        upper_half(v as int) == upper,
        lower_half(v as int) == lower,
    ensures
        v == packed(upper, lower),
{
}

/// Reading a `u32` as an `i32` loses nothing: the same 32 bits come back.
pub proof fn signed32_keeps_bits(n: u32, v: i32)
    requires
        v == signed32(n as int),
    ensures
        unsigned32(v) == n,
{
}

/// The `i32` with the same 32 bits as `n`.
pub fn as_signed(n: u32) -> (v: i32)
    ensures
        v == signed32(n as int),
{
    let v = n as i32;
    assert(v == signed32(n as int)) by {
        assert(n < 0x8000_0000 ==> n as i32 == n) by (bit_vector);
        assert(n >= 0x8000_0000 ==> n as i32 == n - 0x1_0000_0000) by (bit_vector);
    }
    v
}

/// The `u32` with the same 32 bits as `v`.
pub fn as_unsigned(v: i32) -> (n: u32)
    ensures
        n == unsigned32(v),
{
    let n = v as u32;
    assert(n == unsigned32(v)) by {
        assert(v >= 0 ==> v as u32 == v) by (bit_vector);
        assert(v < 0 ==> v as u32 == v + 0x1_0000_0000) by (bit_vector);
    }
    n
}

/// Encode a `(count, len)` pair into the i64 the ABI returns from
/// `get_header_names` / `get_header_values`: count in the upper 32 bits, byte
/// length in the lower 32 bits.
pub fn encode_count_len(count: u32, len: u32) -> (v: i64)
    ensures
        v == packed(count, len),
{
    let v = ((count as i64) << 32) | (len as i64);
    assert(v == packed(count, len)) by {
        assert(count < 0x8000_0000 ==> ((count as i64) << 32) | (len as i64) == count
            * 0x1_0000_0000 + len) by (bit_vector);
        assert(count >= 0x8000_0000 ==> ((count as i64) << 32) | (len as i64) == count
            * 0x1_0000_0000 + len - 0x1_0000_0000_0000_0000) by (bit_vector);
    }
    v
}

/// A flag as the number it is encoded by.
pub open spec fn flag(b: bool) -> u32 {
    if b {
        1
    } else {
        0
    }
}

/// Encode an `(eof, len)` pair into the i64 returned by `read_body`: the EOF
/// flag in the upper 32 bits, bytes read in the lower 32 bits.
pub fn encode_eof_len(eof: bool, len: u32) -> (v: i64)
    ensures
        v == packed(flag(eof), len),
{
    let high: i64 = if eof {
        1
    } else {
        0
    };
    let v = (high << 32) | (len as i64);
    assert(high == 0 || high == 1 ==> (high << 32) | (len as i64) == high * 0x1_0000_0000 + len)
        by (bit_vector);
    v
}

/// Encode an `(ok, len)` pair into the i64 returned by `http_fetch`: whether the
/// fetch succeeded in the upper 32 bits, the length of the encoded response in
/// the lower 32 bits.
pub fn encode_ok_len(ok: bool, len: u32) -> (v: i64)
    ensures
        v == packed(flag(ok), len),
{
    encode_count_len(if ok { 1 } else { 0 }, len)
}

/// Decode the `ctx_next` i64 returned by the guest's `handle_request`: the
/// opaque request context in the upper 32 bits, the "proceed" flag (1 = call
/// the next handler) in the lower 32 bits.
pub fn decode_ctx_next(v: i64) -> (ctx_next: (u32, bool))
    ensures
        ctx_next.0 == upper_half(v as int),
        ctx_next.1 == (lower_half(v as int) % 2 == 1),
{
    let ctx = (v >> 32) as u32;
    let next = (v as u32) & 1 == 1;
    proof {
        assert((v >> 32) as u32 == (v / 0x1_0000_0000) % 0x1_0000_0000) by (bit_vector);
        assert(((v as u32) & 1 == 1) == ((v % 0x1_0000_0000) % 2 == 1)) by (bit_vector);
    }
    (ctx, next)
}

/// A guest that packs a context and a proceed flag has exactly these decoded.
pub proof fn ctx_next_round_trips(ctx: u32, next: bool)
    ensures
        upper_half(packed(ctx, flag(next))) == ctx,
        (lower_half(packed(ctx, flag(next))) % 2 == 1) == next,
{
}

// ---- What the functions give, number by number ----

/// The kinds are numbered from 0 to 3, and no other number is a kind.
pub proof fn kinds_are_numbered(v: i32, kind: Option<HeaderKind>)
    requires
        call_ensures(HeaderKind::from_i32, (v,), kind),
    ensures
        kind == Some(HeaderKind::Request) <==> v == 0,
        kind == Some(HeaderKind::Response) <==> v == 1,
        kind == Some(HeaderKind::RequestTrailers) <==> v == 2,
        kind == Some(HeaderKind::ResponseTrailers) <==> v == 3,
        kind is None <==> v < 0 || 3 < v,
{
}

/// The levels are numbered from -1 to 3, and every other number is `Info`.
pub proof fn levels_are_numbered(v: i32, level: LogLevel)
    requires
        call_ensures(LogLevel::from_i32, (v,), level),
    ensures
        level == LogLevel::Debug <==> v == -1,
        level == LogLevel::Info <==> v < -1 || v == 0 || 3 < v,
        level == LogLevel::Warn <==> v == 1,
        level == LogLevel::Error <==> v == 2,
        level == LogLevel::Off <==> v == 3,
{
}

/// Every level but `Off` is emitted, and no two with the same severity.
pub proof fn severities_tell_levels_apart(
    first: LogLevel,
    second: LogLevel,
    a: Option<Severity>,
    b: Option<Severity>,
)
    requires
        call_ensures(severity, (first,), a),
        call_ensures(severity, (second,), b),
    ensures
        a == b ==> first == second,
        a is None <==> first == LogLevel::Off,
        a == Some(Severity::Debug) <==> first == LogLevel::Debug,
        a == Some(Severity::Info) <==> first == LogLevel::Info,
        a == Some(Severity::Warn) <==> first == LogLevel::Warn,
        a == Some(Severity::Error) <==> first == LogLevel::Error,
{
}

/// A `u32` and the `i32` with its bits differ by nothing or by 2^32, either way.
pub proof fn the_same_bits(n: u32, v: i32, w: i32, m: u32)
    requires
        call_ensures(as_signed, (n,), v),
        call_ensures(as_unsigned, (w,), m),
    ensures
        v as int == n as int || v as int == n as int - 0x1_0000_0000,
        m as int == w as int || m as int == w as int + 0x1_0000_0000,
{
}

/// A count or a flag is in the upper 32 bits of a pair and a length in the lower
/// ones.
pub proof fn pairs_are_two_numbers(
    count: u32,
    len: u32,
    b: bool,
    counted: i64,
    ended: i64,
    succeeded: i64,
)
    requires
        call_ensures(encode_count_len, (count, len), counted),
        call_ensures(encode_eof_len, (b, len), ended),
        call_ensures(encode_ok_len, (b, len), succeeded),
    ensures
        counted as int == count * 0x1_0000_0000 + len || counted as int == count * 0x1_0000_0000
            + len - 0x1_0000_0000_0000_0000,
        b ==> ended as int == 0x1_0000_0000 + len && succeeded as int == 0x1_0000_0000 + len,
        !b ==> ended as int == len && succeeded as int == len,
{
}

/// The context is the upper 32 bits of what a guest returned, and the flag is the
/// lowest bit.
pub proof fn context_and_flag_are_read(v: i64, ctx_next: (u32, bool), low: u32)
    requires
        call_ensures(decode_ctx_next, (v,), ctx_next),
        (v as int - low as int) % 0x1_0000_0000 == 0,
    ensures
        v as int == ctx_next.0 * 0x1_0000_0000 + low || v as int == ctx_next.0 * 0x1_0000_0000 + low
            - 0x1_0000_0000_0000_0000,
        ctx_next.1 <==> low as int % 2 == 1,
{
}

} // verus!
