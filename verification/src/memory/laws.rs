//! What holds of every access to the guest's memory, and of every list that is
//! passed through it.

use vstd::prelude::*;
use vstd::utf8::{decode_utf8_encode_utf8, encode_scalar, encode_utf8, valid_utf8};

use super::{
    bytes_at, capped, clamped, in_range, join_nul, joined, len32, length32, read_mem, read_str,
    texts, write_capped, written,
};
use crate::abi::signed32;
use crate::text::utf8_lossy;

verus! {

/// A write changes no byte outside the buffer it was given, and never the size
/// of the memory.
pub proof fn write_stays_in_buffer(mem: Seq<u8>, ptr: i32, limit: i32, data: Seq<u8>, i: int)
    requires
        0 <= i < mem.len(),
        i < ptr || ptr + clamped(limit) <= i,
    ensures
        written(mem, ptr, limit, data).len() == mem.len(),
        written(mem, ptr, limit, data)[i] == mem[i],
{
}

/// What was written is what is read: the data, as far as the buffer takes it.
pub proof fn read_after_write(mem: Seq<u8>, ptr: i32, limit: i32, data: Seq<u8>, n: i32)
    requires
        n == capped(limit, data.len()),
        in_range(mem.len(), ptr, n as int),
    ensures
        bytes_at(written(mem, ptr, limit, data), ptr, n) == data.take(n as int),
{
    assert(bytes_at(written(mem, ptr, limit, data), ptr, n) =~= data.take(n as int));
}

/// A read does not see a write to a range apart from its own.
pub proof fn read_apart_from_write(
    mem: Seq<u8>,
    ptr: i32,
    limit: i32,
    data: Seq<u8>,
    at: i32,
    len: i32,
)
    requires
        at + clamped(len) <= ptr || ptr + clamped(limit) <= at,
    ensures
        bytes_at(written(mem, ptr, limit, data), at, len) == bytes_at(mem, at, len),
{
    assert(bytes_at(written(mem, ptr, limit, data), at, len) =~= bytes_at(mem, at, len));
}

/// The length that a write reports is enough: a guest that calls again with a
/// buffer of that size gets all of the data.
pub proof fn reported_length_suffices(mem: Seq<u8>, ptr: i32, limit: i32, data: Seq<u8>)
    requires
        data.len() <= i32::MAX,
        limit == signed32(len32(data.len()) as int),
        in_range(mem.len(), ptr, data.len() as int),
    ensures
        bytes_at(written(mem, ptr, limit, data), ptr, limit) == data,
{
    read_after_write(mem, ptr, limit, data, limit);
    assert(data.take(limit as int) =~= data);
}

/// A read gives as many bytes as were asked for, wherever it points.
pub proof fn read_has_the_length_asked_for(mem: Seq<u8>, ptr: i32, len: i32)
    ensures
        bytes_at(mem, ptr, len).len() == clamped(len),
{
}

// ---- Lists ----

/// Whether no byte is a NUL.
pub open spec fn without_nul(bytes: Seq<u8>) -> bool {
    forall|i: int| 0 <= i < bytes.len() ==> #[trigger] bytes[i] != 0
}

/// The position of the first NUL at or behind `from`, or the length if there is
/// none.
pub open spec fn nul_from(bytes: Seq<u8>, from: int) -> int
    decreases bytes.len() - from,
{
    if from >= bytes.len() || bytes[from] == 0 {
        from
    } else {
        nul_from(bytes, from + 1)
    }
}

/// The pieces that end in a NUL, as a guest reads them from the front.
pub open spec fn pieces(bytes: Seq<u8>, from: int) -> Seq<Seq<u8>>
    decreases bytes.len() - from,
    when 0 <= from
    via pieces_decreases
{
    let end = nul_from(bytes, from);
    if from >= bytes.len() || end >= bytes.len() {
        seq![]
    } else {
        seq![bytes.subrange(from, end)] + pieces(bytes, end + 1)
    }
}

#[via_fn]
proof fn pieces_decreases(bytes: Seq<u8>, from: int) {
    if from < bytes.len() {
        nul_from_bounds(bytes, from);
    }
}

/// Where the search for a NUL ends.
proof fn nul_from_bounds(bytes: Seq<u8>, from: int)
    requires
        0 <= from <= bytes.len(),
    ensures
        from <= nul_from(bytes, from) <= bytes.len(),
    decreases bytes.len() - from,
{
    if from < bytes.len() && bytes[from] != 0 {
        nul_from_bounds(bytes, from + 1);
    }
}

/// A piece without a NUL is passed over up to the NUL behind it.
proof fn nul_found(bytes: Seq<u8>, from: int, end: int)
    requires
        0 <= from <= end < bytes.len(),
        bytes[end] == 0,
        forall|i: int| from <= i < end ==> bytes[i] != 0,
    ensures
        nul_from(bytes, from) == end,
    decreases end - from,
{
    if from < end {
        nul_found(bytes, from + 1, end);
    }
}

/// The same NUL is found if more bytes stand in front.
proof fn nul_from_shifted(before: Seq<u8>, bytes: Seq<u8>, from: int)
    requires
        0 <= from <= bytes.len(),
    ensures
        nul_from(before + bytes, before.len() + from) == before.len() + nul_from(bytes, from),
    decreases bytes.len() - from,
{
    if from < bytes.len() {
        assert((before + bytes)[before.len() + from] == bytes[from]);
        if bytes[from] != 0 {
            nul_from_shifted(before, bytes, from + 1);
        }
    }
}

/// The same pieces are read if more bytes stand in front.
proof fn pieces_shifted(before: Seq<u8>, bytes: Seq<u8>, from: int)
    requires
        0 <= from <= bytes.len(),
    ensures
        pieces(before + bytes, before.len() + from) == pieces(bytes, from),
    decreases bytes.len() - from,
{
    nul_from_shifted(before, bytes, from);
    nul_from_bounds(bytes, from);
    let end = nul_from(bytes, from);
    if from < bytes.len() && end < bytes.len() {
        assert((before + bytes).subrange(before.len() + from, before.len() + end)
            =~= bytes.subrange(from, end));
        pieces_shifted(before, bytes, end + 1);
    }
}

/// One text and its NUL are read as the first piece.
proof fn first_piece(text: Seq<u8>, rest: Seq<u8>)
    requires
        without_nul(text),
    ensures
        pieces(text + seq![0u8] + rest, 0) == seq![text] + pieces(rest, 0),
{
    let head = text + seq![0u8];
    let bytes = head + rest;
    assert forall|i: int| 0 <= i < text.len() implies bytes[i] != 0 by {
        assert(bytes[i] == text[i]);
    }
    assert(bytes[text.len() as int] == 0);
    nul_found(bytes, 0, text.len() as int);
    assert(bytes.subrange(0, text.len() as int) =~= text);
    pieces_shifted(head, rest, 0);
}

/// A list is joined item by item from the front, too.
proof fn joined_from_front(items: Seq<Seq<char>>)
    requires
        items.len() > 0,
    ensures
        joined(items) == encode_utf8(items[0]) + seq![0u8] + joined(items.drop_first()),
    decreases items.len(),
{
    let rest = items.drop_first();
    if items.len() == 1 {
        assert(items.drop_last() =~= seq![]);
        assert(rest =~= seq![]);
        assert(joined(items) =~= encode_utf8(items[0]) + seq![0u8] + joined(rest));
    } else {
        let init = items.drop_last();
        joined_from_front(init);
        assert(init.drop_first() =~= rest.drop_last());
        assert(rest.last() == items.last());
        assert(init[0] == items[0]);
        assert(joined(items) =~= encode_utf8(items[0]) + seq![0u8] + joined(rest));
    }
}

/// A character other than NUL is encoded without a NUL byte.
proof fn scalar_without_nul(c: char)
    requires
        c != '\0',
    ensures
        without_nul(encode_scalar(c as u32)),
{
    let n = c as u32;
    assert(n != 0);
    assert(0 < n < 0x80 ==> (n & 0x7f) as u8 != 0) by (bit_vector);
    assert(0xC0u8 | ((n >> 6) & 0x1F) as u8 != 0) by (bit_vector);
    assert(0xE0u8 | ((n >> 12) & 0x0F) as u8 != 0) by (bit_vector);
    assert(0xF0u8 | ((n >> 18) & 0x07) as u8 != 0) by (bit_vector);
    assert(0x80u8 | (n & 0x3F) as u8 != 0) by (bit_vector);
    assert(0x80u8 | ((n >> 6) & 0x3F) as u8 != 0) by (bit_vector);
    assert(0x80u8 | ((n >> 12) & 0x3F) as u8 != 0) by (bit_vector);
}

/// A text without NUL characters is encoded without NUL bytes.
proof fn text_without_nul(text: Seq<char>)
    requires
        forall|i: int| 0 <= i < text.len() ==> text[i] != '\0',
    ensures
        without_nul(encode_utf8(text)),
    decreases text.len(),
{
    if text.len() > 0 {
        let rest = text.drop_first();
        assert forall|i: int| 0 <= i < rest.len() implies rest[i] != '\0' by {
            assert(rest[i] == text[i + 1]);
        }
        text_without_nul(rest);
        scalar_without_nul(text[0]);
        let head = encode_scalar(text[0] as u32);
        let all = encode_utf8(text);
        assert forall|i: int| 0 <= i < all.len() implies #[trigger] all[i] != 0 by {
            if i < head.len() {
                assert(all[i] == head[i]);
            } else {
                assert(all[i] == encode_utf8(rest)[i - head.len()]);
            }
        }
    }
}

/// A guest that splits a joined list at the NULs gets the items back, in order
/// and as many as there were, as long as no item holds a NUL itself.
pub proof fn joined_list_splits(items: Seq<Seq<char>>)
    requires
        forall|i: int, j: int|
            0 <= i < items.len() && 0 <= j < items[i].len() ==> #[trigger] items[i][j] != '\0',
    ensures
        pieces(joined(items), 0) == items.map_values(|text: Seq<char>| encode_utf8(text)),
    decreases items.len(),
{
    let encoded = items.map_values(|text: Seq<char>| encode_utf8(text));
    if items.len() == 0 {
        assert(encoded =~= seq![]);
    } else {
        let rest = items.drop_first();
        assert forall|i: int, j: int|
            0 <= i < rest.len() && 0 <= j < rest[i].len() implies #[trigger] rest[i][j] != '\0' by {
            assert(rest[i] == items[i + 1]);
            assert(items[i + 1][j] != '\0');
        }
        joined_list_splits(rest);
        joined_from_front(items);
        assert forall|j: int| 0 <= j < items[0].len() implies items[0][j] != '\0' by {
        }
        text_without_nul(items[0]);
        first_piece(encode_utf8(items[0]), joined(rest));
        assert(encoded =~= seq![encode_utf8(items[0])] + rest.map_values(
            |text: Seq<char>| encode_utf8(text),
        ));
    }
}

// ---- What the functions give, byte by byte ----

/// Reading gives as many bytes as were asked for: those in the memory if all of
/// them are there, and zeros if not.
pub proof fn what_is_read(mem: &[u8], ptr: i32, len: i32, bytes: Vec<u8>)
    requires
        call_ensures(read_mem, (mem, ptr, len), bytes),
    ensures
        len >= 0 ==> bytes@.len() == len,
        len < 0 ==> bytes@.len() == 0,
        0 <= ptr && 0 <= len && ptr + len <= mem@.len() ==> forall|i: int|
            0 <= i < len ==> #[trigger] bytes@[i] == mem@[ptr + i],
        0 <= len && !(0 <= ptr && ptr + len <= mem@.len()) ==> forall|i: int|
            0 <= i < len ==> #[trigger] bytes@[i] == 0,
{
}

/// Reading a text decodes the bytes that are read there: as they are if they are
/// UTF-8, and with replacement characters if not.
pub proof fn what_text_is_read(mem: &[u8], ptr: i32, len: i32, bytes: Vec<u8>, text: String)
    requires
        call_ensures(read_mem, (mem, ptr, len), bytes),
        call_ensures(read_str, (mem, ptr, len), text),
    ensures
        valid_utf8(bytes@) ==> encode_utf8(text@) == bytes@,
        !valid_utf8(bytes@) ==> text@ == utf8_lossy(bytes@) && text@.contains('\u{FFFD}'),
{
    if valid_utf8(bytes@) {
        decode_utf8_encode_utf8(bytes@);
    }
}

/// Writing puts the data into the memory, as far as there is room for them in the
/// buffer, and changes nothing else. It changes nothing at all if they would end
/// outside the memory. The length that is told is that of all the data.
pub proof fn what_is_written(mem: &mut [u8], ptr: i32, limit: i32, data: &[u8], full: u32, n: int)
    requires
        call_ensures(write_capped, (mem, ptr, limit, data), full),
        n == if limit <= 0 {
            0
        } else if limit < data@.len() {
            limit as int
        } else {
            data@.len() as int
        },
    ensures
        final(mem)@.len() == old(mem)@.len(),
        0 <= ptr && ptr + n <= old(mem)@.len() ==> forall|i: int|
            0 <= i < n ==> #[trigger] data@[i] == final(mem)@[ptr + i],
        0 <= ptr && ptr + n <= old(mem)@.len() ==> forall|i: int|
            0 <= i < old(mem)@.len() && !(ptr <= i < ptr + n) ==> #[trigger] final(mem)@[i] == old(
                mem,
            )@[i],
        !(0 <= ptr && ptr + n <= old(mem)@.len()) ==> final(mem)@ == old(mem)@,
        (data@.len() as int - full as int) % 0x1_0000_0000 == 0,
        data@.len() < 0x1_0000_0000 ==> full == data@.len(),
{
    let before = old(mem)@;
    assert(final(mem)@ == written(before, ptr, limit, data@));
    assert(n == capped(limit, data@.len()));
    if 0 <= ptr && ptr + n <= before.len() {
        assert forall|i: int| 0 <= i < n implies #[trigger] data@[i] == final(mem)@[ptr + i] by {
            assert(data@.take(n)[i] == data@[i]);
        }
    }
}

/// A longer list has the bytes of the shorter one, then those of its last item and
/// a NUL. An empty one has none. The count is that of the items.
pub proof fn what_is_joined(
    items: &[String],
    longer: &[String],
    some: (u32, Vec<u8>),
    more: (u32, Vec<u8>),
)
    requires
        call_ensures(join_nul, (items,), some),
        call_ensures(join_nul, (longer,), more),
    ensures
        items@.len() == 0 ==> some.1@.len() == 0,
        longer@.len() == items@.len() + 1 && longer@.drop_last() == items@ ==> more.1@ == some.1@
            + encode_utf8(longer@.last()@) + seq![0u8],
        (items@.len() as int - some.0 as int) % 0x1_0000_0000 == 0,
        items@.len() < 0x1_0000_0000 ==> some.0 == items@.len(),
{
    if longer@.len() == items@.len() + 1 && longer@.drop_last() == items@ {
        assert(texts(longer@).drop_last() =~= texts(items@));
        assert(texts(longer@).last() == longer@.last()@);
    }
}

/// What [`what_is_joined`] says of lists holds of their texts: the bytes of an empty
/// list are none, and one more text adds its own bytes and a NUL.
pub proof fn one_more_text(items: Seq<Seq<char>>, text: Seq<char>)
    ensures
        joined(seq![]) == Seq::<u8>::empty(),
        joined(items.push(text)) == joined(items) + encode_utf8(text) + seq![0u8],
{
    assert(items.push(text).drop_last() =~= items);
}

/// A length is told modulo 2^32.
pub proof fn what_length_is_told(n: usize, len: u32)
    requires
        call_ensures(length32, (n,), len),
    ensures
        (n as int - len as int) % 0x1_0000_0000 == 0,
        n < 0x1_0000_0000 ==> len == n,
{
}

} // verus!
