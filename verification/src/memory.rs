//! Access to the guest's linear memory, and the text lists that are passed
//! through it.
//!
//! Guest addresses and lengths arrive as raw `i32` values and are never
//! trusted: a negative length counts as zero, and an access that does not lie
//! within the memory has no effect on it.

use vstd::prelude::*;
use vstd::utf8::{decode_utf8, encode_utf8, valid_utf8};

use crate::text::{lossy_string, utf8_lossy};

pub mod laws;

verus! {

/// A length or limit given by the guest, with negative values counted as zero.
pub open spec fn clamped(n: i32) -> int {
    if n > 0 {
        n as int
    } else {
        0
    }
}

/// Whether the `n` bytes at `ptr` lie within a memory of `size` bytes.
pub open spec fn in_range(size: nat, ptr: i32, n: int) -> bool {
    0 <= ptr && ptr + n <= size
}

/// What the host sees when it reads `len` bytes at `ptr`: the bytes there, or
/// as many zeros if the range does not lie within the memory.
pub open spec fn bytes_at(mem: Seq<u8>, ptr: i32, len: i32) -> Seq<u8> {
    if in_range(mem.len(), ptr, clamped(len)) {
        mem.subrange(ptr as int, ptr + clamped(len))
    } else {
        Seq::new(clamped(len) as nat, |i: int| 0u8)
    }
}

/// The text that `bytes` hold: what they decode to if they are UTF-8, and what
/// the standard library makes of them if not.
pub open spec fn lossy_text(bytes: Seq<u8>) -> Seq<char> {
    if valid_utf8(bytes) {
        decode_utf8(bytes)
    } else {
        utf8_lossy(bytes)
    }
}

/// What the host sees when it reads `len` bytes of text at `ptr`.
pub open spec fn text_at(mem: Seq<u8>, ptr: i32, len: i32) -> Seq<char> {
    lossy_text(bytes_at(mem, ptr, len))
}

/// Whether the text at `ptr` holds a replacement character if its bytes are not
/// UTF-8.
pub open spec fn is_marked(mem: Seq<u8>, ptr: i32, len: i32) -> bool {
    valid_utf8(bytes_at(mem, ptr, len)) || text_at(mem, ptr, len).contains('\u{FFFD}')
}

/// How many of `size` bytes are written into a buffer of `limit` bytes.
pub open spec fn capped(limit: i32, size: nat) -> int {
    if clamped(limit) < size {
        clamped(limit)
    } else {
        size as int
    }
}

/// The memory after `data`, truncated to `limit`, has been written at `ptr`. A
/// range that does not lie within the memory leaves it as it is.
pub open spec fn written(mem: Seq<u8>, ptr: i32, limit: i32, data: Seq<u8>) -> Seq<u8> {
    let n = capped(limit, data.len());
    if in_range(mem.len(), ptr, n) {
        mem.take(ptr as int) + data.take(n) + mem.skip(ptr + n)
    } else {
        mem
    }
}

/// The length of `n` bytes as the ABI's 32-bit lengths hold it.
pub open spec fn len32(n: nat) -> u32 {
    (n % 0x1_0000_0000) as u32
}

/// The low 32 bits of a length.
pub fn length32(n: usize) -> (len: u32)
    ensures
        len == len32(n as nat),
{
    let wide = n as u64;
    assert(wide as u32 == wide % 0x1_0000_0000) by (bit_vector);
    wide as u32
}

/// Read `len` bytes at `ptr` from guest memory into a `Vec`.
pub fn read_mem(mem: &[u8], ptr: i32, len: i32) -> (bytes: Vec<u8>)
    ensures
        bytes@ == bytes_at(mem@, ptr, len),
{
    let n: usize = if len > 0 {
        len as usize
    } else {
        0
    };
    if ptr >= 0 && n <= mem.len() && ptr as usize <= mem.len() - n {
        let start = ptr as usize;
        vstd::slice::slice_to_vec(vstd::slice::slice_subrange(mem, start, start + n))
    } else {
        vec![0u8; n]
    }
}

/// Read `len` bytes at `ptr` from guest memory as text. Bytes that are not
/// valid UTF-8 are replaced.
pub fn read_str(mem: &[u8], ptr: i32, len: i32) -> (text: String)
    ensures
        text@ == text_at(mem@, ptr, len),
        is_marked(mem@, ptr, len),
{
    let bytes = read_mem(mem, ptr, len);
    lossy_string(bytes.as_slice())
}

/// Write `data` into guest memory at `ptr`, truncated to `limit`. Returns the
/// full length the guest *would* need (so it can re-call with a bigger buffer).
pub fn write_capped(mem: &mut [u8], ptr: i32, limit: i32, data: &[u8]) -> (full: u32)
    ensures
        final(mem)@ == written(old(mem)@, ptr, limit, data@),
        full == len32(data@.len()),
{
    let room: usize = if limit > 0 {
        limit as usize
    } else {
        0
    };
    let n: usize = if room < data.len() {
        room
    } else {
        data.len()
    };
    let size = mem.len();
    if ptr >= 0 && n <= size && ptr as usize <= size - n {
        let start = ptr as usize;
        let mut i: usize = 0;
        while i < n
            invariant
                i <= n <= data@.len(),
                start + n <= size,
                mem@.len() == size,
                old(mem)@.len() == size,
                mem@ =~= old(mem)@.take(start as int) + data@.take(i as int) + old(mem)@.skip(
                    start + i,
                ),
            decreases n - i,
        {
            mem[start + i] = data[i];
            i = i + 1;
        }
        assert(mem@ =~= written(old(mem)@, ptr, limit, data@));
    }
    length32(data.len())
}

/// The texts of a list of strings.
pub open spec fn texts(items: Seq<String>) -> Seq<Seq<char>> {
    Seq::new(items.len(), |i: int| items[i]@)
}

/// The UTF-8 bytes of each text, one after the other, each followed by a NUL.
pub open spec fn joined(items: Seq<Seq<char>>) -> Seq<u8>
    decreases items.len(),
{
    if items.len() == 0 {
        seq![]
    } else {
        joined(items.drop_last()) + encode_utf8(items.last()) + seq![0u8]
    }
}

/// NUL-terminate and concatenate a list of strings, as the header-name/value
/// ABI expects. Returns `(count, joined_bytes)`.
pub fn join_nul(items: &[String]) -> (count_bytes: (u32, Vec<u8>))
    ensures
        count_bytes.0 == len32(items@.len()),
        count_bytes.1@ == joined(texts(items@)),
{
    let mut out: Vec<u8> = Vec::new();
    let mut i: usize = 0;
    while i < items.len()
        invariant
            i <= items@.len(),
            out@ == joined(texts(items@).take(i as int)),
        decreases items@.len() - i,
    {
        out.extend_from_slice(items[i].as_str().as_bytes());
        out.push(0);
        proof {
            let seen = texts(items@).take(i + 1);
            assert(seen.drop_last() =~= texts(items@).take(i as int));
            assert(seen.last() == items@[i as int]@);
        }
        i = i + 1;
    }
    assert(texts(items@).take(items@.len() as int) =~= texts(items@));
    (length32(items.len()), out)
}

} // verus!
