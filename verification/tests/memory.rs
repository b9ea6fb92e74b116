//! Reading and writing the guest's memory.

use http_wasm_host::memory::{join_nul, length32, read_mem, read_str, write_capped};

fn memory() -> Vec<u8> {
    b"0123456789".to_vec()
}

#[test]
fn a_range_within_the_memory_is_read() {
    let mem = memory();
    assert_eq!(read_mem(&mem, 2, 3), b"234");
    assert_eq!(read_mem(&mem, 0, 10), b"0123456789");
    assert_eq!(read_mem(&mem, 9, 1), b"9");
    assert_eq!(read_mem(&mem, 10, 0), b"");
}

#[test]
fn a_range_outside_the_memory_reads_as_zeros() {
    let mem = memory();
    assert_eq!(read_mem(&mem, 8, 3), [0, 0, 0]);
    assert_eq!(read_mem(&mem, 10, 1), [0]);
    assert_eq!(read_mem(&mem, -1, 2), [0, 0]);
    assert_eq!(read_mem(&mem, i32::MIN, 1), [0]);
    assert_eq!(read_mem(&mem, i32::MAX, 1), [0]);
    assert_eq!(read_mem(&[], 0, 2), [0, 0]);
}

#[test]
fn a_negative_length_reads_nothing() {
    let mem = memory();
    assert_eq!(read_mem(&mem, 2, -1), b"");
    assert_eq!(read_mem(&mem, -5, i32::MIN), b"");
    assert_eq!(read_str(&mem, 2, -3), "");
}

#[test]
fn text_is_decoded_and_bad_bytes_are_replaced() {
    let mem = "héllo".as_bytes().to_vec();
    assert_eq!(read_str(&mem, 0, 6), "héllo");
    // The cut goes through the two bytes of the `é`.
    assert_eq!(read_str(&mem, 0, 2), "h\u{fffd}");
    assert_eq!(read_str(&[b'a', 0xff, b'b'], 0, 3), "a\u{fffd}b");
    // What cannot be read is zeros, and these are text.
    assert_eq!(read_str(&mem, 5, 2), "\0\0");
}

#[test]
fn a_write_stays_within_its_limit() {
    let mut mem = memory();
    assert_eq!(write_capped(&mut mem, 3, 2, b"abcd"), 4);
    assert_eq!(mem, b"012ab56789");
    assert_eq!(write_capped(&mut mem, 0, 100, b"xyz"), 3);
    assert_eq!(mem, b"xyzab56789");
    assert_eq!(write_capped(&mut mem, 8, 2, b"--"), 2);
    assert_eq!(mem, b"xyzab567--");
}

#[test]
fn a_write_without_room_tells_the_length_alone() {
    let mut mem = memory();
    assert_eq!(write_capped(&mut mem, 3, 0, b"abcd"), 4);
    assert_eq!(write_capped(&mut mem, 3, -1, b"abcd"), 4);
    assert_eq!(write_capped(&mut mem, 3, i32::MIN, b""), 0);
    assert_eq!(mem, memory());
}

#[test]
fn a_write_that_would_leave_the_memory_has_no_effect() {
    let mut mem = memory();
    assert_eq!(write_capped(&mut mem, 8, 4, b"abcd"), 4);
    assert_eq!(write_capped(&mut mem, -1, 4, b"abcd"), 4);
    assert_eq!(write_capped(&mut mem, i32::MAX, 1, b"a"), 1);
    assert_eq!(mem, memory());
}

#[test]
fn what_was_written_is_read_back() {
    let mut mem = memory();
    let full = write_capped(&mut mem, 4, 5, b"hello");
    assert_eq!(read_mem(&mem, 4, full as i32), b"hello");
    // And what lies beside it has not changed.
    assert_eq!(read_mem(&mem, 0, 4), b"0123");
    assert_eq!(read_mem(&mem, 9, 1), b"9");
}

#[test]
fn the_reported_length_is_enough_for_a_second_call() {
    let mut mem = vec![0u8; 32];
    let full = write_capped(&mut mem, 0, 3, b"a longer text");
    assert_eq!(full, 13);
    assert_eq!(&mem[..3], b"a l");
    assert_eq!(write_capped(&mut mem, 0, full as i32, b"a longer text"), 13);
    assert_eq!(read_str(&mem, 0, 13), "a longer text");
}

#[test]
fn lists_are_joined_with_nuls() {
    assert_eq!(join_nul(&[]), (0, Vec::new()));
    assert_eq!(join_nul(&[String::new()]), (1, vec![0]));
    assert_eq!(
        join_nul(&["a".to_string(), "bé".to_string(), String::new()]),
        (3, vec![b'a', 0, b'b', 0xc3, 0xa9, 0, 0])
    );
}

#[test]
fn a_joined_list_splits_at_its_nuls() {
    let items = vec!["accept".to_string(), "x-a".to_string(), "host".to_string()];
    let (count, bytes) = join_nul(&items);
    let pieces: Vec<&[u8]> = bytes.split(|b| *b == 0).collect();
    // The last piece is what follows the last NUL: nothing.
    assert_eq!(pieces.len(), count as usize + 1);
    assert_eq!(pieces[0], b"accept");
    assert_eq!(pieces[1], b"x-a");
    assert_eq!(pieces[2], b"host");
    assert_eq!(pieces[3], b"");
}

#[test]
fn lengths_are_taken_modulo_32_bits() {
    assert_eq!(length32(0), 0);
    assert_eq!(length32(4_294_967_295), u32::MAX);
    assert_eq!(length32(4_294_967_296 + 7), 7);
}
