//! What a phase makes of the guest's outcome, and the limits and errors.

use std::time::Duration;

use http_wasm_host::runtime::{request_result, response_args, response_result, Called};
use http_wasm_host::time::{extension, next_wait};
use http_wasm_host::{Error, Limits, Next, Plugin};

#[test]
fn default_limits() {
    let limits = Limits::default();
    assert_eq!(limits.timeout, Duration::from_millis(100));
    assert_eq!(limits.max_memory_bytes, 16_777_216);
}

#[test]
fn a_plugin_keeps_its_limits() {
    let limits = Limits {
        timeout: Duration::from_millis(7),
        max_memory_bytes: 65_536,
    };
    let plugin = Plugin::from_bytes(b"(module)", limits).unwrap();
    assert_eq!(plugin.limits().timeout, Duration::from_millis(7));
    assert_eq!(plugin.limits().max_memory_bytes, 65_536);
}

#[test]
fn errors_have_a_text() {
    assert_eq!(
        Error::Load("bad magic".to_string()).message(),
        "failed to load guest: bad magic"
    );
    assert_eq!(
        Error::Run("trap".to_string()).message(),
        "guest execution failed: trap"
    );
    assert_eq!(
        Error::MissingExport("memory").message(),
        "guest is missing required export `memory`"
    );
}

#[test]
fn the_request_phase_follows_the_flag() {
    let returned = |raw: i64| request_result(Called::Returned(raw)).unwrap();
    assert_eq!(returned(0), Next::Stop);
    assert_eq!(returned(1), Next::Continue(0));
    assert_eq!(returned((7 << 32) | 1), Next::Continue(7));
    assert_eq!(returned(7 << 32), Next::Stop);
    // Only the lowest bit of the lower half is the flag.
    assert_eq!(returned(2), Next::Stop);
    assert_eq!(returned(3), Next::Continue(0));
    assert_eq!(returned(-1), Next::Continue(u32::MAX));
    assert_eq!(returned(-2), Next::Stop);
}

#[test]
fn the_request_phase_needs_its_export() {
    assert!(matches!(
        request_result(Called::Missing),
        Err(Error::MissingExport("handle_request"))
    ));
    match request_result(Called::Failed("unreachable".to_string())) {
        Err(Error::Run(text)) => assert_eq!(text, "unreachable"),
        other => panic!("{other:?}"),
    }
}

#[test]
fn the_response_phase_is_optional() {
    assert!(response_result(Called::Missing).is_ok());
    assert!(response_result(Called::Returned(())).is_ok());
    match response_result(Called::Failed("out of bounds".to_string())) {
        Err(Error::Run(text)) => assert_eq!(text, "out of bounds"),
        other => panic!("{other:?}"),
    }
}

#[test]
fn the_response_phase_gets_the_context_bit_by_bit() {
    assert_eq!(response_args(0, false), (0, 0));
    assert_eq!(response_args(5, true), (5, 1));
    assert_eq!(response_args(0x8000_0000, false), (i32::MIN, 0));
    assert_eq!(response_args(u32::MAX, true), (-1, 1));
}

#[test]
fn a_guest_goes_on_while_there_is_budget() {
    assert_eq!(extension(0, 1), Some(1));
    assert_eq!(extension(99_999_999, 100_000_000), Some(1));
    assert_eq!(extension(100_000_000, 100_000_000), None);
    assert_eq!(extension(u128::MAX, 0), None);
    assert_eq!(extension(0, 0), None);
}

#[test]
fn the_first_tick_comes_with_the_end_of_the_budget() {
    let (timeout, grace) = (Duration::from_millis(100), Duration::from_millis(1));
    assert_eq!(next_wait(false, timeout, grace), timeout);
    assert_eq!(next_wait(true, timeout, grace), grace);
}
