//! End-to-end tests: load a guest through the host and assert that the ABI
//! round-trips (header read, header add, status, short-circuit, outbound HTTP).

use std::collections::HashMap;
use std::sync::{Arc, Mutex};
use std::time::{Duration, Instant};

use http_wasm_host::{
    Error, FetchRequest, FetchResponse, Fetcher, HeaderKind, Host, Limits, LogLevel, Next, Plugin,
    SendOutcome, Sink,
};

/// A self-contained in-memory request/response used to drive a guest.
#[derive(Default)]
struct TestHost {
    method: String,
    uri: String,
    status: u32,
    req_headers: HashMap<String, Vec<String>>,
    resp_headers: HashMap<String, Vec<String>>,
    resp_body: Vec<u8>,
    logged: Mutex<Vec<(LogLevel, String)>>,
    ticker: Option<wasmtime::Engine>,
}

impl TestHost {
    fn with_req_header(mut self, name: &str, value: &str) -> Self {
        self.req_headers
            .entry(name.to_ascii_lowercase())
            .or_default()
            .push(value.to_string());
        self
    }
    fn map(&mut self, kind: HeaderKind) -> &mut HashMap<String, Vec<String>> {
        match kind {
            HeaderKind::Request | HeaderKind::RequestTrailers => &mut self.req_headers,
            HeaderKind::Response | HeaderKind::ResponseTrailers => &mut self.resp_headers,
        }
    }
}

impl Host for TestHost {
    fn method(&self) -> String {
        self.method.clone()
    }
    fn set_method(&mut self, m: &str) {
        self.method = m.to_string();
    }
    fn uri(&self) -> String {
        self.uri.clone()
    }
    fn set_uri(&mut self, u: &str) {
        self.uri = u.to_string();
    }
    fn protocol_version(&self) -> String {
        "HTTP/1.1".to_string()
    }
    fn source_addr(&self) -> String {
        "127.0.0.1:1234".to_string()
    }
    fn status_code(&self) -> u32 {
        if let Some(engine) = &self.ticker {
            engine.increment_epoch();
        }
        self.status
    }
    fn set_status_code(&mut self, s: u32) {
        self.status = s;
    }
    fn header_names(&self, kind: HeaderKind) -> Vec<String> {
        let m = match kind {
            HeaderKind::Request | HeaderKind::RequestTrailers => &self.req_headers,
            HeaderKind::Response | HeaderKind::ResponseTrailers => &self.resp_headers,
        };
        m.keys().cloned().collect()
    }
    fn header_values(&self, kind: HeaderKind, name: &str) -> Vec<String> {
        let m = match kind {
            HeaderKind::Request | HeaderKind::RequestTrailers => &self.req_headers,
            HeaderKind::Response | HeaderKind::ResponseTrailers => &self.resp_headers,
        };
        m.get(&name.to_ascii_lowercase())
            .cloned()
            .unwrap_or_default()
    }
    fn set_header_value(&mut self, kind: HeaderKind, name: &str, value: &str) {
        self.map(kind)
            .insert(name.to_ascii_lowercase(), vec![value.to_string()]);
    }
    fn add_header_value(&mut self, kind: HeaderKind, name: &str, value: &str) {
        self.map(kind)
            .entry(name.to_ascii_lowercase())
            .or_default()
            .push(value.to_string());
    }
    fn remove_header(&mut self, kind: HeaderKind, name: &str) {
        self.map(kind).remove(&name.to_ascii_lowercase());
    }
    fn read_body(&mut self, _kind: HeaderKind, _max: usize) -> Vec<u8> {
        Vec::new()
    }
    fn write_body(&mut self, kind: HeaderKind, data: &[u8]) {
        if matches!(kind, HeaderKind::Response) {
            self.resp_body = data.to_vec();
        }
    }
    fn log(&self, level: LogLevel, message: &str) {
        self.logged.lock().unwrap().push((level, message.to_string()));
    }
}

/// A GET of `/`, with nothing else set.
fn plain_get() -> TestHost {
    TestHost {
        method: "GET".into(),
        uri: "/".into(),
        status: 200,
        ..Default::default()
    }
}

/// Reads request header `x-block`; if it starts with `yes`, sets status 403,
/// writes a body and stops, else adds response header `x-greeted: true` and
/// continues.
const HEADERS_GUEST: &str = r#"
(module
  (import "http_handler" "get_header_values"
    (func $get (param i32 i32 i32 i32 i32) (result i64)))
  (import "http_handler" "add_header_value" (func $add (param i32 i32 i32 i32 i32)))
  (import "http_handler" "set_status_code" (func $status (param i32)))
  (import "http_handler" "write_body" (func $body (param i32 i32 i32)))
  (memory (export "memory") 1)
  (data (i32.const 0) "x-block")
  (data (i32.const 16) "x-greeted")
  (data (i32.const 32) "true")
  (data (i32.const 48) "blocked by guest")
  (func (export "handle_request") (result i64)
    (local $len i32)
    (local.set $len (i32.wrap_i64
      (call $get (i32.const 0) (i32.const 0) (i32.const 7) (i32.const 256) (i32.const 256))))
    (if (i32.and
          (i32.ge_u (local.get $len) (i32.const 3))
          (i32.eq (i32.and (i32.load (i32.const 256)) (i32.const 0xffffff))
                  (i32.const 0x736579)))
      (then
        (call $status (i32.const 403))
        (call $body (i32.const 1) (i32.const 48) (i32.const 16))
        (return (i64.const 0))))
    (call $add (i32.const 1) (i32.const 16) (i32.const 9) (i32.const 32) (i32.const 4))
    (i64.const 1))
  (func (export "handle_response") (param i32 i32)))
"#;

/// Fetches `http://lapi/decide`; if the fetched status is 403, sets status 403,
/// writes a body and stops, else (or if the fetch fails) continues.
const FETCH_GUEST: &str = r#"
(module
  (import "http_handler" "http_fetch" (func $fetch (param i32 i32 i32 i32) (result i64)))
  (import "http_handler" "set_status_code" (func $status (param i32)))
  (import "http_handler" "write_body" (func $body (param i32 i32 i32)))
  (memory (export "memory") 1)
  (data (i32.const 0) "\03\00\00\00GET\12\00\00\00http://lapi/decide\00\00\00\00\00\00\00\00")
  (data (i32.const 64) "denied by decision api")
  (func (export "handle_request") (result i64)
    (if (i64.eqz (i64.shr_u
          (call $fetch (i32.const 0) (i32.const 37) (i32.const 256) (i32.const 256))
          (i64.const 32)))
      (then (return (i64.const 1))))
    (if (i32.eq (i32.load (i32.const 256)) (i32.const 403))
      (then
        (call $status (i32.const 403))
        (call $body (i32.const 1) (i32.const 64) (i32.const 22))
        (return (i64.const 0))))
    (i64.const 1))
  (func (export "handle_response") (param i32 i32)))
"#;

/// Fires one POST beacon to `http://collector/api/send` and continues.
const SEND_GUEST: &str = r#"
(module
  (import "http_handler" "http_send" (func $send (param i32 i32) (result i32)))
  (memory (export "memory") 1)
  (data (i32.const 0)
    "\04\00\00\00POST\19\00\00\00http://collector/api/send\00\00\00\00\10\00\00\00{\22type\22:\22event\22}")
  (func (export "handle_request") (result i64)
    (drop (call $send (i32.const 0) (i32.const 61)))
    (i64.const 1))
  (func (export "handle_response") (param i32 i32)))
"#;

fn load(guest: &str) -> Plugin {
    Plugin::from_bytes(guest.as_bytes(), Limits::default()).unwrap()
}

/// Records every request the guest fires, so the test can inspect it.
#[derive(Default)]
struct RecordingSink {
    sent: Mutex<Vec<FetchRequest>>,
}

impl Sink for RecordingSink {
    fn send(&self, request: FetchRequest) -> SendOutcome {
        self.sent.lock().unwrap().push(request);
        SendOutcome::Queued
    }
}

/// A canned fetcher returning a fixed status.
struct CannedFetcher {
    status: u16,
}

impl Fetcher for CannedFetcher {
    fn fetch(&self, _request: FetchRequest) -> Result<FetchResponse, String> {
        Ok(FetchResponse {
            status: self.status,
            headers: vec![],
            body: Vec::new(),
        })
    }
}

/// A fetcher that denies every call.
struct DenyingFetcher;

impl Fetcher for DenyingFetcher {
    fn fetch(&self, _request: FetchRequest) -> Result<FetchResponse, String> {
        Err("not allowed".to_string())
    }
}

#[test]
fn guest_continues_and_adds_response_header() {
    let plugin = load(HEADERS_GUEST);
    let mut host = plain_get();

    let next = plugin.handle_request(&mut host).unwrap();
    assert_eq!(next, Next::Continue(0));
    assert_eq!(
        host.header_values(HeaderKind::Response, "x-greeted"),
        vec!["true"]
    );
}

#[test]
fn guest_short_circuits_when_blocked() {
    let plugin = load(HEADERS_GUEST);
    let mut host = plain_get().with_req_header("x-block", "yes");

    let next = plugin.handle_request(&mut host).unwrap();
    assert_eq!(next, Next::Stop);
    assert_eq!(host.status_code(), 403);
    assert_eq!(host.resp_body, b"blocked by guest");
}

#[test]
fn fetch_guest_blocks_when_decision_api_denies() {
    let plugin = load(FETCH_GUEST).with_fetcher(Arc::new(CannedFetcher { status: 403 }));
    let mut host = plain_get();

    let next = plugin.handle_request(&mut host).unwrap();
    assert_eq!(next, Next::Stop);
    assert_eq!(host.status_code(), 403);
    assert_eq!(host.resp_body, b"denied by decision api");
}

#[test]
fn fetch_guest_allows_when_decision_api_permits() {
    let plugin = load(FETCH_GUEST).with_fetcher(Arc::new(CannedFetcher { status: 200 }));
    let mut host = plain_get();

    let next = plugin.handle_request(&mut host).unwrap();
    assert_eq!(next, Next::Continue(0));
}

#[test]
fn send_guest_fires_beacon_and_continues() {
    let sink = Arc::new(RecordingSink::default());
    let plugin = load(SEND_GUEST).with_sink(sink.clone());
    let mut host = plain_get();

    // Guest continues regardless (fire-and-forget).
    let next = plugin.handle_request(&mut host).unwrap();
    assert_eq!(next, Next::Continue(0));

    // ...and the beacon reached the sink with the expected shape.
    let sent = sink.sent.lock().unwrap();
    assert_eq!(sent.len(), 1);
    assert_eq!(sent[0].method, "POST");
    assert_eq!(sent[0].url, "http://collector/api/send");
    assert_eq!(sent[0].body, br#"{"type":"event"}"#);
}

#[test]
fn denied_fetch_is_a_failure_to_the_guest() {
    let plugin = load(FETCH_GUEST).with_fetcher(Arc::new(DenyingFetcher));
    let mut host = plain_get();
    assert_eq!(plugin.handle_request(&mut host).unwrap(), Next::Continue(0));
    assert_eq!(host.status, 200);
}

#[test]
fn extension_is_only_wired_in_when_provided() {
    let mut host = plain_get();
    assert!(matches!(load(FETCH_GUEST).handle_request(&mut host), Err(Error::Load(_))));
    assert!(matches!(load(SEND_GUEST).handle_request(&mut host), Err(Error::Load(_))));
    let only_sink = load(FETCH_GUEST).with_sink(Arc::new(RecordingSink::default()));
    assert!(matches!(only_sink.handle_request(&mut host), Err(Error::Load(_))));
}

#[test]
fn context_is_handed_from_request_to_response() {
    // The context is all ones; the response phase reports its arguments.
    let plugin = load(
        r#"(module
          (import "http_handler" "set_status_code" (func $status (param i32)))
          (memory (export "memory") 1)
          (func (export "handle_request") (result i64) (i64.const -1))
          (func (export "handle_response") (param i32 i32)
            (call $status (i32.sub (local.get 0) (local.get 1)))))"#,
    );
    let mut host = plain_get();
    assert_eq!(plugin.handle_request(&mut host).unwrap(), Next::Continue(u32::MAX));
    plugin.handle_response(&mut host, u32::MAX, true).unwrap();
    assert_eq!(host.status, u32::MAX - 1);
    plugin.handle_response(&mut host, 7, false).unwrap();
    assert_eq!(host.status, 7);
}

#[test]
fn missing_exports_are_reported() {
    let mut host = plain_get();
    let no_memory = load(r#"(module (func (export "handle_request") (result i64) (i64.const 1)))"#);
    assert!(matches!(
        no_memory.handle_request(&mut host),
        Err(Error::MissingExport("memory"))
    ));
    let no_request = load(r#"(module (memory (export "memory") 1))"#);
    assert!(matches!(
        no_request.handle_request(&mut host),
        Err(Error::MissingExport("handle_request"))
    ));
    // The response phase is optional.
    assert!(no_request.handle_response(&mut host, 0, false).is_ok());
}

#[test]
fn unloadable_guests_are_reported() {
    assert!(matches!(
        Plugin::from_bytes(b"not wasm", Limits::default()),
        Err(Error::Load(_))
    ));
    let unknown_import = load(r#"(module (import "http_handler" "nope" (func)))"#);
    assert!(matches!(
        unknown_import.handle_request(&mut plain_get()),
        Err(Error::Load(_))
    ));
}

#[test]
fn traps_are_reported() {
    let plugin = load(
        r#"(module
          (memory (export "memory") 1)
          (func (export "handle_request") (result i64) unreachable)
          (func (export "handle_response") (param i32 i32) unreachable))"#,
    );
    let mut host = plain_get();
    assert!(matches!(plugin.handle_request(&mut host), Err(Error::Run(_))));
    assert!(matches!(plugin.handle_response(&mut host, 0, false), Err(Error::Run(_))));
}

/// A guest that asks for the status code forever.
const SPINNING_GUEST: &str = r#"(module
  (import "http_handler" "get_status_code" (func $status (result i32)))
  (memory (export "memory") 1)
  (func (export "handle_request") (result i64)
    (loop (drop (call $status)) (br 0))
    (i64.const 1)))"#;

#[test]
fn a_tick_of_the_epoch_interrupts_a_spinning_guest() {
    // The guest spins; the host ticks the epoch each time it is asked.
    let limits = Limits { timeout: Duration::from_millis(20), ..Limits::default() };
    let plugin = Plugin::from_bytes(SPINNING_GUEST.as_bytes(), limits).unwrap();
    let mut host = plain_get();
    host.ticker = Some(plugin.engine().clone());
    let begun = Instant::now();
    assert!(matches!(plugin.handle_request(&mut host), Err(Error::Run(_))));
    assert!(begun.elapsed() >= limits.timeout);
}

#[test]
fn a_tick_does_not_interrupt_a_guest_within_its_budget() {
    // Each question to the host ticks the epoch, as other phases may.
    let guest = r#"(module
      (import "http_handler" "get_status_code" (func $status (result i32)))
      (memory (export "memory") 1)
      (func (export "handle_request") (result i64) (local $i i32)
        (loop
          (drop (call $status))
          (local.set $i (i32.add (local.get $i) (i32.const 1)))
          (br_if 0 (i32.lt_u (local.get $i) (i32.const 50))))
        (i64.const 1)))"#;
    let limits = Limits { timeout: Duration::from_secs(3600), ..Limits::default() };
    let plugin = Plugin::from_bytes(guest.as_bytes(), limits).unwrap();
    let mut host = plain_get();
    host.ticker = Some(plugin.engine().clone());
    assert_eq!(plugin.handle_request(&mut host).unwrap(), Next::Continue(0));
}

#[test]
fn imports_must_have_the_type_of_the_function() {
    let mut host = plain_get();
    for import in [
        r#"(import "http_handler" "get_method" (func (param i32) (result i32)))"#,
        r#"(import "http_handler" "get_method" (func (param i32 i32) (result i64)))"#,
        r#"(import "http_handler" "set_uri" (func (param i32 i32) (result i32)))"#,
        r#"(import "http_handler" "log" (memory 1))"#,
        r#"(import "http-handler" "get_method" (func (param i32 i32) (result i32)))"#,
    ] {
        let plugin = load(&format!(
            r#"(module {import}
              (memory (export "memory") 1)
              (func (export "handle_request") (result i64) (i64.const 1)))"#
        ));
        assert!(matches!(plugin.handle_request(&mut host), Err(Error::Load(_))), "{import}");
    }
}

#[test]
fn a_failed_phase_leaves_what_it_did() {
    let plugin = load(
        r#"(module
          (import "http_handler" "set_status_code" (func $status (param i32)))
          (memory (export "memory") 1)
          (func (export "handle_request") (result i64)
            (call $status (i32.const 418))
            unreachable))"#,
    );
    let mut host = plain_get();
    assert!(matches!(plugin.handle_request(&mut host), Err(Error::Run(_))));
    assert_eq!(host.status, 418);
}

#[test]
fn nothing_is_kept_from_one_request_to_the_next() {
    // The guest counts its calls in a global and in its memory.
    let plugin = load(
        r#"(module
          (memory (export "memory") 1)
          (global $calls (mut i64) (i64.const 0))
          (func (export "handle_request") (result i64)
            (global.set $calls (i64.add (global.get $calls) (i64.const 1)))
            (i32.store8 (i32.const 0) (i32.add (i32.load8_u (i32.const 0)) (i32.const 1)))
            (i64.or
              (i64.shl (i64.add (global.get $calls) (i64.load8_u (i32.const 0))) (i64.const 32))
              (i64.const 1))))"#,
    );
    for _ in 0..3 {
        assert_eq!(plugin.handle_request(&mut plain_get()).unwrap(), Next::Continue(2));
    }
}

#[test]
fn memory_is_capped() {
    // Reports what growing by 15 and by one more page gives.
    let grower = r#"(module
      (import "http_handler" "set_status_code" (func $status (param i32)))
      (memory (export "memory") 1)
      (func (export "handle_request") (result i64)
        (call $status (i32.add
          (i32.mul (memory.grow (i32.const 15)) (i32.const 100))
          (memory.grow (i32.const 1))))
        (i64.const 1)))"#;
    let limits = Limits { max_memory_bytes: 1024 * 1024, ..Limits::default() };
    let plugin = Plugin::from_bytes(grower.as_bytes(), limits).unwrap();
    let mut host = plain_get();
    plugin.handle_request(&mut host).unwrap();
    assert_eq!(host.status, 99);

    let big = r#"(module (memory (export "memory") 17))"#;
    let plugin = Plugin::from_bytes(big.as_bytes(), limits).unwrap();
    assert!(matches!(plugin.handle_request(&mut host), Err(Error::Load(_))));
}

#[test]
fn a_guest_with_a_shared_memory_compiles() {
    let guest = r#"(module
      (memory 1 65536 shared)
      (memory (export "memory") 1)
      (func (export "handle_request") (result i64)
        (i64.load 0 offset=0x2000000 (i32.const 0))))"#;
    assert!(Plugin::from_bytes(guest.as_bytes(), Limits::default()).is_ok());
}

#[test]
fn a_start_function_cannot_use_the_memory_yet() {
    let plugin = load(
        r#"(module
          (import "http_handler" "set_method" (func $set (param i32 i32)))
          (memory (export "memory") 1)
          (func $start (call $set (i32.const 0) (i32.const 1)))
          (start $start)
          (func (export "handle_request") (result i64) (i64.const 1)))"#,
    );
    let mut host = plain_get();
    assert!(matches!(plugin.handle_request(&mut host), Err(Error::Load(_))));
    assert_eq!(host.method, "GET");
}

#[test]
fn a_start_function_can_call_what_needs_no_memory() {
    // The length of the method is asked for with an empty buffer.
    let plugin = load(
        r#"(module
          (import "http_handler" "get_method" (func $get (param i32 i32) (result i32)))
          (import "http_handler" "set_status_code" (func $status (param i32)))
          (import "http_handler" "enable_features" (func $enable (param i32) (result i32)))
          (memory (export "memory") 1)
          (func $start
            (call $status (i32.add
              (call $enable (i32.const 100))
              (call $get (i32.const 0) (i32.const 0)))))
          (start $start)
          (func (export "handle_request") (result i64) (i64.const 1)))"#,
    );
    let mut host = plain_get();
    assert_eq!(plugin.handle_request(&mut host).unwrap(), Next::Continue(0));
    assert_eq!(host.status, 103);
}

#[test]
fn every_standard_function_can_be_imported() {
    let plugin = load(
        r#"(module
          (import "http_handler" "get_method" (func $get_method (param i32 i32) (result i32)))
          (import "http_handler" "set_method" (func $set_method (param i32 i32)))
          (import "http_handler" "get_uri" (func $get_uri (param i32 i32) (result i32)))
          (import "http_handler" "set_uri" (func $set_uri (param i32 i32)))
          (import "http_handler" "get_protocol_version" (func (param i32 i32) (result i32)))
          (import "http_handler" "get_source_addr" (func (param i32 i32) (result i32)))
          (import "http_handler" "get_status_code" (func (result i32)))
          (import "http_handler" "set_status_code" (func (param i32)))
          (import "http_handler" "get_header_names" (func (param i32 i32 i32) (result i64)))
          (import "http_handler" "get_header_values"
            (func (param i32 i32 i32 i32 i32) (result i64)))
          (import "http_handler" "set_header_value" (func (param i32 i32 i32 i32 i32)))
          (import "http_handler" "add_header_value" (func (param i32 i32 i32 i32 i32)))
          (import "http_handler" "remove_header" (func (param i32 i32 i32)))
          (import "http_handler" "read_body" (func (param i32 i32 i32) (result i64)))
          (import "http_handler" "write_body" (func (param i32 i32 i32)))
          (import "http_handler" "get_config" (func (param i32 i32) (result i32)))
          (import "http_handler" "enable_features" (func (param i32) (result i32)))
          (import "http_handler" "log" (func $log (param i32 i32 i32)))
          (import "http_handler" "log_enabled" (func (param i32) (result i32)))
          (memory (export "memory") 1)
          (func (export "handle_request") (result i64)
            (call $set_uri (i32.const 0) (call $get_method (i32.const 0) (i32.const 64)))
            (call $set_method (i32.const 0) (i32.const 2))
            (i32.store8 (i32.const 1) (i32.const 0xff))
            (call $log (i32.const 1) (i32.const 0) (i32.const 3))
            (i64.const 1)))"#,
    );
    let mut host = plain_get();
    plugin.handle_request(&mut host).unwrap();
    assert_eq!(host.uri, "GET");
    assert_eq!(host.method, "GE");
    // Bytes that are not UTF-8 reach the host as replacement characters.
    assert_eq!(
        *host.logged.lock().unwrap(),
        vec![(LogLevel::Warn, "G\u{fffd}T".to_string())]
    );
}

/// Counts the requests it is asked for, and allows each.
#[derive(Default)]
struct CountingFetcher {
    asked: Mutex<usize>,
}

impl Fetcher for CountingFetcher {
    fn fetch(&self, _request: FetchRequest) -> Result<FetchResponse, String> {
        *self.asked.lock().unwrap() += 1;
        Ok(FetchResponse { status: 200, headers: vec![], body: Vec::new() })
    }
}

#[test]
fn the_extension_outlasts_any_number_of_calls() {
    // The request is a GET of "u", without headers or a body.
    let fetcher = Arc::new(CountingFetcher::default());
    let plugin = load(
        r#"(module
          (import "http_handler" "http_fetch"
            (func $fetch (param i32 i32 i32 i32) (result i64)))
          (import "http_handler" "set_status_code" (func $status (param i32)))
          (memory (export "memory") 1)
          (data (i32.const 0) "\03\00\00\00GET\01\00\00\00u\00\00\00\00\00\00\00\00")
          (func (export "handle_request") (result i64) (local $i i32) (local $ok i32)
            (loop
              (local.set $ok (i32.add (local.get $ok) (i32.wrap_i64 (i64.shr_u
                (call $fetch (i32.const 0) (i32.const 20) (i32.const 100) (i32.const 64))
                (i64.const 32)))))
              (local.set $i (i32.add (local.get $i) (i32.const 1)))
              (br_if 0 (i32.lt_u (local.get $i) (i32.const 5))))
            (call $status (local.get $ok))
            (i64.const 1)))"#,
    )
    .with_fetcher(fetcher.clone());
    let mut host = plain_get();
    assert_eq!(plugin.handle_request(&mut host).unwrap(), Next::Continue(0));
    assert_eq!(host.status, 5);
    assert_eq!(*fetcher.asked.lock().unwrap(), 5);
}

#[test]
fn the_cap_outlasts_host_calls() {
    // Tells what growing past the cap gives after a host call, and the size then.
    let guest = r#"(module
      (import "http_handler" "set_status_code" (func $status (param i32)))
      (memory (export "memory") 1)
      (func (export "handle_request") (result i64)
        (call $status (i32.const 1))
        (call $status (i32.add
          (i32.mul (memory.grow (i32.const 2)) (i32.const 10))
          (i32.mul (memory.grow (i32.const 1)) (i32.const 100))))
        (i64.or (i64.shl (i64.extend_i32_u (memory.size)) (i64.const 32)) (i64.const 1))))"#;
    let limits = Limits { max_memory_bytes: 2 * 65_536, ..Limits::default() };
    let plugin = Plugin::from_bytes(guest.as_bytes(), limits).unwrap();
    let mut host = plain_get();
    assert_eq!(plugin.handle_request(&mut host).unwrap(), Next::Continue(2));
    assert_eq!(host.status, 90);
}
