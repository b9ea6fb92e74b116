//! What each host function does, without a guest around it.

use std::sync::Mutex;

use http_wasm_host::calls::function::arguments_of;
use http_wasm_host::calls::plan::{outcome_code, plan};
use http_wasm_host::calls::{
    deliver, dispatch, dispatch_early, host_functions, Answer, HostCall, HostFn, Plan, WasmType, WasmValue,
};
use http_wasm_host::fetch::codec::{put_bytes, put_u32};
use http_wasm_host::{
    FetchRequest, FetchResponse, Fetcher, HeaderKind, Host, LogLevel, SendOutcome, Sink,
};

/// Answers every question with something of its own, and notes what it was asked.
#[derive(Default)]
struct Recorder {
    asked: Mutex<Vec<String>>,
    body: Vec<u8>,
}

impl Recorder {
    fn note(&self, what: String) {
        self.asked.lock().unwrap().push(what);
    }

    fn notes(&self) -> Vec<String> {
        self.asked.lock().unwrap().clone()
    }
}

impl Host for Recorder {
    fn method(&self) -> String {
        "PATCH".to_string()
    }
    fn set_method(&mut self, method: &str) {
        self.note(format!("method {method}"));
    }
    fn uri(&self) -> String {
        "/a?b=c".to_string()
    }
    fn set_uri(&mut self, uri: &str) {
        self.note(format!("uri {uri}"));
    }
    fn protocol_version(&self) -> String {
        "HTTP/2.0".to_string()
    }
    fn source_addr(&self) -> String {
        "10.0.0.1:80".to_string()
    }
    fn status_code(&self) -> u32 {
        u32::MAX
    }
    fn set_status_code(&mut self, status: u32) {
        self.note(format!("status {status}"));
    }
    fn header_names(&self, kind: HeaderKind) -> Vec<String> {
        vec![format!("{kind:?}"), "b".to_string()]
    }
    fn header_values(&self, kind: HeaderKind, name: &str) -> Vec<String> {
        vec![format!("{kind:?} {name}")]
    }
    fn set_header_value(&mut self, kind: HeaderKind, name: &str, value: &str) {
        self.note(format!("set {kind:?} {name} {value}"));
    }
    fn add_header_value(&mut self, kind: HeaderKind, name: &str, value: &str) {
        self.note(format!("add {kind:?} {name} {value}"));
    }
    fn remove_header(&mut self, kind: HeaderKind, name: &str) {
        self.note(format!("remove {kind:?} {name}"));
    }
    fn read_body(&mut self, kind: HeaderKind, max: usize) -> Vec<u8> {
        self.note(format!("read {kind:?} {max}"));
        self.body.clone()
    }
    fn write_body(&mut self, kind: HeaderKind, data: &[u8]) {
        self.note(format!("write {kind:?} {data:?}"));
    }
    fn log(&self, level: LogLevel, message: &str) {
        self.note(format!("log {level:?} {message}"));
    }
}

/// A host that has only what it must have.
struct Bare;

impl Host for Bare {
    fn method(&self) -> String {
        String::new()
    }
    fn set_method(&mut self, _: &str) {}
    fn uri(&self) -> String {
        String::new()
    }
    fn set_uri(&mut self, _: &str) {}
    fn protocol_version(&self) -> String {
        String::new()
    }
    fn source_addr(&self) -> String {
        String::new()
    }
    fn status_code(&self) -> u32 {
        0
    }
    fn set_status_code(&mut self, _: u32) {}
    fn header_names(&self, _: HeaderKind) -> Vec<String> {
        Vec::new()
    }
    fn header_values(&self, _: HeaderKind, _: &str) -> Vec<String> {
        Vec::new()
    }
    fn set_header_value(&mut self, _: HeaderKind, _: &str, _: &str) {}
    fn add_header_value(&mut self, _: HeaderKind, _: &str, _: &str) {}
    fn remove_header(&mut self, _: HeaderKind, _: &str) {}
    fn read_body(&mut self, _: HeaderKind, _: usize) -> Vec<u8> {
        Vec::new()
    }
    fn write_body(&mut self, _: HeaderKind, _: &[u8]) {}
}

/// Answers with the method it was asked for, or refuses.
struct Echo {
    refuse: bool,
}

impl Fetcher for Echo {
    fn fetch(&self, request: FetchRequest) -> Result<FetchResponse, String> {
        if self.refuse {
            return Err("refused".to_string());
        }
        Ok(FetchResponse {
            status: 201,
            headers: request.headers,
            body: request.method.into_bytes(),
        })
    }
}

/// Treats every request alike.
struct Fixed(SendOutcome);

impl Sink for Fixed {
    fn send(&self, _request: FetchRequest) -> SendOutcome {
        match self.0 {
            SendOutcome::Queued => SendOutcome::Queued,
            SendOutcome::QueueFull => SendOutcome::QueueFull,
            SendOutcome::Rejected => SendOutcome::Rejected,
        }
    }
}

/// Calls `f` for a host, with neither a fetcher nor a sink.
fn call(host: &mut dyn Host, f: HostFn, args: &[i32], mem: &mut [u8]) -> Option<WasmValue> {
    dispatch(host, None::<&Echo>, None::<&Fixed>, f, args, mem)
}

/// A pair of 32-bit numbers as a guest gets it.
fn pair(upper: i64, lower: i64) -> Option<WasmValue> {
    Some(WasmValue::I64((upper << 32) | lower))
}

/// A memory that starts with `text` and has 64 bytes.
fn memory_with(text: &[u8]) -> Vec<u8> {
    let mut mem = text.to_vec();
    mem.resize(64, b'.');
    mem
}

/// A request as a guest writes it: a GET without headers or a body.
fn get_request() -> Vec<u8> {
    let mut buf = Vec::new();
    put_bytes(&mut buf, b"GET");
    put_bytes(&mut buf, b"http://h/");
    put_u32(&mut buf, 0);
    put_bytes(&mut buf, b"");
    buf
}

#[test]
fn the_functions_have_their_names_and_types() {
    let two: &[HostFn] = &[
        HostFn::GetMethod,
        HostFn::GetUri,
        HostFn::GetProtocolVersion,
        HostFn::GetSourceAddr,
        HostFn::GetConfig,
        HostFn::HttpSend,
    ];
    for f in two {
        assert_eq!((f.arity(), f.result()), (2, Some(WasmType::I32)), "{f:?}");
    }
    let cases = [
        (HostFn::SetMethod, "set_method", 2, None),
        (HostFn::SetUri, "set_uri", 2, None),
        (HostFn::GetStatusCode, "get_status_code", 0, Some(WasmType::I32)),
        (HostFn::SetStatusCode, "set_status_code", 1, None),
        (HostFn::GetHeaderNames, "get_header_names", 3, Some(WasmType::I64)),
        (HostFn::GetHeaderValues, "get_header_values", 5, Some(WasmType::I64)),
        (HostFn::SetHeaderValue, "set_header_value", 5, None),
        (HostFn::AddHeaderValue, "add_header_value", 5, None),
        (HostFn::RemoveHeader, "remove_header", 3, None),
        (HostFn::ReadBody, "read_body", 3, Some(WasmType::I64)),
        (HostFn::WriteBody, "write_body", 3, None),
        (HostFn::EnableFeatures, "enable_features", 1, Some(WasmType::I32)),
        (HostFn::Log, "log", 3, None),
        (HostFn::LogEnabled, "log_enabled", 1, Some(WasmType::I32)),
        (HostFn::HttpFetch, "http_fetch", 4, Some(WasmType::I64)),
    ];
    for (f, name, arity, result) in cases {
        assert_eq!((f.name(), f.arity(), f.result()), (name, arity, result));
    }
}

#[test]
fn names_are_not_shared() {
    let mut names: Vec<&str> = host_functions(true, true).iter().map(|f| f.name()).collect();
    assert_eq!(names.len(), 21);
    names.sort();
    names.dedup();
    assert_eq!(names.len(), 21);
}

#[test]
fn the_extension_is_available_only_when_provided() {
    assert_eq!(host_functions(false, false).len(), 19);
    assert!(!host_functions(false, true).contains(&HostFn::HttpFetch));
    assert!(host_functions(false, true).contains(&HostFn::HttpSend));
    assert!(host_functions(true, false).contains(&HostFn::HttpFetch));
    assert!(!host_functions(true, false).contains(&HostFn::HttpSend));
}

#[test]
fn arguments_must_match_the_function() {
    let pair = [Some(1), Some(-2)];
    assert_eq!(arguments_of(HostFn::SetMethod, &pair), Some(vec![1, -2]));
    assert_eq!(arguments_of(HostFn::SetMethod, &pair[..1]), None);
    assert_eq!(arguments_of(HostFn::SetStatusCode, &pair), None);
    assert_eq!(arguments_of(HostFn::SetMethod, &[Some(1), None]), None);
    assert_eq!(arguments_of(HostFn::GetStatusCode, &[]), Some(vec![]));
}

#[test]
fn texts_reach_the_guest() {
    let mut host = Recorder::default();
    let cases: [(HostFn, &[u8]); 4] = [
        (HostFn::GetMethod, b"PATCH"),
        (HostFn::GetUri, b"/a?b=c"),
        (HostFn::GetProtocolVersion, b"HTTP/2.0"),
        (HostFn::GetSourceAddr, b"10.0.0.1:80"),
    ];
    for (f, text) in cases {
        let mut mem = memory_with(b"");
        let n = text.len();
        assert_eq!(call(&mut host, f, &[1, 20], &mut mem), Some(WasmValue::I32(n as i32)));
        assert_eq!(mem[0], b'.');
        assert_eq!(&mem[1..1 + n], text);
        assert!(mem[1 + n..].iter().all(|b| *b == b'.'));
    }
}

#[test]
fn a_small_buffer_gets_a_part_and_the_full_length() {
    let mut mem = memory_with(b"");
    let value = call(&mut Recorder::default(), HostFn::GetMethod, &[0, 2], &mut mem);
    assert_eq!(value, Some(WasmValue::I32(5)));
    assert_eq!(&mem[..4], b"PA..");
}

#[test]
fn texts_reach_the_host() {
    let mut host = Recorder::default();
    let mut mem = memory_with(b"PUT/x");
    assert_eq!(call(&mut host, HostFn::SetMethod, &[0, 3], &mut mem), None);
    assert_eq!(call(&mut host, HostFn::SetUri, &[3, 2], &mut mem), None);
    assert_eq!(host.notes(), ["method PUT", "uri /x"]);
    assert_eq!(mem, memory_with(b"PUT/x"));
}

#[test]
fn status_codes_keep_their_bits() {
    let mut host = Recorder::default();
    let value = call(&mut host, HostFn::GetStatusCode, &[], &mut []);
    assert_eq!(value, Some(WasmValue::I32(-1)));
    assert_eq!(call(&mut host, HostFn::SetStatusCode, &[404], &mut []), None);
    assert_eq!(call(&mut host, HostFn::SetStatusCode, &[-1], &mut []), None);
    assert_eq!(host.notes(), ["status 404", "status 4294967295"]);
}

#[test]
fn header_lists_reach_the_guest() {
    let mut host = Recorder::default();
    let mut mem = memory_with(b"Accept");
    let value = call(&mut host, HostFn::GetHeaderNames, &[1, 8, 30], &mut mem);
    assert_eq!(value, pair(2, 11));
    assert_eq!(&mem[8..20], b"Response\0b\0.");

    let value = call(&mut host, HostFn::GetHeaderValues, &[0, 0, 6, 30, 4], &mut mem);
    assert_eq!(value, pair(1, 15));
    assert_eq!(&mem[30..36], b"Requ..");
}

#[test]
fn headers_reach_the_host() {
    let mut host = Recorder::default();
    let mut mem = memory_with(b"namevalue");
    assert_eq!(call(&mut host, HostFn::SetHeaderValue, &[0, 0, 4, 4, 5], &mut mem), None);
    assert_eq!(call(&mut host, HostFn::AddHeaderValue, &[3, 0, 4, 4, 5], &mut mem), None);
    assert_eq!(call(&mut host, HostFn::RemoveHeader, &[2, 0, 4], &mut mem), None);
    assert_eq!(
        host.notes(),
        [
            "set Request name value",
            "add ResponseTrailers name value",
            "remove RequestTrailers name",
        ]
    );
}

#[test]
fn a_body_is_read_until_it_is_empty() {
    let mut host = Recorder { body: b"chunk".to_vec(), ..Recorder::default() };
    let mut mem = memory_with(b"");
    assert_eq!(call(&mut host, HostFn::ReadBody, &[0, 2, 8], &mut mem), pair(0, 5));
    assert_eq!(&mem[..8], b"..chunk.");
    host.body.clear();
    assert_eq!(call(&mut host, HostFn::ReadBody, &[1, 2, -8], &mut mem), pair(1, 0));
    assert_eq!(host.notes(), ["read Request 8", "read Response 0"]);
}

#[test]
fn a_body_is_written() {
    let mut host = Recorder::default();
    let mut mem = memory_with(&[0xff, 1]);
    assert_eq!(call(&mut host, HostFn::WriteBody, &[1, 0, 2], &mut mem), None);
    assert_eq!(call(&mut host, HostFn::WriteBody, &[1, 63, 2], &mut mem), None);
    assert_eq!(host.notes(), ["write Response [255, 1]", "write Response [0, 0]"]);
}

#[test]
fn an_unknown_kind_asks_nothing() {
    for kind in [-1, 4, 99, i32::MIN, i32::MAX] {
        let mut host = Recorder::default();
        let mut mem = memory_with(b"text");
        let five = [kind, 0, 1, 8, 8];
        let three = [kind, 8, 8];
        assert_eq!(call(&mut host, HostFn::GetHeaderNames, &three, &mut mem), pair(0, 0));
        assert_eq!(call(&mut host, HostFn::GetHeaderValues, &five, &mut mem), pair(0, 0));
        assert_eq!(call(&mut host, HostFn::SetHeaderValue, &five, &mut mem), None);
        assert_eq!(call(&mut host, HostFn::AddHeaderValue, &five, &mut mem), None);
        assert_eq!(call(&mut host, HostFn::RemoveHeader, &three, &mut mem), None);
        assert_eq!(call(&mut host, HostFn::ReadBody, &three, &mut mem), pair(1, 0));
        assert_eq!(call(&mut host, HostFn::WriteBody, &three, &mut mem), None);
        assert!(host.notes().is_empty());
        assert_eq!(mem, memory_with(b"text"));
    }
}

#[test]
fn requested_features_are_echoed() {
    for features in [0, 3, -1] {
        let value = call(&mut Recorder::default(), HostFn::EnableFeatures, &[features], &mut []);
        assert_eq!(value, Some(WasmValue::I32(features)));
    }
}

#[test]
fn log_lines_reach_the_host() {
    let mut host = Recorder::default();
    let mut mem = memory_with(b"line");
    for level in [-1, 0, 1, 2, 3, 42] {
        assert_eq!(call(&mut host, HostFn::Log, &[level, 0, 4], &mut mem), None);
    }
    assert_eq!(
        host.notes(),
        [
            "log Debug line",
            "log Info line",
            "log Warn line",
            "log Error line",
            "log Off line",
            "log Info line",
        ]
    );
}

#[test]
fn a_bare_host_has_the_defaults() {
    let mut mem = memory_with(b"");
    let value = call(&mut Bare, HostFn::GetConfig, &[0, 8], &mut mem);
    assert_eq!(value, Some(WasmValue::I32(0)));
    assert_eq!(mem, memory_with(b""));
    for (level, enabled) in [(-1, 1), (0, 1), (1, 1), (2, 1), (3, 0), (9, 1)] {
        let value = call(&mut Bare, HostFn::LogEnabled, &[level], &mut []);
        assert_eq!(value, Some(WasmValue::I32(enabled)), "level {level}");
    }
    assert_eq!(call(&mut Bare, HostFn::Log, &[0, 0, 4], &mut mem), None);
}

#[test]
fn a_fetch_writes_the_response() {
    let request = get_request();
    let n = request.len() as i32;
    let mut mem = request.clone();
    mem.resize(80, b'.');
    let value = dispatch(
        &mut Bare,
        Some(&Echo { refuse: false }),
        None::<&Fixed>,
        HostFn::HttpFetch,
        &[0, n, 40, 40],
        &mut mem,
    );
    assert_eq!(value, pair(1, 15));
    let expected = [201, 0, 0, 0, 0, 0, 0, 0, 3, 0, 0, 0, b'G', b'E', b'T', b'.'];
    assert_eq!(&mem[40..56], &expected);
    assert_eq!(&mem[..n as usize], &request[..]);
}

#[test]
fn a_fetch_fails_if_refused_garbled_or_without_a_fetcher() {
    let mut mem = get_request();
    let before = mem.clone();
    let n = mem.len() as i32;
    let refusing = Echo { refuse: true };
    let mut fetch = |fetcher: Option<&Echo>, len: i32| {
        let args = [0, len, 0, n];
        dispatch(&mut Bare, fetcher, None::<&Fixed>, HostFn::HttpFetch, &args, &mut mem)
    };
    assert_eq!(fetch(Some(&refusing), n), pair(0, 0));
    assert_eq!(fetch(Some(&Echo { refuse: false }), n - 1), pair(0, 0));
    assert_eq!(fetch(None, n), pair(0, 0));
    assert_eq!(mem, before);
}

#[test]
fn a_send_tells_its_outcome() {
    let mut mem = get_request();
    let n = mem.len() as i32;
    let mut send = |sink: Option<&Fixed>, len: i32| {
        dispatch(&mut Bare, None::<&Echo>, sink, HostFn::HttpSend, &[0, len], &mut mem)
    };
    assert_eq!(send(Some(&Fixed(SendOutcome::Queued)), n), Some(WasmValue::I32(0)));
    assert_eq!(send(Some(&Fixed(SendOutcome::QueueFull)), n), Some(WasmValue::I32(1)));
    assert_eq!(send(Some(&Fixed(SendOutcome::Rejected)), n), Some(WasmValue::I32(2)));
    // What cannot be decoded is rejected.
    assert_eq!(send(Some(&Fixed(SendOutcome::Queued)), n - 1), Some(WasmValue::I32(2)));
    assert_eq!(outcome_code(SendOutcome::Queued), 0);
    assert_eq!(outcome_code(SendOutcome::QueueFull), 1);
    assert_eq!(outcome_code(SendOutcome::Rejected), 2);
}

#[test]
fn a_call_is_planned_from_its_arguments() {
    let mem = memory_with(b"namevalue");
    match plan(HostFn::AddHeaderValue, &[1, 0, 4, 4, 5], &mem) {
        Plan::Ask(HostCall::AddHeaderValue(kind, name, value)) => {
            assert_eq!(kind, HeaderKind::Response);
            assert_eq!(name, "name");
            assert_eq!(value, "value");
        }
        _ => panic!("an unexpected plan"),
    }
    assert!(matches!(
        plan(HostFn::ReadBody, &[0, 0, -3], &mem),
        Plan::Ask(HostCall::ReadBody(HeaderKind::Request, 0))
    ));
    assert!(matches!(plan(HostFn::WriteBody, &[7, 0, 3], &mem), Plan::Now(None)));
}

#[test]
fn an_answer_goes_into_the_buffer_of_its_call() {
    let mut mem = memory_with(b"");
    let list = Answer::List(vec!["x".to_string()]);
    let value = deliver(HostFn::GetHeaderValues, &[0, 0, 0, 5, 9], &mut mem, list);
    assert_eq!(value, pair(1, 2));
    assert_eq!(&mem[4..8], b".x\0.");
    let value = deliver(HostFn::GetConfig, &[0, 1], &mut mem, Answer::Bytes(b"{}".to_vec()));
    assert_eq!(value, Some(WasmValue::I32(2)));
    assert_eq!(&mem[..2], b"{.");
}

#[test]
fn a_call_before_the_memory_is_resolved() {
    let mut host = Recorder::default();
    let mut early = |f: HostFn, args: &[i32]| {
        dispatch_early(&mut host, None::<&Echo>, None::<&Fixed>, f, args)
    };
    // What needs no memory is answered.
    assert_eq!(early(HostFn::EnableFeatures, &[5]), Some(Some(WasmValue::I32(5))));
    assert_eq!(early(HostFn::GetStatusCode, &[]), Some(Some(WasmValue::I32(-1))));
    assert_eq!(early(HostFn::SetStatusCode, &[7]), Some(None));
    assert_eq!(early(HostFn::LogEnabled, &[3]), Some(Some(WasmValue::I32(0))));
    assert_eq!(early(HostFn::GetMethod, &[0, 0]), Some(Some(WasmValue::I32(5))));
    assert_eq!(early(HostFn::GetConfig, &[0, 9]), Some(Some(WasmValue::I32(0))));
    assert_eq!(early(HostFn::GetHeaderNames, &[1, 0, 0]), Some(pair(2, 11)));
    assert_eq!(early(HostFn::WriteBody, &[9, 0, 0]), Some(None));
    assert_eq!(early(HostFn::GetHeaderValues, &[9, 0, 0, 0, 0]), Some(pair(0, 0)));
    // What reads it, or would write into it, is not.
    assert_eq!(early(HostFn::SetMethod, &[0, 0]), None);
    assert_eq!(early(HostFn::GetHeaderValues, &[1, 0, 0, 0, 0]), None);
    assert_eq!(early(HostFn::WriteBody, &[1, 0, 0]), None);
    assert_eq!(early(HostFn::Log, &[0, 0, 0]), None);
    assert_eq!(early(HostFn::GetMethod, &[0, 1]), None);
    assert_eq!(early(HostFn::GetHeaderNames, &[1, 0, 1]), None);
    assert_eq!(host.notes(), ["status 7"]);
}
