//! Optional outbound-HTTP extension to the http-wasm ABI.
//!
//! The base ABI has no way for a guest to make a network call. Some middleware
//! needs it: a bouncer querying a decision service, an auth plugin calling a
//! token endpoint. This module adds two extra host functions, `http_fetch` and
//! `http_send`, **outside** the standard ABI. A guest that uses one of them is
//! no longer portable to a vanilla http-wasm host; that trade-off is the
//! embedder's to make, so each function is only wired in when a [`Fetcher`] or
//! a [`Sink`] is provided (see [`Plugin::with_fetcher`](crate::Plugin::with_fetcher)
//! and [`Plugin::with_sink`](crate::Plugin::with_sink)).
//!
//! The library itself never does network I/O. The embedder implements
//! [`Fetcher`] (typically bridging to its own async HTTP client) and is
//! responsible for any sandboxing, such as validating the URL against an
//! allow-list before performing the request.

use vstd::prelude::*;

pub mod codec;
pub mod laws;
pub mod wire;

verus! {

/// A request the guest asked the host to perform.
#[derive(Debug, Clone)]
pub struct FetchRequest {
    /// HTTP method, e.g. `"GET"`.
    pub method: String,
    /// Full target URL, e.g. `"http://crowdsec:8080/v1/decisions?ip=1.2.3.4"`.
    pub url: String,
    /// Request headers as `(name, value)` pairs.
    pub headers: Vec<(String, String)>,
    /// Request body (may be empty).
    pub body: Vec<u8>,
}

/// The host's reply to a [`FetchRequest`].
#[derive(Debug, Clone)]
pub struct FetchResponse {
    pub status: u16,
    pub headers: Vec<(String, String)>,
    pub body: Vec<u8>,
}

/// What a [`FetchRequest`] says.
#[verifier::ext_equal]
pub struct RequestView {
    pub method: Seq<char>,
    pub url: Seq<char>,
    pub headers: Seq<(Seq<char>, Seq<char>)>,
    pub body: Seq<u8>,
}

/// What a [`FetchResponse`] says.
#[verifier::ext_equal]
pub struct ResponseView {
    pub status: u16,
    pub headers: Seq<(Seq<char>, Seq<char>)>,
    pub body: Seq<u8>,
}

/// The texts of a list of headers.
pub open spec fn header_texts(headers: Seq<(String, String)>) -> Seq<(Seq<char>, Seq<char>)> {
    Seq::new(headers.len(), |i: int| (headers[i].0@, headers[i].1@))
}

impl View for FetchRequest {
    type V = RequestView;

    open spec fn view(&self) -> RequestView {
        RequestView {
            method: self.method@,
            url: self.url@,
            headers: header_texts(self.headers@),
            body: self.body@,
        }
    }
}

impl View for FetchResponse {
    type V = ResponseView;

    open spec fn view(&self) -> ResponseView {
        ResponseView {
            status: self.status,
            headers: header_texts(self.headers@),
            body: self.body@,
        }
    }
}

/// Performs outbound HTTP on the guest's behalf. Implemented by the embedder.
///
/// Implementations decide the policy: which URLs are allowed (anti-SSRF),
/// timeouts, TLS, redirects. Returning `Err` denies the call; the guest sees a
/// failure result. This runs synchronously inside a guest call, so an async
/// embedder typically blocks on its runtime here.
pub trait Fetcher: Send + Sync {
    fn fetch(&self, request: FetchRequest) -> Result<FetchResponse, String>;
}

/// Outcome of a fire-and-forget [`Sink::send`] enqueue.
#[derive(Debug, Clone, Copy, PartialEq, Eq, Structural)]
pub enum SendOutcome {
    /// The request was accepted into the queue.
    Queued,
    /// The queue is full; the request was dropped.
    QueueFull,
    /// The request was rejected (e.g. host not allowed).
    Rejected,
}

/// Accepts a request to perform later, without blocking the guest. Implemented
/// by the embedder (typically pushing onto a bounded queue drained by a
/// background worker). Unlike [`Fetcher`], the guest never sees a response:
/// this is fire-and-forget, for things like analytics beacons where adding the
/// network round-trip to the request path would be wrong.
///
/// The embedder owns the policy here too: queue size, batching, and URL
/// allow-listing (anti-SSRF).
pub trait Sink: Send + Sync {
    fn send(&self, request: FetchRequest) -> SendOutcome;
}

} // verus!
