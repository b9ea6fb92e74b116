//! A Rust host for the [http-wasm](https://http-wasm.io) handler ABI.
//!
//! http-wasm is a portable ABI for HTTP middleware compiled to WebAssembly: a
//! guest exports `handle_request`/`handle_response` and the host exposes the
//! current request/response through a small set of functions. This crate is the
//! **host** side: it loads a guest `.wasm` and runs it against whatever HTTP
//! state you provide by implementing the [`Host`] trait.
//!
//! It is deliberately library-agnostic: it knows nothing about any specific
//! HTTP stack, so the same guest runs on any embedder.
//!
//! - [`abi`]: the numbers of the ABI, and how pairs are packed into results;
//! - [`memory`]: reading and writing the guest's memory;
//! - [`fetch`]: the outbound-HTTP extension and its wire format;
//! - [`host`]: what the embedder implements;
//! - [`calls`]: what each host function does;
//! - [`runtime`]: compiling a guest and running its phases;
//! - [`time`]: the wall-clock budget of a phase;
//! - [`engine`] and [`text`]: what is taken from `wasmtime` and from the
//!   standard library on trust.

pub mod abi;
pub mod calls;
pub mod engine;
pub mod fetch;
pub mod host;
pub mod memory;
pub mod runtime;
pub mod text;
pub mod time;

pub use abi::{features, HeaderKind, LogLevel};
pub use fetch::{FetchRequest, FetchResponse, Fetcher, SendOutcome, Sink};
pub use host::Host;
pub use runtime::{Error, Limits, Next, Plugin};
