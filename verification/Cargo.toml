[package]
name = "http-wasm-host"
version = "0.1.0"
edition = "2021"
publish = false

[dependencies]
log = "0.4"
wasmtime = { version = "33", default-features = false, features = ["cranelift", "runtime", "std", "wat", "gc", "gc-drc", "gc-null", "threads", "demangle", "addr2line"] }
