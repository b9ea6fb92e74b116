# http-wasm-host

A Rust **host** for the [http-wasm](https://http-wasm.io) handler ABI, verified
with [Verus](https://github.com/verus-lang/verus): run portable HTTP middleware
compiled to WebAssembly, from Rust.

http-wasm defines a small, language-neutral ABI for HTTP middleware: a *guest*
`.wasm` exports `handle_request` / `handle_response`, and the *host* exposes the
current request and response through a fixed set of functions. An embedder
implements one trait, `Host`, over its own HTTP types.

```rust
// `Plugin`, `Limits` and `Next` are the library's; the two functions are those of
// `app/`, which keep a guest to its wall-clock budget.
let plugin = Plugin::from_bytes(&wasm_bytes, Limits::default())?;

match handle_request(&plugin, &mut host)? {
    Next::Continue(ctx) => {
        // forward to the backend, then run the response phase:
        handle_response(&plugin, &mut host, ctx, /* is_error = */ false)?;
    }
    Next::Stop => {
        // the guest wrote the response itself (status/headers/body)
    }
}
```

## Layout

- `src/` is the library. Every function in it is verified, but for the trusted
  ones that make the calls into `wasmtime` and the standard library.
  - `abi`: the numbers of the ABI, and how pairs are packed into results.
  - `memory`: reading and writing the guest's memory.
  - `fetch`: the outbound-HTTP extension (`http_fetch`, `http_send`) and its
    wire format.
  - `host`: the trait that an embedder implements.
  - `calls`: what each host function does, as a plan, a question to the embedder
    and a delivery.
  - `runtime`: compiling a guest and running its phases.
  - `time`: the wall-clock budget of a phase.
  - `engine` and `text`: what is taken on trust, as are the clock calls in `time`.
    Each item says what it claims.
- `app/` is what needs threads, a logger or `std::error::Error`.
- `tests/` runs the library, with and without guests.

## What is proved

A guest is not trusted. Whatever addresses, lengths, kinds and requests it
passes, a host function does not panic, writes nothing outside the buffer that it
was offered, and asks the embedder exactly what its contract says. What a guest
reads back from its memory is what the embedder answered, cut to the size of the
buffer, and the length it is told is enough for a second call. Requests and
responses of the outbound extension survive their encoding. No host function changes
the cap or the budget of the phase that it is called in, so both hold throughout.

## Limits

`Limits` caps each invocation:

- `max_memory_bytes` is a hard cap on the guest's linear memory.
- `timeout` is the wall-clock budget of a phase. A tick of the engine's epoch
  interrupts the guests whose budget is spent, and only these. `handle_request`
  and `handle_response` in `app/` run a watchdog thread that ticks from the moment
  the budget is spent; the methods of `Plugin` leave the ticks to the caller.

A guest's log lines go to `Host::log`, whose default drops them. `Logged` in
`app/` wraps a host so that they go to the `log` crate.

## License

MIT
