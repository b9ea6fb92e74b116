//! The runtime: compiles a guest once into a [`Plugin`], then drives the
//! http-wasm phases against a [`Host`] for each request.

use std::sync::Arc;
use std::time::Duration;

use vstd::prelude::*;
use wasmtime::Error as EngineError;
use wasmtime::{Engine, Instance, Linker, Module, Store};

use crate::abi::{
    as_signed, decode_ctx_next, flag, lower_half, packed, signed32, unsigned32, upper_half, MODULE,
};
use crate::calls::function::{
    available, available_functions, available_once, function_kind, host_functions, import_key,
    import_table, import_table_entries, importable, names_are_distinct, satisfied, HostFn,
    ImportKind,
};
use crate::engine::{
    call_for_i64, call_with_pair, compile, define, error_text, exports_called, guest_exports,
    initial_memory, instantiate, kept_data, linked, lives_in, memory_size, module_exports, module_imports, new_engine, new_linker,
    offers, phase_store, resolve_memory, same_engine, setup, store_data, Embedder, ExportKind,
    PhaseData, Setup,
};
use crate::fetch::{Fetcher, Sink};
use crate::host::Host;
use crate::time::nanoseconds;

pub mod laws;

verus! {

/// Errors surfaced while loading or running a guest.
#[derive(Debug)]
pub enum Error {
    /// The `.wasm` failed to compile or instantiate.
    Load(String),
    /// A trap, timeout, or memory fault while running a phase.
    Run(String),
    /// The guest is missing a required export (`memory`, `handle_request`, ...).
    MissingExport(&'static str),
}

impl Error {
    /// The text of the error for a reader.
    pub open spec fn text(self) -> Seq<char> {
        match self {
            Error::Load(e) => "failed to load guest: "@ + e@,
            Error::Run(e) => "guest execution failed: "@ + e@,
            Error::MissingExport(e) => "guest is missing required export `"@ + e@ + "`"@,
        }
    }

    /// The text of the error for a reader.
    pub fn message(&self) -> (message: String)
        ensures
            message@ == self.text(),
    {
        match self {
            Error::Load(e) => {
                let mut message = "failed to load guest: ".to_owned();
                message.append(e.as_str());
                message
            },
            Error::Run(e) => {
                let mut message = "guest execution failed: ".to_owned();
                message.append(e.as_str());
                message
            },
            Error::MissingExport(e) => {
                let mut message = "guest is missing required export `".to_owned();
                message.append(e);
                message.append("`");
                message
            },
        }
    }
}

/// Outcome of the request phase.
#[derive(Debug, Clone, Copy, PartialEq, Eq, Structural)]
pub enum Next {
    /// Guest returned `next=1`: proceed to the backend / next handler. Carries
    /// the opaque request context to hand back to `handle_response`.
    Continue(u32),
    /// Guest returned `next=0`: short-circuit. The guest has already written
    /// the response (status/headers/body) via the host.
    Stop,
}

/// Per-invocation limits guarding a misbehaving guest.
#[derive(Debug, Clone, Copy)]
pub struct Limits {
    /// Wall-clock budget for a single phase call. Enforced via epoch deadlines: a
    /// tick of the epoch of [`Plugin::engine`] interrupts the guests whose budget
    /// is spent, and only these. Whoever drives a phase sees to it that there is
    /// one.
    pub timeout: Duration,
    /// Hard cap on the guest's linear memory.
    pub max_memory_bytes: usize,
}

impl Default for Limits {
    fn default() -> (limits: Self)
        ensures
            nanoseconds(limits.timeout) == 100_000_000,
            limits.max_memory_bytes == 16 * 1024 * 1024,
    {
        Limits { timeout: Duration::from_millis(100), max_memory_bytes: 16 * 1024 * 1024 }
    }
}

/// How many bytes a guest can address.
pub const ADDRESS_SPACE: u64 = 0x1_0000_0000;

impl Limits {
    /// The address space to set aside for a guest's memory: no more than it may
    /// come to use under the cap, nor than it can address.
    pub open spec fn reserved_bytes(&self) -> int {
        if self.max_memory_bytes < ADDRESS_SPACE {
            self.max_memory_bytes as int
        } else {
            ADDRESS_SPACE as int
        }
    }

    /// The address space to set aside for a guest's memory.
    fn reservation(&self) -> (bytes: u64)
        ensures
            bytes == self.reserved_bytes(),
    {
        let cap = self.max_memory_bytes as u64;
        if cap < ADDRESS_SPACE {
            cap
        } else {
            ADDRESS_SPACE
        }
    }
}

/// Whether a guest exports its memory.
pub open spec fn has_memory(exports: Map<Seq<char>, ExportKind>) -> bool {
    offers(exports, "memory"@, ExportKind::Memory)
}

/// Whether a guest exports a request phase.
pub open spec fn has_request(exports: Map<Seq<char>, ExportKind>) -> bool {
    offers(exports, "handle_request"@, ExportKind::ToI64)
}

/// Whether a guest exports a response phase.
pub open spec fn has_response(exports: Map<Seq<char>, ExportKind>) -> bool {
    offers(exports, "handle_response"@, ExportKind::FromPair)
}

/// Whether a failure of the engine is told as a failure to load, with the
/// engine's own text.
pub closed spec fn fails_to_load<T>(e: EngineError, result: Result<T, Error>) -> bool {
    exists|text: String| #[trigger]
        call_ensures(error_text, (&e,), text) && result == Err::<T, Error>(Error::Load(text))
}

/// Whether compiling a guest for an engine of its own can go like that: the engine
/// can be interrupted, and supports shared memories and reserves address space as
/// asked.
pub closed spec fn builds(
    wasm: &[u8],
    shared: bool,
    reservation: u64,
    built: Result<(Engine, Module), Error>,
) -> bool {
    exists|made: Result<Engine, EngineError>| #[trigger]
        call_ensures(new_engine, (true, shared, reservation), made) && match made {
            Err(e) => fails_to_load(e, built),
            Ok(engine) => exists|compiled: Result<Module, EngineError>| #[trigger]
                call_ensures(compile, (&engine, wasm), compiled) && match compiled {
                    Err(e) => fails_to_load(e, built),
                    Ok(module) => built == Ok::<(Engine, Module), Error>((engine, module)),
                },
        }
}

/// Compile a guest for an engine of its own.
fn build(wasm: &[u8], shared: bool, reservation: u64) -> (built: Result<(Engine, Module), Error>)
    requires
        reservation <= ADDRESS_SPACE,
        shared ==> reservation == ADDRESS_SPACE,
    ensures
        builds(wasm, shared, reservation, built),
        built matches Err(e) ==> e is Load,
{
    let engine = match new_engine(true, shared, reservation) {
        Ok(engine) => engine,
        Err(e) => return Err(Error::Load(error_text(&e))),
    };
    match compile(&engine, wasm) {
        Ok(module) => Ok((engine, module)),
        Err(e) => Err(Error::Load(error_text(&e))),
    }
}

/// A compiled guest, ready to run against many requests. Compile once and
/// reuse.
pub struct Plugin {
    engine: Engine,
    module: Module,
    limits: Limits,
    fetcher: Option<Arc<dyn Fetcher>>,
    sink: Option<Arc<dyn Sink>>,
}

impl Plugin {
    /// The limits that each invocation runs under.
    pub closed spec fn limits_view(&self) -> Limits {
        self.limits
    }

    /// What performs the guest's outbound requests, if anything does.
    pub closed spec fn fetcher_view(&self) -> Option<Arc<dyn Fetcher>> {
        self.fetcher
    }

    /// What takes the guest's fire-and-forget requests, if anything does.
    pub closed spec fn sink_view(&self) -> Option<Arc<dyn Sink>> {
        self.sink
    }

    /// What the guest exports, by name.
    pub closed spec fn exports_view(&self) -> Map<Seq<char>, ExportKind> {
        module_exports(self.module)
    }

    /// What the guest imports, each by its module, its name and its kind.
    pub closed spec fn imports_view(&self) -> Set<(Seq<char>, Seq<char>, ImportKind)> {
        module_imports(self.module)
    }

    /// The size of the largest linear memory that the guest starts with, in bytes.
    pub closed spec fn initial_memory_view(&self) -> nat {
        initial_memory(self.module)
    }

    /// Whether a guest can be instantiated as far as its plugin decides: everything
    /// that it imports is available, and it starts within the cap.
    pub open spec fn is_loadable(&self) -> bool {
        self.imports_available() && self.initial_memory_view()
            <= self.limits_view().max_memory_bytes
    }

    /// The compiled guest.
    pub closed spec fn guest_view(&self) -> Module {
        self.module
    }

    /// The engine that the guest runs in.
    pub closed spec fn engine_view(&self) -> Engine {
        self.engine
    }

    /// The host functions that the guest can import.
    pub open spec fn functions_view(&self) -> Seq<HostFn> {
        available(self.fetcher_view() is Some, self.sink_view() is Some)
    }

    /// Whether everything that the guest imports is available to it, and is of the
    /// type that it expects.
    pub open spec fn imports_available(&self) -> bool {
        satisfied(self.imports_view(), import_table(self.functions_view()))
    }

    /// Whether compiling a guest can go like that: without shared memories and with
    /// no more address space than the cap calls for, or else, if that fails, with
    /// both.
    pub closed spec fn compiles(wasm: &[u8], limits: Limits, plugin: Result<Self, Error>) -> bool {
        exists|small: Result<(Engine, Module), Error>, reservation: u64| #[trigger]
            builds(wasm, false, reservation, small) && reservation == limits.reserved_bytes()
                && match small {
                Ok((engine, module)) => plugin == Ok::<Plugin, Error>(
                    Plugin { engine, module, limits, fetcher: None, sink: None },
                ),
                Err(_) => exists|full: Result<(Engine, Module), Error>| #[trigger]
                    builds(wasm, true, ADDRESS_SPACE, full) && plugin == match full {
                        Ok((engine, module)) => Ok(
                            Plugin { engine, module, limits, fetcher: None, sink: None },
                        ),
                        Err(e) => Err(e),
                    },
            }
    }

    /// Compile a guest from `.wasm` bytes (binary or `.wat` text both work).
    ///
    /// A shared memory must have all the address space that it may come to use
    /// reserved from the start, any other gets along with what the cap calls for.
    /// So a guest is compiled without support for shared memories first.
    pub fn from_bytes(wasm: &[u8], limits: Limits) -> (plugin: Result<Self, Error>)
        ensures
            match plugin {
                Ok(p) => p.limits_view() == limits && p.fetcher_view() is None && p.sink_view()
                    is None,
                Err(e) => e is Load,
            },
            Self::compiles(wasm, limits, plugin),
    {
        let built = match build(wasm, false, limits.reservation()) {
            Ok(parts) => Ok(parts),
            Err(_) => build(wasm, true, ADDRESS_SPACE),
        };
        match built {
            Ok((engine, module)) => Ok(
                Plugin { engine, module, limits, fetcher: None, sink: None },
            ),
            Err(e) => Err(e),
        }
    }

    /// Let the guest make outbound requests: wires `http_fetch` in.
    pub fn with_fetcher(self, fetcher: Arc<dyn Fetcher>) -> (plugin: Self)
        ensures
            plugin.fetcher_view() == Some(fetcher),
            plugin.sink_view() == self.sink_view(),
            plugin.limits_view() == self.limits_view(),
            plugin.exports_view() == self.exports_view(),
            plugin.imports_view() == self.imports_view(),
            plugin.guest_view() == self.guest_view(),
            plugin.initial_memory_view() == self.initial_memory_view(),
            plugin.engine_view() == self.engine_view(),
    {
        let fetcher = Some(fetcher);
        Plugin {
            engine: self.engine,
            module: self.module,
            limits: self.limits,
            fetcher,
            sink: self.sink,
        }
    }

    /// Let the guest send fire-and-forget requests: wires `http_send` in.
    pub fn with_sink(self, sink: Arc<dyn Sink>) -> (plugin: Self)
        ensures
            plugin.sink_view() == Some(sink),
            plugin.fetcher_view() == self.fetcher_view(),
            plugin.limits_view() == self.limits_view(),
            plugin.exports_view() == self.exports_view(),
            plugin.imports_view() == self.imports_view(),
            plugin.guest_view() == self.guest_view(),
            plugin.initial_memory_view() == self.initial_memory_view(),
            plugin.engine_view() == self.engine_view(),
    {
        let sink = Some(sink);
        Plugin {
            engine: self.engine,
            module: self.module,
            limits: self.limits,
            fetcher: self.fetcher,
            sink,
        }
    }

    /// The limits that each invocation runs under.
    pub fn limits(&self) -> (limits: Limits)
        ensures
            limits == self.limits_view(),
    {
        self.limits
    }

    /// The engine that the guest runs in. A tick of its epoch interrupts the
    /// running phases whose budget is spent.
    pub fn engine(&self) -> (engine: &Engine)
        ensures
            *engine == self.engine_view(),
    {
        &self.engine
    }

    /// Whether these are the fetcher and the sink that this plugin has.
    pub open spec fn lends(
        &self,
        fetcher: Option<&dyn Fetcher>,
        sink: Option<&dyn Sink>,
    ) -> bool {
        &&& fetcher == match self.fetcher_view() {
            Some(fetcher) => Some(&*fetcher),
            None => None,
        }
        &&& sink == match self.sink_view() {
            Some(sink) => Some(&*sink),
            None => None,
        }
    }

    /// The embedder's side of a phase against `host`: the host itself, and the
    /// fetcher and the sink that this plugin has.
    fn embedder<'a, H: Host + ?Sized>(&'a self, host: &'a mut H) -> (embedder: Embedder<'a, H>)
        ensures
            &*embedder.host == &*old(host),
            &*final(embedder.host) == &*final(host),
            self.lends(embedder.fetcher, embedder.sink),
    {
        let fetcher = match &self.fetcher {
            Some(fetcher) => Some(&**fetcher),
            None => None,
        };
        let sink = match &self.sink {
            Some(sink) => Some(&**sink),
            None => None,
        };
        Embedder { host, fetcher, sink }
    }

    /// Whether the request phase can come to that result for an embedder: in a guest
    /// of its own, none of whose exports has been called and whose memory is within
    /// the cap, `handle_request` is called once.
    pub open spec fn may_request<'a>(
        &self,
        embedder: Embedder<'a, dyn Host + 'a>,
        next: Result<Next, Error>,
    ) -> bool {
        exists|phase: Result<Phase<'a>, Error>| #[trigger]
            opens(self.guest_view(), self.functions_view(), self.limits_view(), embedder, phase)
                && match phase {
                Ok(p) => p.is_fresh() && p.memory_size() <= self.limits_view().max_memory_bytes
                    && p.requests(next),
                Err(e) => next == Err::<Next, Error>(e),
            }
    }

    /// Whether the response phase, for a context and an error flag, can come to that
    /// result for an embedder: in a guest of its own likewise, `handle_response` is
    /// called once if there is one.
    pub open spec fn may_respond<'a>(
        &self,
        embedder: Embedder<'a, dyn Host + 'a>,
        ctx: u32,
        is_error: bool,
        done: Result<(), Error>,
    ) -> bool {
        exists|phase: Result<Phase<'a>, Error>| #[trigger]
            opens(self.guest_view(), self.functions_view(), self.limits_view(), embedder, phase)
                && match phase {
                Ok(p) => p.is_fresh() && p.memory_size() <= self.limits_view().max_memory_bytes
                    && p.responds(ctx, is_error, done),
                Err(e) => done == Err::<(), Error>(e),
            }
    }

    /// Set a phase up: wire the host functions to the embedder, instantiate the
    /// guest, resolve its memory.
    fn start<'a>(&'a self, embedder: Embedder<'a, dyn Host + 'a>) -> (phase: Result<
        Phase<'a>,
        Error,
    >)
        requires
            self.lends(embedder.fetcher, embedder.sink),
        ensures
            opens(self.guest_view(), self.functions_view(), self.limits_view(), embedder, phase),
            !self.is_loadable() ==> (phase matches Err(e) && e is Load),
            !self.is_loadable() ==> &*final(embedder.host) == &*old(embedder.host),
            match phase {
                Ok(p) => p.is_live() && p.is_fresh() && p.exports_view() == self.exports_view()
                    && has_memory(p.exports_view()) && p.memory_size() <= self.limits_view().max_memory_bytes,
                Err(Error::Load(_)) => true,
                Err(Error::MissingExport(name)) => name@ == "memory"@ && !has_memory(
                    self.exports_view(),
                ),
                Err(Error::Run(_)) => false,
            },
    {
        let mut linker = new_linker(&self.module);
        match register_host_functions(
            &mut linker,
            embedder.fetcher.is_some(),
            embedder.sink.is_some(),
        ) {
            Ok(()) => {},
            Err(e) => return Err(e),
        }
        let data = PhaseData::new(embedder, self.limits.max_memory_bytes, self.limits.timeout);
        let store = phase_store(&self.module, data);
        let ghost given = store;
        let made = instantiate(&linker, &self.module, store);
        assert(call_ensures(instantiate, (&linker, &self.module, given), made));
        let (store, instance) = match made {
            Ok(made) => made,
            Err(e) => return Err(Error::Load(error_text(&e))),
        };
        proof {
            kept_data(store_data(store), store_data(given));
        }
        match resolve_memory(store, &instance, "memory") {
            Some(store) => Ok(Phase { store, instance }),
            None => Err(Error::MissingExport("memory")),
        }
    }

    /// Run `handle_request` against `host`. The guest may mutate the request and
    /// either continue or short-circuit with a response.
    ///
    /// No timer is armed here: the guest runs until it is done, or until another
    /// thread ticks the epoch of [`Plugin::engine`] and the budget is spent.
    pub fn handle_request<'a>(&'a self, host: &'a mut dyn Host) -> (next: Result<Next, Error>)
        ensures
            exists|embedder: Embedder<'a, dyn Host + 'a>| #[trigger]
                self.may_request(embedder, next) && &*embedder.host == &*old(host) && &*final(embedder.host) == &*final(host) && self.lends(embedder.fetcher, embedder.sink),
            !self.is_loadable() ==> (next matches Err(e) && e is Load),
            !self.is_loadable() ==> &*final(host) == &*old(host),
            match next {
                Ok(_) | Err(Error::Run(_)) => has_memory(self.exports_view()) && has_request(
                    self.exports_view(),
                ),
                Err(Error::Load(_)) => true,
                Err(Error::MissingExport(name)) => if has_memory(self.exports_view()) {
                    name@ == "handle_request"@ && !has_request(self.exports_view())
                } else {
                    name@ == "memory"@
                },
            },
    {
        let embedder = self.embedder(host);
        let ghost side = embedder;
        let next = match self.start(embedder) {
            Ok(phase) => phase.request(),
            Err(e) => Err(e),
        };
        assert(self.may_request(side, next));
        next
    }

    /// Run `handle_response` against `host`, passing the `ctx` from the request
    /// phase and whether an upstream error occurred. No timer is armed here
    /// either.
    pub fn handle_response<'a>(&'a self, host: &'a mut dyn Host, ctx: u32, is_error: bool) -> (done:
        Result<(), Error>)
        ensures
            exists|embedder: Embedder<'a, dyn Host + 'a>| #[trigger]
                self.may_respond(embedder, ctx, is_error, done) && &*embedder.host == &*old(host)
                    && &*final(embedder.host) == &*final(host) && self.lends(
                    embedder.fetcher,
                    embedder.sink,
                ),
            !self.is_loadable() ==> (done matches Err(e) && e is Load),
            !self.is_loadable() ==> &*final(host) == &*old(host),
            match done {
                Ok(_) => has_memory(self.exports_view()),
                Err(Error::Run(_)) => has_memory(self.exports_view()) && has_response(
                    self.exports_view(),
                ),
                Err(Error::Load(_)) => true,
                Err(Error::MissingExport(name)) => name@ == "memory"@ && !has_memory(
                    self.exports_view(),
                ),
            },
    {
        let embedder = self.embedder(host);
        let ghost side = embedder;
        let done = match self.start(embedder) {
            Ok(phase) => phase.response(ctx, is_error),
            Err(e) => Err(e),
        };
        assert(self.may_respond(side, ctx, is_error, done));
        done
    }
}

/// Whether setting a phase of a guest up for an embedder can go like that: the
/// guest is instantiated with the given host functions, under the limits and with
/// its deadline at the next tick of the epoch, and its memory is resolved.
pub closed spec fn opens<'a>(
    guest: Module,
    functions: Seq<HostFn>,
    limits: Limits,
    embedder: Embedder<'a, dyn Host + 'a>,
    phase: Result<Phase<'a>, Error>,
) -> bool {
    exists|
        linker: Linker<PhaseData<'a>>,
        store: Store<PhaseData<'a>>,
        made: Result<(Store<PhaseData<'a>>, Instance), EngineError>,
    | #[trigger]
        call_ensures(instantiate, (&linker, &guest, store), made) && linked(linker)
            == import_table(functions) && store_data(store).side() == embedder && store_data(
            store,
        ).cap() == limits.max_memory_bytes && store_data(store).budget() == limits.timeout && setup(
            store,
        ) == (Setup { limited: true, ticks: 1, budgeted: true }) && match made {
            Err(e) => fails_to_load(e, phase),
            Ok((store, instance)) => exists|resolved: Option<Store<PhaseData<'a>>>| #[trigger]
                call_ensures(resolve_memory, (store, &instance, "memory"), resolved) && phase
                    == match resolved {
                    Some(store) => Ok(Phase { store, instance }),
                    None => Err(Error::MissingExport("memory")),
                },
        }
}

/// What a phase can come to rests on the compiled guest, the limits, the fetcher
/// and the sink of its plugin, and on the embedder's side as it stands: nothing
/// that ran before has a part in it. (Running a phase does not change a plugin, and
/// none of the guest's exports has been called when a phase begins.)
pub proof fn phases_are_independent<'a>(
    first: Plugin,
    second: Plugin,
    embedder: Embedder<'a, dyn Host + 'a>,
    ctx: u32,
    is_error: bool,
    next: Result<Next, Error>,
    done: Result<(), Error>,
)
    requires
        first.guest_view() == second.guest_view(),
        first.limits_view() == second.limits_view(),
        first.fetcher_view() == second.fetcher_view(),
        first.sink_view() == second.sink_view(),
    ensures
        first.may_request(embedder, next) == second.may_request(embedder, next),
        first.may_respond(embedder, ctx, is_error, done) == second.may_respond(
            embedder,
            ctx,
            is_error,
            done,
        ),
{
    assert(first.functions_view() == second.functions_view());
}

/// Whether a linker has one of the functions already.
pub open spec fn is_linked(
    table: Map<(Seq<char>, Seq<char>), HostFn>,
    functions: Seq<HostFn>,
    i: int,
) -> bool {
    table.contains_key(import_key(functions[i]))
}

/// Wire every available host function onto the linker, in turn. It fails at the
/// first that the linker has already. For a new linker that is none, for one that
/// has been through this it is the first.
pub(crate) fn register_host_functions(
    linker: &mut Linker<PhaseData<'_>>,
    fetch: bool,
    send: bool,
) -> (done: Result<(), Error>)
    ensures
        linked(*old(linker)) == Map::<(Seq<char>, Seq<char>), HostFn>::empty() ==> done is Ok
            && linked(*final(linker)) == import_table(available(fetch, send)),
        linked(*old(linker)).contains_key(import_key(HostFn::GetMethod)) ==> done is Err && linked(
            *final(linker),
        ) == linked(*old(linker)),
        match done {
            Ok(_) => linked(*final(linker)) == linked(*old(linker)).union_prefer_right(
                import_table(available(fetch, send)),
            ) && forall|i: int|
                0 <= i < available(fetch, send).len() ==> !#[trigger] is_linked(
                    linked(*old(linker)),
                    available(fetch, send),
                    i,
                ),
            Err(e) => e is Load && exists|n: int|
                0 <= n < available(fetch, send).len() && #[trigger] is_linked(
                    linked(*old(linker)),
                    available(fetch, send),
                    n,
                ) && linked(*final(linker)) == linked(*old(linker)).union_prefer_right(
                    import_table(available(fetch, send).take(n)),
                ) && forall|i: int|
                    0 <= i < n ==> !#[trigger] is_linked(
                        linked(*old(linker)),
                        available(fetch, send),
                        i,
                    ),
        },
        forall|m: Module| same_engine(*old(linker), m) ==> same_engine(*final(linker), m),
{
    let functions = host_functions(fetch, send);
    let ghost before = linked(*linker);
    proof {
        available_once(fetch, send);
        assert(functions@.take(0) =~= Seq::<HostFn>::empty());
        assert(before.union_prefer_right(import_table(functions@.take(0))) =~= before);
        assert(functions@[0] == HostFn::GetMethod);
    }
    let mut i: usize = 0;
    while i < functions.len()
        invariant
            i <= functions@.len(),
            functions@ == available(fetch, send),
            functions@.no_duplicates(),
            functions@[0] == HostFn::GetMethod,
            before == linked(*old(linker)),
            linked(*linker) == before.union_prefer_right(import_table(functions@.take(i as int))),
            forall|j: int| 0 <= j < i ==> !#[trigger] is_linked(before, functions@, j),
            forall|m: Module| same_engine(*old(linker), m) ==> same_engine(*linker, m),
        decreases functions@.len() - i,
    {
        let f = functions[i];
        proof {
            let wired = functions@.take(i as int);
            import_table_entries(wired, import_key(f));
            if import_table(wired).contains_key(import_key(f)) {
                let j = choose|j: int|
                    0 <= j < wired.len() && #[trigger] import_key(wired[j]) == import_key(f);
                names_are_distinct(wired[j], f);
                assert(functions@[j] == functions@[i as int]);
            }
            assert(functions@.take(i + 1).drop_last() =~= wired);
            assert(before.union_prefer_right(import_table(functions@.take(i + 1)))
                =~= before.union_prefer_right(import_table(wired)).insert(import_key(f), f));
            assert(linked(*linker).contains_key(import_key(f)) == is_linked(
                before,
                functions@,
                i as int,
            ));
            assert(is_linked(before, functions@, 0) == before.contains_key(
                import_key(HostFn::GetMethod),
            ));
        }
        match define(linker, MODULE, f.name(), f.parameters(), f.result(), f) {
            Ok(()) => {},
            Err(e) => return Err(Error::Load(error_text(&e))),
        }
        i = i + 1;
    }
    proof {
        assert(functions@.take(functions@.len() as int) =~= functions@);
        assert(!is_linked(before, functions@, 0));
        if before == Map::<(Seq<char>, Seq<char>), HostFn>::empty() {
            assert(before.union_prefer_right(import_table(functions@)) =~= import_table(
                functions@,
            ));
        }
    }
    Ok(())
}

/// A guest that has been instantiated for one phase.
pub struct Phase<'a> {
    store: Store<PhaseData<'a>>,
    instance: Instance,
}

impl<'a> Phase<'a> {
    /// What the guest exports, by name.
    pub closed spec fn exports_view(&self) -> Map<Seq<char>, ExportKind> {
        guest_exports(self.instance)
    }

    /// Whether the guest is in the store.
    pub closed spec fn is_live(&self) -> bool {
        lives_in(self.instance, self.store)
    }

    /// Whether none of the guest's exports has been called.
    pub closed spec fn is_fresh(&self) -> bool {
        exports_called(self.store) == 0
    }

    /// How large the guest's memory is, in bytes.
    pub closed spec fn memory_size(&self) -> nat {
        memory_size(store_data(self.store).memory_view().unwrap(), self.store)
    }

    /// Whether calling the guest's `handle_request` can go like that.
    pub closed spec fn calls_request(&self, called: Called<i64>) -> bool {
        exists|outcome: Option<Result<i64, EngineError>>| #[trigger]
            call_ensures(call_for_i64, (self.store, &self.instance, "handle_request"), outcome) && went(
                outcome,
                called,
            )
    }

    /// Whether calling the guest's `handle_response` with the given arguments can
    /// go like that.
    pub closed spec fn calls_response(&self, args: (i32, i32), called: Called<()>) -> bool {
        exists|outcome: Option<Result<(), EngineError>>| #[trigger]
            call_ensures(call_with_pair, (self.store, &self.instance, "handle_response", args), outcome) && went(
                outcome,
                called,
            )
    }

    /// Whether the request phase can come to that result.
    pub open spec fn requests(&self, next: Result<Next, Error>) -> bool {
        exists|called: Called<i64>| #[trigger]
            self.calls_request(called) && next == request_of(called)
    }

    /// Whether the response phase, for a context and an error flag, can come to
    /// that result.
    pub open spec fn responds(&self, ctx: u32, is_error: bool, done: Result<(), Error>) -> bool {
        exists|args: (i32, i32), called: Called<()>| #[trigger]
            self.calls_response(args, called) && args.0 == signed32(ctx as int) && args.1 == flag(
                is_error,
            ) && done == response_of(called)
    }

    /// Call the guest's `handle_request`.
    fn request(self) -> (next: Result<Next, Error>)
        requires
            self.is_live(),
        ensures
            self.requests(next),
            match next {
                Ok(_) | Err(Error::Run(_)) => has_request(self.exports_view()),
                Err(Error::Load(_)) => false,
                Err(Error::MissingExport(name)) => name@ == "handle_request"@ && !has_request(
                    self.exports_view(),
                ),
            },
    {
        let outcome = call_for_i64(self.store, &self.instance, "handle_request");
        let called = how_it_went(outcome);
        assert(self.calls_request(called));
        request_result(called)
    }

    /// Call the guest's `handle_response`, if it has one: a guest that only
    /// inspects requests need not export it.
    fn response(self, ctx: u32, is_error: bool) -> (done: Result<(), Error>)
        requires
            self.is_live(),
        ensures
            self.responds(ctx, is_error, done),
            !has_response(self.exports_view()) ==> done is Ok,
            done matches Err(e) ==> e is Run,
    {
        let args = response_args(ctx, is_error);
        let outcome = call_with_pair(self.store, &self.instance, "handle_response", args);
        let called = how_it_went(outcome);
        assert(self.calls_response(args, called));
        response_result(called)
    }
}

/// Whether the outcome of a call is told like that: a failure by the engine's
/// own text.
spec fn went<T>(outcome: Option<Result<T, EngineError>>, called: Called<T>) -> bool {
    match outcome {
        Some(Ok(value)) => called == Called::Returned(value),
        Some(Err(e)) => called matches Called::Failed(text) && call_ensures(
            error_text,
            (&e,),
            text,
        ),
        None => called is Missing,
    }
}

/// How the call of an export went, in the library's own terms.
fn how_it_went<T>(outcome: Option<Result<T, EngineError>>) -> (called: Called<T>)
    ensures
        went(outcome, called),
{
    match outcome {
        Some(Ok(value)) => Called::Returned(value),
        Some(Err(e)) => Called::Failed(error_text(&e)),
        None => Called::Missing,
    }
}

/// How the call of an export went.
pub enum Called<T> {
    /// The guest has no such export.
    Missing,
    /// The guest trapped or was interrupted.
    Failed(String),
    /// The guest returned.
    Returned(T),
}

/// The outcome that a guest's `ctx_next` value stands for.
pub open spec fn next_of(raw: i64) -> Next {
    if lower_half(raw as int) % 2 == 1 {
        Next::Continue(upper_half(raw as int) as u32)
    } else {
        Next::Stop
    }
}

/// The result of the request phase, from how the call of `handle_request` went.
pub open spec fn request_of(called: Called<i64>) -> Result<Next, Error> {
    match called {
        Called::Missing => Err(Error::MissingExport("handle_request")),
        Called::Failed(text) => Err(Error::Run(text)),
        Called::Returned(raw) => Ok(next_of(raw)),
    }
}

/// The result of the request phase, from how the call of `handle_request` went.
pub fn request_result(called: Called<i64>) -> (next: Result<Next, Error>)
    ensures
        next == request_of(called),
{
    match called {
        Called::Missing => Err(Error::MissingExport("handle_request")),
        Called::Failed(e) => Err(Error::Run(e)),
        Called::Returned(raw) => {
            let (ctx, next) = decode_ctx_next(raw);
            Ok(
                if next {
                    Next::Continue(ctx)
                } else {
                    Next::Stop
                },
            )
        },
    }
}

/// The context that a guest returned from its request phase is what it gets in
/// its response phase, bit by bit.
pub proof fn context_is_carried(raw: i64, ctx: u32, arg: i32)
    requires
        next_of(raw) == Next::Continue(ctx),
        arg == signed32(ctx as int),
    ensures
        unsigned32(arg) == upper_half(raw as int),
{
}

/// A guest that packs a context and a proceed flag continues with that context
/// or stops, as the flag says.
pub proof fn packed_flag_decides(ctx: u32, next: bool, raw: i64)
    requires
        raw == packed(ctx, flag(next)),
    ensures
        next_of(raw) == if next {
            Next::Continue(ctx)
        } else {
            Next::Stop
        },
{
}

/// A guest whose imports are available imports functions of the outbound extension
/// only if there is something behind them, and each function with the type that it
/// has.
pub proof fn extension_must_be_provided(plugin: Plugin, f: HostFn, kind: ImportKind)
    requires
        plugin.imports_available(),
        plugin.imports_view().contains((MODULE@, f.import_name(), kind)),
    ensures
        f is HttpFetch ==> plugin.fetcher_view() is Some,
        f is HttpSend ==> plugin.sink_view() is Some,
        kind == function_kind(f),
{
    let fetch = plugin.fetcher_view() is Some;
    let send = plugin.sink_view() is Some;
    importable(fetch, send, f, import_key(f));
    available_functions(fetch, send, f);
}

/// A guest that imports nothing but functions of the standard ABI, each with its
/// type, has all its imports available, whatever the plugin was given.
pub proof fn standard_functions_suffice(plugin: Plugin)
    requires
        forall|import: (Seq<char>, Seq<char>, ImportKind)| #[trigger]
            plugin.imports_view().contains(import) ==> exists|f: HostFn|
                (import.0, import.1) == #[trigger] import_key(f) && import.2 == function_kind(f)
                    && !(f is HttpFetch) && !(f is HttpSend),
    ensures
        plugin.imports_available(),
{
    let fetch = plugin.fetcher_view() is Some;
    let send = plugin.sink_view() is Some;
    let table = import_table(available(fetch, send));
    assert forall|import: (Seq<char>, Seq<char>, ImportKind)| #[trigger]
        plugin.imports_view().contains(import) implies table.contains_key((import.0, import.1))
        && import.2 == function_kind(table[(import.0, import.1)]) by {
        let f = choose|f: HostFn|
            (import.0, import.1) == #[trigger] import_key(f) && import.2 == function_kind(f) && !(
            f is HttpFetch) && !(f is HttpSend);
        available_functions(fetch, send, f);
        importable(fetch, send, f, import_key(f));
    }
}

/// The arguments of `handle_response`: the context of the request phase, bit by
/// bit, and 1 or 0 for the error flag.
pub fn response_args(ctx: u32, is_error: bool) -> (args: (i32, i32))
    ensures
        args.0 == signed32(ctx as int),
        args.1 == flag(is_error),
{
    (
        as_signed(ctx),
        if is_error {
            1
        } else {
            0
        },
    )
}

/// The result of the response phase, from how the call of `handle_response`
/// went. The export is optional.
pub open spec fn response_of(called: Called<()>) -> Result<(), Error> {
    match called {
        Called::Missing | Called::Returned(_) => Ok(()),
        Called::Failed(text) => Err(Error::Run(text)),
    }
}

/// The result of the response phase, from how the call of `handle_response`
/// went.
pub fn response_result(called: Called<()>) -> (done: Result<(), Error>)
    ensures
        done == response_of(called),
{
    match called {
        Called::Missing => Ok(()),
        Called::Failed(e) => Err(Error::Run(e)),
        Called::Returned(()) => Ok(()),
    }
}

} // verus!
