//! The WebAssembly engine. All that the library has from `wasmtime` is behind
//! the items of this file.

use std::time::{Duration, Instant};

use vstd::prelude::*;
use wasmtime::Error as EngineError;
use wasmtime::{
    Caller, Engine, FuncType, Instance, Linker, Memory, Module, Store, UpdateDeadline, Val, ValType,
};

use crate::calls::function::{are_arguments_of, arguments_of, import_table, satisfied, ImportKind};
use crate::calls::{dispatch, dispatch_early, HostFn, WasmType, WasmValue};
use crate::fetch::{Fetcher, Sink};
use crate::host::Host;
use crate::time::{extension, nanoseconds};

verus! {

/// `wasmtime::Engine`, as an opaque type.
#[verifier::external_type_specification]
#[verifier::external_body]
pub struct ExEngine(wasmtime::Engine);

/// `wasmtime::Module`, as an opaque type.
#[verifier::external_type_specification]
#[verifier::external_body]
pub struct ExModule(wasmtime::Module);

/// `wasmtime::Instance`, as an opaque type.
#[verifier::external_type_specification]
#[verifier::external_body]
pub struct ExInstance(wasmtime::Instance);

/// `wasmtime::Memory`, as an opaque type.
#[verifier::external_type_specification]
#[verifier::external_body]
pub struct ExMemory(wasmtime::Memory);

/// `wasmtime::Error`, as an opaque type.
#[verifier::external_type_specification]
#[verifier::external_body]
pub struct ExEngineError(EngineError);

/// `wasmtime::Caller`, as an opaque type.
#[verifier::external_type_specification]
#[verifier::external_body]
#[verifier::reject_recursive_types(T)]
pub struct ExCaller<'a, T>(wasmtime::Caller<'a, T>);

/// `wasmtime::Linker`, as an opaque type.
#[verifier::external_type_specification]
#[verifier::external_body]
#[verifier::reject_recursive_types(T)]
pub struct ExLinker<T>(wasmtime::Linker<T>);

/// `wasmtime::Store`, as an opaque type.
#[verifier::external_type_specification]
#[verifier::external_body]
#[verifier::reject_recursive_types(T)]
pub struct ExStore<T>(wasmtime::Store<T>);

/// The cap on the guest's linear memory.
pub struct MemLimiter {
    max: usize,
}

impl MemLimiter {
    /// How large a linear memory may become, in bytes.
    pub closed spec fn cap(&self) -> usize {
        self.max
    }
}

impl wasmtime::ResourceLimiter for MemLimiter {
    /// A linear memory may grow up to the cap.
    fn memory_growing(&mut self, _current: usize, desired: usize, _maximum: Option<usize>) -> (r:
        wasmtime::Result<bool>)
        ensures
            r matches Ok(allowed) && allowed == may_grow_to(old(self).cap(), desired),
            *final(self) == *old(self),
    {
        Ok(desired <= self.max)
    }

    /// Tables are not capped.
    fn table_growing(&mut self, _current: usize, _desired: usize, _maximum: Option<usize>) -> (r:
        wasmtime::Result<bool>)
        ensures
            r matches Ok(allowed) && allowed,
            *final(self) == *old(self),
    {
        Ok(true)
    }
}

impl MemLimiter {
    /// What the limiter answers the engine if it is asked for a linear memory and for
    /// a table of that size.
    pub fn answers(&mut self, current: usize, desired: usize, maximum: Option<usize>) -> (answers: (
        Option<bool>,
        Option<bool>,
    ))
        ensures
            answers.0 == Some(may_grow_to(old(self).cap(), desired)),
            answers.1 == Some(true),
            *final(self) == *old(self),
    {
        let memory = wasmtime::ResourceLimiter::memory_growing(self, current, desired, maximum);
        let table = wasmtime::ResourceLimiter::table_growing(self, current, desired, maximum);
        (memory.ok(), table.ok())
    }
}

/// Whether a linear memory may become that large under a cap.
pub open spec fn may_grow_to(cap: usize, desired: usize) -> bool {
    desired <= cap
}

/// The embedder's side of a phase.
pub struct Embedder<'a, H: Host + ?Sized> {
    pub host: &'a mut H,
    pub fetcher: Option<&'a dyn Fetcher>,
    pub sink: Option<&'a dyn Sink>,
}

/// What a store holds while a phase runs in it: the embedder's side, what has been
/// resolved of the guest's, and what the guest may use up.
pub struct PhaseData<'a> {
    embedder: Embedder<'a, dyn Host + 'a>,
    memory: Option<Memory>,
    limiter: MemLimiter,
    started: Instant,
    budget: Duration,
}

impl<'a> PhaseData<'a> {
    /// The embedder's side.
    pub closed spec fn side(&self) -> Embedder<'a, dyn Host + 'a> {
        self.embedder
    }

    /// How large the guest's linear memory may become, in bytes.
    pub closed spec fn cap(&self) -> usize {
        self.limiter.cap()
    }

    /// How long the phase may take.
    pub closed spec fn budget(&self) -> Duration {
        self.budget
    }

    /// The guest's memory, once it has been resolved.
    pub closed spec fn memory_view(&self) -> Option<Memory> {
        self.memory
    }

    /// When the phase began.
    pub closed spec fn started_view(&self) -> Instant {
        self.started
    }

    /// Whether all but the host's state is as it was: the fetcher, the sink, the
    /// memory, the cap, the start and the budget.
    pub closed spec fn keeps(&self, before: &Self) -> bool {
        &&& self.embedder.fetcher == before.embedder.fetcher
        &&& self.embedder.sink == before.embedder.sink
        &&& self.memory == before.memory
        &&& self.limiter == before.limiter
        &&& self.started == before.started
        &&& self.budget == before.budget
    }

    /// What the store of a phase that begins now starts with.
    pub(crate) fn new(
        embedder: Embedder<'a, dyn Host + 'a>,
        cap: usize,
        budget: Duration,
    ) -> (data: Self)
        ensures
            data.side() == embedder,
            data.cap() == cap,
            data.budget() == budget,
            data.memory_view() is None,
            call_ensures(Instant::now, (), data.started_view()),
    {
        PhaseData {
            embedder,
            memory: None,
            limiter: MemLimiter { max: cap },
            started: Instant::now(),
            budget,
        }
    }

    /// For how many more ticks the guest may run, now that its deadline has come.
    fn on_deadline(&self) -> (ticks: Option<u64>)
        ensures
            exists|spent: Duration| #[trigger]
                call_ensures(Instant::elapsed, (&self.started_view(),), spent) && ticks
                    == if nanoseconds(spent) < nanoseconds(self.budget()) {
                    Some(1u64)
                } else {
                    None
                },
    {
        let spent = self.started.elapsed();
        assert(call_ensures(Instant::elapsed, (&self.started_view(),), spent));
        extension(spent.as_nanos(), self.budget.as_nanos())
    }
}

/// Data that are kept keep the fetcher, the sink, the memory and the limits.
pub proof fn kept_data(after: PhaseData<'_>, before: PhaseData<'_>)
    requires
        after.keeps(&before),
    ensures
        after.side().fetcher == before.side().fetcher,
        after.side().sink == before.side().sink,
        after.memory_view() == before.memory_view(),
        after.cap() == before.cap(),
        after.budget() == before.budget(),
        after.started_view() == before.started_view(),
{
}

/// What happens to the data of a phase and to the size of the guest's memory at one
/// step: a host function is served, which leaves the size alone, or the limiter is
/// asked whether the memory may grow. In either case the data keep what they hold.
pub open spec fn phase_step(
    before: PhaseData<'_>,
    size: usize,
    after: PhaseData<'_>,
    new_size: usize,
) -> bool {
    after.keeps(&before) && (new_size == size || may_grow_to(before.cap(), new_size))
}

/// The limits hold throughout a phase: the cap, the budget and the start of the
/// phase are what they were when it began, and the guest's memory is never larger
/// than the cap.
pub proof fn limits_hold_throughout(
    states: Seq<PhaseData<'_>>,
    sizes: Seq<usize>,
    i: int,
)
    requires
        0 <= i < states.len(),
        states.len() == sizes.len(),
        sizes[0] <= states[0].cap(),
        forall|j: int|
            #![trigger states[j]]
            0 < j < states.len() ==> phase_step(states[j - 1], sizes[j - 1], states[j], sizes[j]),
    ensures
        states[i].cap() == states[0].cap(),
        states[i].budget() == states[0].budget(),
        states[i].started_view() == states[0].started_view(),
        sizes[i] <= states[0].cap(),
    decreases i,
{
    if i > 0 {
        limits_hold_throughout(states, sizes, i - 1);
    }
}

/// A memory may not grow past the cap, and may grow to exactly the cap.
pub proof fn growth_is_refused_past_the_cap(cap: usize, desired: usize)
    ensures
        cap < desired ==> !may_grow_to(cap, desired),
        may_grow_to(cap, cap),
{
}

/// The host functions that a linker has defined, each by the module and the name
/// that a guest imports it from, and with the type that the function has.
pub uninterp spec fn linked(linker: Linker<PhaseData<'_>>) -> Map<(Seq<char>, Seq<char>), HostFn>;

/// What an export is, as far as the host needs it.
pub enum ExportKind {
    /// A linear memory that is not shared.
    Memory,
    /// A function without parameters and with one `i64` result.
    ToI64,
    /// A function with two `i32` parameters and without results.
    FromPair,
    /// Anything else.
    Other,
}

/// What a module exports, by name.
pub uninterp spec fn module_exports(module: Module) -> Map<Seq<char>, ExportKind>;

/// What a module imports, each by its module, its name and its kind.
pub uninterp spec fn module_imports(module: Module) -> Set<(Seq<char>, Seq<char>, ImportKind)>;

/// What a store holds.
pub uninterp spec fn store_data(store: Store<PhaseData<'_>>) -> PhaseData<'_>;

/// How a store has been set up.
pub struct Setup {
    /// Whether the growth of linear memories is put to the limiter that the store
    /// holds.
    pub limited: bool,
    /// After how many ticks of the epoch, counted from when this was set, the
    /// deadline comes.
    pub ticks: u64,
    /// Whether a guest whose deadline has come goes on as long as there is budget
    /// left, rather than being interrupted.
    pub budgeted: bool,
}

/// How a store has been set up.
pub uninterp spec fn setup(store: Store<PhaseData<'_>>) -> Setup;

/// The size of the largest linear memory that a module starts with, in bytes.
pub uninterp spec fn initial_memory(module: Module) -> nat;

/// What a guest exports, by name.
pub uninterp spec fn guest_exports(instance: Instance) -> Map<Seq<char>, ExportKind>;

/// Whether a guest is in a store.
pub uninterp spec fn lives_in(instance: Instance, store: Store<PhaseData<'_>>) -> bool;

/// How many calls of exports of the guest in a store the host has made.
pub uninterp spec fn exports_called(store: Store<PhaseData<'_>>) -> nat;

/// How large a memory in a store is, in bytes.
pub uninterp spec fn memory_size(memory: Memory, store: Store<PhaseData<'_>>) -> nat;

/// Whether there is an export of the given name and kind.
pub open spec fn offers(
    exports: Map<Seq<char>, ExportKind>,
    name: Seq<char>,
    kind: ExportKind,
) -> bool {
    exports.contains_key(name) && exports[name] == kind
}

/// The memory that the store of a caller keeps for the host functions.
pub uninterp spec fn kept_memory(caller: Caller<'_, PhaseData<'_>>) -> Option<Memory>;

/// Whether a linker was made for the engine that a module belongs to.
pub uninterp spec fn same_engine(linker: Linker<PhaseData<'_>>, module: Module) -> bool;

/// Whether a store was made for the engine that a module belongs to.
pub uninterp spec fn made_for(store: Store<PhaseData<'_>>, module: Module) -> bool;

/// Calls `Engine::new`, with epoch interruption and shared memories (the threads
/// proposal) enabled as asked, and that many bytes of address space reserved for
/// each linear memory. Nothing is claimed of the outcome, which rests on the
/// machine. A memory can outgrow its reservation unless it is shared, and a
/// shared one must be within it: the compiler relies on that.
#[verifier::external_body]
pub(crate) fn new_engine(epoch_interruption: bool, shared: bool, reservation: u64) -> Result<
    Engine,
    EngineError,
>
    requires
        reservation <= 0x1_0000_0000,
        shared ==> reservation == 0x1_0000_0000,
{
    let mut config = wasmtime::Config::new();
    config.epoch_interruption(epoch_interruption).wasm_threads(shared);
    config.memory_reservation(reservation);
    Engine::new(&config)
}

/// Calls `Module::new`, which compiles a guest. Nothing is claimed of the
/// outcome: which bytes are accepted is WebAssembly's validation, and the
/// compiler may fail for want of resources.
#[verifier::external_body]
pub(crate) fn compile(engine: &Engine, wasm: &[u8]) -> Result<Module, EngineError> {
    Module::new(engine, wasm)
}

/// Calls `to_string` of `wasmtime::Error`. Nothing is claimed of the text.
#[verifier::external_body]
pub(crate) fn error_text(error: &EngineError) -> String {
    error.to_string()
}

/// Calls `Linker::new` for the engine that a module belongs to. Claims that
/// nothing is defined yet.
#[verifier::external_body]
pub(crate) fn new_linker<'a>(module: &Module) -> (linker: Linker<PhaseData<'a>>)
    ensures
        linked(linker) == import_table(Seq::<HostFn>::empty()),
        same_engine(linker, *module),
{
    Linker::new(module.engine())
}

/// Calls `Linker::func_new` to define a host function: under the given name in the
/// given module, with the given type, and with [`serve`] as what it does, the
/// arguments taken from and the result put into the engine's own values. Claims
/// that this succeeds exactly if nothing is defined under that name yet, and
/// that nothing changes if not.
#[verifier::external_body]
pub(crate) fn define(
    linker: &mut Linker<PhaseData<'_>>,
    module: &str,
    name: &str,
    params: Vec<WasmType>,
    result: Option<WasmType>,
    f: HostFn,
) -> (r: Result<(), EngineError>)
    requires
        name@ == f.import_name(),
        params@ == f.parameter_types(),
        result == f.result_type(),
    ensures
        r is Ok <==> !linked(*old(linker)).contains_key((module@, name@)),
        r is Ok ==> linked(*final(linker)) == linked(*old(linker)).insert((module@, name@), f),
        r is Err ==> linked(*final(linker)) == linked(*old(linker)),
        forall|m: Module| same_engine(*old(linker), m) ==> same_engine(*final(linker), m),
{
    let own = |ty| match ty {
        WasmType::I32 => ValType::I32,
        WasmType::I64 => ValType::I64,
    };
    let ty = FuncType::new(linker.engine(), params.into_iter().map(own), result.map(own));
    linker.func_new(module, name, ty, move |caller, params, results| {
        let value = serve(f, caller, params.iter().map(Val::i32).collect())?;
        Ok(results.iter_mut().zip(value).for_each(|(slot, v)| match v {
            WasmValue::I32(n) => *slot = Val::I32(n),
            WasmValue::I64(n) => *slot = Val::I64(n),
        }))
    }).map(|_| ())
}

/// Run the host function `f` for the guest behind `caller`, which passed
/// `values`.
///
/// The call is dispatched to the guest's memory and the embedder's side: what the
/// dispatch leaves these in is what they are in afterwards, and all else that the
/// store holds stays. Before the memory has been resolved, as in a start function,
/// the call is only dispatched as far as it needs no memory. It fails if it needs
/// one then, or if the values are not the arguments of `f`.
#[verifier::rlimit(60)]
fn serve<'c, 'a>(f: HostFn, mut caller: Caller<'c, PhaseData<'a>>, values: Vec<Option<i32>>) -> (
    served: Result<Option<WasmValue>, EngineError>)
    ensures
        !are_arguments_of(f, values@) ==> served is Err,
        are_arguments_of(f, values@) && kept_memory(caller) is Some ==> exists|
            c: &mut Caller<'c, PhaseData<'a>>,
            m: Memory,
            parts: (&mut [u8], &mut PhaseData<'a>),
        |
            &*c == caller && kept_memory(caller) == Some(m) && #[trigger] call_ensures(
                guest_parts,
                (c, &m),
                parts,
            ) && ({
                let (mem, data) = parts;
                served matches Ok(value) && mem@.len() <= data.cap() && final(data).keeps(&*data)
                    && final(mem)@.len() == mem@.len() && exists|host: &mut (dyn Host + 'a), args: &[i32], bytes: &mut [u8]|
                    args@ == passed(values@) && bytes@ == mem@ && final(bytes)@ == final(mem)@
                        && &*host == &*data.embedder.host && &*final(host) == &*final(
                        data).embedder.host && &*final(final(data).embedder.host) == &*final(
                        data.embedder.host) && #[trigger] call_ensures(
                        dispatch,
                        (host, data.embedder.fetcher, data.embedder.sink, f, args, bytes),
                        value,
                    )
            }),
        are_arguments_of(f, values@) && kept_memory(caller) is None ==> exists|
            c: &mut Caller<'c, PhaseData<'a>>,
            data: &mut PhaseData<'a>,
        |
            &*c == caller && #[trigger] call_ensures(guest_data_mut, (c,), data) && final(
                data).keeps(&*data) && exists|
                host: &mut (dyn Host + 'a),
                args: &[i32],
                done: Option<Option<WasmValue>>,
            |
                args@ == passed(values@) && &*host == &*data.embedder.host && &*final(host)
                    == &*final(data).embedder.host && &*final(final(data).embedder.host)
                    == &*final(data.embedder.host) && #[trigger] call_ensures(
                    dispatch_early,
                    (host, data.embedder.fetcher, data.embedder.sink, f, args),
                    done,
                ) && match done {
                    Some(value) => served == Ok::<Option<WasmValue>, EngineError>(value),
                    None => served is Err,
                },
{
    let args = match arguments_of(f, values.as_slice()) {
        Some(args) => args,
        None => return Err(failure("the arguments are not those of the function")),
    };
    assert(args@ =~= passed(values@));
    let kept = guest_data(&caller).memory;
    match kept {
        Some(memory) => {
            let (mem, data) = guest_parts(&mut caller, &memory);
            let side = &mut data.embedder;
            Ok(dispatch(&mut *side.host, side.fetcher, side.sink, f, args.as_slice(), mem))
        },
        None => {
            let data = guest_data_mut(&mut caller);
            let side = &mut data.embedder;
            match dispatch_early(&mut *side.host, side.fetcher, side.sink, f, args.as_slice()) {
                Some(value) => Ok(value),
                None => Err(failure("the guest's memory is not resolved yet")),
            }
        },
    }
}

/// The arguments among the values that a guest passed.
spec fn passed(values: Seq<Option<i32>>) -> Seq<i32> {
    values.map_values(|v: Option<i32>| v.unwrap())
}

/// Calls `Caller::data`: what the store holds. Claims which memory it keeps.
#[verifier::external_body]
fn guest_data<'c, 'a>(caller: &'c Caller<'_, PhaseData<'a>>) -> (data: &'c PhaseData<'a>)
    ensures
        data.memory_view() == kept_memory(*caller),
{
    caller.data()
}

/// Calls `Caller::data_mut`: what the store holds. Claims which memory it keeps.
#[verifier::external_body]
fn guest_data_mut<'c, 'a>(caller: &'c mut Caller<'_, PhaseData<'a>>) -> (data: &'c mut PhaseData<
    'a,
>)
    ensures
        data.memory_view() == kept_memory(*old(caller)),
{
    caller.data_mut()
}

/// Calls `Memory::data_and_store_mut` on the memory that the store keeps: its
/// bytes, and what the store holds. Claims which memory that is, and that there are
/// no more bytes than the cap allows: every guest runs in a store that puts the
/// growth of its memories to the limiter. What the bytes are is the guest's.
#[verifier::external_body]
fn guest_parts<'c, 'a>(caller: &'c mut Caller<'_, PhaseData<'a>>, memory: &Memory) -> (parts: (
    &'c mut [u8],
    &'c mut PhaseData<'a>,
))
    requires
        kept_memory(*old(caller)) == Some(*memory),
    ensures
        parts.0@.len() <= parts.1.cap(),
        parts.1.memory_view() == kept_memory(*old(caller)),
{
    memory.data_and_store_mut(caller)
}

/// Calls `Error::msg`: an error of the engine with the given text, which traps
/// the guest.
#[verifier::external_body]
fn failure(message: &'static str) -> EngineError {
    EngineError::msg(message)
}

/// Calls `Store::new` for the engine that a module belongs to. Claims what the
/// store holds.
#[verifier::external_body]
fn new_store<'a>(module: &Module, data: PhaseData<'a>) -> (store: Store<PhaseData<'a>>)
    ensures
        store_data(store) == data,
        made_for(store, *module),
{
    Store::new(module.engine(), data)
}

/// Calls `Store::limiter`, with the limiter that the store holds.
#[verifier::external_body]
fn limit_memory(store: &mut Store<PhaseData<'_>>)
    ensures
        setup(*final(store)) == (Setup { limited: true, ..setup(*old(store)) }),
        store_data(*final(store)) == store_data(*old(store)),
        forall|m: Module| made_for(*old(store), m) ==> made_for(*final(store), m),
{
    store.limiter(|data| &mut data.limiter);
}

/// Calls `Store::set_epoch_deadline`: so many ticks away, few enough for the engine
/// to count on from any epoch it may be in.
#[verifier::external_body]
fn set_deadline(store: &mut Store<PhaseData<'_>>, ticks: u64)
    requires
        ticks <= u32::MAX,
    ensures
        setup(*final(store)) == (Setup { ticks, ..setup(*old(store)) }),
        store_data(*final(store)) == store_data(*old(store)),
        forall|m: Module| made_for(*old(store), m) ==> made_for(*final(store), m),
{
    store.set_epoch_deadline(ticks);
}

/// Calls `Store::epoch_deadline_callback`, with [`PhaseData::on_deadline`] as what
/// decides whether the guest goes on. One that does not is interrupted.
#[verifier::external_body]
fn watch_budget(store: &mut Store<PhaseData<'_>>)
    ensures
        setup(*final(store)) == (Setup { budgeted: true, ..setup(*old(store)) }),
        store_data(*final(store)) == store_data(*old(store)),
        forall|m: Module| made_for(*old(store), m) ==> made_for(*final(store), m),
{
    store.epoch_deadline_callback(|context| match context.data().on_deadline() {
        Some(ticks) => Ok(UpdateDeadline::Continue(ticks)),
        None => Err(wasmtime::Trap::Interrupt.into()),
    });
}

/// A store for a phase of a guest: under the cap and the budget that `data` hold,
/// and with its deadline at the next tick of the epoch.
pub(crate) fn phase_store<'a>(module: &Module, data: PhaseData<'a>) -> (store: Store<
    PhaseData<'a>,
>)
    ensures
        store_data(store) == data,
        made_for(store, *module),
        setup(store) == (Setup { limited: true, ticks: 1, budgeted: true }),
{
    let mut store = new_store(module, data);
    limit_memory(&mut store);
    set_deadline(&mut store, 1);
    watch_budget(&mut store);
    store
}

/// Calls `Linker::instantiate`. A guest's start function runs here. Claims that
/// this fails if the linker lacks one of the module's imports or has it with
/// another type, or if the module starts with a memory larger than the cap, and
/// that the host is left alone then, since no guest runs. Claims of the guest that
/// it has the module's exports, none of which has been called, and of the store
/// that it keeps its set-up and, as [`serve`] does, all that it holds but the
/// host's state. Whether it succeeds is otherwise up to the guest and the machine.
#[verifier::external_body]
pub(crate) fn instantiate<'a>(
    linker: &Linker<PhaseData<'a>>,
    module: &Module,
    mut store: Store<PhaseData<'a>>,
) -> (made: Result<(Store<PhaseData<'a>>, Instance), EngineError>)
    requires
        same_engine(*linker, *module),
        made_for(store, *module),
        setup(store).limited,
    ensures
        made is Ok ==> satisfied(module_imports(*module), linked(*linker)),
        made is Ok ==> initial_memory(*module) <= store_data(store).cap(),
        !satisfied(module_imports(*module), linked(*linker)) ==> &*final(store_data(store).side().host)
            == &*old(store_data(store).side().host),
        initial_memory(*module) > store_data(store).cap() ==> &*final(store_data(store).side().host)
            == &*old(store_data(store).side().host),
        made matches Ok(m) ==> guest_exports(m.1) == module_exports(*module),
        made matches Ok(m) ==> lives_in(m.1, m.0),
        made matches Ok(m) ==> exports_called(m.0) == 0,
        made matches Ok(m) ==> setup(m.0) == setup(store),
        made matches Ok(m) ==> store_data(m.0).keeps(&store_data(store)),
{
    let instance = linker.instantiate(&mut store, module)?;
    Ok((store, instance))
}

/// Calls `Instance::get_memory`. Claims that there is one exactly if the guest
/// exports a memory by that name, that it is no larger than the cap allows, and
/// that nothing changes.
#[verifier::external_body]
fn find_memory<'a>(mut store: Store<PhaseData<'a>>, instance: &Instance, name: &str) -> (found: (
    Store<PhaseData<'a>>,
    Option<Memory>,
))
    requires
        lives_in(*instance, store),
        setup(store).limited,
    ensures
        found.1 is Some == offers(guest_exports(*instance), name@, ExportKind::Memory),
        found.1 matches Some(m) ==> memory_size(m, found.0) <= store_data(found.0).cap(),
        store_data(found.0) == store_data(store),
        lives_in(*instance, found.0),
        exports_called(found.0) == exports_called(store),
{
    let memory = instance.get_memory(&mut store, name);
    (store, memory)
}

/// Calls `Store::data_mut`: what the store holds, to be changed there. Claims that
/// nothing else changes.
#[verifier::external_body]
fn held_data<'s, 'a>(store: &'s mut Store<PhaseData<'a>>) -> (data: &'s mut PhaseData<'a>)
    ensures
        *data == store_data(*old(store)),
        store_data(*final(store)) == *final(data),
        exports_called(*final(store)) == exports_called(*old(store)),
        forall|i: Instance| lives_in(i, *old(store)) ==> lives_in(i, *final(store)),
        forall|m: Memory| memory_size(m, *final(store)) == memory_size(m, *old(store)),
{
    store.data_mut()
}

/// Resolve a guest's memory, and keep it in the store for the host functions.
/// `None` if the guest exports no memory by that name.
pub(crate) fn resolve_memory<'a>(
    store: Store<PhaseData<'a>>,
    instance: &Instance,
    name: &str,
) -> (resolved: Option<Store<PhaseData<'a>>>)
    requires
        lives_in(*instance, store),
        setup(store).limited,
    ensures
        resolved is Some == offers(guest_exports(*instance), name@, ExportKind::Memory),
        resolved matches Some(s) ==> {
            &&& store_data(s).memory_view() matches Some(m) && memory_size(m, s) <= store_data(
                s,
            ).cap()
            &&& store_data(s).side() == store_data(store).side()
            &&& store_data(s).cap() == store_data(store).cap()
            &&& store_data(s).budget() == store_data(store).budget()
            &&& store_data(s).started_view() == store_data(store).started_view()
            &&& lives_in(*instance, s)
            &&& exports_called(s) == exports_called(store)
        },
{
    let (mut store, memory) = find_memory(store, instance, name);
    match memory {
        Some(memory) => {
            let data = held_data(&mut store);
            data.memory = Some(memory);
            Some(store)
        },
        None => None,
    }
}

/// Calls `Instance::get_typed_func` for an export without arguments and with an
/// `i64` result, and `TypedFunc::call` if there is one. Claims that it is called
/// exactly if the guest exports such a function by that name. How the call goes
/// is up to the guest.
#[verifier::external_body]
pub(crate) fn call_for_i64(
    mut store: Store<PhaseData<'_>>,
    instance: &Instance,
    name: &str,
) -> (called: Option<Result<i64, EngineError>>)
    requires
        lives_in(*instance, store),
    ensures
        called is Some == offers(guest_exports(*instance), name@, ExportKind::ToI64),
{
    let func = instance.get_typed_func::<(), i64>(&mut store, name).ok()?;
    Some(func.call(&mut store, ()))
}

/// Calls `Instance::get_typed_func` for an export with two `i32` arguments and
/// without a result, and `TypedFunc::call` with the given ones if there is one.
/// Claims that it is called exactly if the guest exports such a function by that
/// name. How the call goes is up to the guest.
#[verifier::external_body]
pub(crate) fn call_with_pair(
    mut store: Store<PhaseData<'_>>,
    instance: &Instance,
    name: &str,
    args: (i32, i32),
) -> (called: Option<Result<(), EngineError>>)
    requires
        lives_in(*instance, store),
    ensures
        called is Some == offers(guest_exports(*instance), name@, ExportKind::FromPair),
{
    let func = instance.get_typed_func::<(i32, i32), ()>(&mut store, name).ok()?;
    Some(func.call(&mut store, args))
}

// ---- What the limits come to ----

/// A linear memory may become as large as the cap, and no larger, for every size that
/// it has and asks for. Tables are not capped. Asking changes nothing.
proof fn how_far_a_memory_grows(
    limiter: &mut MemLimiter,
    current: usize,
    desired: usize,
    maximum: Option<usize>,
    answers: (Option<bool>, Option<bool>),
)
    requires
        call_ensures(MemLimiter::answers, (limiter, current, desired, maximum), answers),
    ensures
        answers.0 is Some && answers.1 == Some(true),
        answers.0 == Some(true) <==> desired <= old(limiter).max,
        final(limiter).max == old(limiter).max,
{
}

/// A phase begins with the embedder's side, the cap and the budget that it is given,
/// and now.
proof fn how_a_phase_begins<'a>(
    embedder: Embedder<'a, dyn Host + 'a>,
    cap: usize,
    budget: Duration,
    data: PhaseData<'a>,
)
    requires
        call_ensures(PhaseData::new, (embedder, cap, budget), data),
    ensures
        data.embedder == embedder,
        data.limiter.max == cap,
        data.budget == budget,
        data.memory is None,
        call_ensures(Instant::now, (), data.started),
{
}

/// A guest whose deadline has come goes on, by one tick, exactly as long as less time
/// than its budget has passed since the phase began.
proof fn when_a_guest_goes_on<'a>(data: &PhaseData<'a>, ticks: Option<u64>)
    requires
        call_ensures(PhaseData::on_deadline, (data,), ticks),
    ensures
        exists|spent: Duration| #[trigger]
            call_ensures(Instant::elapsed, (&data.started,), spent)
                && (ticks is Some <==> nanoseconds(
                spent,
            ) < nanoseconds(data.budget)),
        ticks matches Some(n) ==> n == 1,
{
}

/// The store of a phase puts the growth of memories to the limiter, has its deadline at
/// the next tick, asks for the budget then, and holds what it is given.
proof fn how_a_store_is_set_up<'a>(module: &Module, data: PhaseData<'a>,
    store: Store<PhaseData<'a>>)
    requires
        call_ensures(phase_store, (module, data), store),
    ensures
        setup(store).limited,
        setup(store).budgeted,
        setup(store).ticks == 1,
        store_data(store) == data,
{
}

/// Serving a host function leaves all that a store holds as it was, but for the host's
/// state.
proof fn what_serving_keeps<'a>(after: PhaseData<'a>, before: PhaseData<'a>)
    requires
        after.keeps(&before),
    ensures
        after.embedder.fetcher == before.embedder.fetcher,
        after.embedder.sink == before.embedder.sink,
        after.memory == before.memory,
        after.limiter.max == before.limiter.max,
        after.started == before.started,
        after.budget == before.budget,
{
}

/// Only a guest's own memory is kept, and nothing else of what the store holds changes.
proof fn which_memory_is_kept<'a>(
    store: Store<PhaseData<'a>>,
    instance: &Instance,
    name: &str,
    resolved: Option<Store<PhaseData<'a>>>,
)
    requires
        call_ensures(resolve_memory, (store, instance, name), resolved),
    ensures
        resolved is Some <==> guest_exports(*instance).contains_key(name@) && guest_exports(
            *instance,
        )[name@] == ExportKind::Memory,
        resolved matches Some(s) ==> {
            &&& store_data(s).memory matches Some(m) && memory_size(m, s) <= store_data(
                s,
            ).limiter.max
            &&& store_data(s).embedder == store_data(store).embedder
            &&& store_data(s).limiter.max == store_data(store).limiter.max
            &&& store_data(s).budget == store_data(store).budget
            &&& store_data(s).started == store_data(store).started
        },
{
}

/// The values of a guest are taken as they are.
proof fn what_is_passed(values: Seq<Option<i32>>, i: int)
    requires
        0 <= i < values.len(),
        values[i] is Some,
    ensures
        passed(values).len() == values.len(),
        values[i] == Some(passed(values)[i]),
{
}

/// A host function that a guest calls once its memory is resolved is dispatched with
/// the values that the guest passed, to the guest's own memory and the embedder's own
/// side, and what the dispatch does to these is all that happens.
#[verifier::rlimit(60)]
proof fn what_is_served<'c, 'a>(
    f: HostFn,
    n: usize,
    caller: Caller<'c, PhaseData<'a>>,
    values: Vec<Option<i32>>,
    served: Result<Option<WasmValue>, EngineError>,
)
    requires
        call_ensures(HostFn::arity, (f,), n),
        call_ensures(serve, (f, caller, values), served),
        kept_memory(caller) is Some,
        values@.len() == n,
        forall|i: int| 0 <= i < values@.len() ==> #[trigger] values@[i] is Some,
    ensures
        exists|c: &mut Caller<'c, PhaseData<'a>>, m: Memory, parts: (&mut [u8], &mut PhaseData<'a>)|
            &*c == caller && kept_memory(caller) == Some(m) && #[trigger] call_ensures(
                guest_parts,
                (c, &m),
                parts,
            ) && ({
                let (mem, data) = parts;
                served matches Ok(value) && final(data).embedder.fetcher
                    == data.embedder.fetcher && final(data).embedder.sink
                    == data.embedder.sink && final(data).memory == data.memory
                        && final(data).limiter.max
                    == data.limiter.max && final(data).started == data.started && final(data).budget
                    == data.budget && exists|
                    host: &mut (dyn Host + 'a),
                    args: &[i32],
                    bytes: &mut [u8],
                |
                    args@.len() == values@.len() && (forall|i: int|
                        0 <= i < values@.len() ==> Some(#[trigger] args@[i]) == values@[i])
                        && bytes@ == mem@ && final(bytes)@ == final(mem)@ && &*host
                        == &*data.embedder.host && &*final(host) == &*final(data).embedder.host
                        && #[trigger] call_ensures(
                        dispatch,
                        (host, data.embedder.fetcher, data.embedder.sink, f, args, bytes),
                        value,
                    )
            }),
{
    assert(are_arguments_of(f, values@));
    assert(forall|i: int| 0 <= i < values@.len() ==> Some(#[trigger] passed(values@)[i])
        == values@[i]);
}

/// One that a guest calls before that is dispatched as far as it needs no memory, with
/// the values that the guest passed and to the embedder's own side.
#[verifier::rlimit(60)]
proof fn what_is_served_early<'c, 'a>(
    f: HostFn,
    n: usize,
    caller: Caller<'c, PhaseData<'a>>,
    values: Vec<Option<i32>>,
    served: Result<Option<WasmValue>, EngineError>,
)
    requires
        call_ensures(HostFn::arity, (f,), n),
        call_ensures(serve, (f, caller, values), served),
        kept_memory(caller) is None,
        values@.len() == n,
        forall|i: int| 0 <= i < values@.len() ==> #[trigger] values@[i] is Some,
    ensures
        exists|c: &mut Caller<'c, PhaseData<'a>>, data: &mut PhaseData<'a>|
            &*c == caller && #[trigger] call_ensures(guest_data_mut, (c,), data)
                && final(data).embedder.fetcher == data.embedder.fetcher
                    && final(data).embedder.sink
            == data.embedder.sink && final(data).memory == data.memory && final(data).limiter.max
            == data.limiter.max && final(data).started == data.started && final(data).budget
            == data.budget && exists|
                host: &mut (dyn Host + 'a),
                args: &[i32],
                done: Option<Option<WasmValue>>,
            |
                args@.len() == values@.len() && (forall|i: int|
                    0 <= i < values@.len() ==> Some(#[trigger] args@[i]) == values@[i]) && &*host
                    == &*data.embedder.host && &*final(host) == &*final(data).embedder.host
                    && #[trigger] call_ensures(
                    dispatch_early,
                    (host, data.embedder.fetcher, data.embedder.sink, f, args),
                    done,
                ) && match done {
                    Some(value) => served == Ok::<Option<WasmValue>, EngineError>(value),
                    None => served is Err,
                },
{
    assert(are_arguments_of(f, values@));
    assert(forall|i: int| 0 <= i < values@.len() ==> Some(#[trigger] passed(values@)[i])
        == values@[i]);
}

/// A call with other values than the function takes fails.
proof fn what_is_not_served<'c, 'a>(
    f: HostFn,
    n: usize,
    caller: Caller<'c, PhaseData<'a>>,
    values: Vec<Option<i32>>,
    served: Result<Option<WasmValue>, EngineError>,
    i: int,
)
    requires
        call_ensures(HostFn::arity, (f,), n),
        call_ensures(serve, (f, caller, values), served),
        values@.len() != n || 0 <= i < values@.len() && values@[i] is None,
    ensures
        served is Err,
{
}

} // verus!
