//! What a plugin does with a guest, call of the engine by call of the engine.

use std::sync::Arc;

use vstd::prelude::*;
use wasmtime::Error as EngineError;
use wasmtime::{Engine, Instance, Linker, Module, Store};

use super::{
    opens, register_host_functions, request_result, response_args, response_result, Called, Error,
    Limits, Next, Phase, Plugin,
};
use crate::abi::{flag, signed32};
use crate::calls::function::{
    available, available_functions, import_key, import_table, importable, satisfied, HostFn,
    ImportKind,
};
use crate::engine::{
    call_for_i64, call_with_pair, compile, error_text, exports_called, initial_memory,
        instantiate, linked,
    module_imports, new_engine, resolve_memory, setup, store_data, Embedder, PhaseData,
};
use crate::fetch::{Fetcher, Sink};
use crate::host::Host;

verus! {

/// What a guest can import is the functions of the standard ABI, and those of the
/// extension that there is something behind: each under its name in the module
/// `http_handler`, and nothing else.
pub proof fn what_can_be_imported(fetch: bool, send: bool)
    ensures
        forall|f: HostFn|
            #![trigger f.import_name()]
            import_table(available(fetch, send)).contains_key(
                ("http_handler"@, f.import_name()),
            ) == match f {
                HostFn::HttpFetch => fetch,
                HostFn::HttpSend => send,
                _ => true,
            },
        forall|f: HostFn|
            #![trigger f.import_name()]
            import_table(available(fetch, send)).contains_key(
                ("http_handler"@, f.import_name()),
            ) ==> import_table(available(fetch, send))[("http_handler"@, f.import_name())] == f,
        forall|key: (Seq<char>, Seq<char>)| #[trigger]
            import_table(available(fetch, send)).contains_key(key) ==> key.0 == "http_handler"@,
{
    let table = import_table(available(fetch, send));
    assert forall|f: HostFn|
        #![trigger f.import_name()]
        table.contains_key(("http_handler"@, f.import_name())) == (match f {
            HostFn::HttpFetch => fetch,
            HostFn::HttpSend => send,
            _ => true,
        }) && (table.contains_key(("http_handler"@, f.import_name())) ==> table[(
            "http_handler"@,
            f.import_name(),
        )] == f) by {
        importable(fetch, send, f, import_key(f));
        available_functions(fetch, send, f);
        assert(import_key(f) == ("http_handler"@, f.import_name()));
    }
    assert forall|key: (Seq<char>, Seq<char>)| #[trigger] table.contains_key(key) implies key.0
        == "http_handler"@ by {
        importable(fetch, send, HostFn::GetMethod, key);
    }
}

/// A guest for a phase is set up like that: it is instantiated with the host
/// functions that are available, under the plugin's own limits and with its deadline
/// at the next tick, and its exported memory is kept in the store.
pub(super) proof fn how_a_phase_is_opened<'a>(
    plugin: Plugin,
    embedder: Embedder<'a, dyn Host + 'a>,
    phase: Result<Phase<'a>, Error>,
)
    requires
        opens(
            plugin.guest_view(),
            plugin.functions_view(),
            plugin.limits_view(),
            embedder,
            phase,
        ),
    ensures
        exists|
            linker: Linker<PhaseData<'a>>,
            store: Store<PhaseData<'a>>,
            made: Result<(Store<PhaseData<'a>>, Instance), EngineError>,
        | #[trigger]
            call_ensures(instantiate, (&linker, &plugin.module, store), made) && ({
                &&& store_data(store).side() == embedder
                &&& store_data(store).cap() == plugin.limits.max_memory_bytes
                &&& store_data(store).budget() == plugin.limits.timeout
                &&& setup(store).limited && setup(store).budgeted && setup(store).ticks == 1
                &&& forall|f: HostFn|
                    #![trigger f.import_name()]
                    linked(linker).contains_key(("http_handler"@, f.import_name())) == match f {
                        HostFn::HttpFetch => plugin.fetcher is Some,
                        HostFn::HttpSend => plugin.sink is Some,
                        _ => true,
                    }
                &&& forall|f: HostFn|
                    #![trigger f.import_name()]
                    linked(linker).contains_key(("http_handler"@, f.import_name()))
                        ==> linked(linker)[(
                        "http_handler"@,
                        f.import_name(),
                    )] == f
                &&& forall|key: (Seq<char>, Seq<char>)| #[trigger]
                    linked(linker).contains_key(key) ==> key.0 == "http_handler"@
                &&& match made {
                    Ok((s, instance)) => exists|resolved: Option<Store<PhaseData<'a>>>| #[trigger]
                        call_ensures(resolve_memory, (s, &instance, "memory"), resolved)
                            && match resolved {
                            Some(kept) => phase matches Ok(p) && p.store == kept && p.instance
                                == instance,
                            None => phase matches Err(Error::MissingExport(name)) && name@
                                == "memory"@,
                        },
                    Err(e) => phase matches Err(Error::Load(text)) && call_ensures(
                        error_text,
                        (&e,),
                        text,
                    ),
                }
            }),
{
    let (linker, store, made) = choose|
        linker: Linker<PhaseData<'a>>,
        store: Store<PhaseData<'a>>,
        made: Result<(Store<PhaseData<'a>>, Instance), EngineError>,
    | #[trigger]
        call_ensures(instantiate, (&linker, &plugin.module, store), made) && linked(linker)
            == import_table(plugin.functions_view()) && store_data(store).side() == embedder
            && store_data(store).cap() == plugin.limits.max_memory_bytes && store_data(
            store,
        ).budget() == plugin.limits.timeout && setup(store).limited && setup(store).budgeted
            && setup(store).ticks == 1 && match made {
            Err(e) => super::fails_to_load(e, phase),
            Ok((s, instance)) => exists|resolved: Option<Store<PhaseData<'a>>>| #[trigger]
                call_ensures(resolve_memory, (s, &instance, "memory"), resolved) && phase
                    == match resolved {
                    Some(kept) => Ok(Phase { store: kept, instance }),
                    None => Err(Error::MissingExport("memory")),
                },
        };
    what_can_be_imported(plugin.fetcher is Some, plugin.sink is Some);
    if let Ok((s, instance)) = made {
        let resolved = choose|resolved: Option<Store<PhaseData<'a>>>| #[trigger]
            call_ensures(resolve_memory, (s, &instance, "memory"), resolved) && phase
                == match resolved {
                Some(kept) => Ok(Phase { store: kept, instance }),
                None => Err(Error::MissingExport("memory")),
            };
        assert(call_ensures(resolve_memory, (s, &instance, "memory"), resolved));
    }
}

/// In the request phase a fresh guest's `handle_request` is called. What it returns
/// decides: the lowest bit whether to go on, and the upper half is the context. A
/// trap is told as a failure to run, with the engine's own text.
pub(super) proof fn how_a_request_is_run<'a>(
    plugin: Plugin,
    embedder: Embedder<'a, dyn Host + 'a>,
    next: Result<Next, Error>,
)
    requires
        plugin.may_request(embedder, next),
    ensures
        exists|phase: Result<Phase<'a>, Error>| #[trigger]
            opens(
                plugin.module,
                available(plugin.fetcher is Some, plugin.sink is Some),
                plugin.limits,
                embedder,
                phase,
            ) && match phase {
                Err(e) => next == Err::<Next, Error>(e),
                Ok(p) => exports_called(p.store) == 0 && exists|
                    outcome: Option<Result<i64, EngineError>>,
                | #[trigger]
                    call_ensures(
                        call_for_i64,
                        (p.store, &p.instance, "handle_request"),
                        outcome,
                    ) && match outcome {
                        None => next matches Err(Error::MissingExport(name)) && name@
                            == "handle_request"@,
                        Some(Err(e)) => next matches Err(Error::Run(text)) && call_ensures(
                            error_text,
                            (&e,),
                            text,
                        ),
                        Some(Ok(raw)) => match next {
                            Ok(Next::Continue(ctx)) => raw as int % 2 == 1 && (raw as int
                                / 0x1_0000_0000 - ctx as int) % 0x1_0000_0000 == 0,
                            Ok(Next::Stop) => raw as int % 2 == 0,
                            Err(_) => false,
                        },
                    },
            },
{
    let phase = choose|phase: Result<Phase<'a>, Error>| #[trigger]
        opens(
            plugin.guest_view(),
            plugin.functions_view(),
            plugin.limits_view(),
            embedder,
            phase,
        ) && match phase {
            Ok(p) => p.is_fresh() && p.requests(next),
            Err(e) => next == Err::<Next, Error>(e),
        };
    if let Ok(p) = phase {
        let called = choose|called: Called<i64>| #[trigger]
            p.calls_request(called) && next == super::request_of(called);
        let outcome = choose|outcome: Option<Result<i64, EngineError>>| #[trigger]
            call_ensures(call_for_i64, (p.store, &p.instance, "handle_request"), outcome)
                && super::went(outcome, called);
        assert(call_ensures(call_for_i64, (p.store, &p.instance, "handle_request"), outcome));
    }
}

/// In the response phase a fresh guest's `handle_response` is called, if it has one,
/// with the context bit by bit and 1 or 0 for the error flag. A trap is told as a
/// failure to run, with the engine's own text.
pub(super) proof fn how_a_response_is_run<'a>(
    plugin: Plugin,
    embedder: Embedder<'a, dyn Host + 'a>,
    ctx: u32,
    is_error: bool,
    done: Result<(), Error>,
)
    requires
        plugin.may_respond(embedder, ctx, is_error, done),
    ensures
        exists|phase: Result<Phase<'a>, Error>| #[trigger]
            opens(
                plugin.module,
                available(plugin.fetcher is Some, plugin.sink is Some),
                plugin.limits,
                embedder,
                phase,
            ) && match phase {
                Err(e) => done == Err::<(), Error>(e),
                Ok(p) => exports_called(p.store) == 0 && exists|
                    args: (i32, i32),
                    outcome: Option<Result<(), EngineError>>,
                | #[trigger]
                    call_ensures(
                        call_with_pair,
                        (p.store, &p.instance, "handle_response", args),
                        outcome,
                    ) && (args.0 as int == ctx as int || args.0 as int == ctx as int
                        - 0x1_0000_0000) && args.1 == (if is_error {
                        1int
                    } else {
                        0
                    }) && match outcome {
                        Some(Err(e)) => done matches Err(Error::Run(text)) && call_ensures(
                            error_text,
                            (&e,),
                            text,
                        ),
                        _ => done is Ok,
                    },
            },
{
    let phase = choose|phase: Result<Phase<'a>, Error>| #[trigger]
        opens(
            plugin.guest_view(),
            plugin.functions_view(),
            plugin.limits_view(),
            embedder,
            phase,
        ) && match phase {
            Ok(p) => p.is_fresh() && p.responds(ctx, is_error, done),
            Err(e) => done == Err::<(), Error>(e),
        };
    if let Ok(p) = phase {
        let (args, called) = choose|args: (i32, i32), called: Called<()>| #[trigger]
            p.calls_response(args, called) && args.0 == signed32(ctx as int) && args.1 == flag(
                is_error,
            ) && done == super::response_of(called);
        let outcome = choose|outcome: Option<Result<(), EngineError>>| #[trigger]
            call_ensures(
                call_with_pair,
                (p.store, &p.instance, "handle_response", args),
                outcome,
            ) && super::went(outcome, called);
        assert(call_ensures(
            call_with_pair,
            (p.store, &p.instance, "handle_response", args),
            outcome,
        ));
    }
}

/// The first argument that a guest gets in the response phase has exactly the bits of
/// the context, for every context, and the second tells the error flag.
pub proof fn response_gets_the_context<'a>(
    plugin: Plugin,
    embedder: Embedder<'a, dyn Host + 'a>,
    ctx: u32,
    is_error: bool,
    done: Result<(), Error>,
)
    requires
        plugin.may_respond(embedder, ctx, is_error, done),
        done matches Err(e) ==> e is Run,
    ensures
        exists|p: Phase<'a>, args: (i32, i32), called: Called<()>| #[trigger]
            p.calls_response(args, called) && (args.0 as int == ctx as int || args.0 as int
                == ctx as int - 0x1_0000_0000) && args.1 == (if is_error {
                1int
            } else {
                0
            }) && match called {
                Called::Failed(text) => done == Err::<(), Error>(Error::Run(text)),
                _ => done is Ok,
            },
{
    let phase = choose|phase: Result<Phase<'a>, Error>| #[trigger]
        opens(
            plugin.guest_view(),
            plugin.functions_view(),
            plugin.limits_view(),
            embedder,
            phase,
        ) && match phase {
            Ok(p) => p.is_fresh() && p.responds(ctx, is_error, done),
            Err(e) => done == Err::<(), Error>(e),
        };
    how_a_phase_is_opened(plugin, embedder, phase);
    assert(phase matches Err(e) ==> !(e is Run));
}

/// The context that a guest returns from its request phase is what it gets in its
/// response phase: the bits of the first argument are the upper half of what it
/// returned, and it returned an odd number.
pub proof fn context_reaches_the_response<'a>(
    plugin: Plugin,
    before: Embedder<'a, dyn Host + 'a>,
    after: Embedder<'a, dyn Host + 'a>,
    ctx: u32,
    is_error: bool,
    done: Result<(), Error>,
)
    requires
        plugin.may_request(before, Ok(Next::Continue(ctx))),
        plugin.may_respond(after, ctx, is_error, done),
        done matches Err(e) ==> e is Run,
    ensures
        exists|
            p: Phase<'a>,
            raw: i64,
            q: Phase<'a>,
            args: (i32, i32),
            called: Called<()>,
        |
            #![trigger p.calls_request(Called::Returned(raw)), q.calls_response(args, called)]
            p.calls_request(Called::Returned(raw)) && q.calls_response(args, called) && raw as int
                % 2 == 1 && (raw as int / 0x1_0000_0000 - args.0 as int) % 0x1_0000_0000 == 0,
{
    let phase = choose|phase: Result<Phase<'a>, Error>| #[trigger]
        opens(
            plugin.guest_view(),
            plugin.functions_view(),
            plugin.limits_view(),
            before,
            phase,
        ) && match phase {
            Ok(p) => p.is_fresh() && p.requests(Ok(Next::Continue(ctx))),
            Err(e) => false,
        };
    let p = phase->Ok_0;
    let asked = choose|called: Called<i64>| #[trigger]
        p.calls_request(called) && Ok::<Next, Error>(Next::Continue(ctx)) == super::request_of(
            called,
        );
    let raw = asked->Returned_0;
    assert(p.calls_request(Called::Returned(raw)));
    response_gets_the_context(plugin, after, ctx, is_error, done);
    let (q, args, called) = choose|q: Phase<'a>, args: (i32, i32), called: Called<()>| #[trigger]
        q.calls_response(args, called) && (args.0 as int == ctx as int || args.0 as int
            == ctx as int - 0x1_0000_0000);
    assert((raw as int / 0x1_0000_0000 - ctx as int) % 0x1_0000_0000 == 0);
    assert((raw as int / 0x1_0000_0000 - args.0 as int) % 0x1_0000_0000 == 0);
}

/// Running a phase of a plugin is what the relations above say, for the plugin's own
/// fetcher and sink and for the host in the state that it is in.
pub(super) proof fn how_phases_are_run<'a>(
    plugin: &'a Plugin,
    ctx: u32,
    is_error: bool,
    request: (&'a Plugin, &'a mut (dyn Host + 'a)),
    next: Result<Next, Error>,
    response: (&'a Plugin, &'a mut (dyn Host + 'a), u32, bool),
    done: Result<(), Error>,
)
    requires
        request.0 == plugin,
        response.0 == plugin,
        response.2 == ctx,
        response.3 == is_error,
        call_ensures(Plugin::handle_request, request, next),
        call_ensures(Plugin::handle_response, response, done),
    ensures
        exists|embedder: Embedder<'a, dyn Host + 'a>| #[trigger]
            plugin.may_request(embedder, next) && &*embedder.host == &*old(request.1)
                && &*final(embedder.host)
                == &*final(request.1) && (match plugin.fetcher {
                Some(fetcher) => embedder.fetcher == Some(&*fetcher),
                None => embedder.fetcher is None,
            }) && match plugin.sink {
                Some(sink) => embedder.sink == Some(&*sink),
                None => embedder.sink is None,
            },
        exists|embedder: Embedder<'a, dyn Host + 'a>| #[trigger]
            plugin.may_respond(embedder, ctx, is_error, done)
                && &*embedder.host == &*old(response.1)
                && &*final(embedder.host) == &*final(response.1) && (match plugin.fetcher {
                Some(fetcher) => embedder.fetcher == Some(&*fetcher),
                None => embedder.fetcher is None,
            }) && match plugin.sink {
                Some(sink) => embedder.sink == Some(&*sink),
                None => embedder.sink is None,
            },
{
    let embedder = choose|embedder: Embedder<'a, dyn Host + 'a>| #[trigger]
        plugin.may_request(embedder, next) && &*embedder.host == &*old(request.1)
            && &*final(embedder.host)
            == &*final(request.1) && plugin.lends(embedder.fetcher, embedder.sink);
    assert(plugin.may_request(embedder, next));
    let embedder = choose|embedder: Embedder<'a, dyn Host + 'a>| #[trigger]
        plugin.may_respond(embedder, ctx, is_error, done) && &*embedder.host == &*old(response.1)
            && &*final(embedder.host) == &*final(response.1) && plugin.lends(
            embedder.fetcher,
            embedder.sink,
        );
    assert(plugin.may_respond(embedder, ctx, is_error, done));
}

/// A guest that imports what there is not, or what there is with another type, or that
/// starts with more memory than the cap allows, does not load in either phase.
pub(super) proof fn what_does_not_load<'a>(
    plugin: &'a Plugin,
    ctx: u32,
    is_error: bool,
    request: (&'a Plugin, &'a mut (dyn Host + 'a)),
    next: Result<Next, Error>,
    response: (&'a Plugin, &'a mut (dyn Host + 'a), u32, bool),
    done: Result<(), Error>,
    import: (Seq<char>, Seq<char>, ImportKind),
    f: HostFn,
)
    requires
        request.0 == plugin,
        response.0 == plugin,
        response.2 == ctx,
        response.3 == is_error,
        call_ensures(Plugin::handle_request, request, next),
        call_ensures(Plugin::handle_response, response, done),
        initial_memory(plugin.module) > plugin.limits.max_memory_bytes || (
        module_imports(plugin.module).contains(import) && (import.0 != "http_handler"@ || (
        import.1 == f.import_name() && (f is HttpFetch && plugin.fetcher is None || f is HttpSend
            && plugin.sink is None || import.2 is Other || (
        import.2 matches ImportKind::Function(params, result) && (result != f.result_type()
            || params.len() != f.argument_count())))))),
    ensures
        next matches Err(Error::Load(_)),
        done matches Err(Error::Load(_)),
        &*final(request.1) == &*old(request.1),
        &*final(response.1) == &*old(response.1),
{
    what_can_be_imported(plugin.fetcher is Some, plugin.sink is Some);
    if initial_memory(plugin.module) <= plugin.limits.max_memory_bytes {
        let table = import_table(plugin.functions_view());
        assert(plugin.imports_view().contains(import));
        if import.0 == "http_handler"@ {
            assert(table.contains_key(("http_handler"@, f.import_name())) ==> table[(
                "http_handler"@,
                f.import_name(),
            )] == f);
        }
        assert(!satisfied(plugin.imports_view(), table));
    }
    assert(!plugin.is_loadable());
}

/// What was built was built by one call each.
proof fn built_parts(
    wasm: &[u8],
    shared: bool,
    reservation: u64,
    engine: Engine,
    module: Module,
)
    requires
        super::builds(wasm, shared, reservation, Ok((engine, module))),
    ensures
        call_ensures(
            new_engine,
            (true, shared, reservation),
            Ok::<Engine, EngineError>(engine),
        ),
        call_ensures(compile, (&engine, wasm), Ok::<Module, EngineError>(module)),
{
    let made = choose|made: Result<Engine, EngineError>| #[trigger]
        call_ensures(new_engine, (true, shared, reservation), made) && match made {
            Err(e) => super::fails_to_load(e, Ok::<(Engine, Module), Error>((engine, module))),
            Ok(own) => exists|compiled: Result<Module, EngineError>| #[trigger]
                call_ensures(compile, (&own, wasm), compiled) && match compiled {
                    Err(e) => super::fails_to_load(
                        e,
                        Ok::<(Engine, Module), Error>((engine, module)),
                    ),
                    Ok(m) => own == engine && m == module,
                },
        };
    assert(made == Ok::<Engine, EngineError>(engine));
}

/// A guest is compiled for an engine of its own that can be interrupted, and the
/// plugin keeps that engine, the compiled guest and the limits. What fails is told as
/// a failure to load, with the engine's own text.
pub(super) proof fn how_a_guest_is_compiled(wasm: &[u8], limits: Limits, plugin: Result<Plugin,
    Error>)
    requires
        call_ensures(Plugin::from_bytes, (wasm, limits), plugin),
    ensures
        match plugin {
            Ok(p) => p.limits == limits && p.fetcher is None && p.sink is None && exists|
                shared: bool,
                reservation: u64,
            | #[trigger]
                call_ensures(
                    new_engine,
                    (true, shared, reservation),
                    Ok::<Engine, EngineError>(p.engine),
                ) && call_ensures(
                    compile,
                    (&p.engine, wasm),
                    Ok::<Module, EngineError>(p.module),
                ) && reservation as int == if shared || limits.max_memory_bytes >= 0x1_0000_0000 {
                    0x1_0000_0000
                } else {
                    limits.max_memory_bytes as int
                },
            Err(error) => exists|e: EngineError, text: String| #[trigger]
                call_ensures(error_text, (&e,), text) && error == Error::Load(text)
                    && (call_ensures(
                    new_engine,
                    (true, true, 0x1_0000_0000u64),
                    Err::<Engine, EngineError>(e),
                ) || exists|engine: Engine| #[trigger]
                    call_ensures(
                        new_engine,
                        (true, true, 0x1_0000_0000u64),
                        Ok::<Engine, EngineError>(engine),
                    ) && call_ensures(compile, (&engine, wasm), Err::<Module, EngineError>(e))),
        },
{
    let (small, reservation) = choose|
        small: Result<(Engine, Module), Error>,
        reservation: u64,
    | #[trigger]
        super::builds(wasm, false, reservation, small) && reservation == limits.reserved_bytes()
            && match small {
            Ok((engine, module)) => plugin == Ok::<Plugin, Error>(
                Plugin { engine, module, limits, fetcher: None, sink: None },
            ),
            Err(_) => exists|full: Result<(Engine, Module), Error>| #[trigger]
                super::builds(wasm, true, super::ADDRESS_SPACE, full) && plugin == match full {
                    Ok((engine, module)) => Ok(
                        Plugin { engine, module, limits, fetcher: None, sink: None },
                    ),
                    Err(e) => Err(e),
                },
        };
    if let Ok((engine, module)) = small {
        built_parts(wasm, false, reservation, engine, module);
        let p = plugin->Ok_0;
        assert(call_ensures(
            new_engine,
            (true, false, reservation),
            Ok::<Engine, EngineError>(p.engine),
        ));
    } else {
        let full = choose|full: Result<(Engine, Module), Error>| #[trigger]
            super::builds(wasm, true, super::ADDRESS_SPACE, full) && plugin == match full {
                Ok((engine, module)) => Ok(
                    Plugin { engine, module, limits, fetcher: None, sink: None },
                ),
                Err(e) => Err(e),
            };
        if let Ok((engine, module)) = full {
            built_parts(wasm, true, 0x1_0000_0000, engine, module);
            let p = plugin->Ok_0;
            assert(call_ensures(
                new_engine,
                (true, true, 0x1_0000_0000u64),
                Ok::<Engine, EngineError>(p.engine),
            ));
        }
    }
}

/// Giving a plugin a fetcher or a sink changes nothing else of it.
pub(super) proof fn what_a_plugin_keeps(
    plugin: Plugin,
    with_fetcher: (Plugin, Arc<dyn Fetcher>),
    with_sink: (Plugin, Arc<dyn Sink>),
    fetching: Plugin,
    sending: Plugin,
)
    requires
        with_fetcher.0 == plugin,
        with_sink.0 == plugin,
        call_ensures(Plugin::with_fetcher, with_fetcher, fetching),
        call_ensures(Plugin::with_sink, with_sink, sending),
    ensures
        fetching.fetcher == Some(with_fetcher.1),
        fetching.sink == plugin.sink,
        sending.sink == Some(with_sink.1),
        sending.fetcher == plugin.fetcher,
        fetching.limits == plugin.limits,
        sending.limits == plugin.limits,
        fetching.module == plugin.module,
        sending.module == plugin.module,
        fetching.engine == plugin.engine,
        sending.engine == plugin.engine,
{
}

/// A plugin tells its limits and its engine as they are.
pub(super) proof fn what_a_plugin_tells(plugin: &Plugin, limits: Limits, engine: &Engine)
    requires
        call_ensures(Plugin::limits, (plugin,), limits),
        call_ensures(Plugin::engine, (plugin,), engine),
    ensures
        limits == plugin.limits,
        *engine == plugin.engine,
{
}

/// The text of an error is made of a fixed text and all of its own.
pub proof fn what_an_error_says(error: &Error, message: String)
    requires
        call_ensures(Error::message, (error,), message),
    ensures
        match error {
            Error::Load(e) => message@ == "failed to load guest: "@ + e@,
            Error::Run(e) => message@ == "guest execution failed: "@ + e@,
            Error::MissingExport(e) => message@ == "guest is missing required export `"@ + e@
                + "`"@,
        },
{
}

/// What a guest returned from its request phase decides, bit by bit.
pub proof fn what_a_request_comes_to(called: Called<i64>, next: Result<Next, Error>)
    requires
        call_ensures(request_result, (called,), next),
    ensures
        match called {
            Called::Missing => next matches Err(Error::MissingExport(name)) && name@
                == "handle_request"@,
            Called::Failed(text) => next == Err::<Next, Error>(Error::Run(text)),
            Called::Returned(raw) => match next {
                Ok(Next::Continue(ctx)) => raw as int % 2 == 1 && (raw as int / 0x1_0000_0000
                    - ctx as int) % 0x1_0000_0000 == 0,
                Ok(Next::Stop) => raw as int % 2 == 0,
                Err(_) => false,
            },
        },
{
}

/// The arguments of the response phase are the context bit by bit and the flag, and
/// only a trap makes the phase fail.
pub proof fn what_a_response_comes_to(
    ctx: u32,
    is_error: bool,
    args: (i32, i32),
    called: Called<()>,
    done: Result<(), Error>,
)
    requires
        call_ensures(response_args, (ctx, is_error), args),
        call_ensures(response_result, (called,), done),
    ensures
        args.0 as int == ctx as int || args.0 as int == ctx as int - 0x1_0000_0000,
        args.1 == if is_error {
            1int
        } else {
            0
        },
        match called {
            Called::Failed(text) => done == Err::<(), Error>(Error::Run(text)),
            _ => done is Ok,
        },
{
}

/// A new linker gets every available function under its name, and nothing else.
pub(crate) proof fn what_is_registered(
    linker: &mut Linker<PhaseData<'_>>,
    fetch: bool,
    send: bool,
    done: Result<(), Error>,
)
    requires
        call_ensures(register_host_functions, (linker, fetch, send), done),
        linked(*old(linker)) == Map::<(Seq<char>, Seq<char>), HostFn>::empty(),
    ensures
        done is Ok,
        forall|f: HostFn|
            #![trigger f.import_name()]
            linked(*final(linker)).contains_key(("http_handler"@, f.import_name())) == match f {
                HostFn::HttpFetch => fetch,
                HostFn::HttpSend => send,
                _ => true,
            },
        forall|f: HostFn|
            #![trigger f.import_name()]
            linked(*final(linker)).contains_key(("http_handler"@, f.import_name())) ==> linked(
                *final(linker),
            )[("http_handler"@, f.import_name())] == f,
        forall|key: (Seq<char>, Seq<char>)| #[trigger]
            linked(*final(linker)).contains_key(key) ==> key.0 == "http_handler"@,
{
    what_can_be_imported(fetch, send);
}

/// A linker that has one of the available functions already is refused, and loses
/// nothing that it has. If that is the first, it gains nothing either.
pub(crate) proof fn what_is_not_registered(
    linker: &mut Linker<PhaseData<'_>>,
    fetch: bool,
    send: bool,
    done: Result<(), Error>,
    f: HostFn,
)
    requires
        call_ensures(register_host_functions, (linker, fetch, send), done),
        linked(*old(linker)).contains_key(("http_handler"@, f.import_name())),
        f is HttpFetch ==> fetch,
        f is HttpSend ==> send,
    ensures
        done matches Err(Error::Load(_)),
        f is GetMethod ==> linked(*final(linker)) == linked(*old(linker)),
        forall|key: (Seq<char>, Seq<char>)| #[trigger]
            linked(*old(linker)).contains_key(key) ==> linked(*final(linker)).contains_key(key),
{
    available_functions(fetch, send, f);
    let all = available(fetch, send);
    let i = choose|i: int| 0 <= i < all.len() && all[i] == f;
    assert(super::is_linked(linked(*old(linker)), all, i));
}

} // verus!
