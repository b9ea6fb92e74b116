//! The host functions a guest can call.
//!
//! A call goes through three steps. [`plan`](plan::plan) reads the raw arguments
//! and the guest's memory and decides what to ask of the embedder, if anything.
//! [`ask`] asks it. [`deliver`] writes the answer into the guest's memory and
//! makes the value that the guest gets back. [`dispatch`] is the three in a row.
//! What a guest and its embedder can rely on is in [`guarantees`], and in [`early`]
//! for the time before the guest's memory is resolved.

use vstd::prelude::*;

pub mod answer;
pub mod delivery;
pub mod early;
pub mod function;
pub mod guarantees;
pub mod laws;
pub mod plan;

pub use answer::{ask, Answer};
pub use delivery::deliver;
pub use function::{host_functions, HostFn, WasmType, WasmValue};
pub use plan::{HostCall, Plan};

use crate::fetch::{Fetcher, Sink};
use crate::host::Host;
use answer::{answered, only_reads, AnswerView};
use delivery::{answer_fits, delivered, fills, fills_buffer};
use plan::{bad_text_is_marked, needs_memory, planned, reads_memory, PlanView};

verus! {

/// Run the host function `f` for a guest that called it with `args`.
///
/// If the call is settled at once, neither the memory nor the host changes. If
/// not, the embedder is asked what was planned, and what it answers is
/// delivered.
pub fn dispatch<H: Host + ?Sized, F: Fetcher + ?Sized, S: Sink + ?Sized>(
    host: &mut H,
    fetcher: Option<&F>,
    sink: Option<&S>,
    f: HostFn,
    args: &[i32],
    mem: &mut [u8],
) -> (value: Option<WasmValue>)
    requires
        args@.len() == f.argument_count(),
    ensures
        final(mem)@.len() == old(mem)@.len(),
        match planned(f, args@, old(mem)@) {
            PlanView::Now(v) => value == v && final(mem)@ == old(mem)@ && &*final(host) == &*old(
                host,
            ),
            PlanView::Ask(call) => {
                &&& bad_text_is_marked(f, args@, old(mem)@)
                &&& exists|h: &mut H, answer: AnswerView|
                    &*h == &*old(host) && &*final(h) == &*final(host) && #[trigger] answered(
                        h,
                        fetcher,
                        sink,
                        call,
                        answer,
                    ) && answer_fits(f, answer) && (final(mem)@, value) == delivered(
                        f,
                        args@,
                        old(mem)@,
                        answer,
                    )
                &&& only_reads(call) ==> &*final(host) == &*old(host)
            },
        },
{
    match plan::plan(f, args, mem) {
        Plan::Now(value) => value,
        Plan::Ask(call) => {
            let answer = ask(host, fetcher, sink, call);
            assert(answer_fits(f, answer@));
            deliver(f, args, mem, answer)
        },
    }
}

/// Run the host function `f` for a guest that called it with `args` before its
/// memory was resolved, as a start function may.
///
/// `None` if the call needs the memory. It does if it reads from it, and nothing is
/// asked of the embedder then. It does too if there is something to write into the
/// buffer of the call.
pub fn dispatch_early<H: Host + ?Sized, F: Fetcher + ?Sized, S: Sink + ?Sized>(
    host: &mut H,
    fetcher: Option<&F>,
    sink: Option<&S>,
    f: HostFn,
    args: &[i32],
) -> (done: Option<Option<WasmValue>>)
    requires
        args@.len() == f.argument_count(),
    ensures
        reads_memory(f, args@) ==> done is None && &*final(host) == &*old(host),
        !reads_memory(f, args@) ==> match planned(f, args@, seq![]) {
            PlanView::Now(v) => done == Some(v) && &*final(host) == &*old(host),
            PlanView::Ask(call) => {
                &&& exists|h: &mut H, answer: AnswerView|
                    &*h == &*old(host) && &*final(h) == &*final(host) && #[trigger] answered(
                        h,
                        fetcher,
                        sink,
                        call,
                        answer,
                    ) && answer_fits(f, answer) && done == if fills(f, args@, answer) {
                        None
                    } else {
                        Some(delivered(f, args@, seq![], answer).1)
                    }
                &&& only_reads(call) ==> &*final(host) == &*old(host)
            },
        },
{
    if needs_memory(f, args) {
        return None;
    }
    let mut nothing: Vec<u8> = Vec::new();
    assert(nothing@ =~= seq![]);
    match plan::plan(f, args, nothing.as_slice()) {
        Plan::Now(value) => Some(value),
        Plan::Ask(call) => {
            let answer = ask(host, fetcher, sink, call);
            assert(answer_fits(f, answer@));
            if fills_buffer(f, args, &answer) {
                None
            } else {
                Some(deliver(f, args, nothing.as_mut_slice(), answer))
            }
        },
    }
}

} // verus!
