//! The wall-clock budget of a phase.

use std::time::{Duration, Instant};

use vstd::prelude::*;

verus! {

/// `std::time::Instant`, as an opaque type.
#[verifier::external_type_specification]
#[verifier::external_body]
pub struct ExInstant(std::time::Instant);

/// How many nanoseconds a duration lasts, as `Duration::as_nanos` tells it.
pub uninterp spec fn nanoseconds(duration: Duration) -> u128;

/// `Duration::as_nanos`. Claims that the number is a function of the duration.
pub assume_specification[ Duration::as_nanos ](duration: &Duration) -> (nanos: u128)
    ensures
        nanos == nanoseconds(*duration),
;

/// `Duration::from_millis`. Claims that the duration lasts a million nanoseconds
/// for each millisecond.
pub assume_specification[ Duration::from_millis ](millis: u64) -> (duration: Duration)
    ensures
        nanoseconds(duration) == millis * 1_000_000,
;

/// `Instant::now`. Nothing is claimed of the time.
pub assume_specification[ Instant::now ]() -> Instant;

/// `Instant::elapsed`. Nothing is claimed of the time.
pub assume_specification[ Instant::elapsed ](instant: &Instant) -> Duration;

/// For how many more ticks a guest may run that has spent so much of its budget,
/// both in nanoseconds: for one, or for none once the budget is spent.
pub fn extension(spent: u128, budget: u128) -> (ticks: Option<u64>)
    ensures
        ticks == if spent < budget {
            Some(1u64)
        } else {
            None
        },
{
    if spent < budget {
        Some(1)
    } else {
        None
    }
}

/// How long whoever drives a phase waits before the next tick: until the budget is
/// spent, and then for a grace period each time.
pub fn next_wait(ticked: bool, timeout: Duration, grace: Duration) -> (wait: Duration)
    ensures
        wait == if ticked {
            grace
        } else {
            timeout
        },
{
    if ticked {
        grace
    } else {
        timeout
    }
}

/// A guest goes on by one tick exactly as long as it has spent less than its budget,
/// so what may go on with less left may go on with more.
pub proof fn budget_decides(
    spent: u128,
    budget: u128,
    earlier: u128,
    ticks: Option<u64>,
    before: Option<u64>,
)
    requires
        call_ensures(extension, (spent, budget), ticks),
        call_ensures(extension, (earlier, budget), before),
        earlier <= spent,
    ensures
        ticks is Some <==> spent < budget,
        ticks matches Some(n) ==> n == 1,
        ticks is Some ==> before is Some,
{
}

/// The first tick comes when the budget is spent, and each other one after the
/// grace period.
pub proof fn first_tick_waits_for_the_budget(
    ticked: bool,
    timeout: Duration,
    grace: Duration,
    wait: Duration,
)
    requires
        call_ensures(next_wait, (ticked, timeout, grace), wait),
    ensures
        !ticked ==> wait == timeout,
        ticked ==> wait == grace,
{
}

} // verus!
