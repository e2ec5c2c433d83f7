//! How well the buffer of unconsumed items covers the demand that the
//! current settings place on it.

use vstd::prelude::*;
use crate::crawler::refill_wanted;

verus! {

/// Minutes of scrolling one thread asks for at throttle level `level`, in
/// hundredths of a minute: one minute at level 1, rising by half a minute a
/// level to five minutes at level 9.
pub open spec fn scroll_hundredths(level: u8) -> int {
    50 * (level as int + 1)
}

/// What all threads ask for, in hundredths of a minute.
pub open spec fn demand_hundredths(thread_count: u8, throttle_level: u8) -> int {
    scroll_hundredths(throttle_level) * thread_count as int
}

/// Health labels, from worst to best after "empty".
pub open spec fn health_label(
    pending_count: u64,
    total_cost_hundredths: u64,
    thread_count: u8,
    throttle_level: u8,
) -> Seq<char> {
    let demand = demand_hundredths(thread_count, throttle_level);
    let cost = total_cost_hundredths as int;
    if pending_count == 0 {
        "empty"@
    } else if 4 * cost < demand {
        "critical"@
    } else if 2 * cost < demand {
        "low"@
    } else if cost < demand {
        "moderate"@
    } else {
        "healthy"@
    }
}

/// A number from 0 (empty) to 4 (healthy) for each label, for comparisons.
pub open spec fn health_rank(
    pending_count: u64,
    total_cost_hundredths: u64,
    thread_count: u8,
    throttle_level: u8,
) -> int {
    let demand = demand_hundredths(thread_count, throttle_level);
    let cost = total_cost_hundredths as int;
    if pending_count == 0 {
        0
    } else if 4 * cost < demand {
        1
    } else if 2 * cost < demand {
        2
    } else if cost < demand {
        3
    } else {
        4
    }
}

/// The health of the buffer: "empty" with nothing pending; otherwise, with
/// the pending items worth `total_cost_hundredths` hundredths of a minute,
/// "critical" below a quarter of the demand, "low" below half, "moderate"
/// below all of it, and "healthy" from there on.
pub fn compute_buffer_health(
    pending_count: u64,
    total_cost_hundredths: u64,
    thread_count: u8,
    throttle_level: u8,
) -> (h: &'static str)
    ensures
        h@ == health_label(pending_count, total_cost_hundredths, thread_count, throttle_level),
{
    let scroll: u128 = 50 * (throttle_level as u128 + 1);
    let threads: u128 = thread_count as u128;
    assert(scroll * threads <= 12800 * 255) by (nonlinear_arith)
        requires
            scroll <= 12800,
            threads <= 255,
    ;
    let demand: u128 = scroll * threads;
    let cost: u128 = total_cost_hundredths as u128;
    if pending_count == 0 {
        "empty"
    } else if 4 * cost < demand {
        "critical"
    } else if 2 * cost < demand {
        "low"
    } else if cost < demand {
        "moderate"
    } else {
        "healthy"
    }
}

/// Law: each thread asks for one minute at throttle level 1 and half a
/// minute more for every level above it, and the health labels are cut at a
/// quarter, a half and the whole of what all threads ask for.
pub proof fn law_health_thresholds(pending: u64, cost: u64, threads: u8, level: u8)
    ensures
        demand_hundredths(threads, level) == threads * (100 + 50 * (level - 1)),
        level < 255 ==> demand_hundredths(threads, (level + 1) as u8) - demand_hundredths(
            threads,
            level,
        ) == 50 * threads,
        pending == 0 ==> health_label(pending, cost, threads, level) == "empty"@,
        pending > 0 && 4 * cost < threads * (100 + 50 * (level - 1)) ==> health_label(
            pending,
            cost,
            threads,
            level,
        ) == "critical"@,
        pending > 0 && threads * (100 + 50 * (level - 1)) <= 4 * cost && 2 * cost < threads * (100
            + 50 * (level - 1)) ==> health_label(pending, cost, threads, level) == "low"@,
        pending > 0 && threads * (100 + 50 * (level - 1)) <= 2 * cost && cost < threads * (100 + 50
            * (level - 1)) ==> health_label(pending, cost, threads, level) == "moderate"@,
        pending > 0 && threads * (100 + 50 * (level - 1)) <= cost ==> health_label(
            pending,
            cost,
            threads,
            level,
        ) == "healthy"@,
{
    assert(50 * (level as int + 1) * threads == threads * (100 + 50 * (level - 1))) by (nonlinear_arith);
    if level < 255 {
        assert(50 * ((level + 1) as int + 1) * threads - 50 * (level as int + 1) * threads == 50
            * threads) by (nonlinear_arith);
    }
}

/// Law: more content in the buffer never makes its health worse.
pub proof fn law_health_monotone_in_cost(pending: u64, cost: u64, more: u64, threads: u8, level: u8)
    requires
        cost <= more,
    ensures
        health_rank(pending, cost, threads, level) <= health_rank(pending, more, threads, level),
{
}

/// Law: more threads or a higher throttle level never make the health better.
pub proof fn law_health_monotone_in_demand(
    pending: u64,
    cost: u64,
    threads: u8,
    more_threads: u8,
    level: u8,
    higher: u8,
)
    requires
        threads <= more_threads,
        level <= higher,
    ensures
        health_rank(pending, cost, more_threads, higher) <= health_rank(pending, cost, threads, level),
{
    assert(demand_hundredths(threads, level) <= demand_hundredths(more_threads, higher)) by (nonlinear_arith)
        requires
            threads <= more_threads,
            level <= higher,
    {
    }
}

/// Minutes each pending item is taken to cost, in hundredths: half a minute.
pub const ITEM_COST_HUNDREDTHS: u64 = 50;

/// The cost of the pending items when only their number is known: half a
/// minute each, in hundredths of a minute, held at `u64::MAX` when larger
/// (far above any demand, so the health it gives is the same).
pub fn approximate_cost_hundredths(pending_count: u64) -> (c: u64)
    ensures
        c == if pending_count * 50 <= u64::MAX { pending_count * 50 } else { u64::MAX as int },
{
    if pending_count > u64::MAX / ITEM_COST_HUNDREDTHS {
        u64::MAX
    } else {
        pending_count * ITEM_COST_HUNDREDTHS
    }
}

/// Law: a refill is asked for exactly when the buffer is critical or low,
/// or moderate at throttle level 7 or more; an empty or healthy buffer
/// never asks for one.
pub proof fn law_refill_by_health(pending: u64, cost: u64, threads: u8, level: u8)
    ensures
        refill_wanted(health_label(pending, cost, threads, level), level) <==> (health_rank(
            pending,
            cost,
            threads,
            level,
        ) == 1 || health_rank(pending, cost, threads, level) == 2 || (level >= 7 && health_rank(
            pending,
            cost,
            threads,
            level,
        ) == 3)),
{
    reveal_strlit("empty");
    reveal_strlit("critical");
    reveal_strlit("low");
    reveal_strlit("moderate");
    reveal_strlit("healthy");
    assert("empty"@.len() != "critical"@.len() && "empty"@.len() != "low"@.len());
    assert("empty"@.len() != "moderate"@.len());
    assert("healthy"@.len() != "critical"@.len() && "healthy"@.len() != "low"@.len());
    assert("healthy"@.len() != "moderate"@.len());
    assert("moderate"@[0] != "critical"@[0]);
    assert("moderate"@.len() != "low"@.len());
    assert("critical"@.len() != "low"@.len());
}

} // verus!
