//! The user's consumption controls: throttle level, worker threads and the
//! one-shot "skip the next notification" switch.

use vstd::prelude::*;
use crate::diagnostics::{DiagnosticEvent, event_is, make_event};
use crate::text::{decimal, decimal_string};

verus! {

/// Lowest and highest throttle level.
pub const MIN_THROTTLE_LEVEL: u8 = 1;
pub const MAX_THROTTLE_LEVEL: u8 = 9;
/// Lowest and highest number of consumption threads.
pub const MIN_THREAD_COUNT: u8 = 1;
pub const MAX_THREAD_COUNT: u8 = 8;
/// The settings at start-up.
pub const DEFAULT_THROTTLE_LEVEL: u8 = 5;
pub const DEFAULT_THREAD_COUNT: u8 = 1;

/// `x` held within `[lo, hi]`, as `Ord::clamp`.
pub open spec fn clamp(x: int, lo: int, hi: int) -> int {
    if x < lo {
        lo
    } else if x > hi {
        hi
    } else {
        x
    }
}

/// The throttle level that a request for `level` sets.
pub open spec fn throttle_for(level: u8) -> u8 {
    clamp(level as int, MIN_THROTTLE_LEVEL as int, MAX_THROTTLE_LEVEL as int) as u8
}

/// The thread count that a request for `count` sets.
pub open spec fn threads_for(count: u8) -> u8 {
    clamp(count as int, MIN_THREAD_COUNT as int, MAX_THREAD_COUNT as int) as u8
}

/// Holds `level` within the throttle range.
pub fn clamp_throttle_level(level: u8) -> (r: u8)
    ensures
        r == throttle_for(level),
{
    if level < MIN_THROTTLE_LEVEL {
        MIN_THROTTLE_LEVEL
    } else if level > MAX_THROTTLE_LEVEL {
        MAX_THROTTLE_LEVEL
    } else {
        level
    }
}

/// Holds `count` within the thread range.
pub fn clamp_thread_count(count: u8) -> (r: u8)
    ensures
        r == threads_for(count),
{
    if count < MIN_THREAD_COUNT {
        MIN_THREAD_COUNT
    } else if count > MAX_THREAD_COUNT {
        MAX_THREAD_COUNT
    } else {
        count
    }
}

/// What the controls hold.
pub struct ControlsView {
    pub throttle_level: u8,
    pub thread_count: u8,
    pub skip_next_notification: bool,
}

/// The consumption controls; the levels always lie within their ranges.
pub struct Controls {
    throttle_level: u8,
    thread_count: u8,
    skip_next: bool,
}

impl View for Controls {
    type V = ControlsView;

    closed spec fn view(&self) -> ControlsView {
        ControlsView {
            throttle_level: self.throttle_level,
            thread_count: self.thread_count,
            skip_next_notification: self.skip_next,
        }
    }
}

/// The message logged when the throttle level changes.
pub open spec fn throttle_message(level: u8) -> Seq<char> {
    "Throttle level set to "@ + decimal(level as nat)
}

/// The message logged when the thread count changes.
pub open spec fn threads_message(count: u8) -> Seq<char> {
    "Thread count set to "@ + decimal(count as nat)
}

impl Controls {
    #[verifier::type_invariant]
    spec fn in_range(self) -> bool {
        &&& MIN_THROTTLE_LEVEL <= self.throttle_level <= MAX_THROTTLE_LEVEL
        &&& MIN_THREAD_COUNT <= self.thread_count <= MAX_THREAD_COUNT
    }

    /// The controls at start-up: level 5, one thread, no skip pending.
    pub fn new() -> (c: Controls)
        ensures
            c@.throttle_level == DEFAULT_THROTTLE_LEVEL,
            c@.thread_count == DEFAULT_THREAD_COUNT,
            !c@.skip_next_notification,
    {
        Controls {
            throttle_level: DEFAULT_THROTTLE_LEVEL,
            thread_count: DEFAULT_THREAD_COUNT,
            skip_next: false,
        }
    }

    /// The current throttle level.
    pub fn get_throttle_level(&self) -> (r: u8)
        ensures
            r == self@.throttle_level,
            MIN_THROTTLE_LEVEL <= r <= MAX_THROTTLE_LEVEL,
    {
        proof {
            use_type_invariant(self);
        }
        self.throttle_level
    }

    /// Sets the throttle level, held within `[1, 9]`, and returns the event
    /// that records the change.
    pub fn set_throttle_level(&mut self, level: u8) -> (e: DiagnosticEvent)
        ensures
            final(self)@.throttle_level == throttle_for(level),
            final(self)@.thread_count == old(self)@.thread_count,
            final(self)@.skip_next_notification == old(self)@.skip_next_notification,
            event_is(e, "setting_change"@, "info"@, throttle_message(throttle_for(level))),
    {
        proof {
            use_type_invariant(&*self);
        }
        let level = clamp_throttle_level(level);
        self.throttle_level = level;
        let mut msg = String::from_str("Throttle level set to ");
        msg.append(decimal_string(level as u64).as_str());
        proof {
            assert(msg@ == throttle_message(level));
        }
        make_event("setting_change", "info", msg)
    }

    /// The current number of consumption threads.
    pub fn get_consumption_threads(&self) -> (r: u8)
        ensures
            r == self@.thread_count,
            MIN_THREAD_COUNT <= r <= MAX_THREAD_COUNT,
    {
        proof {
            use_type_invariant(self);
        }
        self.thread_count
    }

    /// Sets the number of consumption threads, held within `[1, 8]`, and
    /// returns the event that records the change.
    pub fn set_consumption_threads(&mut self, count: u8) -> (e: DiagnosticEvent)
        ensures
            final(self)@.thread_count == threads_for(count),
            final(self)@.throttle_level == old(self)@.throttle_level,
            final(self)@.skip_next_notification == old(self)@.skip_next_notification,
            event_is(e, "setting_change"@, "info"@, threads_message(threads_for(count))),
    {
        proof {
            use_type_invariant(&*self);
        }
        let count = clamp_thread_count(count);
        self.thread_count = count;
        let mut msg = String::from_str("Thread count set to ");
        msg.append(decimal_string(count as u64).as_str());
        proof {
            assert(msg@ == threads_message(count));
        }
        make_event("setting_change", "info", msg)
    }

    /// Asks that the next notification be skipped.
    pub fn skip_next_notification(&mut self)
        ensures
            final(self)@.skip_next_notification,
            final(self)@.throttle_level == old(self)@.throttle_level,
            final(self)@.thread_count == old(self)@.thread_count,
    {
        proof {
            use_type_invariant(&*self);
        }
        self.skip_next = true;
    }

    /// Whether a skip of the next notification is pending.
    pub fn next_notification_skipped(&self) -> (r: bool)
        ensures
            r == self@.skip_next_notification,
    {
        self.skip_next
    }
}

/// Law: a level read back after a write is the written level held within
/// its range; a level already in range is kept as it is, and writing back
/// what was read changes nothing.
pub proof fn law_throttle_write_read(level: u8)
    ensures
        MIN_THROTTLE_LEVEL <= throttle_for(level) <= MAX_THROTTLE_LEVEL,
        MIN_THROTTLE_LEVEL <= level <= MAX_THROTTLE_LEVEL ==> throttle_for(level) == level,
        throttle_for(throttle_for(level)) == throttle_for(level),
{
}

/// Law: the same for the thread count, within `[1, 8]`.
pub proof fn law_threads_write_read(count: u8)
    ensures
        MIN_THREAD_COUNT <= threads_for(count) <= MAX_THREAD_COUNT,
        MIN_THREAD_COUNT <= count <= MAX_THREAD_COUNT ==> threads_for(count) == count,
        threads_for(threads_for(count)) == threads_for(count),
{
}

} // verus!
