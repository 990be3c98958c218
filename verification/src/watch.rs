//! The watcher that keeps a moved window in place for a while: it checks the
//! window every second ten times, then every five seconds five more times, and
//! moves the window back whenever something else moved or resized it.
use vstd::prelude::*;

verus! {

/// Number of checks of the first, frequent phase.
pub const POLL_ITERATIONS: u32 = 10;

/// Number of checks of the second, slower phase.
pub const POLL_EXTENDED_ITERATIONS: u32 = 5;

/// Seconds between checks in the first phase.
pub const POLL_SECS: u64 = 1;

/// Seconds between checks in the second phase.
pub const POLL_EXTENDED_SECS: u64 = 5;

/// What the watcher does after a check.
#[derive(Debug, Clone, Copy, PartialEq, Eq, Structural)]
pub enum WatchNext {
    /// Sleep, then check again.
    Sleep { seconds: u64 },
    /// Stop watching.
    Stop,
}

/// The decision of one check.
#[derive(Debug, Clone, Copy, PartialEq, Eq, Structural)]
pub struct WatchDecision {
    /// Move the window back to the profile's rectangle now.
    pub reapply: bool,
    pub next: WatchNext,
}

/// The counters of a watcher.
#[derive(Debug, Clone, Copy, PartialEq, Eq, Structural)]
pub struct OverrideWatch {
    /// Checks made so far.
    pub poll_counter: u32,
    /// Checks made in the slower phase.
    pub poll_extended_counter: u32,
    /// The watcher has stopped.
    pub stopped: bool,
}

/// The watcher has nothing left to do.
pub open spec fn exhausted(w: OverrideWatch) -> bool {
    w.stopped || w.poll_counter >= POLL_ITERATIONS + POLL_EXTENDED_ITERATIONS
        || w.poll_extended_counter >= POLL_EXTENDED_ITERATIONS
}

/// One check: a process that is gone stops the watcher; otherwise the check is
/// counted, a window that no longer matches the profile is moved back, and the
/// watcher sleeps one second until ten checks were made, then five seconds
/// until five more were made, then stops.
pub open spec fn poll_spec(w: OverrideWatch, process_running: bool, window_matches: bool) -> (OverrideWatch, WatchDecision) {
    if exhausted(w) {
        (OverrideWatch { stopped: true, ..w }, WatchDecision { reapply: false, next: WatchNext::Stop })
    } else if !process_running {
        (OverrideWatch { stopped: true, ..w }, WatchDecision { reapply: false, next: WatchNext::Stop })
    } else {
        let pc = w.poll_counter + 1;
        let ext = if pc <= POLL_ITERATIONS { w.poll_extended_counter as int } else { w.poll_extended_counter + 1 };
        let next = if pc < POLL_ITERATIONS {
            WatchNext::Sleep { seconds: POLL_SECS }
        } else if ext < POLL_EXTENDED_ITERATIONS {
            WatchNext::Sleep { seconds: POLL_EXTENDED_SECS }
        } else {
            WatchNext::Stop
        };
        (
            OverrideWatch { poll_counter: pc as u32, poll_extended_counter: ext as u32, stopped: next is Stop },
            WatchDecision { reapply: !window_matches, next },
        )
    }
}

impl OverrideWatch {
    /// A watcher that has made no check yet.
    pub fn new() -> (r: Self)
        ensures
            r == (OverrideWatch { poll_counter: 0, poll_extended_counter: 0, stopped: false }),
    {
        OverrideWatch { poll_counter: 0, poll_extended_counter: 0, stopped: false }
    }

    /// Records one check. `window_matches` is whether the window still sits at
    /// the profile's rectangle; it is not looked at when the process is gone.
    pub fn poll(&mut self, process_running: bool, window_matches: bool) -> (d: WatchDecision)
        ensures
            (*final(self), d) == poll_spec(*old(self), process_running, window_matches),
    {
        if self.stopped || self.poll_counter >= POLL_ITERATIONS + POLL_EXTENDED_ITERATIONS
            || self.poll_extended_counter >= POLL_EXTENDED_ITERATIONS {
            self.stopped = true;
            return WatchDecision { reapply: false, next: WatchNext::Stop };
        }
        if !process_running {
            self.stopped = true;
            return WatchDecision { reapply: false, next: WatchNext::Stop };
        }
        self.poll_counter = self.poll_counter + 1;
        if self.poll_counter > POLL_ITERATIONS {
            self.poll_extended_counter = self.poll_extended_counter + 1;
        }
        let next = if self.poll_counter < POLL_ITERATIONS {
            WatchNext::Sleep { seconds: POLL_SECS }
        } else if self.poll_extended_counter < POLL_EXTENDED_ITERATIONS {
            WatchNext::Sleep { seconds: POLL_EXTENDED_SECS }
        } else {
            WatchNext::Stop
        };
        self.stopped = next == WatchNext::Stop;
        WatchDecision { reapply: !window_matches, next }
    }
}

/// The watcher after `n` checks of a process that keeps running.
pub open spec fn watch_after(n: nat) -> OverrideWatch
    decreases n,
{
    if n == 0 {
        OverrideWatch { poll_counter: 0, poll_extended_counter: 0, stopped: false }
    } else {
        poll_spec(watch_after((n - 1) as nat), true, true).0
    }
}

/// Seconds slept during the first `n` checks of a process that keeps running.
pub open spec fn slept_after(n: nat) -> int
    decreases n,
{
    if n == 0 {
        0
    } else {
        slept_after((n - 1) as nat) + match poll_spec(watch_after((n - 1) as nat), true, true).1.next {
            WatchNext::Sleep { seconds } => seconds as int,
            WatchNext::Stop => 0,
        }
    }
}

/// Whether the window matched changes only whether it is moved back, never
/// the watcher's counters or schedule.
pub proof fn lemma_schedule_ignores_window(w: OverrideWatch, running: bool, m1: bool, m2: bool)
    ensures
        poll_spec(w, running, m1).0 == poll_spec(w, running, m2).0,
        poll_spec(w, running, m1).1.next == poll_spec(w, running, m2).1.next,
        poll_spec(w, running, m1).1.reapply <==> (running && !exhausted(w) && !m1),
{
}

/// A process that is gone stops the watcher at once, without moving the window.
pub proof fn lemma_gone_process_stops(w: OverrideWatch, m: bool)
    ensures
        poll_spec(w, false, m).1 == (WatchDecision { reapply: false, next: WatchNext::Stop }),
        poll_spec(w, false, m).0.stopped,
{
}

/// A stopped watcher stays stopped and never moves the window again.
pub proof fn lemma_stopped_is_final(w: OverrideWatch, running: bool, m: bool)
    requires
        w.stopped,
    ensures
        poll_spec(w, running, m).0 == w,
        poll_spec(w, running, m).1 == (WatchDecision { reapply: false, next: WatchNext::Stop }),
{
}

/// While the process keeps running the watcher makes exactly fifteen checks:
/// it is still going after fourteen and stopped after fifteen, having slept
/// nine times one second and five times five seconds.
pub proof fn lemma_watch_schedule()
    ensures
        forall|n: nat| n < POLL_ITERATIONS + POLL_EXTENDED_ITERATIONS ==> !(#[trigger] watch_after(n)).stopped,
        watch_after(15).stopped,
        slept_after(9) == 9,
        slept_after(15) == 9 * POLL_SECS + 5 * POLL_EXTENDED_SECS,
{
    reveal_with_fuel(watch_after, 16);
    reveal_with_fuel(slept_after, 16);
    assert(!watch_after(14).stopped);
    assert forall|n: nat| n < POLL_ITERATIONS + POLL_EXTENDED_ITERATIONS implies !(#[trigger] watch_after(n)).stopped by {
        assert(n <= 14);
    }
}

} // verus!
