//! The periodic export's single-flight guard: at most one export runs at a
//! time, and a tick that falls due while one runs is skipped.

use vstd::prelude::*;

verus! {

/// Seconds between two ticks.
pub const SNAPSHOT_INTERVAL_SECS: u64 = 10;

/// Whether an export is under way.
#[derive(Clone, Copy, Debug, PartialEq, Eq)]
pub enum Phase {
    Idle,
    Running,
}

/// What the caller does on a tick.
#[derive(Clone, Copy, Debug, PartialEq, Eq)]
pub enum TickAction {
    /// Export the store to the periodic target, then call `finish`.
    Export,
    /// An export is still running: do nothing.
    Skip,
}

/// What happens to a scheduler: a tick falls due, or an export ends.
#[derive(Clone, Copy, Debug, PartialEq, Eq)]
pub enum Event {
    Tick,
    Finished,
}

/// The scheduler's state with its counts.
pub struct Scheduler {
    phase: Phase,
    failures: u64,
}

impl Scheduler {
    /// The phase the scheduler is in.
    pub closed spec fn phase(&self) -> Phase {
        self.phase
    }

    /// The number of exports that failed, stopping at `u64::MAX`.
    pub closed spec fn failures(&self) -> nat {
        self.failures as nat
    }

    /// A scheduler at rest.
    pub fn new() -> (r: Self)
        ensures
            r.phase() == Phase::Idle,
            r.failures() == 0,
    {
        Scheduler { phase: Phase::Idle, failures: 0 }
    }

    /// Whether an export is under way.
    pub fn is_running(&self) -> (r: bool)
        ensures
            r == (self.phase() == Phase::Running),
    {
        match self.phase {
            Phase::Running => true,
            Phase::Idle => false,
        }
    }

    /// The number of exports that failed.
    pub fn failed(&self) -> (r: u64)
        ensures
            r == self.failures(),
    {
        self.failures
    }

    /// A tick is due: an idle scheduler starts an export, a running one
    /// skips the tick. Either way an export is under way afterwards.
    pub fn tick(&mut self) -> (r: TickAction)
        ensures
            r == next_action(old(self).phase()),
            final(self).phase() == phase_after(old(self).phase(), Event::Tick),
            final(self).failures() == old(self).failures(),
    {
        match self.phase {
            Phase::Idle => {
                self.phase = Phase::Running;
                TickAction::Export
            },
            Phase::Running => TickAction::Skip,
        }
    }

    /// The export that a tick started has ended, well or not: the scheduler
    /// is at rest again, and a failure is counted and stops nothing.
    pub fn finish(&mut self, succeeded: bool)
        ensures
            final(self).phase() == phase_after(old(self).phase(), Event::Finished),
            final(self).failures() == counted(old(self).failures(), old(self).phase(), succeeded),
    {
        match self.phase {
            Phase::Running => {
                if !succeeded && self.failures < u64::MAX {
                    self.failures = self.failures + 1;
                }
            },
            Phase::Idle => {},
        }
        self.phase = Phase::Idle;
    }
}

/// What a tick asks for in a phase.
pub open spec fn next_action(phase: Phase) -> TickAction {
    match phase {
        Phase::Idle => TickAction::Export,
        Phase::Running => TickAction::Skip,
    }
}

/// The count of failures after an export ended: one more where an export
/// was under way and failed, up to `u64::MAX`.
pub open spec fn counted(failures: nat, phase: Phase, succeeded: bool) -> nat {
    if phase == Phase::Running && !succeeded && failures < u64::MAX {
        failures + 1
    } else {
        failures
    }
}

/// The phase that an event leaves: a tick leaves an export under way, the
/// end of an export leaves the scheduler at rest.
pub open spec fn phase_after(phase: Phase, event: Event) -> Phase {
    match event {
        Event::Tick => Phase::Running,
        Event::Finished => Phase::Idle,
    }
}

/// The phase in which the event at index `n` finds a scheduler that started
/// in `start` and has seen the events before it.
pub open spec fn phase_at(start: Phase, events: Seq<Event>, n: int) -> Phase
    decreases n,
{
    if n <= 0 {
        start
    } else {
        phase_after(phase_at(start, events, n - 1), events[n - 1])
    }
}

/// Whether the event at index `n` is a tick that starts an export.
pub open spec fn exports_at(start: Phase, events: Seq<Event>, n: int) -> bool {
    events[n] == Event::Tick && next_action(phase_at(start, events, n)) == TickAction::Export
}

/// After a tick, an export is under way for as long as only ticks follow.
proof fn lemma_running_while_ticking(start: Phase, events: Seq<Event>, i: int, m: int)
    requires
        0 <= i < m <= events.len(),
        events[i] == Event::Tick,
        forall|k: int| i < k < m ==> events[k] != Event::Finished,
    ensures
        phase_at(start, events, m) == Phase::Running,
    decreases m - i,
{
    if m > i + 1 {
        lemma_running_while_ticking(start, events, i, m - 1);
    }
}

/// Single flight: whatever the events, between two ticks that start an
/// export an export has ended. So no two exports are ever under way at once,
/// and a tick that falls due while one runs starts none.
pub proof fn law_single_flight(start: Phase, events: Seq<Event>, i: int, j: int)
    requires
        0 <= i < j < events.len(),
        exports_at(start, events, i),
        exports_at(start, events, j),
    ensures
        exists|k: int| i < k < j && events[k] == Event::Finished,
{
    if forall|k: int| i < k < j ==> events[k] != Event::Finished {
        lemma_running_while_ticking(start, events, i, j);
    }
}

} // verus!
