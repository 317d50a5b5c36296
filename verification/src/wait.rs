//! The timeout-bounded wait loop, as a per-call state machine.
//!
//! One wait call is an orchestration of non-blocking probes, one registry
//! subscription, and a loop around a multiplexed read with a timeout: block
//! until either the global channel (some child, any child, changed state) or
//! this call's own channel (this child was resolved) is readable, or the
//! remaining time runs out. The decisions of that orchestration — when to
//! subscribe, how long to block, when to give up, what to return — are the
//! state machine here, verified step by step. The layer around it performs
//! the blocking reads, probes and clock readings the machine asks for, and
//! feeds their outcomes back in as events.
//!
//! Spurious wakeups — an interrupted read, or a global notification for an
//! unrelated child — return the machine to the top of the loop, where the
//! blocking timeout is recomputed from the fixed absolute deadline, so
//! retries never push the deadline later.

use vstd::prelude::*;

use crate::status::ExitStatus;

verus! {

/// What a non-blocking reap probe of one child said.
#[derive(Copy, Clone, PartialEq, Eq, Debug)]
pub enum ReapOutcome {
    /// The child has not exited yet.
    StillRunning,
    /// The child had exited; it is now reaped and this is its status.
    Exited(ExitStatus),
    /// The probe failed: no such child, or it was already reaped elsewhere.
    Failed,
}

/// Classifies the result of the non-blocking reap system call: zero means the
/// child is still running, a negative value an error, and a positive value —
/// which, when the call asked about one specific child, is that child's id —
/// means the child was reaped with the raw status the call wrote.
pub fn classify_reap(ret: i32, raw_status: i32, id: i32) -> (r: ReapOutcome)
    requires
        ret > 0 ==> ret == id,
    ensures
        ret == 0 ==> r == ReapOutcome::StillRunning,
        ret < 0 ==> r == ReapOutcome::Failed,
        ret > 0 ==> (r matches ReapOutcome::Exited(st) && st.raw_spec() == raw_status),
{
    if ret == 0 {
        ReapOutcome::StillRunning
    } else if ret < 0 {
        ReapOutcome::Failed
    } else {
        ReapOutcome::Exited(ExitStatus::from_raw(raw_status))
    }
}

/// What a multiplexed read over the two channels reported.
#[derive(Copy, Clone, PartialEq, Eq, Debug, Structural)]
pub enum SelectClass {
    /// The timeout elapsed with no channel readable.
    TimedOut,
    /// At least one of the two channels is readable.
    Ready,
    /// The call failed; the caller must look at the error to tell a
    /// transparent interruption from a real failure.
    Failed,
}

/// Classifies the return value of a multiplexed read over two channels: zero
/// means its timeout elapsed, one or two is the number of readable channels,
/// and anything else is a failure.
pub fn classify_select(ret: i32) -> (r: SelectClass)
    ensures
        ret == 0 ==> r == SelectClass::TimedOut,
        1 <= ret <= 2 ==> r == SelectClass::Ready,
        !(0 <= ret <= 2) ==> r == SelectClass::Failed,
{
    if ret == 0 {
        SelectClass::TimedOut
    } else if ret == 1 || ret == 2 {
        SelectClass::Ready
    } else {
        SelectClass::Failed
    }
}

/// Where one wait call stands.
#[derive(Copy, Clone, PartialEq, Eq, Debug)]
pub enum Phase {
    /// Before anything else: probe once, so a child that already exited is
    /// reported even when the deadline is already past.
    Probing,
    /// The probe found the child running: register in the waiter registry,
    /// under the same lock as the probe, before anything can sleep.
    Subscribing,
    /// Top of the wait loop: read the clock and measure the deadline.
    AtLoopTop,
    /// Blocked in the multiplexed read for at most `timeout_ns`.
    Blocking {
        /// How long this iteration may block: the time left to the deadline.
        timeout_ns: u64,
    },
    /// Woken: drain the channels, resolving other waiters' children along the
    /// way if the global channel fired.
    Draining {
        /// Whether the multiplexed read itself reported its timeout elapsed.
        select_timed_out: bool,
    },
    /// Leaving the loop: remove this call's registry entry and take whatever
    /// status it recorded.
    Removing,
    /// The call is over with this result: a status, or empty on timeout.
    Done(Option<ExitStatus>),
    /// The initial probe failed; the call reports the error.
    Failed,
}

/// What the layer around the machine reports back after performing an action.
#[derive(Copy, Clone, PartialEq, Eq, Debug)]
pub enum Event {
    /// The answer of the initial non-blocking reap probe.
    Probed(ReapOutcome),
    /// The registry entry is in place.
    Subscribed,
    /// The monotonic clock, in nanoseconds, read at the top of the loop.
    Clock(u64),
    /// The multiplexed read returned with this classification; a failed read
    /// is reported as `Interrupted` or handled as fatal, never fed in here.
    SelectOutcome(SelectClass),
    /// The multiplexed read was interrupted by a signal: retry transparently.
    Interrupted,
    /// Both channels were drained; this call's own channel had been notified
    /// or not.
    Drained {
        /// Whether this call's own channel was readable: its child resolved.
        own_notified: bool,
    },
    /// The registry entry was removed; this is the status it had recorded.
    Took(Option<ExitStatus>),
}

/// What the machine asks the surrounding layer to do next.
#[derive(Copy, Clone, PartialEq, Eq, Debug)]
pub enum Action {
    /// Probe the child without blocking, under the registry lock.
    Probe,
    /// Insert this call's registry entry, still under the same lock.
    Subscribe,
    /// Read the monotonic clock.
    ReadClock,
    /// Block in the multiplexed read over the global and own channels, for at
    /// most this many nanoseconds.
    Select {
        /// The bound on this iteration's blocking time.
        timeout_ns: u64,
    },
    /// Drain the global channel — if it was readable, re-probe every pending
    /// registry entry and notify those resolved — then drain the own channel.
    Drain,
    /// Remove this call's registry entry and take its recorded status.
    Unsubscribe,
    /// The call is finished with this result.
    Return(Option<ExitStatus>),
    /// The call failed at the initial probe; report the error.
    Fail,
}

/// Whether an event answers what the machine asked for in a phase.
pub open spec fn accepts(p: Phase, ev: Event) -> bool {
    match (p, ev) {
        (Phase::Probing, Event::Probed(_)) => true,
        (Phase::Subscribing, Event::Subscribed) => true,
        (Phase::AtLoopTop, Event::Clock(_)) => true,
        (Phase::Blocking { .. }, Event::SelectOutcome(cls)) => cls != SelectClass::Failed,
        (Phase::Blocking { .. }, Event::Interrupted) => true,
        (Phase::Draining { .. }, Event::Drained { .. }) => true,
        (Phase::Removing, Event::Took(_)) => true,
        _ => false,
    }
}

/// One wait call: its fixed absolute deadline and its current phase.
#[derive(Copy, Clone, PartialEq, Eq, Debug)]
pub struct WaitCall {
    /// The absolute deadline on the monotonic clock, in nanoseconds, fixed
    /// when the call starts.
    pub end_ns: u64,
    /// Where the call stands.
    pub phase: Phase,
}

/// The machine's transition function: the call after `ev` answers the action
/// pending in `c`. Combinations `accepts` rules out leave the call unchanged.
pub open spec fn next(c: WaitCall, ev: Event) -> WaitCall {
    let p = match (c.phase, ev) {
        (Phase::Probing, Event::Probed(outcome)) => match outcome {
            ReapOutcome::Exited(st) => Phase::Done(Some(st)),
            ReapOutcome::StillRunning => Phase::Subscribing,
            ReapOutcome::Failed => Phase::Failed,
        },
        (Phase::Subscribing, Event::Subscribed) => Phase::AtLoopTop,
        (Phase::AtLoopTop, Event::Clock(now)) => if now > c.end_ns {
            Phase::Removing
        } else {
            Phase::Blocking { timeout_ns: (c.end_ns - now) as u64 }
        },
        (Phase::Blocking { .. }, Event::SelectOutcome(cls)) => if cls == SelectClass::Failed {
            c.phase
        } else {
            Phase::Draining { select_timed_out: cls == SelectClass::TimedOut }
        },
        (Phase::Blocking { .. }, Event::Interrupted) => Phase::AtLoopTop,
        (Phase::Draining { select_timed_out }, Event::Drained { own_notified }) => if own_notified
            || select_timed_out {
            Phase::Removing
        } else {
            Phase::AtLoopTop
        },
        (Phase::Removing, Event::Took(r)) => Phase::Done(r),
        _ => c.phase,
    };
    WaitCall { end_ns: c.end_ns, phase: p }
}

/// The action pending in a phase.
pub open spec fn pending_action(p: Phase) -> Action {
    match p {
        Phase::Probing => Action::Probe,
        Phase::Subscribing => Action::Subscribe,
        Phase::AtLoopTop => Action::ReadClock,
        Phase::Blocking { timeout_ns } => Action::Select { timeout_ns },
        Phase::Draining { .. } => Action::Drain,
        Phase::Removing => Action::Unsubscribe,
        Phase::Done(r) => Action::Return(r),
        Phase::Failed => Action::Fail,
    }
}

impl WaitCall {
    /// Starts a wait call against the given absolute deadline. The call
    /// begins with the immediate probe, before any deadline check: a child
    /// that already exited is reported even when the deadline already passed.
    pub fn new(end_ns: u64) -> (c: WaitCall)
        ensures
            c.end_ns == end_ns,
            c.phase == Phase::Probing,
    {
        WaitCall { end_ns, phase: Phase::Probing }
    }

    /// What the surrounding layer must do next.
    pub fn action(&self) -> (a: Action)
        ensures
            a == pending_action(self.phase),
    {
        match self.phase {
            Phase::Probing => Action::Probe,
            Phase::Subscribing => Action::Subscribe,
            Phase::AtLoopTop => Action::ReadClock,
            Phase::Blocking { timeout_ns } => Action::Select { timeout_ns },
            Phase::Draining { .. } => Action::Drain,
            Phase::Removing => Action::Unsubscribe,
            Phase::Done(r) => Action::Return(r),
            Phase::Failed => Action::Fail,
        }
    }

    /// Advances the call by one answered action.
    pub fn step(&mut self, ev: Event)
        requires
            accepts(old(self).phase, ev),
        ensures
            *final(self) == next(*old(self), ev),
    {
        let p = match (self.phase, ev) {
            (Phase::Probing, Event::Probed(outcome)) => match outcome {
                ReapOutcome::Exited(st) => Phase::Done(Some(st)),
                ReapOutcome::StillRunning => Phase::Subscribing,
                ReapOutcome::Failed => Phase::Failed,
            },
            (Phase::Subscribing, Event::Subscribed) => Phase::AtLoopTop,
            (Phase::AtLoopTop, Event::Clock(now)) => if now > self.end_ns {
                Phase::Removing
            } else {
                Phase::Blocking { timeout_ns: self.end_ns - now }
            },
            (Phase::Blocking { .. }, Event::SelectOutcome(cls)) => {
                Phase::Draining { select_timed_out: cls == SelectClass::TimedOut }
            },
            (Phase::Blocking { .. }, Event::Interrupted) => Phase::AtLoopTop,
            (Phase::Draining { select_timed_out }, Event::Drained { own_notified }) => {
                if own_notified || select_timed_out {
                    Phase::Removing
                } else {
                    Phase::AtLoopTop
                }
            },
            (Phase::Removing, Event::Took(r)) => Phase::Done(r),
            (p, _) => p,
        };
        self.phase = p;
    }
}

/// An already-exited child resolves the call at the initial probe, whatever
/// the deadline: the machine goes straight to `Done` with that status, without
/// subscribing and without ever asking to block, even when the deadline is
/// zero or already past.
pub proof fn lemma_probe_resolves_regardless_of_deadline(end_ns: u64, st: ExitStatus)
    ensures
        next(WaitCall { end_ns, phase: Phase::Probing }, Event::Probed(ReapOutcome::Exited(st)))
            == (WaitCall { end_ns, phase: Phase::Done(Some(st)) }),
{
}

/// At the top of the loop with the deadline already reached, the machine
/// never asks to block for any measurable time: it either leaves the loop at
/// once or asks for a read with a zero timeout.
pub proof fn lemma_past_deadline_never_blocks(c: WaitCall, now: u64)
    requires
        c.phase == Phase::AtLoopTop,
        now >= c.end_ns,
    ensures
        next(c, Event::Clock(now)).phase == Phase::Removing || next(c, Event::Clock(now)).phase
            == (Phase::Blocking { timeout_ns: 0 }),
{
}

/// Every blocking timeout is recomputed from the fixed absolute deadline: an
/// iteration may block exactly for the time remaining, never longer — so
/// spurious wakeups and retries cannot push the overall wait past the
/// deadline.
pub proof fn lemma_block_bounded_by_deadline(c: WaitCall, now: u64, t: u64)
    requires
        c.phase == Phase::AtLoopTop,
        next(c, Event::Clock(now)).phase == (Phase::Blocking { timeout_ns: t }),
    ensures
        now <= c.end_ns,
        t == c.end_ns - now,
{
}

/// The deadline is fixed for the call's lifetime: no event moves it.
pub proof fn lemma_deadline_fixed(c: WaitCall, ev: Event)
    ensures
        next(c, ev).end_ns == c.end_ns,
{
}

/// The machine leaves the loop only for one of the reasons the design names:
/// a clock reading strictly past the deadline, a multiplexed read whose own
/// timeout elapsed, or a notification on this call's own channel. A wakeup
/// that was only other children's traffic goes back to the top of the loop.
pub proof fn lemma_loop_exit_reasons(c: WaitCall, ev: Event)
    requires
        accepts(c.phase, ev),
        c.phase != Phase::Removing,
        next(c, ev).phase == Phase::Removing,
    ensures
        (c.phase == Phase::AtLoopTop && (ev matches Event::Clock(now) && now > c.end_ns)) || (
        c.phase matches Phase::Draining { select_timed_out } && (ev matches Event::Drained {
            own_notified } && (own_notified || select_timed_out))),
{
}

/// The machine never invents a result: it finishes with a status only when
/// the initial probe reaped the child, and with whatever the registry entry
/// held otherwise. What another waiter's child did can reach this call's
/// result only through this call's own registry entry.
pub proof fn lemma_result_sources(c: WaitCall, ev: Event, r: Option<ExitStatus>)
    requires
        accepts(c.phase, ev),
        next(c, ev).phase == Phase::Done(r),
        !(c.phase matches Phase::Done(_)),
    ensures
        (c.phase == Phase::Probing && (r matches Some(st) && ev == Event::Probed(
            ReapOutcome::Exited(st),
        ))) || (c.phase == Phase::Removing && ev == Event::Took(r)),
{
}

/// The machine after answering a whole sequence of events, in order.
pub open spec fn run(c: WaitCall, evs: Seq<Event>) -> WaitCall
    decreases evs.len(),
{
    if evs.len() == 0 {
        c
    } else {
        run(next(c, evs[0]), evs.drop_first())
    }
}

/// A finished call is finished for good: no later event changes its result.
pub proof fn lemma_done_is_final(c: WaitCall, evs: Seq<Event>, r: Option<ExitStatus>)
    requires
        c.phase == Phase::Done(r),
    ensures
        run(c, evs) == c,
    decreases evs.len(),
{
    if evs.len() > 0 {
        assert(next(c, evs[0]) == c);
        lemma_done_is_final(next(c, evs[0]), evs.drop_first(), r);
    }
}

/// Across any whole run, however long and whatever traffic it saw: a call
/// that finishes with result `r` received it through one of its own events —
/// the initial probe reaping the child, or the take of its own registry
/// entry. Wakeups and drains for other waiters' children can never plant a
/// result in this call.
pub proof fn lemma_result_from_own_events(c: WaitCall, evs: Seq<Event>, r: Option<ExitStatus>)
    requires
        run(c, evs).phase == Phase::Done(r),
        !(c.phase matches Phase::Done(_)),
    ensures
        exists|i: int| 0 <= i < evs.len() && ((r matches Some(st) && evs[i] == Event::Probed(
            ReapOutcome::Exited(st),
        )) || evs[i] == Event::Took(r)),
    decreases evs.len(),
{
    assert(evs.len() > 0);
    let c1 = next(c, evs[0]);
    let rest = evs.drop_first();
    match c1.phase {
        Phase::Done(r0) => {
            lemma_done_is_final(c1, rest, r0);
            assert(r0 == r);
            assert(0 <= 0 < evs.len() && ((r matches Some(st) && evs[0] == Event::Probed(
                ReapOutcome::Exited(st),
            )) || evs[0] == Event::Took(r)));
        },
        _ => {
            lemma_result_from_own_events(c1, rest, r);
            let i = choose|i: int| 0 <= i < rest.len() && ((r matches Some(st) && rest[i]
                == Event::Probed(ReapOutcome::Exited(st))) || rest[i] == Event::Took(r));
            assert(evs[i + 1] == rest[i]);
            assert(0 <= i + 1 < evs.len() && ((r matches Some(st) && evs[i + 1] == Event::Probed(
                ReapOutcome::Exited(st),
            )) || evs[i + 1] == Event::Took(r)));
        },
    }
}

/// A wait that finishes empty — the timeout outcome — did so only by removing
/// its own registry entry and finding no status recorded there. An empty
/// result is never an error and never another child's doing: it reports
/// exactly that this child was still unresolved when the call gave up.
pub proof fn lemma_empty_result_means_unresolved(c: WaitCall, evs: Seq<Event>)
    requires
        run(c, evs).phase == Phase::Done(None),
        !(c.phase matches Phase::Done(_)),
    ensures
        exists|i: int| 0 <= i < evs.len() && evs[i] == Event::Took(None),
{
    lemma_result_from_own_events(c, evs, None);
    let i = choose|i: int| 0 <= i < evs.len() && ((None::<ExitStatus> matches Some(st) && evs[i]
        == Event::Probed(ReapOutcome::Exited(st))) || evs[i] == Event::Took(None));
    assert(evs[i] == Event::Took(None));
}

} // verus!
