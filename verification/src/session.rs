//! The session lifecycle: one handle, an activity clock, and the idle
//! monitor that closes an untouched session.
//!
//! The manager's mutable state is modelled here as plain data with exact
//! transition functions; the surrounding runtime holds this state behind
//! its lock and performs the I/O that each decision calls for.

use vstd::prelude::*;

verus! {

use crate::errors::ActionError;

/// Whether a session handle exists.
#[derive(Clone, Copy, Debug, PartialEq, Eq, Structural)]
pub enum HandleState {
    /// No handle; actions fail until one is opened.
    Closed,
    /// The single handle is present.
    Open,
}

/// The lifecycle manager's state: the handle, the activity clock and the
/// idle monitor. At most one handle and at most one monitor exist.
#[derive(Clone, Copy, Debug, PartialEq, Eq, Structural)]
pub struct SessionState {
    /// State of the single session handle.
    pub handle: HandleState,
    /// Whether an action is currently executing.
    pub in_progress: bool,
    /// Time of the last recorded activity, in milliseconds.
    pub last_activity_ms: u64,
    /// Whether the idle monitor task is running.
    pub monitor_running: bool,
    /// Idle timeout in milliseconds; zero disables the monitor.
    pub idle_timeout_ms: u64,
}

impl SessionState {
    /// Fresh state: closed, idle, no monitor.
    pub fn new(idle_timeout_ms: u64) -> (r: SessionState)
        ensures
            r.handle is Closed,
            !r.in_progress,
            r.last_activity_ms == 0,
            !r.monitor_running,
            r.idle_timeout_ms == idle_timeout_ms,
    {
        SessionState {
            handle: HandleState::Closed,
            in_progress: false,
            last_activity_ms: 0,
            monitor_running: false,
            idle_timeout_ms,
        }
    }

    /// Whether an action may touch the handle.
    pub fn require_open(&self) -> (r: Result<(), ActionError>)
        ensures
            r is Ok <==> self.handle is Open,
            r is Err ==> r == Err::<(), ActionError>(ActionError::SessionNotOpen),
    {
        match self.handle {
            HandleState::Open => Ok(()),
            HandleState::Closed => Err(ActionError::SessionNotOpen),
        }
    }

    /// Mark the start of an action: the in-progress flag blocks the idle
    /// monitor and the clock is refreshed.
    pub fn begin_action(&mut self, now_ms: u64)
        ensures
            *final(self) == (SessionState {
                in_progress: true,
                last_activity_ms: now_ms,
                ..*old(self)
            }),
    {
        self.in_progress = true;
        self.last_activity_ms = now_ms;
    }

    /// Mark the end of an action: the clock is refreshed again so idleness
    /// counts from the moment the action finished, then the flag clears.
    pub fn finish_action(&mut self, now_ms: u64)
        ensures
            *final(self) == (SessionState {
                in_progress: false,
                last_activity_ms: now_ms,
                ..*old(self)
            }),
    {
        self.in_progress = false;
        self.last_activity_ms = now_ms;
    }

    /// Open the session: a no-op on an already-open session.
    pub fn apply_open(&mut self) -> (was_open: bool)
        ensures
            *final(self) == open_spec(*old(self)),
            was_open == (old(self).handle is Open),
    {
        match self.handle {
            HandleState::Open => true,
            HandleState::Closed => {
                self.handle = HandleState::Open;
                false
            },
        }
    }

    /// Close the session: a no-op on an already-closed session.
    pub fn apply_close(&mut self)
        ensures
            *final(self) == close_spec(*old(self)),
    {
        self.handle = HandleState::Closed;
    }

    /// Start the idle monitor. It starts only when a timeout is configured
    /// and no monitor is running yet; starting it again is a no-op.
    pub fn start_monitor(&mut self) -> (started: bool)
        ensures
            old(self).idle_timeout_ms == 0 ==> *final(self) == *old(self) && !started,
            old(self).monitor_running ==> *final(self) == *old(self) && !started,
            old(self).idle_timeout_ms > 0 && !old(self).monitor_running ==> started && *final(self)
                == (SessionState { monitor_running: true, ..*old(self) }),
    {
        if self.idle_timeout_ms == 0 {
            false
        } else if self.monitor_running {
            false
        } else {
            self.monitor_running = true;
            true
        }
    }

    /// One tick of the idle monitor; returns whether this tick closed the
    /// session. An in-progress action always wins; an expired idle clock
    /// blocks new actions, closes the handle and stops the monitor for
    /// good.
    pub fn monitor_tick(&mut self, now_ms: u64) -> (closed: bool)
        requires
            old(self).monitor_running,
            old(self).idle_timeout_ms > 0,
        ensures
            *final(self) == tick_state(*old(self), now_ms),
            closed == tick_closes(*old(self), now_ms),
    {
        if self.in_progress {
            return false;
        }
        let elapsed: u64 = if now_ms >= self.last_activity_ms {
            now_ms - self.last_activity_ms
        } else {
            0
        };
        if elapsed >= self.idle_timeout_ms {
            let was_open = match self.handle {
                HandleState::Open => true,
                HandleState::Closed => false,
            };
            self.in_progress = true;
            self.handle = HandleState::Closed;
            self.monitor_running = false;
            was_open
        } else {
            false
        }
    }

    /// Shut the session down: cancel the monitor and close the handle.
    /// Safe to call on every exit path, any number of times.
    pub fn shutdown(&mut self)
        ensures
            *final(self) == shutdown_spec(*old(self)),
            final(self).handle is Closed,
            !final(self).monitor_running,
    {
        self.monitor_running = false;
        self.handle = HandleState::Closed;
    }
}

/// State after opening: the handle is present, everything else unchanged.
pub open spec fn open_spec(s: SessionState) -> SessionState {
    if s.handle is Open {
        s
    } else {
        SessionState { handle: HandleState::Open, ..s }
    }
}

/// State after closing: the handle is gone, everything else unchanged.
pub open spec fn close_spec(s: SessionState) -> SessionState {
    SessionState { handle: HandleState::Closed, ..s }
}

/// State after shutdown: no handle and no monitor.
pub open spec fn shutdown_spec(s: SessionState) -> SessionState {
    SessionState { handle: HandleState::Closed, monitor_running: false, ..s }
}

/// Idle time of a state at `now_ms`; a clock that seems to run backwards
/// counts as no idleness.
pub open spec fn idle_ms(s: SessionState, now_ms: u64) -> int {
    if now_ms >= s.last_activity_ms {
        now_ms - s.last_activity_ms
    } else {
        0
    }
}

/// Whether a tick at `now_ms` finds the session expired.
pub open spec fn tick_expired(s: SessionState, now_ms: u64) -> bool {
    !s.in_progress && idle_ms(s, now_ms) >= s.idle_timeout_ms
}

/// State after one monitor tick.
pub open spec fn tick_state(s: SessionState, now_ms: u64) -> SessionState {
    if tick_expired(s, now_ms) {
        SessionState { in_progress: true, handle: HandleState::Closed, monitor_running: false, ..s }
    } else {
        s
    }
}

/// Whether one monitor tick closes the session.
pub open spec fn tick_closes(s: SessionState, now_ms: u64) -> bool {
    tick_expired(s, now_ms) && s.handle is Open
}

/// Opening is idempotent: a second open with no intervening close returns
/// the same state and creates no second handle.
pub proof fn lemma_open_idempotent(s: SessionState)
    ensures
        open_spec(open_spec(s)) == open_spec(s),
        open_spec(s).handle is Open,
{
}

/// Closing is idempotent, and shutdown too.
pub proof fn lemma_close_idempotent(s: SessionState)
    ensures
        close_spec(close_spec(s)) == close_spec(s),
        shutdown_spec(shutdown_spec(s)) == shutdown_spec(s),
{
}

/// The idle monitor never closes the session while an action is in
/// progress: such a tick changes nothing.
pub proof fn lemma_monitor_respects_in_progress(s: SessionState, now_ms: u64)
    requires
        s.in_progress,
    ensures
        !tick_closes(s, now_ms),
        tick_state(s, now_ms) == s,
{
}

/// An expired idle clock closes the session exactly once: the closing tick
/// takes the handle away and stops the monitor, and a tick at any later
/// time finds nothing left to close.
pub proof fn lemma_monitor_closes_once(s: SessionState, now_ms: u64, later_ms: u64)
    requires
        s.handle is Open,
        !s.in_progress,
        idle_ms(s, now_ms) >= s.idle_timeout_ms,
    ensures
        tick_closes(s, now_ms),
        tick_state(s, now_ms).handle is Closed,
        !tick_state(s, now_ms).monitor_running,
        !tick_closes(tick_state(s, now_ms), later_ms),
{
}

/// Greatest of two unsigned values.
pub open spec fn spec_max_u64(a: u64, b: u64) -> u64 {
    if a >= b {
        a
    } else {
        b
    }
}

/// Interval between idle-monitor checks: a quarter of the configured
/// timeout, but never below one second.
pub fn check_interval_ms(idle_timeout_ms: u64) -> (r: u64)
    ensures
        r == spec_max_u64((idle_timeout_ms / 4) as u64, 1000),
{
    let quarter = idle_timeout_ms / 4;
    if quarter >= 1000 {
        quarter
    } else {
        1000
    }
}

} // verus!
