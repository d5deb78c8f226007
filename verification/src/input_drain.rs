//! Input draining right after a game closes: stale gameplay input is
//! discarded until the input stream has been quiet for a while, with an
//! absolute ceiling so a held or broken key cannot stall the TUI forever.
//! Times are milliseconds of a monotonic clock.
use vstd::prelude::*;
use crate::actions::InputSafeMode;

verus! {

/// Keep discarding stale input until the stream has been quiet this long (ms).
pub const INPUT_DRAIN_QUIET_MS: u64 = 300;

/// Absolute ceiling (ms) of the post-game drain.
pub const INPUT_DRAIN_MAX_MS: u64 = 3000;

/// The post-game input drain.
#[derive(Debug, Clone, Copy, PartialEq, Eq, Structural)]
pub struct InputDrain {
    pub input_safe_mode: InputSafeMode,
    pub input_drain_started_at: Option<u64>,
    pub input_drain_last_event_at: Option<u64>,
    /// Log the first input that is forwarded once the drain is over.
    pub log_next_input: bool,
}

/// Time elapsed from `since` to `now`, zero if the clock reads earlier.
pub open spec fn since(now: u64, earlier: u64) -> u64 {
    if now >= earlier {
        (now - earlier) as u64
    } else {
        0
    }
}

/// One tick of the drain at time `now`, after `discarded` stale events were
/// read, the reading having finished at `read_done`: the new state and
/// whether input is still being drained.
pub open spec fn drain_tick_spec(d: InputDrain, now: u64, discarded: u32, read_done: u64) -> (
    InputDrain,
    bool,
) {
    if d.input_safe_mode != InputSafeMode::Locked {
        (d, false)
    } else {
        let started = match d.input_drain_started_at {
            Some(s) => s,
            None => now,
        };
        let d1 = if discarded > 0 {
            InputDrain { input_drain_last_event_at: Some(read_done), ..d }
        } else {
            d
        };
        let last = match d1.input_drain_last_event_at {
            Some(l) => l,
            None => started,
        };
        let released = InputDrain {
            input_safe_mode: InputSafeMode::Active,
            input_drain_started_at: None,
            input_drain_last_event_at: None,
            ..d1
        };
        if since(now, last) >= INPUT_DRAIN_QUIET_MS {
            (released, false)
        } else if since(now, started) >= INPUT_DRAIN_MAX_MS {
            (released, false)
        } else {
            (d1, true)
        }
    }
}

impl InputDrain {
    /// Normal operation: input is forwarded.
    pub fn new() -> (d: Self)
        ensures
            d.input_safe_mode == InputSafeMode::Active,
            d.input_drain_started_at is None,
            d.input_drain_last_event_at is None,
            !d.log_next_input,
    {
        InputDrain {
            input_safe_mode: InputSafeMode::Active,
            input_drain_started_at: None,
            input_drain_last_event_at: None,
            log_next_input: false,
        }
    }

    /// True while the TUI is discarding stale input right after a game closes.
    pub fn is_in_input_grace(&self) -> (b: bool)
        ensures
            b == (self.input_safe_mode == InputSafeMode::Locked),
    {
        self.input_safe_mode == InputSafeMode::Locked
    }

    /// Called once a game has exited (its queued input already flushed): open
    /// a quiet-based drain starting at `now_ms`.
    pub fn resume_input_after_game(&mut self, now_ms: u64)
        ensures
            *final(self) == (InputDrain {
                input_safe_mode: InputSafeMode::Locked,
                input_drain_started_at: Some(now_ms),
                input_drain_last_event_at: Some(now_ms),
                log_next_input: true,
            }),
    {
        self.input_safe_mode = InputSafeMode::Locked;
        self.input_drain_started_at = Some(now_ms);
        self.input_drain_last_event_at = Some(now_ms);
        self.log_next_input = true;
    }

    /// Main-loop step while the drain may be open: `discarded` late events
    /// were thrown away (the reading finished at `read_done_ms`). The drain
    /// ends once input has been quiet for [`INPUT_DRAIN_QUIET_MS`], or after
    /// [`INPUT_DRAIN_MAX_MS`] at the latest. Returns true while still draining.
    pub fn drain_stale_input(&mut self, now_ms: u64, discarded: u32, read_done_ms: u64) -> (b: bool)
        ensures
            (*final(self), b) == drain_tick_spec(*old(self), now_ms, discarded, read_done_ms),
    {
        if self.input_safe_mode != InputSafeMode::Locked {
            return false;
        }
        let started = match self.input_drain_started_at {
            Some(s) => s,
            None => now_ms,
        };
        if discarded > 0 {
            self.input_drain_last_event_at = Some(read_done_ms);
        }
        let last = match self.input_drain_last_event_at {
            Some(l) => l,
            None => started,
        };
        let quiet_for = if now_ms >= last {
            now_ms - last
        } else {
            0
        };
        if quiet_for >= INPUT_DRAIN_QUIET_MS {
            self.input_safe_mode = InputSafeMode::Active;
            self.input_drain_started_at = None;
            self.input_drain_last_event_at = None;
            return false;
        }
        let open_for = if now_ms >= started {
            now_ms - started
        } else {
            0
        };
        if open_for >= INPUT_DRAIN_MAX_MS {
            self.input_safe_mode = InputSafeMode::Active;
            self.input_drain_started_at = None;
            self.input_drain_last_event_at = None;
            return false;
        }
        true
    }
}

/// The drain never outlasts its ceiling: once [`INPUT_DRAIN_MAX_MS`] have
/// passed since a game closed, the next tick releases input whatever still
/// arrives.
pub proof fn lemma_drain_is_bounded(t0: u64, now: u64, discarded: u32, read_done: u64)
    requires
        now >= t0 + INPUT_DRAIN_MAX_MS,
    ensures
        ({
            let d = InputDrain {
                input_safe_mode: InputSafeMode::Locked,
                input_drain_started_at: Some(t0),
                input_drain_last_event_at: Some(t0),
                log_next_input: true,
            };
            let (d2, still) = drain_tick_spec(d, now, discarded, read_done);
            !still && d2.input_safe_mode == InputSafeMode::Active
        }),
{
}

/// Right after a game closes, input stays locked until it has been quiet
/// for [`INPUT_DRAIN_QUIET_MS`]; a late event keeps it locked again.
pub proof fn lemma_drain_waits_for_quiet(t0: u64, now: u64, read_done: u64)
    requires
        t0 <= now < t0 + INPUT_DRAIN_QUIET_MS,
        t0 + INPUT_DRAIN_QUIET_MS <= u64::MAX,
        now <= read_done,
    ensures
        ({
            let d = InputDrain {
                input_safe_mode: InputSafeMode::Locked,
                input_drain_started_at: Some(t0),
                input_drain_last_event_at: Some(t0),
                log_next_input: true,
            };
            &&& drain_tick_spec(d, now, 0, read_done).1
            &&& drain_tick_spec(d, now, 1, read_done).1
            &&& drain_tick_spec(d, now, 0, read_done).0.input_safe_mode == InputSafeMode::Locked
        }),
        ({
            let d = InputDrain {
                input_safe_mode: InputSafeMode::Locked,
                input_drain_started_at: Some(t0),
                input_drain_last_event_at: Some(t0),
                log_next_input: true,
            };
            let q = (t0 + INPUT_DRAIN_QUIET_MS) as u64;
            !drain_tick_spec(d, q, 0, q).1 && drain_tick_spec(d, q, 0, q).0.input_safe_mode
                == InputSafeMode::Active
        }),
{
}

/// Outside a drain, a tick changes nothing and reports no draining.
pub proof fn lemma_no_drain_when_active(d: InputDrain, now: u64, discarded: u32, read_done: u64)
    requires
        d.input_safe_mode == InputSafeMode::Active,
    ensures
        drain_tick_spec(d, now, discarded, read_done) == (d, false),
{
}

} // verus!
