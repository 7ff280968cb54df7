//! The mode/idle state machine.  Every scan tick it tracks the frame
//! counter (which wraps after one idle window) and the frame of the last
//! observed activity; a full window without activity switches the machine
//! from Normal to Saving, where only every fourth tick scans, and the first
//! scan that detects activity switches it straight back.

use vstd::arithmetic::div_mod::{
    lemma_add_mod_noop_right, lemma_mod_add_multiples_vanish, lemma_mod_bound, lemma_small_mod,
};
use vstd::prelude::*;

verus! {

/// Fast scan period, in milliseconds.
pub const KEYBOARD_POLL_MS: u32 = 5;

/// Reduced scan period while Saving, in milliseconds.
pub const KEYBOARD_POLL_MS_SAVING: u32 = 20;

/// Length of the idle window, in seconds.
pub const IDLE_WAIT_SEC: u32 = 5;

/// While Saving, only every this-many-th tick performs a scan.
pub const SLOW_SCAN_FACTOR: u32 = KEYBOARD_POLL_MS_SAVING / KEYBOARD_POLL_MS;

/// Number of fast ticks in one idle window; the frame counter wraps here.
pub const IDLE_WINDOW_TICKS: u32 = 1000 / KEYBOARD_POLL_MS * IDLE_WAIT_SEC;

/// The idle window, as a mathematical integer.
pub open spec fn idle_window() -> int {
    IDLE_WINDOW_TICKS as int
}

/// Whether the device scans at full cadence (Normal) or at the reduced
/// cadence after an idle window has elapsed (Saving).
#[derive(Clone, Copy, Debug, PartialEq, Eq, Structural)]
pub enum Mode {
    Normal,
    Saving,
}

/// The per-tick loop state: current mode, the cycling frame counter and
/// the frame at which input was last observed.
#[derive(Clone, Copy, Debug, PartialEq, Eq, Structural)]
pub struct IdleState {
    pub mode: Mode,
    pub frame: u32,
    pub last_input_frame: u32,
}

impl IdleState {
    /// Both counters stay inside one idle window.
    pub open spec fn wf(self) -> bool {
        self.frame < IDLE_WINDOW_TICKS && self.last_input_frame < IDLE_WINDOW_TICKS
    }

    /// The boot state: Normal, both counters at zero.
    pub fn new() -> (s: IdleState)
        ensures
            s == (IdleState { mode: Mode::Normal, frame: 0, last_input_frame: 0 }),
            s.wf(),
    {
        IdleState { mode: Mode::Normal, frame: 0, last_input_frame: 0 }
    }

    /// The state after the idle check: when the frame counter has cycled
    /// back to the frame of the last activity, a full idle window has
    /// elapsed with no input, and the mode falls to Saving.
    pub open spec fn spec_after_idle_check(self) -> IdleState {
        IdleState {
            mode: if self.last_input_frame == self.frame {
                Mode::Saving
            } else {
                self.mode
            },
            frame: self.frame,
            last_input_frame: self.last_input_frame,
        }
    }

    /// Whether this tick performs a scan: always in Normal, and on ticks
    /// aligned to the slow cadence in Saving.
    pub open spec fn spec_scans(self) -> bool {
        self.spec_after_idle_check().mode == Mode::Normal || self.frame as int % (
        SLOW_SCAN_FACTOR as int) == 0
    }

    /// The state after recording a scan's outcome: any detected activity
    /// stamps the current frame and restores Normal mode at once.
    pub open spec fn spec_after_record(self, found: bool) -> IdleState {
        if found {
            IdleState { mode: Mode::Normal, frame: self.frame, last_input_frame: self.frame }
        } else {
            self
        }
    }

    /// The state after the frame counter advances, wrapping at the window.
    pub open spec fn spec_after_advance(self) -> IdleState {
        IdleState {
            mode: self.mode,
            frame: ((self.frame + 1) % idle_window()) as u32,
            last_input_frame: self.last_input_frame,
        }
    }

    /// One whole tick as a pure function of the state and of whether a
    /// scan, were one performed this tick, would observe activity.  Ticks
    /// that do not scan record nothing.
    pub open spec fn spec_tick(self, hw_active: bool) -> IdleState {
        self.spec_after_idle_check().spec_after_record(
            self.spec_scans() && hw_active,
        ).spec_after_advance()
    }

    /// Run the idle check for this tick and say whether the tick scans.
    pub fn begin_tick(&mut self) -> (scan_now: bool)
        requires
            old(self).wf(),
        ensures
            *final(self) == old(self).spec_after_idle_check(),
            final(self).wf(),
            scan_now == old(self).spec_scans(),
    {
        if self.last_input_frame == self.frame {
            self.mode = Mode::Saving;
        }
        match self.mode {
            Mode::Normal => true,
            Mode::Saving => self.frame % SLOW_SCAN_FACTOR == 0,
        }
    }

    /// Record whether the scan performed this tick observed any activity.
    pub fn record_scan(&mut self, any_active: bool)
        requires
            old(self).wf(),
        ensures
            *final(self) == old(self).spec_after_record(any_active),
            final(self).wf(),
    {
        if any_active {
            self.last_input_frame = self.frame;
            self.mode = Mode::Normal;
        }
    }

    /// Advance the frame counter, wrapping after one idle window.
    pub fn advance_frame(&mut self)
        requires
            old(self).wf(),
        ensures
            *final(self) == old(self).spec_after_advance(),
            final(self).wf(),
    {
        self.frame = (self.frame + 1) % IDLE_WINDOW_TICKS;
    }
}

/// The state after running one tick per element of `acts`, where each
/// element says whether the hardware would show activity on that tick.
pub open spec fn spec_run(s: IdleState, acts: Seq<bool>) -> IdleState
    decreases acts.len(),
{
    if acts.len() == 0 {
        s
    } else {
        spec_run(s, acts.drop_last()).spec_tick(acts.last())
    }
}

/// `begin_tick`, `record_scan` on the scan outcome, then `advance_frame`
/// together perform exactly one `spec_tick`; skipping `record_scan` on a
/// tick that does not scan changes nothing, since nothing was found.
pub proof fn lemma_tick_composition(s: IdleState, hw_active: bool)
    requires
        s.wf(),
    ensures
        s.spec_after_idle_check().spec_after_record(
            s.spec_scans() && hw_active,
        ).spec_after_advance() == s.spec_tick(hw_active),
        !s.spec_scans() ==> s.spec_after_idle_check().spec_after_advance() == s.spec_tick(
            hw_active,
        ),
{
}

/// Mode transition under inactivity: once activity was recorded at frame
/// `f` (so the counter stands one past `f`), a run of inactive ticks keeps
/// the machine in Normal until the idle window has fully elapsed, switches
/// it to Saving exactly on the window's last tick, and leaves it in Saving
/// from then on.  The prefix trajectory is pinned completely: after `n` of
/// the inactive ticks the mode is Normal exactly when `n` is less than the
/// window, and the counter has advanced `n` frames.
pub proof fn lemma_idle_window(s0: IdleState, acts: Seq<bool>, n: int)
    requires
        s0.wf(),
        s0.mode == Mode::Normal,
        s0.frame == ((s0.last_input_frame + 1) % idle_window()) as u32,
        forall|i: int| 0 <= i < acts.len() ==> !acts[i],
        0 <= n <= acts.len(),
    ensures
        spec_run(s0, acts.take(n)) == (IdleState {
            mode: if n < idle_window() {
                Mode::Normal
            } else {
                Mode::Saving
            },
            frame: ((s0.last_input_frame + 1 + n) % idle_window()) as u32,
            last_input_frame: s0.last_input_frame,
        }),
    decreases n,
{
    let w: int = idle_window();
    let f: int = s0.last_input_frame as int;
    if n == 0 {
        assert(acts.take(0).len() == 0);
    } else {
        lemma_idle_window(s0, acts, n - 1);
        let prev: IdleState = spec_run(s0, acts.take(n - 1));
        assert(acts.take(n).drop_last() =~= acts.take(n - 1));
        assert(acts.take(n).last() == acts[n - 1]);
        assert(!acts[n - 1]);
        assert(spec_run(s0, acts.take(n)) == prev.spec_tick(false));
        // Where the frame counter stands before this tick, and whether it
        // has cycled back to the last-activity frame.
        lemma_mod_bound(f + n, w);
        lemma_add_mod_noop_right(1, f + n, w);
        assert((1 + (f + n) % w) % w == (f + n + 1) % w);
        if n < w {
            // The counter has not yet come around: (f + n) % w != f.
            if f + n < w {
                lemma_small_mod((f + n) as nat, w as nat);
                assert((f + n) % w == f + n);
            } else {
                assert(0 <= f + n - w < w);
                lemma_mod_add_multiples_vanish(f + n - w, w);
                lemma_small_mod((f + n - w) as nat, w as nat);
                assert((f + n) % w == f + n - w);
                assert((f + n) % w != f);
            }
        } else if n == w {
            // The window elapses on this very tick: the counter is back at f.
            lemma_mod_add_multiples_vanish(f, w);
            lemma_small_mod(f as nat, w as nat);
            assert((f + w) % w == f);
        } else {
            // Already in Saving; the idle check can only keep it there.
        }
        lemma_mod_bound(f + n + 1, w);
    }
}

/// Recovery from Saving: the first tick whose scan observes activity
/// restores Normal mode at once and stamps the current frame; a tick that
/// does not scan, or scans without finding activity, leaves the machine in
/// Saving with its activity stamp unchanged.
pub proof fn lemma_saving_revert(s: IdleState, hw_active: bool)
    requires
        s.wf(),
        s.spec_after_idle_check().mode == Mode::Saving,
    ensures
        s.spec_scans() && hw_active ==> s.spec_tick(hw_active).mode == Mode::Normal
            && s.spec_tick(hw_active).last_input_frame == s.frame,
        !(s.spec_scans() && hw_active) ==> s.spec_tick(hw_active).mode == Mode::Saving
            && s.spec_tick(hw_active).last_input_frame == s.last_input_frame,
{
}

} // verus!
