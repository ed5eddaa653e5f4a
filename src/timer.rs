use vstd::prelude::*;

use crate::key_handler::KeyAction;

verus! {

/// Gaps between ticks longer than this many seconds are taken for a
/// suspended machine and subtracted from the time left.
pub const DRIFT_THRESHOLD_SEC: u64 = 2;

/// The action a countdown tick acts on, from what a non-blocking poll of the
/// key channel gave: only a quit or a pause counts, anything else (no key at
/// all, or a confirmation) is no action.
pub open spec fn timer_input(received: Option<KeyAction>) -> KeyAction {
    match received {
        Option::Some(KeyAction::Quit) => KeyAction::Quit,
        Option::Some(KeyAction::Pause) => KeyAction::Pause,
        _ => KeyAction::Idle,
    }
}

/// Reduces a polled key to the action a running countdown acts on.
pub fn handle_input_on_timer(received: Option<KeyAction>) -> (r: KeyAction)
    ensures
        r == timer_input(received),
{
    match received {
        Option::Some(KeyAction::Quit) => KeyAction::Quit,
        Option::Some(KeyAction::Pause) => KeyAction::Pause,
        _ => KeyAction::Idle,
    }
}

/// The time left after a tick's decrement has been corrected for a measured
/// gap of `elapsed_sec` seconds since the tick before: past the threshold, the
/// one second already counted is given back and the whole gap taken off,
/// never going below zero.
pub open spec fn corrected_remaining(remaining_sec: int, elapsed_sec: int) -> int {
    if elapsed_sec > DRIFT_THRESHOLD_SEC {
        if remaining_sec + 1 - elapsed_sec > 0 {
            remaining_sec + 1 - elapsed_sec
        } else {
            0
        }
    } else {
        remaining_sec
    }
}

/// Corrects the time left for a gap between ticks, as `corrected_remaining`.
pub fn correct_drift(remaining_sec: u16, elapsed_sec: u64) -> (r: u16)
    ensures
        r as int == corrected_remaining(remaining_sec as int, elapsed_sec as int),
{
    if elapsed_sec > DRIFT_THRESHOLD_SEC {
        if (remaining_sec as u64) + 1 > elapsed_sec {
            ((remaining_sec as u64) + 1 - elapsed_sec) as u16
        } else {
            0
        }
    } else {
        remaining_sec
    }
}

/// Drift correction never leaves a negative time, and never adds time.
pub proof fn lemma_drift_never_negative(remaining_sec: int, elapsed_sec: int)
    requires
        remaining_sec >= 0,
        elapsed_sec >= 0,
    ensures
        corrected_remaining(remaining_sec, elapsed_sec) >= 0,
        corrected_remaining(remaining_sec, elapsed_sec) <= remaining_sec,
{
}

/// What the driver of a countdown does in the current tick.
#[derive(Clone, Copy, Debug, PartialEq, Eq, Structural)]
pub enum TickStep {
    /// Restore the terminal and stop: the countdown was abandoned.
    Quit,
    /// Draw the screen for this many seconds left in this round, then report
    /// the time since the previous tick through `finish_tick`.
    Render { remaining_sec: u16, current_round: u64 },
    /// Draw nothing this tick.
    Hold,
}

/// One countdown: the seconds left, its round, and whether it is paused or
/// was quit.
#[derive(Clone, Copy, Debug, PartialEq, Eq, Structural)]
pub struct Countdown {
    pub remaining_sec: u16,
    pub current_round: u64,
    pub paused: bool,
    pub quit: bool,
}

/// A countdown keeps ticking while time is left and nobody quit.
pub open spec fn running(c: Countdown) -> bool {
    c.remaining_sec != 0 && !c.quit
}

/// The state after a tick has acted on `action`, before any drawing.
pub open spec fn after_action(c: Countdown, action: KeyAction) -> Countdown {
    match action {
        KeyAction::Quit => Countdown { quit: true, ..c },
        KeyAction::Pause => Countdown { paused: !c.paused, ..c },
        _ => c,
    }
}

/// What a tick asks of its driver: a quit stops at once, a pause draws
/// nothing, and otherwise an unpaused countdown draws its time left.
pub open spec fn step_for(c: Countdown, action: KeyAction) -> TickStep {
    match action {
        KeyAction::Quit => TickStep::Quit,
        KeyAction::Pause => TickStep::Hold,
        _ => if c.paused {
            TickStep::Hold
        } else {
            TickStep::Render { remaining_sec: c.remaining_sec, current_round: c.current_round }
        },
    }
}

/// The state after a drawn tick: one second is counted and the gap since the
/// previous tick corrected for.
pub open spec fn after_render(c: Countdown, elapsed_sec: int) -> Countdown {
    Countdown {
        remaining_sec: corrected_remaining(c.remaining_sec - 1, elapsed_sec) as u16,
        ..c
    }
}

impl Countdown {
    /// A fresh, unpaused countdown of `total_sec` seconds in round
    /// `current_round`.
    pub fn new(total_sec: u16, current_round: u64) -> (r: Countdown)
        ensures
            r == (Countdown { remaining_sec: total_sec, current_round, paused: false, quit: false }),
    {
        Countdown { remaining_sec: total_sec, current_round, paused: false, quit: false }
    }

    /// Whether the countdown has another tick to run.
    pub fn is_running(&self) -> (r: bool)
        ensures
            r == running(*self),
    {
        self.remaining_sec != 0 && !self.quit
    }

    /// Whether the countdown ended by a quit rather than by running out.
    pub fn was_quit(&self) -> (r: bool)
        ensures
            r == self.quit,
    {
        self.quit
    }

    /// Acts on the tick's action and says what to draw.
    pub fn apply_action(&mut self, action: KeyAction) -> (r: TickStep)
        requires
            running(*old(self)),
        ensures
            *final(self) == after_action(*old(self), action),
            r == step_for(*old(self), action),
    {
        match action {
            KeyAction::Quit => {
                self.quit = true;
                TickStep::Quit
            },
            KeyAction::Pause => {
                self.paused = !self.paused;
                TickStep::Hold
            },
            _ => {
                if self.paused {
                    TickStep::Hold
                } else {
                    TickStep::Render {
                        remaining_sec: self.remaining_sec,
                        current_round: self.current_round,
                    }
                }
            },
        }
    }

    /// Counts the second that was just drawn and corrects for a gap of
    /// `elapsed_sec` seconds since the previous tick.
    pub fn finish_tick(&mut self, elapsed_sec: u64)
        requires
            old(self).remaining_sec > 0,
        ensures
            *final(self) == after_render(*old(self), elapsed_sec as int),
    {
        self.remaining_sec = correct_drift(self.remaining_sec - 1, elapsed_sec);
    }
}

/// Two pauses in a row, with no tick drawn between them, leave a running
/// countdown exactly as it was.
pub proof fn lemma_pause_twice(c: Countdown)
    requires
        running(c),
    ensures
        running(after_action(c, KeyAction::Pause)),
        step_for(c, KeyAction::Pause) == TickStep::Hold,
        step_for(after_action(c, KeyAction::Pause), KeyAction::Pause) == TickStep::Hold,
        after_action(after_action(c, KeyAction::Pause), KeyAction::Pause) == c,
{
}

/// A quit stops a countdown at once: nothing is drawn for it and no tick
/// follows.
pub proof fn lemma_countdown_quit_absorbing(c: Countdown)
    ensures
        step_for(c, KeyAction::Quit) == TickStep::Quit,
        !running(after_action(c, KeyAction::Quit)),
        after_action(c, KeyAction::Quit).quit,
{
}

/// A countdown only ever loses time: a tick that draws takes at least one
/// second off, and no tick adds any.
pub proof fn lemma_tick_counts_down(c: Countdown, action: KeyAction, elapsed_sec: int)
    requires
        running(c),
        elapsed_sec >= 0,
    ensures
        after_action(c, action).remaining_sec == c.remaining_sec,
        step_for(c, action) is Render ==> after_render(after_action(c, action), elapsed_sec).remaining_sec < c.remaining_sec,
{
}

} // verus!
