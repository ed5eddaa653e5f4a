use vstd::prelude::*;
use vstd::string::StringExecFns;

use crate::key_handler::KeyAction;

verus! {

/// Every round whose number is a multiple of this gets the long break.
pub const LONG_BREAK_EVERY: u64 = 4;

/// The lengths, in seconds, of a work period and of the two kinds of break.
#[derive(Clone, Copy, Debug, PartialEq, Eq, Structural)]
pub struct Config {
    pub work_sec: u16,
    pub short_break_sec: u16,
    pub long_break_sec: u16,
}

/// The break that follows the work of round `round`: the long one every
/// fourth round, the short one otherwise.
pub open spec fn break_length(config: Config, round: nat) -> u16 {
    if round % (LONG_BREAK_EVERY as nat) == 0 {
        config.long_break_sec
    } else {
        config.short_break_sec
    }
}

/// The length of the break after round `current_round`.
pub fn break_sec_for_round(config: &Config, current_round: u64) -> (r: u16)
    ensures
        r == break_length(*config, current_round as nat),
{
    if current_round % LONG_BREAK_EVERY == 0 {
        config.long_break_sec
    } else {
        config.short_break_sec
    }
}

/// Which kind of period a countdown or a gate belongs to.
#[derive(Clone, Copy, Debug, PartialEq, Eq, Structural)]
pub enum Mode {
    Work,
    Break,
}

/// What the blocking wait between two periods does with a received action.
#[derive(Clone, Copy, Debug, PartialEq, Eq, Structural)]
pub enum GateStep {
    /// Go on to the next period.
    Proceed,
    /// Restore the terminal and end the session.
    Quit,
    /// Ignore the action and keep waiting.
    Wait,
}

pub open spec fn gate_step(action: KeyAction) -> GateStep {
    match action {
        KeyAction::Confirm => GateStep::Proceed,
        KeyAction::Quit => GateStep::Quit,
        _ => GateStep::Wait,
    }
}

/// Decides what a gate does with one received action: a confirmation opens
/// it, a quit ends the session, anything else is ignored.
pub fn gate_response(action: KeyAction) -> (r: GateStep)
    ensures
        r == gate_step(action),
{
    match action {
        KeyAction::Confirm => GateStep::Proceed,
        KeyAction::Quit => GateStep::Quit,
        _ => GateStep::Wait,
    }
}

/// Where the session stands.
#[derive(Clone, Copy, Debug, PartialEq, Eq, Structural)]
pub enum Phase {
    Work,
    BreakGate,
    Break,
    WorkGate,
    Finished,
}

/// What the driver of a session does next.
#[derive(Clone, Copy, Debug, PartialEq, Eq, Structural)]
pub enum SessionStep {
    /// Run a countdown of `total_sec` seconds in round `current_round`.
    Countdown { mode: Mode, total_sec: u16, current_round: u64 },
    /// Announce the end of the period before, then wait for a confirmation to
    /// start a period of kind `mode`.
    Gate { mode: Mode },
    /// End the process successfully.
    Exit,
}

/// The session driver: its fixed lengths, the current round and phase.
#[derive(Clone, Copy, Debug, PartialEq, Eq, Structural)]
pub struct Session {
    pub config: Config,
    pub round: u64,
    pub phase: Phase,
}

/// Rounds are counted from one.
pub open spec fn session_wf(s: Session) -> bool {
    s.round >= 1
}

pub open spec fn step_of(s: Session) -> SessionStep {
    match s.phase {
        Phase::Work => SessionStep::Countdown {
            mode: Mode::Work,
            total_sec: s.config.work_sec,
            current_round: s.round,
        },
        Phase::BreakGate => SessionStep::Gate { mode: Mode::Break },
        Phase::Break => SessionStep::Countdown {
            mode: Mode::Break,
            total_sec: break_length(s.config, s.round as nat),
            current_round: s.round,
        },
        Phase::WorkGate => SessionStep::Gate { mode: Mode::Work },
        Phase::Finished => SessionStep::Exit,
    }
}

/// The session after the current step ended, by a quit or by completing:
/// work leads to the break gate, that to the break, the break to the work
/// gate, and the work gate to the work of the next round.
pub open spec fn next_session(s: Session, quit: bool) -> Session {
    if quit {
        Session { phase: Phase::Finished, ..s }
    } else {
        match s.phase {
            Phase::Work => Session { phase: Phase::BreakGate, ..s },
            Phase::BreakGate => Session { phase: Phase::Break, ..s },
            Phase::Break => Session { phase: Phase::WorkGate, ..s },
            Phase::WorkGate => Session { phase: Phase::Work, round: (s.round + 1) as u64, ..s },
            Phase::Finished => s,
        }
    }
}

impl Session {
    /// A session that starts with the work of round one.
    pub fn new(config: Config) -> (r: Session)
        ensures
            r == (Session { config, round: 1, phase: Phase::Work }),
            session_wf(r),
    {
        Session { config, round: 1, phase: Phase::Work }
    }

    /// What to do in the current phase.
    pub fn current_step(&self) -> (r: SessionStep)
        ensures
            r == step_of(*self),
    {
        match self.phase {
            Phase::Work => SessionStep::Countdown {
                mode: Mode::Work,
                total_sec: self.config.work_sec,
                current_round: self.round,
            },
            Phase::BreakGate => SessionStep::Gate { mode: Mode::Break },
            Phase::Break => SessionStep::Countdown {
                mode: Mode::Break,
                total_sec: break_sec_for_round(&self.config, self.round),
                current_round: self.round,
            },
            Phase::WorkGate => SessionStep::Gate { mode: Mode::Work },
            Phase::Finished => SessionStep::Exit,
        }
    }

    /// Moves on once the current step has ended; `quit` says whether it ended
    /// by a quit.
    pub fn advance(&mut self, quit: bool)
        requires
            old(self).phase != Phase::Finished,
            old(self).phase == Phase::WorkGate && !quit ==> old(self).round < u64::MAX,
        ensures
            *final(self) == next_session(*old(self), quit),
            session_wf(*old(self)) ==> session_wf(*final(self)),
    {
        if quit {
            self.phase = Phase::Finished;
        } else {
            match self.phase {
                Phase::Work => self.phase = Phase::BreakGate,
                Phase::BreakGate => self.phase = Phase::Break,
                Phase::Break => self.phase = Phase::WorkGate,
                Phase::WorkGate => {
                    self.phase = Phase::Work;
                    self.round = self.round + 1;
                },
                Phase::Finished => {},
            }
        }
    }
}

pub open spec fn break_notice() -> Seq<char> {
    "it's time to take a break \u{2615}"@
}

pub open spec fn work_notice() -> Seq<char> {
    "it's time to work again!! \u{1F4AA}"@
}

/// The message announcing that a period of kind `mode` is next.
pub fn gate_notice(mode: Mode) -> (r: String)
    ensures
        r@ == (match mode {
            Mode::Break => break_notice(),
            Mode::Work => work_notice(),
        }),
{
    match mode {
        Mode::Break => String::from_str("it's time to take a break \u{2615}"),
        Mode::Work => String::from_str("it's time to work again!! \u{1F4AA}"),
    }
}

/// The break after round `r` is the long one exactly when four divides `r`.
pub proof fn lemma_break_round_robin(s: Session)
    requires
        s.phase == Phase::Break,
    ensures
        step_of(s) == (SessionStep::Countdown {
            mode: Mode::Break,
            total_sec: if s.round % 4 == 0 {
                s.config.long_break_sec
            } else {
                s.config.short_break_sec
            },
            current_round: s.round,
        }),
{
}

/// A quit ends the session from any phase: the next step is to exit, with no
/// countdown, gate or notice, and nothing moves the session on from there. A
/// gate that receives a quit ends the session in the same way.
pub proof fn lemma_quit_absorbing(s: Session, later_quit: bool)
    ensures
        gate_step(KeyAction::Quit) == GateStep::Quit,
        next_session(s, true).phase == Phase::Finished,
        step_of(next_session(s, true)) == SessionStep::Exit,
        next_session(next_session(s, true), later_quit) == next_session(s, true),
{
}

/// The round counter never decreases, and goes up by exactly one, when the
/// work gate is passed.
pub proof fn lemma_round_monotonic(s: Session, quit: bool)
    requires
        session_wf(s),
        s.round < u64::MAX,
    ensures
        session_wf(next_session(s, quit)),
        next_session(s, quit).round == if !quit && s.phase == Phase::WorkGate {
            s.round + 1
        } else {
            s.round as int
        },
{
}

} // verus!
