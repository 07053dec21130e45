//! The breathing schedule: the control loop alternates forever between a
//! bright phase (duty 500 of 1000, held 2000 ms) and a dim phase (duty 100 of
//! 1000, held 1000 ms).
//!
//! `cycle_step` is the loop body's decision: from the current phase it yields
//! the duty command to apply, the delay to hold it, and the next phase. The
//! binary shell applies the command, sleeps, and feeds the next phase back
//! in.

use vstd::prelude::*;

verus! {

/// Duty of the bright phase: 500 parts in 1000.
pub const BRIGHT_DUTY: u32 = 500;

/// How long the bright phase is held, in milliseconds.
pub const BRIGHT_HOLD_MS: u32 = 2000;

/// Duty of the dim phase: 100 parts in 1000.
pub const DIM_DUTY: u32 = 100;

/// How long the dim phase is held, in milliseconds.
pub const DIM_HOLD_MS: u32 = 1000;

/// The two phases of the breathing cycle.
#[derive(Clone, Copy, Debug, PartialEq, Eq, Structural)]
pub enum Phase {
    Bright,
    Dim,
}

/// One command of the schedule: the duty to program and how long to hold it.
#[derive(Clone, Copy, Debug, PartialEq, Eq, Structural)]
pub struct DutyCommand {
    pub duty: u32,
    pub delay_ms: u32,
}

/// The command belonging to a phase, and the phase that follows it.
pub open spec fn spec_cycle_step(p: Phase) -> (DutyCommand, Phase) {
    match p {
        Phase::Bright => (
            DutyCommand { duty: BRIGHT_DUTY, delay_ms: BRIGHT_HOLD_MS },
            Phase::Dim,
        ),
        Phase::Dim => (
            DutyCommand { duty: DIM_DUTY, delay_ms: DIM_HOLD_MS },
            Phase::Bright,
        ),
    }
}

/// One decision of the control loop: the duty command and delay for the
/// current phase, and the phase to continue with.
pub fn cycle_step(p: Phase) -> (r: (DutyCommand, Phase))
    ensures
        r == spec_cycle_step(p),
        p == Phase::Bright ==> r.0.duty == BRIGHT_DUTY && r.0.delay_ms == BRIGHT_HOLD_MS
            && r.1 == Phase::Dim,
        p == Phase::Dim ==> r.0.duty == DIM_DUTY && r.0.delay_ms == DIM_HOLD_MS
            && r.1 == Phase::Bright,
{
    match p {
        Phase::Bright => (
            DutyCommand { duty: BRIGHT_DUTY, delay_ms: BRIGHT_HOLD_MS },
            Phase::Dim,
        ),
        Phase::Dim => (
            DutyCommand { duty: DIM_DUTY, delay_ms: DIM_HOLD_MS },
            Phase::Bright,
        ),
    }
}

/// The phase the loop is in just before its i-th duty update (the first
/// update is update 0, in the bright phase).
pub open spec fn phase_at(i: nat) -> Phase {
    if i % 2 == 0 {
        Phase::Bright
    } else {
        Phase::Dim
    }
}

/// The i-th duty command the loop issues.
pub open spec fn command_at(i: nat) -> DutyCommand {
    if i % 2 == 0 {
        DutyCommand { duty: BRIGHT_DUTY, delay_ms: BRIGHT_HOLD_MS }
    } else {
        DutyCommand { duty: DIM_DUTY, delay_ms: DIM_HOLD_MS }
    }
}

/// The loop keeps the fixed two-phase schedule forever, with no drift: at
/// every step i the decision taken in `phase_at(i)` issues exactly
/// `command_at(i)` and hands the loop `phase_at(i + 1)`, and the schedule of
/// commands repeats with period two.
pub proof fn lemma_cycle_pattern(i: nat)
    ensures
        spec_cycle_step(phase_at(i)).0 == command_at(i),
        spec_cycle_step(phase_at(i)).1 == phase_at(i + 1),
        command_at(i + 2) == command_at(i),
        phase_at(i + 2) == phase_at(i),
{
}

} // verus!
