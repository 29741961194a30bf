//! The parts of a match that the session logic reads: who plays, which phase
//! the round is in, and the aiming limits of a tank.

use vstd::prelude::*;

verus! {

/// Who sits at the second tank.
#[derive(Clone, Copy, Debug, PartialEq, Eq, Structural)]
pub enum Mode {
    /// The computer plays the second tank.
    Solo,
    /// Two people share the keyboard.
    Local,
}

/// How hard the computer plays in a solo match.
#[derive(Clone, Copy, Debug, PartialEq, Eq, Structural)]
pub enum Difficulty {
    Easy,
    Normal,
}

/// The shells a tank can load.
#[derive(Clone, Copy, Debug, PartialEq, Eq, Structural)]
pub enum Weapon {
    Shell,
    Heavy,
    Digger,
}

/// Where a round stands.
#[derive(Clone, Copy, Debug, PartialEq, Eq, Structural)]
#[allow(inconsistent_fields)]
pub enum Phase {
    /// The active player has to confirm that they are at the controls.
    Ready,
    /// The active player is aiming.
    Aiming,
    /// A shot is in the air.
    Flying,
    /// The round is over; `None` is a drawn round.
    RoundOver { winner: Option<usize> },
    /// The match is over.
    MatchOver { winner: usize },
}

/// Smallest and largest barrel angle, in degrees.
pub const MIN_ANGLE: u16 = 5;

pub const MAX_ANGLE: u16 = 175;

/// Smallest and largest shot power.
pub const MIN_POWER: u16 = 1;

pub const MAX_POWER: u16 = 100;

/// `x` held between `lo` and `hi`.
pub open spec fn clamp(x: int, lo: int, hi: int) -> int {
    if x < lo {
        lo
    } else if x > hi {
        hi
    } else {
        x
    }
}

/// Whether the computer is to move: in a solo match it plays the second tank.
pub open spec fn computer_moves(mode: Mode, active: usize) -> bool {
    mode == Mode::Solo && active == 1
}

/// Whether the computer is to move: in a solo match it plays the second tank
/// (the tank with index 1).
pub fn ai_turn(mode: Mode, active: usize) -> (r: bool)
    ensures
        r == computer_moves(mode, active),
{
    match mode {
        Mode::Solo => active == 1,
        Mode::Local => false,
    }
}

/// The aim after turning the barrel by `da` degrees and the power dial by
/// `dp`, each held to its range.
pub open spec fn nudged(angle: u16, power: u16, da: i32, dp: i32) -> (u16, u16) {
    (
        clamp(angle + da, MIN_ANGLE as int, MAX_ANGLE as int) as u16,
        clamp(power + dp, MIN_POWER as int, MAX_POWER as int) as u16,
    )
}

/// Turns the barrel by `da` degrees and the power dial by `dp`; each result
/// is held to its range (angle 5..=175, power 1..=100).
pub fn nudge_aim(angle: u16, power: u16, da: i32, dp: i32) -> (r: (u16, u16))
    ensures
        r == nudged(angle, power, da, dp),
        MIN_ANGLE <= r.0 <= MAX_ANGLE,
        MIN_POWER <= r.1 <= MAX_POWER,
{
    let a: i64 = angle as i64 + da as i64;
    let p: i64 = power as i64 + dp as i64;
    let a2: i64 = if a < MIN_ANGLE as i64 {
        MIN_ANGLE as i64
    } else if a > MAX_ANGLE as i64 {
        MAX_ANGLE as i64
    } else {
        a
    };
    let p2: i64 = if p < MIN_POWER as i64 {
        MIN_POWER as i64
    } else if p > MAX_POWER as i64 {
        MAX_POWER as i64
    } else {
        p
    };
    (a2 as u16, p2 as u16)
}

/// What the computer does with its turn, given the phase of the round.
#[derive(Clone, Copy, Debug, PartialEq, Eq, Structural)]
pub enum ComputerStep {
    /// Confirm that it is at the controls.
    GetReady,
    /// Search for a shot.
    Think,
    /// Nothing to do in this phase.
    Wait,
}

pub open spec fn computer_step_spec(phase: Phase) -> ComputerStep {
    match phase {
        Phase::Ready => ComputerStep::GetReady,
        Phase::Aiming => ComputerStep::Think,
        _ => ComputerStep::Wait,
    }
}

/// On its turn the computer first confirms the ready prompt, then searches
/// for a shot while the round is in the aiming phase.
pub fn computer_step(phase: &Phase) -> (r: ComputerStep)
    ensures
        r == computer_step_spec(*phase),
{
    match phase {
        Phase::Ready => ComputerStep::GetReady,
        Phase::Aiming => ComputerStep::Think,
        _ => ComputerStep::Wait,
    }
}

} // verus!
