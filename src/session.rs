//! The outer lifecycle of a battle session and the integer parts of the
//! per-tick input handling.

use vstd::prelude::*;

verus! {

/// The camera type that the foreign configuration selects, stored there as a
/// 32-bit code.
#[derive(PartialEq, Eq, Structural, Clone, Copy, Debug)]
pub enum BattleCameraType {
    TotalWar,
    GeneralCamera,
    Rts,
}

impl BattleCameraType {
    /// The 32-bit code that the foreign code stores for this camera type.
    pub open spec fn code_spec(self) -> u32 {
        match self {
            BattleCameraType::TotalWar => 0,
            BattleCameraType::GeneralCamera => 1,
            BattleCameraType::Rts => 2,
        }
    }

    /// The 32-bit code that the foreign code stores for this camera type.
    pub fn code(&self) -> (r: u32)
        ensures
            r == self.code_spec(),
    {
        match self {
            BattleCameraType::TotalWar => 0,
            BattleCameraType::GeneralCamera => 1,
            BattleCameraType::Rts => 2,
        }
    }

    /// The camera type with the given code, if there is one.
    pub fn from_code(code: u32) -> (r: Option<Self>)
        ensures
            r is Some <==> code <= 2,
            r is Some ==> r->Some_0.code_spec() == code,
    {
        if code == 0 {
            Some(BattleCameraType::TotalWar)
        } else if code == 1 {
            Some(BattleCameraType::GeneralCamera)
        } else if code == 2 {
            Some(BattleCameraType::Rts)
        } else {
            None
        }
    }
}

/// What the controller does with the session on one tick.
#[derive(PartialEq, Eq, Structural, Clone, Copy, Debug)]
pub enum SessionStep {
    /// A battle began: reset the scroll delta and build a fresh session.
    Enter,
    /// The battle goes on: run one tick of the current session.
    Tick,
    /// The battle ended: tear the session down, patches first.
    Exit,
    /// Outside any battle, nothing to do.
    Idle,
}

/// Whether a session exists after a step.
pub open spec fn in_session_after(step: SessionStep, in_session: bool) -> bool {
    match step {
        SessionStep::Enter | SessionStep::Tick => true,
        SessionStep::Exit => false,
        SessionStep::Idle => in_session,
    }
}

/// Decides the tick's step from whether a session exists and whether the
/// foreign battle flag is set.
pub fn session_step(in_session: bool, battle_flag: bool) -> (r: SessionStep)
    ensures
        !in_session && battle_flag ==> r == SessionStep::Enter,
        in_session && battle_flag ==> r == SessionStep::Tick,
        in_session && !battle_flag ==> r == SessionStep::Exit,
        !in_session && !battle_flag ==> r == SessionStep::Idle,
        in_session_after(r, in_session) == battle_flag,
{
    match (in_session, battle_flag) {
        (false, true) => SessionStep::Enter,
        (true, true) => SessionStep::Tick,
        (true, false) => SessionStep::Exit,
        (false, false) => SessionStep::Idle,
    }
}

/// The signed square `d·|d|` of a scroll delta `d`, negated first when the
/// scroll is inverted: the vertical impulse that a scroll gives, before the
/// speed scaling.
pub open spec fn scroll_impulse_spec(delta: i32, inverted: bool) -> int {
    let d: int = if inverted { -(delta as int) } else { delta as int };
    if d < 0 { -(d * d) } else { d * d }
}

/// The signed square of a (possibly inverted) scroll delta.
pub fn scroll_impulse(delta: i32, inverted: bool) -> (r: i64)
    ensures
        r as int == scroll_impulse_spec(delta, inverted),
{
    let d: i64 = if inverted { -(delta as i64) } else { delta as i64 };
    assert(d * d <= 0x4000_0000_0000_0000) by (nonlinear_arith)
        requires
            -0x8000_0000 <= d <= 0x8000_0000,
    ;
    assert(d * d >= 0) by (nonlinear_arith);
    if d < 0 {
        -(d * d)
    } else {
        d * d
    }
}

} // verus!
