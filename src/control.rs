//! The hysteresis decision: given a reading and the last commanded state,
//! whether to switch the plug on, off, or leave it alone.
use vstd::prelude::*;
use crate::protocol::SwitchState;

verus! {

/// Temperatures and humidities are held in tenths of a unit, the sensor's
/// own resolution (21.5 degrees is 215).
#[derive(Debug, Clone, Copy, PartialEq, Eq, Structural)]
pub struct Reading {
    pub temperature: i32,
    pub humidity: i32,
}

/// The band inside which the plug is left alone, in tenths of a degree.
#[derive(Debug, Clone, Copy, PartialEq, Eq, Structural)]
pub struct Thresholds {
    pub lower: i32,
    pub upper: i32,
}

#[derive(Debug, Clone, Copy, PartialEq, Eq, Structural)]
pub enum ThresholdError {
    /// The lower bound lies above the upper one.
    Inverted,
}

/// What the controller asks of the plug on one reading.
#[derive(Debug, Clone, Copy, PartialEq, Eq, Structural)]
pub enum Action {
    TurnOn,
    TurnOff,
    NoOp,
}

impl Thresholds {
    pub open spec fn wf(self) -> bool {
        self.lower <= self.upper
    }

    /// Builds the band; a lower bound above the upper one is refused.
    pub fn new(lower: i32, upper: i32) -> (r: Result<Thresholds, ThresholdError>)
        ensures
            lower <= upper ==> r == Ok::<Thresholds, ThresholdError>(Thresholds { lower, upper }),
            lower > upper ==> r == Err::<Thresholds, ThresholdError>(ThresholdError::Inverted),
            r matches Ok(t) ==> t.wf(),
    {
        if lower <= upper {
            Ok(Thresholds { lower, upper })
        } else {
            Err(ThresholdError::Inverted)
        }
    }
}

/// The decision on a temperature `t`: at or below the lower bound the plug
/// goes on, at or above the upper one it goes off (the lower bound is looked
/// at first), and a state already commanded is not commanded again.
pub open spec fn decision(t: int, commanded: Option<SwitchState>, th: Thresholds) -> Action {
    if t <= th.lower {
        if commanded == Some(SwitchState::ON) {
            Action::NoOp
        } else {
            Action::TurnOn
        }
    } else if t >= th.upper {
        if commanded == Some(SwitchState::OFF) {
            Action::NoOp
        } else {
            Action::TurnOff
        }
    } else {
        Action::NoOp
    }
}

/// The state an action drives the plug to.
pub open spec fn target_of(a: Action) -> Option<SwitchState> {
    match a {
        Action::TurnOn => Some(SwitchState::ON),
        Action::TurnOff => Some(SwitchState::OFF),
        Action::NoOp => None,
    }
}

impl Action {
    /// The state this action drives the plug to, if any.
    pub fn target(self) -> (r: Option<SwitchState>)
        ensures
            r == target_of(self),
    {
        match self {
            Action::TurnOn => Some(SwitchState::ON),
            Action::TurnOff => Some(SwitchState::OFF),
            Action::NoOp => None,
        }
    }
}

/// Decides what to do with the plug on one reading. No I/O is done here.
pub fn decide(
    reading: &Reading,
    commanded: Option<SwitchState>,
    thresholds: &Thresholds,
) -> (r: Action)
    ensures
        r == decision(reading.temperature as int, commanded, *thresholds),
{
    if reading.temperature <= thresholds.lower {
        match commanded {
            Some(SwitchState::ON) => Action::NoOp,
            _ => Action::TurnOn,
        }
    } else if reading.temperature >= thresholds.upper {
        match commanded {
            Some(SwitchState::OFF) => Action::NoOp,
            _ => Action::TurnOff,
        }
    } else {
        Action::NoOp
    }
}

/// Inside the band nothing is done, whatever was commanded before.
pub proof fn lemma_dead_band(t: int, commanded: Option<SwitchState>, th: Thresholds)
    requires
        th.wf(),
        th.lower < t < th.upper,
    ensures
        decision(t, commanded, th) == Action::NoOp,
{
}

/// At or below the lower bound the plug is switched on, unless it was
/// already commanded on.
pub proof fn lemma_cold_turns_on(t: int, commanded: Option<SwitchState>, th: Thresholds)
    requires
        th.wf(),
        t <= th.lower,
    ensures
        commanded == Some(SwitchState::ON) ==> decision(t, commanded, th) == Action::NoOp,
        commanded != Some(SwitchState::ON) ==> decision(t, commanded, th) == Action::TurnOn,
{
}

/// At or above the upper bound the plug is switched off, unless it was
/// already commanded off. A temperature equal to both bounds of a band of
/// width zero is cold first, so it is left out.
pub proof fn lemma_hot_turns_off(t: int, commanded: Option<SwitchState>, th: Thresholds)
    requires
        th.wf(),
        t >= th.upper,
        t > th.lower,
    ensures
        commanded == Some(SwitchState::OFF) ==> decision(t, commanded, th) == Action::NoOp,
        commanded != Some(SwitchState::OFF) ==> decision(t, commanded, th) == Action::TurnOff,
{
}

/// A decision that acts never asks for the state already commanded.
pub proof fn lemma_no_redundant_command(t: int, commanded: Option<SwitchState>, th: Thresholds)
    ensures
        decision(t, commanded, th) != Action::NoOp ==> target_of(decision(t, commanded, th))
            != commanded,
{
}

} // verus!
