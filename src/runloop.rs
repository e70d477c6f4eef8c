//! The controller that the run loop drives once per tick: it owns the
//! thresholds and the commanded state, and consumes the verbose-once gate.
use vstd::prelude::*;
use crate::control::{decide, decision, Action, Reading, Thresholds};
use crate::cycle::{run, ActionCycle, Phase};
use crate::protocol::SwitchState;

verus! {

/// What one tick asks of the run loop.
#[derive(Debug, Clone, Copy, PartialEq, Eq, Structural)]
pub struct TickPlan {
    /// Log the reading at the higher level.
    pub log_elevated: bool,
    /// The action to run a cycle for.
    pub action: Action,
    /// The value the verbose-once gate holds after the tick.
    pub verbose_after: bool,
}

#[derive(Debug, Clone, Copy, PartialEq, Eq, Structural)]
pub struct Controller {
    pub thresholds: Thresholds,
    /// What the plug was last told to be; unknown at start.
    pub commanded: Option<SwitchState>,
}

pub open spec fn plan_of(
    reading: Option<Reading>,
    verbose: bool,
    commanded: Option<SwitchState>,
    th: Thresholds,
) -> TickPlan {
    TickPlan {
        log_elevated: verbose && reading.is_some(),
        action: match reading {
            Some(r) => decision(r.temperature as int, commanded, th),
            None => Action::NoOp,
        },
        verbose_after: false,
    }
}

impl Controller {
    pub open spec fn wf(self) -> bool {
        self.thresholds.wf()
    }

    /// A controller that has commanded nothing yet.
    pub fn new(thresholds: Thresholds) -> (r: Controller)
        ensures
            r.thresholds == thresholds,
            r.commanded.is_none(),
    {
        Controller { thresholds, commanded: None }
    }

    /// Plans one tick on the reading that arrived, if any. Without a reading
    /// nothing is done; either way the verbose-once gate is consumed.
    pub fn tick(&self, reading: Option<Reading>, verbose: bool) -> (r: TickPlan)
        ensures
            r == plan_of(reading, verbose, self.commanded, self.thresholds),
    {
        let action = match reading {
            Some(rd) => decide(&rd, self.commanded, &self.thresholds),
            None => Action::NoOp,
        };
        TickPlan { log_elevated: verbose && reading.is_some(), action, verbose_after: false }
    }

    /// The cycle to run for `action`, if it needs one.
    pub fn begin_cycle(&self, action: Action) -> (r: Option<ActionCycle>)
        ensures
            action == Action::NoOp ==> r.is_none(),
            action != Action::NoOp ==> (r matches Some(c) && c.before == self.commanded
                && c.phase == Phase::Connecting && !c.committed && Some(c.target)
                == crate::control::target_of(action)),
    {
        ActionCycle::begin(action, self.commanded)
    }

    /// Remembers what a finished cycle leaves as commanded.
    pub fn finish_cycle(&mut self, c: &ActionCycle)
        ensures
            final(self).thresholds == old(self).thresholds,
            final(self).commanded == c.outcome_spec(),
    {
        self.commanded = c.outcome();
    }
}

/// A tick without a reading does nothing and logs nothing at the higher
/// level, and it still clears the verbose-once gate.
pub proof fn lemma_empty_tick_consumes_gate(
    verbose: bool,
    commanded: Option<SwitchState>,
    th: Thresholds,
)
    ensures
        plan_of(None, verbose, commanded, th).action == Action::NoOp,
        !plan_of(None, verbose, commanded, th).log_elevated,
        !plan_of(None, verbose, commanded, th).verbose_after,
{
}

/// Switching on twice in a row writes one frame. The first cycle reaches the
/// plug, finds it off and writes; after it the controller asks for nothing
/// more on the same reading, and a second switch-on cycle run anyway finds
/// the plug on and writes nothing.
pub proof fn lemma_turn_on_twice_writes_once(
    t: int,
    th: Thresholds,
    before: Option<SwitchState>,
)
    requires
        th.wf(),
        t <= th.lower,
        before != Some(SwitchState::ON),
    ensures
        ({
            let first = ActionCycle {
                target: SwitchState::ON,
                before,
                committed: false,
                phase: Phase::Connecting,
            };
            let (d1, w1) = run(first, true, Some(SwitchState::OFF), 5);
            let second = ActionCycle {
                target: SwitchState::ON,
                before: d1.outcome_spec(),
                committed: false,
                phase: Phase::Connecting,
            };
            let (d2, w2) = run(second, true, Some(SwitchState::ON), 5);
            &&& decision(t, before, th) == Action::TurnOn
            &&& d1.outcome_spec() == Some(SwitchState::ON)
            &&& decision(t, d1.outcome_spec(), th) == Action::NoOp
            &&& w1 + w2 == 1
        }),
{
    crate::cycle::lemma_cycle_outcome(SwitchState::ON, before, true, Some(SwitchState::OFF));
    let first = ActionCycle {
        target: SwitchState::ON,
        before,
        committed: false,
        phase: Phase::Connecting,
    };
    let d1 = run(first, true, Some(SwitchState::OFF), 5).0;
    crate::cycle::lemma_cycle_outcome(SwitchState::ON, d1.outcome_spec(), true, Some(SwitchState::ON));
}

} // verus!
