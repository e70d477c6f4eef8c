//! One action cycle against the plug: connect, read its state, write a
//! command only where the state differs, and always disconnect. The caller
//! performs each step and reports how it went; this module decides the next
//! step and what the controller remembers as commanded afterwards.
use vstd::prelude::*;
use crate::control::{target_of, Action};
use crate::protocol::{opposite, SwitchState};

verus! {

#[derive(Debug, Clone, Copy, PartialEq, Eq, Structural)]
pub enum Phase {
    Connecting,
    ReadingState,
    Commanding,
    Disconnecting,
    Idle,
}

/// The step the caller performs next.
#[derive(Debug, Clone, Copy, PartialEq, Eq, Structural)]
pub enum Step {
    /// Find the adapter, scan, find the plug, connect and resolve the characteristic.
    Connect,
    /// Read the plug's advertised state.
    ReadState,
    /// Write the command frame for this state.
    Send(SwitchState),
    /// Disconnect and stop scanning; failures there are only logged.
    Disconnect,
    /// The cycle is over.
    Finished,
}

/// How the step just performed went.
#[derive(Debug, Clone, Copy, PartialEq, Eq, Structural)]
pub enum Event {
    Connected,
    ConnectFailed,
    StateRead(Option<SwitchState>),
    Sent,
    SendFailed,
    Disconnected,
}

#[derive(Debug, Clone, Copy, PartialEq, Eq, Structural)]
pub struct ActionCycle {
    pub target: SwitchState,
    /// The commanded state when the cycle began.
    pub before: Option<SwitchState>,
    /// Whether the command attempt counts: the plug was reached and no write failed.
    pub committed: bool,
    pub phase: Phase,
}

impl ActionCycle {
    pub open spec fn step_spec(self) -> Step {
        match self.phase {
            Phase::Connecting => Step::Connect,
            Phase::ReadingState => Step::ReadState,
            Phase::Commanding => Step::Send(self.target),
            Phase::Disconnecting => Step::Disconnect,
            Phase::Idle => Step::Finished,
        }
    }

    /// The cycle after `ev`. An event that does not answer the pending
    /// step leaves the cycle as it is.
    pub open spec fn next_spec(self, ev: Event) -> ActionCycle {
        match (self.phase, ev) {
            (Phase::Connecting, Event::Connected) => ActionCycle {
                committed: true,
                phase: Phase::ReadingState,
                ..self
            },
            (Phase::Connecting, Event::ConnectFailed) => ActionCycle {
                phase: Phase::Disconnecting,
                ..self
            },
            (Phase::ReadingState, Event::StateRead(s)) => {
                if s == Some(opposite(self.target)) {
                    ActionCycle { phase: Phase::Commanding, ..self }
                } else {
                    ActionCycle { phase: Phase::Disconnecting, ..self }
                }
            },
            (Phase::Commanding, Event::Sent) => ActionCycle {
                phase: Phase::Disconnecting,
                ..self
            },
            (Phase::Commanding, Event::SendFailed) => ActionCycle {
                committed: false,
                phase: Phase::Disconnecting,
                ..self
            },
            (Phase::Disconnecting, Event::Disconnected) => ActionCycle {
                phase: Phase::Idle,
                ..self
            },
            _ => self,
        }
    }

    /// The commanded state the controller keeps once the cycle is over: the
    /// target where the plug was reached and no write failed, else the one
    /// from before, so that the same action is tried again.
    pub open spec fn outcome_spec(self) -> Option<SwitchState> {
        if self.committed {
            Some(self.target)
        } else {
            self.before
        }
    }

    /// Starts the cycle for `action`; `NoOp` needs no cycle and no I/O.
    pub fn begin(action: Action, commanded: Option<SwitchState>) -> (r: Option<ActionCycle>)
        ensures
            action == Action::NoOp ==> r.is_none(),
            action != Action::NoOp ==> r == Some(
                ActionCycle {
                    target: target_of(action).unwrap(),
                    before: commanded,
                    committed: false,
                    phase: Phase::Connecting,
                },
            ),
    {
        match action.target() {
            None => None,
            Some(target) => Some(
                ActionCycle { target, before: commanded, committed: false, phase: Phase::Connecting },
            ),
        }
    }

    /// The step to perform now.
    pub fn step(&self) -> (r: Step)
        ensures
            r == self.step_spec(),
    {
        match self.phase {
            Phase::Connecting => Step::Connect,
            Phase::ReadingState => Step::ReadState,
            Phase::Commanding => Step::Send(self.target),
            Phase::Disconnecting => Step::Disconnect,
            Phase::Idle => Step::Finished,
        }
    }

    /// Takes the report on the step just performed.
    pub fn handle(&mut self, ev: Event)
        ensures
            *final(self) == old(self).next_spec(ev),
    {
        match (self.phase, ev) {
            (Phase::Connecting, Event::Connected) => {
                self.committed = true;
                self.phase = Phase::ReadingState;
            },
            (Phase::Connecting, Event::ConnectFailed) => {
                self.phase = Phase::Disconnecting;
            },
            (Phase::ReadingState, Event::StateRead(s)) => {
                let wanted = match self.target {
                    SwitchState::ON => SwitchState::OFF,
                    SwitchState::OFF => SwitchState::ON,
                };
                if s == Some(wanted) {
                    self.phase = Phase::Commanding;
                } else {
                    self.phase = Phase::Disconnecting;
                }
            },
            (Phase::Commanding, Event::Sent) => {
                self.phase = Phase::Disconnecting;
            },
            (Phase::Commanding, Event::SendFailed) => {
                self.committed = false;
                self.phase = Phase::Disconnecting;
            },
            (Phase::Disconnecting, Event::Disconnected) => {
                self.phase = Phase::Idle;
            },
            _ => {},
        }
    }

    /// Whether the cycle is over.
    pub fn is_finished(&self) -> (r: bool)
        ensures
            r == (self.phase == Phase::Idle),
    {
        self.phase == Phase::Idle
    }

    /// The commanded state to keep once the cycle is over.
    pub fn outcome(&self) -> (r: Option<SwitchState>)
        ensures
            r == self.outcome_spec(),
    {
        if self.committed {
            Some(self.target)
        } else {
            self.before
        }
    }
}

/// How a plug that answers every step without transport errors answers
/// `step`: connecting works when `reachable`, and it reports `reported`.
pub open spec fn plug_answer(step: Step, reachable: bool, reported: Option<SwitchState>) -> Event {
    match step {
        Step::Connect => if reachable {
            Event::Connected
        } else {
            Event::ConnectFailed
        },
        Step::ReadState => Event::StateRead(reported),
        Step::Send(_) => Event::Sent,
        _ => Event::Disconnected,
    }
}

/// Runs `c` for at most `n` steps against such a plug: the cycle reached,
/// and how many command frames were written on the way.
pub open spec fn run(c: ActionCycle, reachable: bool, reported: Option<SwitchState>, n: nat) -> (
    ActionCycle,
    nat,
)
    decreases n,
{
    if n == 0 || c.phase == Phase::Idle {
        (c, 0)
    } else {
        let ev = plug_answer(c.step_spec(), reachable, reported);
        let here: nat = if c.phase == Phase::Commanding {
            1
        } else {
            0
        };
        let rest = run(c.next_spec(ev), reachable, reported, (n - 1) as nat);
        (rest.0, rest.1 + here)
    }
}

/// A cycle ends only out of a disconnect: no path leaves a connection open.
pub proof fn lemma_idle_only_after_disconnect(c: ActionCycle, ev: Event)
    requires
        c.phase != Phase::Idle,
        c.next_spec(ev).phase == Phase::Idle,
    ensures
        c.phase == Phase::Disconnecting,
        ev == Event::Disconnected,
{
}

/// A fresh cycle ends within five steps. It writes one frame exactly when the plug was reached and
/// reported the opposite state, and none otherwise; the commanded state
/// becomes the target when the plug was reached, and stays as it was
/// when it was not.
pub proof fn lemma_cycle_outcome(
    target: SwitchState,
    before: Option<SwitchState>,
    reachable: bool,
    reported: Option<SwitchState>,
)
    ensures
        ({
            let c = ActionCycle { target, before, committed: false, phase: Phase::Connecting };
            let (d, writes) = run(c, reachable, reported, 5);
            &&& d.phase == Phase::Idle
            &&& writes == (if reachable && reported == Some(opposite(target)) {
                1nat
            } else {
                0nat
            })
            &&& d.outcome_spec() == (if reachable {
                Some(target)
            } else {
                before
            })
        }),
{
    reveal_with_fuel(run, 6);
}

} // verus!
