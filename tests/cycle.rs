use templug::control::{Action, Reading, Thresholds};
use templug::cycle::{ActionCycle, Event, Step};
use templug::protocol::SwitchState;
use templug::runloop::Controller;

fn start(action: Action, commanded: Option<SwitchState>) -> ActionCycle {
    ActionCycle::begin(action, commanded).unwrap()
}

#[test]
fn noop_needs_no_cycle() {
    assert_eq!(ActionCycle::begin(Action::NoOp, None), None);
}

#[test]
fn cycle_writes_when_plug_is_opposite() {
    let mut c = start(Action::TurnOn, None);
    assert_eq!(c.step(), Step::Connect);
    c.handle(Event::Connected);
    assert_eq!(c.step(), Step::ReadState);
    c.handle(Event::StateRead(Some(SwitchState::OFF)));
    assert_eq!(c.step(), Step::Send(SwitchState::ON));
    c.handle(Event::Sent);
    assert_eq!(c.step(), Step::Disconnect);
    c.handle(Event::Disconnected);
    assert_eq!(c.step(), Step::Finished);
    assert!(c.is_finished());
    assert_eq!(c.outcome(), Some(SwitchState::ON));
}

#[test]
fn cycle_skips_write_when_plug_already_there() {
    let mut c = start(Action::TurnOff, Some(SwitchState::ON));
    c.handle(Event::Connected);
    c.handle(Event::StateRead(Some(SwitchState::OFF)));
    assert_eq!(c.step(), Step::Disconnect);
    c.handle(Event::Disconnected);
    assert_eq!(c.outcome(), Some(SwitchState::OFF));
}

#[test]
fn cycle_unknown_state_writes_nothing_but_commits() {
    let mut c = start(Action::TurnOn, Some(SwitchState::OFF));
    c.handle(Event::Connected);
    c.handle(Event::StateRead(None));
    assert_eq!(c.step(), Step::Disconnect);
    c.handle(Event::Disconnected);
    assert_eq!(c.outcome(), Some(SwitchState::ON));
}

#[test]
fn connect_failure_keeps_commanded_and_disconnects() {
    let th = Thresholds::new(180, 240).unwrap();
    let mut ctl = Controller::new(th);
    let r = Reading { temperature: 170, humidity: 400 };
    let plan = ctl.tick(Some(r), false);
    assert_eq!(plan.action, Action::TurnOn);
    let mut c = ctl.begin_cycle(plan.action).unwrap();
    c.handle(Event::ConnectFailed);
    assert_eq!(c.step(), Step::Disconnect);
    c.handle(Event::Disconnected);
    assert!(c.is_finished());
    ctl.finish_cycle(&c);
    assert_eq!(ctl.commanded, None);
    assert_eq!(ctl.tick(Some(r), false), plan);
}

#[test]
fn write_failure_keeps_commanded() {
    let mut c = start(Action::TurnOff, Some(SwitchState::ON));
    c.handle(Event::Connected);
    c.handle(Event::StateRead(Some(SwitchState::ON)));
    c.handle(Event::SendFailed);
    assert_eq!(c.step(), Step::Disconnect);
    c.handle(Event::Disconnected);
    assert_eq!(c.outcome(), Some(SwitchState::ON));
}

#[test]
fn unexpected_event_is_ignored() {
    let mut c = start(Action::TurnOn, None);
    let before = c;
    c.handle(Event::Sent);
    c.handle(Event::Disconnected);
    c.handle(Event::StateRead(Some(SwitchState::OFF)));
    assert_eq!(c, before);
    assert_eq!(c.step(), Step::Connect);
}

fn drive(c: &mut ActionCycle, reported: Option<SwitchState>) -> u32 {
    let mut writes = 0;
    loop {
        let ev = match c.step() {
            Step::Connect => Event::Connected,
            Step::ReadState => Event::StateRead(reported),
            Step::Send(_) => {
                writes += 1;
                Event::Sent
            }
            Step::Disconnect => Event::Disconnected,
            Step::Finished => return writes,
        };
        c.handle(ev);
    }
}

#[test]
fn turn_on_twice_writes_once() {
    let th = Thresholds::new(180, 240).unwrap();
    let mut ctl = Controller::new(th);
    let r = Reading { temperature: 170, humidity: 400 };
    let plan = ctl.tick(Some(r), false);
    let mut c = ctl.begin_cycle(plan.action).unwrap();
    let mut writes = drive(&mut c, Some(SwitchState::OFF));
    ctl.finish_cycle(&c);
    assert_eq!(ctl.commanded, Some(SwitchState::ON));
    assert_eq!(ctl.tick(Some(r), false).action, Action::NoOp);
    let mut again = ActionCycle::begin(Action::TurnOn, ctl.commanded).unwrap();
    writes += drive(&mut again, Some(SwitchState::ON));
    assert_eq!(writes, 1);
}

#[test]
fn scenario_cold_plug_off_sends_on() {
    let th = Thresholds::new(180, 240).unwrap();
    let mut ctl = Controller::new(th);
    let plan = ctl.tick(Some(Reading { temperature: 170, humidity: 0 }), false);
    assert_eq!(plan.action, Action::TurnOn);
    let mut c = ctl.begin_cycle(plan.action).unwrap();
    c.handle(Event::Connected);
    c.handle(Event::StateRead(Some(SwitchState::OFF)));
    assert_eq!(c.step(), Step::Send(SwitchState::ON));
    c.handle(Event::Sent);
    c.handle(Event::Disconnected);
    ctl.finish_cycle(&c);
    assert_eq!(ctl.commanded, Some(SwitchState::ON));
}

#[test]
fn scenario_already_on_no_cycle() {
    let th = Thresholds::new(180, 240).unwrap();
    let ctl = Controller { thresholds: th, commanded: Some(SwitchState::ON) };
    let plan = ctl.tick(Some(Reading { temperature: 175, humidity: 0 }), false);
    assert_eq!(plan.action, Action::NoOp);
    assert_eq!(ctl.begin_cycle(plan.action), None);
}
