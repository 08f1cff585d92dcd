use mav_session::session::{
    keepalive_delay_ms, should_stop, Action, Controller, Event, Latest, Phase,
};
use mav_session::telemetry::{AttitudeWire, Inbound, Kind, PositionWire};

fn handshake(c: &mut Controller) -> Vec<Action> {
    vec![
        c.step(Event::Connected),
        c.step(Event::Sent),
        c.step(Event::Sent),
        c.step(Event::Sent),
    ]
}

fn disarms(acts: &[Action]) -> usize {
    acts.iter().filter(|a| **a == Action::SendDisarm).count()
}

#[test]
fn handshake_sequence() {
    let mut c = Controller::new(2500);
    let acts = handshake(&mut c);
    assert_eq!(
        acts,
        vec![
            Action::SendParamRequest,
            Action::SendStreamRequest,
            Action::StartKeepaliveThenArm,
            Action::CheckStop
        ]
    );
    assert_eq!(c.phase, Phase::Running);
}

#[test]
fn stop_signal_exits_within_one_iteration() {
    let mut c = Controller::new(2500);
    let mut acts = handshake(&mut c);
    acts.push(c.step(Event::Tick { elapsed_ms: 100, stop_flag: false }));
    acts.push(c.step(Event::Received(Kind::Attitude)));
    acts.push(c.step(Event::Tick { elapsed_ms: 300, stop_flag: true }));
    assert_eq!(*acts.last().unwrap(), Action::SendDisarm);
    assert_eq!(c.phase, Phase::Disarming);
    acts.push(c.step(Event::Sent));
    acts.push(c.step(Event::Tick { elapsed_ms: 400, stop_flag: true }));
    assert_eq!(c.phase, Phase::Closed);
    assert_eq!(disarms(&acts), 1);
}

#[test]
fn zero_budget_still_disarms_once() {
    let mut c = Controller::new(0);
    let mut acts = handshake(&mut c);
    acts.push(c.step(Event::Tick { elapsed_ms: 0, stop_flag: false }));
    assert_eq!(*acts.last().unwrap(), Action::SendDisarm);
    assert_eq!(c.step(Event::SendFailed), Action::Exit { disarmed: false });
    assert_eq!(disarms(&acts), 1);
    assert_eq!(c.disarms, 1);
}

#[test]
fn transport_failure_disarms() {
    let mut c = Controller::new(2500);
    handshake(&mut c);
    assert_eq!(c.step(Event::Tick { elapsed_ms: 1, stop_flag: false }), Action::Receive);
    assert_eq!(c.step(Event::NothingAvailable), Action::Backoff(10));
    assert_eq!(c.step(Event::Tick { elapsed_ms: 12, stop_flag: false }), Action::Receive);
    assert_eq!(c.step(Event::TransportFailed), Action::SendDisarm);
    assert_eq!(c.step(Event::Sent), Action::Exit { disarmed: true });
}

#[test]
fn handshake_failure_aborts_without_disarm() {
    let mut c = Controller::new(2500);
    assert_eq!(c.step(Event::Connected), Action::SendParamRequest);
    assert_eq!(c.step(Event::SendFailed), Action::Abort);
    assert_eq!(c.phase, Phase::Closed);
    assert_eq!(c.step(Event::Tick { elapsed_ms: 0, stop_flag: true }), Action::Ignore);
    assert_eq!(c.disarms, 0);
}

#[test]
fn dispatch_by_kind() {
    let mut c = Controller::new(2500);
    handshake(&mut c);
    assert_eq!(c.step(Event::Received(Kind::Position)), Action::Dispatch(Kind::Position));
    assert_eq!(c.step(Event::Received(Kind::Ignored)), Action::Dispatch(Kind::Ignored));
}

#[test]
fn stop_predicate() {
    assert!(should_stop(2500, 2500, false));
    assert!(!should_stop(2499, 2500, false));
    assert!(should_stop(0, 2500, true));
    assert!(should_stop(0, 0, false));
}

#[test]
fn keepalive_cadence() {
    assert_eq!(keepalive_delay_ms(true), 1000);
    assert_eq!(keepalive_delay_ms(false), 0);
}

#[test]
fn latest_keeps_newest_per_kind() {
    let a1 = AttitudeWire { time_boot_ms: 1, roll: 0, pitch: 0, yaw: 0, rollspeed: 0, pitchspeed: 0, yawspeed: 0 };
    let a2 = AttitudeWire { time_boot_ms: 2, ..a1 };
    let p = PositionWire { time_boot_ms: 3, lat: 1, lon: 2, alt: 0, relative_alt: 0, vx: 0, vy: 0, vz: 0, hdg: 0 };
    let mut l = Latest::new();
    l.record(&Inbound::Attitude(a1));
    l.record(&Inbound::Position(p));
    l.record(&Inbound::Attitude(a2));
    l.record(&Inbound::Other(0));
    assert_eq!(l.attitude, Some(a2));
    assert_eq!(l.position, Some(p));
}

#[test]
fn decode_failure_disarms() {
    let mut c = Controller::new(2500);
    handshake(&mut c);
    assert_eq!(c.step(Event::Received(Kind::Attitude)), Action::Dispatch(Kind::Attitude));
    assert_eq!(c.step(Event::DecodeFailed), Action::SendDisarm);
    assert_eq!(c.phase, Phase::Disarming);
    assert_eq!(c.disarms, 1);
}
