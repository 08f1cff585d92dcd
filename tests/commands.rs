use mav_session::commands::{
    arm, disarm, heartbeat_message, manual_control, request_parameters, request_parameters_for,
    request_stream, request_telemetry_stream, system_arm, system_disarm, ArmDisarm, Heartbeat,
    ManualControl, RequestDataStream, FORCE_OVERRIDE, MAV_CMD_COMPONENT_ARM_DISARM,
};
use mavlink::common::{
    MavAutopilot, MavCmd, MavMessage, MavModeFlag, MavState, MavType, COMMAND_LONG_DATA,
    HEARTBEAT_DATA, MANUAL_CONTROL_DATA, REQUEST_DATA_STREAM_DATA,
};
use mavlink::{Message, MavlinkVersion};

fn axis(v: f32) -> i32 {
    (v * 1000.0) as i32
}

#[test]
fn manual_control_scales_unit_axes() {
    let m = manual_control(axis(1.0), axis(-1.0), axis(0.5), axis(0.0), 0, 0);
    assert_eq!((m.x, m.y, m.z, m.r), (1000, -1000, 500, 0));
    assert_eq!(m.buttons, 0);
    assert_eq!(m.target, 0);
}

#[test]
fn manual_control_saturates_outside_i16() {
    let m = manual_control(40000, -40000, 32767, -32768, 7, 2);
    assert_eq!((m.x, m.y, m.z, m.r), (32767, -32768, 32767, -32768));
    assert_eq!((m.buttons, m.target), (7, 2));
}

#[test]
fn manual_control_does_not_clamp_to_nominal_range() {
    let m = manual_control(axis(2.0), 0, 0, 0, 0, 0);
    assert_eq!(m.x, 2000);
}

#[test]
fn heartbeat_is_standby_quadrotor() {
    let h = heartbeat_message();
    assert_eq!(h.custom_mode, 0);
    assert_eq!(h.mavtype, 2);
    assert_eq!(h.autopilot, 3);
    assert_eq!(h.base_mode, 0);
    assert_eq!(h.system_status, 3);
    assert_eq!(h.mavlink_version, 3);
}

#[test]
fn requests_carry_targets() {
    let p = request_parameters_for(1, 190);
    assert_eq!((p.target_system, p.target_component), (1, 190));
    let p0 = request_parameters();
    assert_eq!((p0.target_system, p0.target_component), (0, 0));
    let s = request_telemetry_stream(1, 1, 6, 4, false);
    assert_eq!(
        s,
        RequestDataStream {
            target_system: 1,
            target_component: 1,
            req_stream_id: 6,
            req_message_rate: 4,
            start_stop: 0
        }
    );
    let d = request_stream();
    assert_eq!((d.req_message_rate, d.start_stop, d.req_stream_id), (10, 1, 0));
}

#[test]
fn arm_respects_safety_and_disarm_overrides() {
    let a = arm(1, 1);
    assert_eq!(a.command, MAV_CMD_COMPONENT_ARM_DISARM);
    assert_eq!((a.param1, a.param2), (1, 0));
    let d = disarm(1, 1);
    assert_eq!(d.command, MAV_CMD_COMPONENT_ARM_DISARM);
    assert_eq!((d.param1, d.param2), (0, FORCE_OVERRIDE));
    assert_eq!(system_arm(), arm(0, 0));
    assert_eq!(system_disarm(), disarm(0, 0));
}

fn heartbeat_to_wire(h: &Heartbeat) -> MavMessage {
    assert_eq!(h.mavtype, MavType::MAV_TYPE_QUADROTOR as u8);
    assert_eq!(h.autopilot, MavAutopilot::MAV_AUTOPILOT_ARDUPILOTMEGA as u8);
    assert_eq!(h.system_status, MavState::MAV_STATE_STANDBY as u8);
    MavMessage::HEARTBEAT(HEARTBEAT_DATA {
        custom_mode: h.custom_mode,
        mavtype: MavType::MAV_TYPE_QUADROTOR,
        autopilot: MavAutopilot::MAV_AUTOPILOT_ARDUPILOTMEGA,
        base_mode: MavModeFlag::from_bits_truncate(h.base_mode),
        system_status: MavState::MAV_STATE_STANDBY,
        mavlink_version: h.mavlink_version,
    })
}

fn round_trip(m: &MavMessage) -> MavMessage {
    MavMessage::parse(MavlinkVersion::V2, m.message_id(), &m.ser()).unwrap()
}

#[test]
fn heartbeat_round_trips_through_codec() {
    let h = heartbeat_message();
    match round_trip(&heartbeat_to_wire(&h)) {
        MavMessage::HEARTBEAT(d) => {
            let back = Heartbeat {
                custom_mode: d.custom_mode,
                mavtype: d.mavtype as u8,
                autopilot: d.autopilot as u8,
                base_mode: d.base_mode.bits(),
                system_status: d.system_status as u8,
                mavlink_version: d.mavlink_version,
            };
            assert_eq!(back, h);
        }
        other => panic!("unexpected message {:?}", other),
    }
}

#[test]
fn stream_request_round_trips_through_codec() {
    let s = request_telemetry_stream(1, 2, 3, 10, true);
    let wire = MavMessage::REQUEST_DATA_STREAM(REQUEST_DATA_STREAM_DATA {
        target_system: s.target_system,
        target_component: s.target_component,
        req_stream_id: s.req_stream_id,
        req_message_rate: s.req_message_rate,
        start_stop: s.start_stop,
    });
    match round_trip(&wire) {
        MavMessage::REQUEST_DATA_STREAM(d) => {
            let back = RequestDataStream {
                target_system: d.target_system,
                target_component: d.target_component,
                req_stream_id: d.req_stream_id,
                req_message_rate: d.req_message_rate,
                start_stop: d.start_stop,
            };
            assert_eq!(back, s);
        }
        other => panic!("unexpected message {:?}", other),
    }
}

#[test]
fn disarm_round_trips_through_codec() {
    let c = system_disarm();
    let wire = MavMessage::COMMAND_LONG(COMMAND_LONG_DATA {
        param1: c.param1 as f32,
        param2: c.param2 as f32,
        param3: 0.0,
        param4: 0.0,
        param5: 0.0,
        param6: 0.0,
        param7: 0.0,
        command: MavCmd::MAV_CMD_COMPONENT_ARM_DISARM,
        target_system: c.target_system,
        target_component: c.target_component,
        confirmation: c.confirmation,
    });
    match round_trip(&wire) {
        MavMessage::COMMAND_LONG(d) => {
            let back = ArmDisarm {
                command: d.command as u16,
                target_system: d.target_system,
                target_component: d.target_component,
                confirmation: d.confirmation,
                param1: d.param1 as u16,
                param2: d.param2 as u16,
            };
            assert_eq!(back, c);
        }
        other => panic!("unexpected message {:?}", other),
    }
}

#[test]
fn manual_control_round_trips_through_codec() {
    let m = manual_control(axis(1.0), axis(-1.0), axis(0.5), axis(0.0), 3, 1);
    let wire = MavMessage::MANUAL_CONTROL(MANUAL_CONTROL_DATA {
        x: m.x,
        y: m.y,
        z: m.z,
        r: m.r,
        buttons: m.buttons,
        target: m.target,
    });
    match round_trip(&wire) {
        MavMessage::MANUAL_CONTROL(d) => {
            let back = ManualControl {
                x: d.x,
                y: d.y,
                z: d.z,
                r: d.r,
                buttons: d.buttons,
                target: d.target,
            };
            assert_eq!(back, m);
        }
        other => panic!("unexpected message {:?}", other),
    }
}
