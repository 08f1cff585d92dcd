use vstd::prelude::*;

verus! {

/// Vehicle type announced in the keepalive: a quadrotor.
pub const MAV_TYPE_QUADROTOR: u8 = 2;

/// Autopilot type announced in the keepalive: ArduPilot.
pub const MAV_AUTOPILOT_ARDUPILOTMEGA: u8 = 3;

/// System status announced in the keepalive: standby.
pub const MAV_STATE_STANDBY: u8 = 3;

/// Protocol version byte carried by the keepalive.
pub const KEEPALIVE_PROTOCOL_VERSION: u8 = 3;

/// Command number of the arm/disarm command.
pub const MAV_CMD_COMPONENT_ARM_DISARM: u16 = 400;

/// Second parameter of the arm/disarm command that overrides safety checks.
pub const FORCE_OVERRIDE: u16 = 21196;

/// Scale from a normalized axis input to the wire's fixed-point range.
pub const AXIS_SCALE: i32 = 1000;

/// The keepalive announcement.
#[derive(Clone, Copy, Debug, PartialEq, Eq, Structural)]
pub struct Heartbeat {
    pub custom_mode: u32,
    pub mavtype: u8,
    pub autopilot: u8,
    pub base_mode: u8,
    pub system_status: u8,
    pub mavlink_version: u8,
}

/// A request for the full onboard parameter list.
#[derive(Clone, Copy, Debug, PartialEq, Eq, Structural)]
pub struct ParamRequestList {
    pub target_system: u8,
    pub target_component: u8,
}

/// A request that the remote end start or stop a telemetry stream.
#[derive(Clone, Copy, Debug, PartialEq, Eq, Structural)]
pub struct RequestDataStream {
    pub target_system: u8,
    pub target_component: u8,
    pub req_stream_id: u8,
    pub req_message_rate: u16,
    pub start_stop: u8,
}

/// The arm/disarm command. `param1` is the arm flag (1 arms, 0 disarms) and
/// `param2` is zero or `FORCE_OVERRIDE`; the other parameters are zero.
#[derive(Clone, Copy, Debug, PartialEq, Eq, Structural)]
pub struct ArmDisarm {
    pub command: u16,
    pub target_system: u8,
    pub target_component: u8,
    pub confirmation: u8,
    pub param1: u16,
    pub param2: u16,
}

/// A manual control setpoint, axes in the wire's fixed-point range.
#[derive(Clone, Copy, Debug, PartialEq, Eq, Structural)]
pub struct ManualControl {
    pub x: i16,
    pub y: i16,
    pub z: i16,
    pub r: i16,
    pub buttons: u16,
    pub target: u8,
}

/// `v` held to the range of an `i16`.
pub open spec fn saturate_i16(v: int) -> int {
    if v > 32767 {
        32767
    } else if v < -32768 {
        -32768
    } else {
        v
    }
}

/// Maps an axis value, already scaled to thousandths, to the wire, saturating
/// at the ends of the `i16` range.
pub fn axis_to_wire(v: i32) -> (r: i16)
    ensures
        r as int == saturate_i16(v as int),
{
    if v > 32767 {
        32767
    } else if v < -32768 {
        -32768
    } else {
        v as i16
    }
}

/// The keepalive: a quadrotor on an ArduPilot autopilot, in standby, with no
/// mode flags set.
pub fn heartbeat_message() -> (r: Heartbeat)
    ensures
        r == (Heartbeat {
            custom_mode: 0,
            mavtype: MAV_TYPE_QUADROTOR,
            autopilot: MAV_AUTOPILOT_ARDUPILOTMEGA,
            base_mode: 0,
            system_status: MAV_STATE_STANDBY,
            mavlink_version: KEEPALIVE_PROTOCOL_VERSION,
        }),
{
    Heartbeat {
        custom_mode: 0,
        mavtype: MAV_TYPE_QUADROTOR,
        autopilot: MAV_AUTOPILOT_ARDUPILOTMEGA,
        base_mode: 0,
        system_status: MAV_STATE_STANDBY,
        mavlink_version: KEEPALIVE_PROTOCOL_VERSION,
    }
}

/// A parameter-list request addressed to the given system and component.
pub fn request_parameters_for(target_system: u8, target_component: u8) -> (r: ParamRequestList)
    ensures
        r.target_system == target_system,
        r.target_component == target_component,
{
    ParamRequestList { target_system, target_component }
}

/// A parameter-list request addressed to every system and component.
pub fn request_parameters() -> (r: ParamRequestList)
    ensures
        r == (ParamRequestList { target_system: 0, target_component: 0 }),
{
    request_parameters_for(0, 0)
}

/// A request that stream `stream_id` be sent at `rate_hz`, or stopped.
pub fn request_telemetry_stream(
    target_system: u8,
    target_component: u8,
    stream_id: u8,
    rate_hz: u16,
    enable: bool,
) -> (r: RequestDataStream)
    ensures
        r == (RequestDataStream {
            target_system,
            target_component,
            req_stream_id: stream_id,
            req_message_rate: rate_hz,
            start_stop: if enable { 1u8 } else { 0u8 },
        }),
{
    RequestDataStream {
        target_system,
        target_component,
        req_stream_id: stream_id,
        req_message_rate: rate_hz,
        start_stop: if enable {
            1
        } else {
            0
        },
    }
}

/// A request that all streams be sent at 10 Hz by every system and component.
pub fn request_stream() -> (r: RequestDataStream)
    ensures
        r == (RequestDataStream {
            target_system: 0,
            target_component: 0,
            req_stream_id: 0,
            req_message_rate: 10,
            start_stop: 1,
        }),
{
    request_telemetry_stream(0, 0, 0, 10, true)
}

/// The arm/disarm command that `arm` and `disarm` build.
pub open spec fn arm_disarm_spec(target_system: u8, target_component: u8, arm: bool) -> ArmDisarm {
    ArmDisarm {
        command: MAV_CMD_COMPONENT_ARM_DISARM,
        target_system,
        target_component,
        confirmation: 0,
        param1: if arm { 1 } else { 0 },
        param2: if arm { 0 } else { FORCE_OVERRIDE },
    }
}

/// Arms the target, respecting its safety interlocks.
pub fn arm(target_system: u8, target_component: u8) -> (r: ArmDisarm)
    ensures
        r == arm_disarm_spec(target_system, target_component, true),
{
    ArmDisarm {
        command: MAV_CMD_COMPONENT_ARM_DISARM,
        target_system,
        target_component,
        confirmation: 0,
        param1: 1,
        param2: 0,
    }
}

/// Disarms the target unconditionally, overriding its safety checks.
pub fn disarm(target_system: u8, target_component: u8) -> (r: ArmDisarm)
    ensures
        r == arm_disarm_spec(target_system, target_component, false),
{
    ArmDisarm {
        command: MAV_CMD_COMPONENT_ARM_DISARM,
        target_system,
        target_component,
        confirmation: 0,
        param1: 0,
        param2: FORCE_OVERRIDE,
    }
}

/// Arms every system and component.
pub fn system_arm() -> (r: ArmDisarm)
    ensures
        r == arm_disarm_spec(0, 0, true),
{
    arm(0, 0)
}

/// Disarms every system and component.
pub fn system_disarm() -> (r: ArmDisarm)
    ensures
        r == arm_disarm_spec(0, 0, false),
{
    disarm(0, 0)
}

/// A manual control setpoint. The axes are the normalized inputs times
/// `AXIS_SCALE`, truncated toward zero by the caller; nothing is clamped to
/// the nominal range, only to what an `i16` holds.
pub fn manual_control(x: i32, y: i32, z: i32, r: i32, buttons: u16, target: u8) -> (m:
    ManualControl)
    ensures
        m.x as int == saturate_i16(x as int),
        m.y as int == saturate_i16(y as int),
        m.z as int == saturate_i16(z as int),
        m.r as int == saturate_i16(r as int),
        m.buttons == buttons,
        m.target == target,
{
    ManualControl {
        x: axis_to_wire(x),
        y: axis_to_wire(y),
        z: axis_to_wire(z),
        r: axis_to_wire(r),
        buttons,
        target,
    }
}

} // verus!
