use vstd::prelude::*;
use crate::telemetry::{
    decode_attitude, decode_position, AttitudeSample, AttitudeWire, DecodeError, Inbound, Position,
    PositionWire,
};
use mavlink::common::MavMessage;
use mavlink::error::ParserError;
use mavlink::Message;

verus! {

#[verifier::external_type_specification]
#[verifier::external_body]
pub struct ExMavMessage(MavMessage);

#[verifier::external_type_specification]
#[verifier::external_body]
pub struct ExParserError(ParserError);

/// Why a received message could not be turned into a telemetry record.
#[derive(Clone, Copy, Debug, PartialEq, Eq, Structural)]
pub enum WireError {
    /// The codec refused the message's own payload.
    Codec,
    /// The message is of another kind than the one asked for.
    Decode(DecodeError),
}

/// What mavlink's codec gives back for a message written to its payload bytes
/// and read back under protocol version 2.
pub uninterp spec fn reparsed(m: MavMessage) -> Result<MavMessage, ParserError>;

/// The wire fields of an attitude message, or `None` for another message.
pub uninterp spec fn attitude_wire_of(m: MavMessage) -> Option<AttitudeWire>;

/// The wire fields of a global position message, or `None` for another
/// message.
pub uninterp spec fn position_wire_of(m: MavMessage) -> Option<PositionWire>;

/// The protocol id of a message.
pub uninterp spec fn mav_id_of(m: MavMessage) -> u32;

/// Relies on mavlink's `Message::ser` and `Message::parse`: the message is
/// written to its payload bytes and read back, under protocol version 2; the
/// result depends on the message alone.
#[verifier::external_body]
fn reparse(msg: &MavMessage) -> (r: Result<MavMessage, ParserError>)
    ensures
        r == reparsed(*msg),
{
    MavMessage::parse(mavlink::MavlinkVersion::V2, msg.message_id(), &msg.ser())
}

/// Relies on mavlink's generated `MavMessage::ATTITUDE` variant: its fields,
/// floats as their bit patterns, or `None` for any other variant.
#[verifier::external_body]
fn attitude_fields(msg: &MavMessage) -> (r: Option<AttitudeWire>)
    ensures
        r == attitude_wire_of(*msg),
{
    match msg {
        MavMessage::ATTITUDE(d) => Some(AttitudeWire {
            time_boot_ms: d.time_boot_ms,
            roll: d.roll.to_bits(),
            pitch: d.pitch.to_bits(),
            yaw: d.yaw.to_bits(),
            rollspeed: d.rollspeed.to_bits(),
            pitchspeed: d.pitchspeed.to_bits(),
            yawspeed: d.yawspeed.to_bits(),
        }),
        _ => None,
    }
}

/// Relies on mavlink's generated `MavMessage::GLOBAL_POSITION_INT` variant:
/// its fields, or `None` for any other variant.
#[verifier::external_body]
fn position_fields(msg: &MavMessage) -> (r: Option<PositionWire>)
    ensures
        r == position_wire_of(*msg),
{
    match msg {
        MavMessage::GLOBAL_POSITION_INT(d) => Some(PositionWire {
            time_boot_ms: d.time_boot_ms,
            lat: d.lat,
            lon: d.lon,
            alt: d.alt,
            relative_alt: d.relative_alt,
            vx: d.vx,
            vy: d.vy,
            vz: d.vz,
            hdg: d.hdg,
        }),
        _ => None,
    }
}

/// Relies on mavlink's `Message::message_id`: the protocol id of the message.
#[verifier::external_body]
fn message_id_of(msg: &MavMessage) -> (r: u32)
    ensures
        r == mav_id_of(*msg),
{
    msg.message_id()
}

/// The library's view of a message: an attitude or a position sample with its
/// wire fields, or any other message by its id.
pub open spec fn classify_spec(m: MavMessage) -> Inbound {
    match attitude_wire_of(m) {
        Some(w) => Inbound::Attitude(w),
        None => match position_wire_of(m) {
            Some(w) => Inbound::Position(w),
            None => Inbound::Other(mav_id_of(m)),
        },
    }
}

/// A message read back through the codec and classified; a refusal of the
/// codec becomes `Codec`.
pub open spec fn read_spec(m: MavMessage) -> Result<Inbound, WireError> {
    match reparsed(m) {
        Ok(m2) => Ok(classify_spec(m2)),
        Err(_) => Err(WireError::Codec),
    }
}

/// The library's view of a received message: an attitude or a position
/// sample with its wire fields, or any other message by its id.
pub fn classify(msg: &MavMessage) -> (r: Inbound)
    ensures
        r == classify_spec(*msg),
{
    match attitude_fields(msg) {
        Some(w) => Inbound::Attitude(w),
        None => match position_fields(msg) {
            Some(w) => Inbound::Position(w),
            None => Inbound::Other(message_id_of(msg)),
        },
    }
}

/// Reads a received message back through the codec and classifies it.
pub fn read_message(msg: &MavMessage) -> (r: Result<Inbound, WireError>)
    ensures
        r == read_spec(*msg),
{
    match reparse(msg) {
        Ok(m) => Ok(classify(&m)),
        Err(_) => Err(WireError::Codec),
    }
}

/// Decodes an attitude record from `m`, as `decode_attitude` does, with a
/// refusal wrapped as a `WireError`.
pub fn attitude_from(m: Result<Inbound, WireError>) -> (r: Result<AttitudeSample, WireError>)
    ensures
        match m {
            Err(e) => r == Err::<AttitudeSample, WireError>(e),
            Ok(Inbound::Attitude(w)) => r == Ok::<AttitudeSample, WireError>(
                crate::telemetry::attitude_of(w),
            ),
            Ok(_) => r == Err::<AttitudeSample, WireError>(
                WireError::Decode(DecodeError::NotAttitudeKind),
            ),
        },
{
    match m {
        Err(e) => Err(e),
        Ok(i) => match decode_attitude(&i) {
            Ok(a) => Ok(a),
            Err(e) => Err(WireError::Decode(e)),
        },
    }
}

/// Decodes a position record from `m`, as `decode_position` does, with a
/// refusal wrapped as a `WireError`.
pub fn position_from(m: Result<Inbound, WireError>) -> (r: Result<Position, WireError>)
    ensures
        match m {
            Err(e) => r == Err::<Position, WireError>(e),
            Ok(Inbound::Position(w)) => r is Ok && crate::telemetry::position_matches(r->Ok_0, w),
            Ok(_) => r == Err::<Position, WireError>(
                WireError::Decode(DecodeError::NotPositionKind),
            ),
        },
{
    match m {
        Err(e) => Err(e),
        Ok(i) => match decode_position(&i) {
            Ok(p) => Ok(p),
            Err(e) => Err(WireError::Decode(e)),
        },
    }
}

/// Reads `msg` back through the codec and decodes it as an attitude sample.
/// It fails with `Codec` when the codec refuses the payload and with
/// `NotAttitudeKind` on a message of another kind; it never panics.
pub fn parse_attitude_message_30(msg: &MavMessage) -> (r: Result<AttitudeSample, WireError>)
    ensures
        match read_spec(*msg) {
            Err(e) => r == Err::<AttitudeSample, WireError>(e),
            Ok(Inbound::Attitude(w)) => r == Ok::<AttitudeSample, WireError>(
                crate::telemetry::attitude_of(w),
            ),
            Ok(_) => r == Err::<AttitudeSample, WireError>(
                WireError::Decode(DecodeError::NotAttitudeKind),
            ),
        },
{
    attitude_from(read_message(msg))
}

/// Reads `msg` back through the codec and decodes it as a position sample.
/// It fails with `Codec` when the codec refuses the payload and with
/// `NotPositionKind` on a message of another kind; it never panics.
pub fn parse_gps_message_33(msg: &MavMessage) -> (r: Result<Position, WireError>)
    ensures
        match read_spec(*msg) {
            Err(e) => r == Err::<Position, WireError>(e),
            Ok(Inbound::Position(w)) => r is Ok && crate::telemetry::position_matches(r->Ok_0, w),
            Ok(_) => r == Err::<Position, WireError>(
                WireError::Decode(DecodeError::NotPositionKind),
            ),
        },
{
    position_from(read_message(msg))
}

} // verus!
