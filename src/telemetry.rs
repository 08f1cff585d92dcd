use vstd::prelude::*;

verus! {

/// Wire sample of an attitude message. Angles and rates are IEEE-754 single
/// precision bit patterns, in radians and radians per second.
#[derive(Clone, Copy, Debug, PartialEq, Eq, Structural)]
pub struct AttitudeWire {
    pub time_boot_ms: u32,
    pub roll: u32,
    pub pitch: u32,
    pub yaw: u32,
    pub rollspeed: u32,
    pub pitchspeed: u32,
    pub yawspeed: u32,
}

/// Wire sample of a global position message: latitude and longitude in
/// degrees times 10^7, altitudes in millimetres, velocities in cm/s, heading
/// in hundredths of a degree.
#[derive(Clone, Copy, Debug, PartialEq, Eq, Structural)]
pub struct PositionWire {
    pub time_boot_ms: u32,
    pub lat: i32,
    pub lon: i32,
    pub alt: i32,
    pub relative_alt: i32,
    pub vx: i16,
    pub vy: i16,
    pub vz: i16,
    pub hdg: u16,
}

/// One inbound message, classified by kind. Kinds the session does not
/// consume keep only their message id.
#[derive(Clone, Copy, Debug, PartialEq, Eq, Structural)]
pub enum Inbound {
    Attitude(AttitudeWire),
    Position(PositionWire),
    Other(u32),
}

/// The kinds of inbound message the session tells apart.
#[derive(Clone, Copy, Debug, PartialEq, Eq, Structural)]
pub enum Kind {
    Attitude,
    Position,
    Ignored,
}

/// Message id of the attitude message.
pub const ATTITUDE_ID: u32 = 30;

/// Message id of the global position message.
pub const POSITION_ID: u32 = 33;

/// Why a decoder refused a message.
#[derive(Clone, Copy, Debug, PartialEq, Eq, Structural)]
pub enum DecodeError {
    NotAttitudeKind,
    NotPositionKind,
}

pub open spec fn kind_spec(m: Inbound) -> Kind {
    match m {
        Inbound::Attitude(_) => Kind::Attitude,
        Inbound::Position(_) => Kind::Position,
        Inbound::Other(_) => Kind::Ignored,
    }
}

pub open spec fn message_id_spec(m: Inbound) -> u32 {
    match m {
        Inbound::Attitude(_) => ATTITUDE_ID,
        Inbound::Position(_) => POSITION_ID,
        Inbound::Other(id) => id,
    }
}

impl Inbound {
    /// The kind tag of this message.
    pub fn kind(&self) -> (r: Kind)
        ensures
            r == kind_spec(*self),
    {
        match self {
            Inbound::Attitude(_) => Kind::Attitude,
            Inbound::Position(_) => Kind::Position,
            Inbound::Other(_) => Kind::Ignored,
        }
    }

    /// The protocol's message id of this message.
    pub fn message_id(&self) -> (r: u32)
        ensures
            r == message_id_spec(*self),
    {
        match self {
            Inbound::Attitude(_) => ATTITUDE_ID,
            Inbound::Position(_) => POSITION_ID,
            Inbound::Other(id) => *id,
        }
    }
}

/// A decimal number `±(whole + frac / 10^digits)`, kept exactly.
#[derive(Clone, Copy, Debug, PartialEq, Eq, Structural)]
pub struct Decimal {
    pub negative: bool,
    pub whole: u32,
    pub frac: u32,
    pub digits: u32,
}

pub open spec fn pow10(n: nat) -> int
    decreases n,
{
    if n == 0 {
        1
    } else {
        10 * pow10((n - 1) as nat)
    }
}

impl Decimal {
    /// The number times `10^digits`, as an integer.
    pub open spec fn scaled(self) -> int {
        let m = self.whole * pow10(self.digits as nat) + self.frac;
        if self.negative {
            -m
        } else {
            m
        }
    }

    /// Well formed: the fraction has at most `digits` digits and there is no
    /// negative zero.
    pub open spec fn wf(self) -> bool {
        &&& self.frac < pow10(self.digits as nat)
        &&& (self.negative ==> self.whole > 0 || self.frac > 0)
    }
}

/// `10^digits`, for a scale that fits a `u32`.
fn scale_of(digits: u32) -> (r: u32)
    requires
        digits <= 9,
    ensures
        r as int == pow10(digits as nat),
{
    let mut r: u32 = 1;
    let mut k: u32 = 0;
    while k < digits
        invariant
            k <= digits <= 9,
            r as int == pow10(k as nat),
        decreases digits - k,
    {
        proof {
            lemma_pow10_bound((k + 1) as nat);
            assert(pow10((k + 1) as nat) == 10 * pow10(k as nat));
        }
        r = r * 10;
        k = k + 1;
    }
    r
}

proof fn lemma_pow10_bound(n: nat)
    requires
        n <= 9,
    ensures
        0 < pow10(n) <= 1_000_000_000,
    decreases n,
{
    reveal_with_fuel(pow10, 10);
}

/// The decimal number `v / 10^digits`.
pub fn decimal_from_scaled(v: i32, digits: u32) -> (r: Decimal)
    requires
        digits <= 9,
    ensures
        r.wf(),
        r.digits == digits,
        r.scaled() == v as int,
{
    let scale = scale_of(digits);
    proof {
        lemma_pow10_bound(digits as nat);
    }
    let negative = v < 0;
    let m: u32 = if negative {
        (-(v as i64)) as u32
    } else {
        v as u32
    };
    let whole = m / scale;
    let frac = m % scale;
    proof {
        assert(m as int == whole * scale + frac) by (nonlinear_arith)
            requires
                scale > 0,
                whole == m / scale,
                frac == m % scale,
        ;
        assert(whole == 0 ==> whole * scale == 0);
    }
    Decimal { negative, whole, frac, digits }
}

/// An attitude sample with yaw and yaw rate still in radians; the conversion
/// to degrees is left to the caller, who holds the floating-point values.
#[derive(Clone, Copy, Debug, PartialEq, Eq, Structural)]
pub struct AttitudeSample {
    pub roll: u32,
    pub pitch: u32,
    pub yaw_rad: u32,
    pub rollspeed: u32,
    pub pitchspeed: u32,
    pub yawspeed_rad: u32,
}

/// A position sample: latitude and longitude in decimal degrees, heading in
/// decimal degrees, horizontal velocities as on the wire.
#[derive(Clone, Copy, Debug, PartialEq, Eq, Structural)]
pub struct Position {
    pub lat: Decimal,
    pub lon: Decimal,
    pub vx: i16,
    pub vy: i16,
    pub hdg: Decimal,
}

/// The attitude sample that an attitude wire sample decodes to.
pub open spec fn attitude_of(w: AttitudeWire) -> AttitudeSample {
    AttitudeSample {
        roll: w.roll,
        pitch: w.pitch,
        yaw_rad: w.yaw,
        rollspeed: w.rollspeed,
        pitchspeed: w.pitchspeed,
        yawspeed_rad: w.yawspeed,
    }
}

/// Decodes an attitude message; any other kind is refused.
pub fn decode_attitude(msg: &Inbound) -> (r: Result<AttitudeSample, DecodeError>)
    ensures
        match *msg {
            Inbound::Attitude(w) => r == Ok::<AttitudeSample, DecodeError>(attitude_of(w)),
            _ => r == Err::<AttitudeSample, DecodeError>(DecodeError::NotAttitudeKind),
        },
{
    match msg {
        Inbound::Attitude(w) => Ok(
            AttitudeSample {
                roll: w.roll,
                pitch: w.pitch,
                yaw_rad: w.yaw,
                rollspeed: w.rollspeed,
                pitchspeed: w.pitchspeed,
                yawspeed_rad: w.yawspeed,
            },
        ),
        _ => Err(DecodeError::NotAttitudeKind),
    }
}

/// A position record whose fields equal the wire sample's after scaling:
/// latitude and longitude divided by 10^7, heading by 100, velocities kept.
pub open spec fn position_matches(p: Position, w: PositionWire) -> bool {
    &&& p.lat.wf() && p.lat.digits == 7 && p.lat.scaled() == w.lat as int
    &&& p.lon.wf() && p.lon.digits == 7 && p.lon.scaled() == w.lon as int
    &&& p.hdg.wf() && p.hdg.digits == 2 && p.hdg.scaled() == w.hdg as int
    &&& p.vx == w.vx
    &&& p.vy == w.vy
}

/// Decodes a global position message; any other kind is refused.
pub fn decode_position(msg: &Inbound) -> (r: Result<Position, DecodeError>)
    ensures
        match *msg {
            Inbound::Position(w) => r is Ok && position_matches(r->Ok_0, w),
            _ => r == Err::<Position, DecodeError>(DecodeError::NotPositionKind),
        },
{
    match msg {
        Inbound::Position(w) => Ok(
            Position {
                lat: decimal_from_scaled(w.lat, 7),
                lon: decimal_from_scaled(w.lon, 7),
                vx: w.vx,
                vy: w.vy,
                hdg: decimal_from_scaled(w.hdg as i32, 2),
            },
        ),
        _ => Err(DecodeError::NotPositionKind),
    }
}

} // verus!
