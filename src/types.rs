use vstd::prelude::*;

use crate::error::FieldError;

verus! {

/// Largest field weakening, in percent.
pub const MAX_FIELD_WEAKENING: u8 = 0x64;

/// Largest hall interpolation level.
pub const MAX_HALL_INTERPOLATION: u8 = 0x19;

/// The bike's raw field weakening scale is 40.96 units per percent,
/// that is `FIELD_WEAKENING_RAW_SCALE / FIELD_WEAKENING_PERCENT_SCALE`.
pub const FIELD_WEAKENING_RAW_SCALE: u32 = 4096;

pub const FIELD_WEAKENING_PERCENT_SCALE: u32 = 100;

/// Raw value sent to the bike for a percentage: `round(percent * 40.96)`.
/// No percentage lies halfway between two raw values, so no tie arises.
pub open spec fn raw_from_percent(percent: int) -> int {
    (percent * 4096 + 50) / 100
}

/// Percentage for a raw value read from the bike: `ceil(raw / 40.96)`.
pub open spec fn percent_from_raw(raw: int) -> int {
    (raw * 100 + 4095) / 4096
}

/// Field weakening of the motor, in percent (0 to 100).
#[derive(Clone, Copy, Debug)]
pub struct FieldWeakening {
    weakening: u8,
}

/// Hall interpolation configuration.
///
/// This adjust how **quickly** the motor is giving boost
/// when you just start pedalling.
#[derive(Clone, Copy, Debug)]
pub struct HallInterpolation {
    interpolation: u8,
}

/// A speed and its unit.
#[derive(Clone, Copy, Debug)]
pub struct Speed {
    pub value: u8,
    pub unit: SpeedUnit,
}

#[non_exhaustive]
#[derive(Clone, Copy, Debug)]
pub enum SpeedUnit {
    Kmh,
}

/// Torque gain configuration.
#[derive(Clone, Copy, Debug)]
pub struct TorqueGain {
    pub gain: u8,
    pub unit: TorqueGainUnit,
}

/// Torque gain unit.
#[non_exhaustive]
#[derive(Clone, Copy, Debug)]
pub enum TorqueGainUnit {
    /// Newton meters
    Nm,
}

/// Torque mode configuration.
#[derive(Clone, Copy, Debug)]
pub struct TorqueMode {
    /// Should there be a speed limit?
    ///
    /// You should set this to `false` if you want to go faster than the
    /// the maximum default assisted speed.
    pub speed_limit: bool,
}

impl FieldWeakening {
    #[verifier::type_invariant]
    spec fn in_range(self) -> bool {
        self.weakening <= MAX_FIELD_WEAKENING
    }

    /// The stored percentage.
    pub closed spec fn percent(self) -> u8 {
        self.weakening
    }

    /// Set the field weakening value in percentage.
    ///
    /// The value must be between 0 and 100.
    pub fn new(weakening: u8) -> (r: Result<Self, FieldError>)
        ensures
            weakening <= 100 ==> r is Ok && r->Ok_0.percent() == weakening,
            weakening > 100 ==> r == Err::<Self, FieldError>(
                FieldError::InvalidRange { start: 0, end: 100 },
            ),
    {
        if weakening > MAX_FIELD_WEAKENING {
            return Err(FieldError::InvalidRange { start: 0, end: MAX_FIELD_WEAKENING });
        }
        Ok(Self { weakening })
    }

    /// Set the field weakening from the raw weakening value read from the
    /// bike (`ceil(raw / 40.96)`). The bike reports at most 4096, its value
    /// for 100%.
    pub fn new_from_bike(weakening: u16) -> (r: Self)
        requires
            weakening <= 4096,
        ensures
            r.percent() == percent_from_raw(weakening as int),
    {
        let raw: u32 = weakening as u32;
        let percent: u32 = (raw * FIELD_WEAKENING_PERCENT_SCALE + (FIELD_WEAKENING_RAW_SCALE - 1))
            / FIELD_WEAKENING_RAW_SCALE;
        assert(percent <= 100) by (nonlinear_arith)
            requires
                raw <= 4096,
                percent == (raw * 100 + 4095) / 4096,
        ;
        Self { weakening: percent as u8 }
    }

    /// Returns the field weakening value in percentage.
    pub fn weakening(&self) -> (r: u8)
        ensures
            r == self.percent(),
            r <= 100,
    {
        proof {
            use_type_invariant(self);
        }
        self.weakening
    }

    /// Returns the raw field weakening value to be sent to the bike
    /// (`round(percent * 40.96)`). Reading it back with `new_from_bike`
    /// rounds up, so the percentage may come back one higher.
    pub fn weakening_for_bike(&self) -> (r: u16)
        ensures
            r == raw_from_percent(self.percent() as int),
            r <= 4096,
    {
        proof {
            use_type_invariant(self);
        }
        let percent: u32 = self.weakening as u32;
        let raw: u32 = (percent * FIELD_WEAKENING_RAW_SCALE + FIELD_WEAKENING_PERCENT_SCALE / 2)
            / FIELD_WEAKENING_PERCENT_SCALE;
        assert(raw <= 4096) by (nonlinear_arith)
            requires
                percent <= 100,
                raw == (percent * 4096 + 50) / 100,
        ;
        raw as u16
    }
}

/// Converting a percentage to the bike's raw scale and back never strays
/// from the percentage by more than one: the read-back value is the
/// percentage or the next one up.
pub proof fn lemma_field_weakening_round_trip(percent: u8)
    requires
        percent <= 100,
    ensures
        -1 <= percent_from_raw(raw_from_percent(percent as int)) - percent <= 1,
        percent <= percent_from_raw(raw_from_percent(percent as int)) <= percent + 1,
{
    let p = percent as int;
    let r = (p * 4096 + 50) / 100;
    assert(r * 100 <= p * 4096 + 50 < r * 100 + 100) by (nonlinear_arith)
        requires
            r == (p * 4096 + 50) / 100,
            0 <= p,
    ;
    let q = (r * 100 + 4095) / 4096;
    assert(p <= q <= p + 1) by (nonlinear_arith)
        requires
            q == (r * 100 + 4095) / 4096,
            r * 100 <= p * 4096 + 50 < r * 100 + 100,
            0 <= r,
            0 <= p,
    ;
}

impl HallInterpolation {
    #[verifier::type_invariant]
    spec fn in_range(self) -> bool {
        self.interpolation <= MAX_HALL_INTERPOLATION
    }

    /// The stored interpolation level.
    pub closed spec fn level(self) -> u8 {
        self.interpolation
    }

    /// Creates a new hall interpolation configuration.
    ///
    /// The interpolation is a value between 0 and 25.
    /// Any error is returned if the value is out of range.
    pub fn new(interpolation: u8) -> (r: Result<Self, FieldError>)
        ensures
            interpolation <= 25 ==> r is Ok && r->Ok_0.level() == interpolation,
            interpolation > 25 ==> r == Err::<Self, FieldError>(
                FieldError::InvalidRange { start: 0, end: 25 },
            ),
    {
        if interpolation > MAX_HALL_INTERPOLATION {
            return Err(FieldError::InvalidRange { start: 0, end: MAX_HALL_INTERPOLATION });
        }
        Ok(Self { interpolation })
    }

    /// Returns the hall interpolation value.
    pub fn interpolation(&self) -> (r: u8)
        ensures
            r == self.level(),
            r <= 25,
    {
        proof {
            use_type_invariant(self);
        }
        self.interpolation
    }
}

impl Default for FieldWeakening {
    fn default() -> (r: Self)
        ensures
            r.percent() == 0,
    {
        Self { weakening: 0 }
    }
}

impl Default for HallInterpolation {
    fn default() -> (r: Self)
        ensures
            r.level() == 0,
    {
        Self { interpolation: 0 }
    }
}

impl Default for SpeedUnit {
    fn default() -> (r: Self)
        ensures
            r == SpeedUnit::Kmh,
    {
        SpeedUnit::Kmh
    }
}

impl Default for Speed {
    /// 25 km/h.
    fn default() -> (r: Self)
        ensures
            r == (Speed { value: 0x19, unit: SpeedUnit::Kmh }),
    {
        Self { value: 0x19, unit: SpeedUnit::Kmh }
    }
}

impl Default for TorqueGainUnit {
    fn default() -> (r: Self)
        ensures
            r == TorqueGainUnit::Nm,
    {
        TorqueGainUnit::Nm
    }
}

impl Default for TorqueGain {
    fn default() -> (r: Self)
        ensures
            r == (TorqueGain { gain: 0, unit: TorqueGainUnit::Nm }),
    {
        Self { gain: 0, unit: TorqueGainUnit::Nm }
    }
}

impl Default for TorqueMode {
    fn default() -> (r: Self)
        ensures
            r == (TorqueMode { speed_limit: false }),
    {
        Self { speed_limit: false }
    }
}

} // verus!
