//! Fixed-point quantities with unit tags.
//!
//! Every quantity in this crate is an integer count of *milli-units* of its
//! tagged unit: a `Distance` of 100 with `DistanceUnit::Kilometers` is 0.1 km.
//! Conversions are exact integer arithmetic with a single truncating division
//! at the end, so contracts can state results exactly.

use vstd::prelude::*;

verus! {

#[derive(Clone, Copy, PartialEq, Eq, Structural, Debug)]
pub enum DistanceUnit {
    Meters,
    Kilometers,
}

#[derive(Clone, Copy, PartialEq, Eq, Structural, Debug)]
pub enum TimeUnit {
    Hours,
    Minutes,
    Seconds,
    Milliseconds,
}

#[derive(Clone, Copy, PartialEq, Eq, Structural, Debug)]
pub enum SpeedUnit {
    KilometersPerHour,
    MetersPerSecond,
}

#[derive(Clone, Copy, PartialEq, Eq, Structural, Debug)]
pub enum EnergyUnit {
    WattHours,
    KilowattHours,
}

#[derive(Clone, Copy, PartialEq, Eq, Structural, Debug)]
pub enum EnergyRateUnit {
    WattHoursPerMeter,
    WattHoursPerKilometer,
}

/// A distance: `0` counts thousandths of `DistanceUnit` units.
#[derive(Clone, Copy, PartialEq, Eq, Structural, Debug)]
pub struct Distance(pub u64);

/// A duration: `0` counts thousandths of `TimeUnit` units.
#[derive(Clone, Copy, PartialEq, Eq, Structural, Debug)]
pub struct Time(pub u64);

/// A speed: `0` counts thousandths of `SpeedUnit` units.
#[derive(Clone, Copy, PartialEq, Eq, Structural, Debug)]
pub struct Speed(pub u64);

/// A road grade: thousandths of the dimensionless rise/run ratio, signed.
#[derive(Clone, Copy, PartialEq, Eq, Structural, Debug)]
pub struct Grade(pub i64);

/// An energy amount: `0` counts thousandths of `EnergyUnit` units.
#[derive(Clone, Copy, PartialEq, Eq, Structural, Debug)]
pub struct Energy(pub u64);

/// An energy rate: `0` counts thousandths of `EnergyRateUnit` units.
#[derive(Clone, Copy, PartialEq, Eq, Structural, Debug)]
pub struct EnergyRate(pub u64);

/// The unit edge distances are stored in.
pub const BASE_DISTANCE_UNIT: DistanceUnit = DistanceUnit::Meters;

/// Millimeters in one milli-unit of a distance unit.
pub open spec fn mm_per_milli(u: DistanceUnit) -> int {
    match u {
        DistanceUnit::Meters => 1,
        DistanceUnit::Kilometers => 1000,
    }
}

/// Whole units of a time unit in one hour.
pub open spec fn per_hour(u: TimeUnit) -> int {
    match u {
        TimeUnit::Hours => 1,
        TimeUnit::Minutes => 60,
        TimeUnit::Seconds => 3600,
        TimeUnit::Milliseconds => 3600000,
    }
}

/// A speed of one milli-unit of `u` covers `speed_mh_num(u) / speed_mh_den(u)`
/// meters per hour.
pub open spec fn speed_mh_num(u: SpeedUnit) -> int {
    match u {
        SpeedUnit::KilometersPerHour => 1,
        SpeedUnit::MetersPerSecond => 18,
    }
}

pub open spec fn speed_mh_den(u: SpeedUnit) -> int {
    match u {
        SpeedUnit::KilometersPerHour => 1,
        SpeedUnit::MetersPerSecond => 5,
    }
}

/// Watt-hours in one whole unit of an energy unit.
pub open spec fn wh_per_unit(u: EnergyUnit) -> int {
    match u {
        EnergyUnit::WattHours => 1,
        EnergyUnit::KilowattHours => 1000,
    }
}

/// Millimeters over which one milli-unit of the rate spends one milli-watt-hour.
pub open spec fn rate_mm_den(u: EnergyRateUnit) -> int {
    match u {
        EnergyRateUnit::WattHoursPerMeter => 1000,
        EnergyRateUnit::WattHoursPerKilometer => 1000000,
    }
}

pub proof fn lemma_mul_bounds(a: int, b: int, amax: int, bmax: int)
    by (nonlinear_arith)
    requires
        0 <= a <= amax,
        0 <= b <= bmax,
    ensures
        0 <= a * b <= amax * bmax,
{
}

/// The value of `d` converted from `from` to `to`, truncating.
pub open spec fn spec_convert_distance(d: int, from: DistanceUnit, to: DistanceUnit) -> int {
    d * mm_per_milli(from) / mm_per_milli(to)
}

/// Converts a distance between units; `None` when the result does not fit.
pub fn convert_distance(d: Distance, from: DistanceUnit, to: DistanceUnit) -> (r: Option<
    Distance,
>)
    ensures
        r is Some <==> spec_convert_distance(d.0 as int, from, to) <= u64::MAX,
        r is Some ==> r->Some_0.0 == spec_convert_distance(d.0 as int, from, to),
{
    let num: u128 = match from {
        DistanceUnit::Meters => 1,
        DistanceUnit::Kilometers => 1000,
    };
    let den: u128 = match to {
        DistanceUnit::Meters => 1,
        DistanceUnit::Kilometers => 1000,
    };
    proof {
        lemma_mul_bounds(d.0 as int, num as int, u64::MAX as int, 1000);
    }
    let wide: u128 = (d.0 as u128) * num / den;
    if wide <= u64::MAX as u128 {
        Some(Distance(wide as u64))
    } else {
        None
    }
}

/// The value of `t` converted from `from` to `to`, truncating.
pub open spec fn spec_convert_time(t: int, from: TimeUnit, to: TimeUnit) -> int {
    t * per_hour(to) / per_hour(from)
}

/// Converts a time between units; `None` when the result does not fit.
pub fn convert_time(t: Time, from: TimeUnit, to: TimeUnit) -> (r: Option<Time>)
    ensures
        r is Some <==> spec_convert_time(t.0 as int, from, to) <= u64::MAX,
        r is Some ==> r->Some_0.0 == spec_convert_time(t.0 as int, from, to),
{
    let num: u128 = time_factor(to) as u128;
    let den: u128 = time_factor(from) as u128;
    proof {
        lemma_mul_bounds(t.0 as int, num as int, u64::MAX as int, 3600000);
    }
    let wide: u128 = (t.0 as u128) * num / den;
    if wide <= u64::MAX as u128 {
        Some(Time(wide as u64))
    } else {
        None
    }
}

fn time_factor(u: TimeUnit) -> (r: u64)
    ensures
        r == per_hour(u),
{
    match u {
        TimeUnit::Hours => 1,
        TimeUnit::Minutes => 60,
        TimeUnit::Seconds => 3600,
        TimeUnit::Milliseconds => 3600000,
    }
}

/// Time to cover `d` at speed `s`, expressed in `tu`, truncating:
/// millimeters times target-units-per-hour over meters-per-hour.
pub open spec fn spec_time_for_distance(
    s: int,
    su: SpeedUnit,
    d: int,
    du: DistanceUnit,
    tu: TimeUnit,
) -> int {
    d * mm_per_milli(du) * per_hour(tu) * speed_mh_den(su) / (s * speed_mh_num(su))
}

/// Travel time for a distance at a speed. `None` when the speed is zero or
/// the result does not fit in the fixed-point range.
pub fn time_for_distance(s: Speed, su: SpeedUnit, d: Distance, du: DistanceUnit, tu: TimeUnit) -> (r:
    Option<Time>)
    ensures
        r is Some <==> s.0 > 0 && spec_time_for_distance(s.0 as int, su, d.0 as int, du, tu)
            <= u64::MAX,
        r is Some ==> r->Some_0.0 == spec_time_for_distance(s.0 as int, su, d.0 as int, du, tu),
{
    if s.0 == 0 {
        return None;
    }
    let mmpm: u128 = match du {
        DistanceUnit::Meters => 1,
        DistanceUnit::Kilometers => 1000,
    };
    let (num, den): (u128, u128) = match su {
        SpeedUnit::KilometersPerHour => (1, 1),
        SpeedUnit::MetersPerSecond => (18, 5),
    };
    let step1: u128 = (d.0 as u128) * mmpm;
    proof {
        lemma_mul_bounds(d.0 as int, mmpm as int, u64::MAX as int, 1000);
        lemma_mul_bounds(step1 as int, per_hour(tu), u64::MAX as int * 1000, 3600000);
    }
    let step2: u128 = step1 * (time_factor(tu) as u128);
    proof {
        lemma_mul_bounds(step2 as int, den as int, u64::MAX as int * 1000 * 3600000, 5);
        lemma_mul_bounds(s.0 as int, num as int, u64::MAX as int, 18);
    }
    let numerator: u128 = step2 * den;
    let denominator: u128 = (s.0 as u128) * num;
    let wide: u128 = numerator / denominator;
    if wide <= u64::MAX as u128 {
        Some(Time(wide as u64))
    } else {
        None
    }
}

/// Milli-rate times milli-distance counts this many times one milli-unit of
/// the energy unit; the distance unit's millimeter factor always divides the
/// rate's, so the quotient is exact.
pub open spec fn energy_quotient(ru: EnergyRateUnit, du: DistanceUnit, eu: EnergyUnit) -> int {
    (rate_mm_den(ru) / mm_per_milli(du)) * wh_per_unit(eu)
}

/// Energy spent covering `d` at rate `rate`, expressed in `eu`, truncating.
pub open spec fn spec_energy_for_distance(
    rate: int,
    ru: EnergyRateUnit,
    d: int,
    du: DistanceUnit,
    eu: EnergyUnit,
) -> int {
    rate * d / energy_quotient(ru, du, eu)
}

/// Energy for a distance at a constant rate. `None` when the result does not
/// fit in the fixed-point range.
pub fn energy_for_distance(
    rate: EnergyRate,
    ru: EnergyRateUnit,
    d: Distance,
    du: DistanceUnit,
    eu: EnergyUnit,
) -> (r: Option<Energy>)
    ensures
        r is Some <==> spec_energy_for_distance(rate.0 as int, ru, d.0 as int, du, eu) <= u64::MAX,
        r is Some ==> r->Some_0.0 == spec_energy_for_distance(
            rate.0 as int,
            ru,
            d.0 as int,
            du,
            eu,
        ),
{
    let mmpm: u128 = match du {
        DistanceUnit::Meters => 1,
        DistanceUnit::Kilometers => 1000,
    };
    let rden: u128 = match ru {
        EnergyRateUnit::WattHoursPerMeter => 1000,
        EnergyRateUnit::WattHoursPerKilometer => 1000000,
    };
    let eden: u128 = match eu {
        EnergyUnit::WattHours => 1,
        EnergyUnit::KilowattHours => 1000,
    };
    proof {
        lemma_mul_bounds(rate.0 as int, d.0 as int, u64::MAX as int, u64::MAX as int);
    }
    let numerator: u128 = (rate.0 as u128) * (d.0 as u128);
    let denominator: u128 = rden / mmpm * eden;
    let wide: u128 = numerator / denominator;
    if wide <= u64::MAX as u128 {
        Some(Energy(wide as u64))
    } else {
        None
    }
}

} // verus!
