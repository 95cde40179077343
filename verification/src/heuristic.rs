//! The admissible cost estimator.
//!
//! Great-circle distance is approximated in pure integer arithmetic: a
//! locally flat projection with a small-polynomial cosine, truncated to
//! whole meters. Truncation only lowers the estimate, which is the safe
//! direction for a lower bound.

use vstd::prelude::*;
use crate::cost::Cost;
use crate::property::Coordinate;
use crate::property::Vertex;
use crate::units::Distance;
use crate::units::DistanceUnit;
use crate::units::EnergyRate;
use crate::units::EnergyRateUnit;
use crate::units::EnergyUnit;
use crate::units::Speed;
use crate::units::SpeedUnit;
use crate::units::energy_for_distance;
use crate::units::spec_energy_for_distance;
use crate::units::Time;
use crate::units::TimeUnit;
use crate::units::per_hour;
use crate::units::spec_time_for_distance;
use crate::units::time_for_distance;

verus! {

/// Millimeters per microdegree of latitude (and of longitude at the
/// equator): one degree spans about 111.195 km.
pub const MM_PER_MICRODEGREE: u64 = 111;

/// A plausible WGS84 position in microdegrees.
pub open spec fn valid_coordinate(c: Coordinate) -> bool {
    &&& -90000000 <= c.lat_micro <= 90000000
    &&& -180000000 <= c.lon_micro <= 180000000
}

/// One million times the cosine of `lat` microdegrees, by the polynomial
/// `1 - x^2/2 + x^4/24` over micro-radians, floored at zero.
pub open spec fn spec_cos_micro(lat: int) -> int {
    let a = if lat < 0 {
        -lat
    } else {
        lat
    };
    let x = a * 17453293 / 1000000000;
    let t = x * x / 1000000;
    let term2 = t / 2;
    let term4 = t * t / 1000000 / 24;
    if 1000000 + term4 >= term2 {
        1000000 + term4 - term2
    } else {
        0
    }
}

/// The non-negative square root, rounded down.
pub open spec fn spec_isqrt(n: int) -> int {
    choose|r: int| r >= 0 && #[trigger] (r * r) <= n < (r + 1) * (r + 1)
}

/// Every non-negative integer has a rounded-down square root.
pub proof fn lemma_isqrt_exists(n: int)
    requires
        n >= 0,
    ensures
        exists|r: int| r >= 0 && #[trigger] (r * r) <= n < (r + 1) * (r + 1),
        spec_isqrt(n) >= 0,
        spec_isqrt(n) * spec_isqrt(n) <= n,
        n < (spec_isqrt(n) + 1) * (spec_isqrt(n) + 1),
    decreases n,
{
    if n == 0 {
        assert(0int >= 0 && (0int * 0int) <= n < (0int + 1) * (0int + 1));
    } else {
        lemma_isqrt_exists(n - 1);
        let r = choose|r: int| r >= 0 && #[trigger] (r * r) <= n - 1 < (r + 1) * (r + 1);
        if (r + 1) * (r + 1) <= n {
            assert((r + 1) * (r + 1) == n);
            assert(((r + 1) + 1) * ((r + 1) + 1) > n) by (nonlinear_arith)
                requires
                    r >= 0,
                    n == (r + 1) * (r + 1),
            ;
            assert((r + 1) >= 0 && ((r + 1) * (r + 1)) <= n < ((r + 1) + 1) * ((r + 1) + 1));
        } else {
            assert(r >= 0 && (r * r) <= n < (r + 1) * (r + 1));
        }
    }
}

/// The straight-line distance is non-negative, and zero between equal
/// positions.
pub proof fn lemma_coord_distance_bounds(a: Coordinate, b: Coordinate, u: DistanceUnit)
    ensures
        spec_coord_distance(a, b, u) >= 0,
        a == b ==> spec_coord_distance(a, b, u) == 0,
{
    let dlat = if a.lat_micro >= b.lat_micro {
        a.lat_micro - b.lat_micro
    } else {
        b.lat_micro - a.lat_micro
    };
    let dlon = if a.lon_micro >= b.lon_micro {
        a.lon_micro - b.lon_micro
    } else {
        b.lon_micro - a.lon_micro
    };
    let mid2 = a.lat_micro + b.lat_micro;
    let mida = (if mid2 < 0 {
        -mid2
    } else {
        mid2
    }) / 2;
    let dy = dlat * MM_PER_MICRODEGREE / 1000;
    let dx = dlon * spec_cos_micro(mida) / 1000000 * MM_PER_MICRODEGREE / 1000;
    let n = dy * dy + dx * dx;
    assert(dy * dy + dx * dx >= 0) by (nonlinear_arith);
    lemma_isqrt_exists(n);
    if a == b {
        assert(dlat == 0 && dlon == 0);
        assert(dy == 0);
        assert(dlon * spec_cos_micro(mida) == 0) by (nonlinear_arith)
            requires
                dlon == 0,
        ;
        assert(dx == 0);
        assert(dy * dy + dx * dx == 0) by (nonlinear_arith)
            requires
                dy == 0,
                dx == 0,
        ;
        lemma_isqrt_unique(0, spec_isqrt(0), 0);
    }
}

/// The baseline estimator stays within the cost range, and estimates zero
/// between vertices at the same position.
pub proof fn lemma_haversine_estimate_bounds(h: &Haversine, a: Vertex, b: Vertex)
    requires
        h.wf(),
    ensures
        0 <= h.spec_estimate(a, b) <= u64::MAX,
        a.coordinate == b.coordinate ==> h.spec_estimate(a, b) == 0,
{
    let d = spec_coord_distance(a.coordinate, b.coordinate, DistanceUnit::Meters);
    lemma_coord_distance_bounds(a.coordinate, b.coordinate, DistanceUnit::Meters);
    let s = h.travel_speed.0 as int;
    let f = per_hour(h.output_time_unit);
    let numerator = d * 1 * f * 1;
    assert(d * 1 * f * 1 >= 0) by (nonlinear_arith)
        requires
            d >= 0,
            f >= 1,
    ;
    assert(s * 1 == s);
    vstd::arithmetic::div_mod::lemma_div_pos_is_pos(numerator, s);
    if a.coordinate == b.coordinate {
        assert(d * 1 * f * 1 == 0) by (nonlinear_arith)
            requires
                d == 0,
        ;
        vstd::arithmetic::div_mod::lemma_div_of0(s);
    }
}

proof fn lemma_isqrt_unique(n: int, r1: int, r2: int)
    by (nonlinear_arith)
    requires
        r1 >= 0,
        r2 >= 0,
        r1 * r1 <= n < (r1 + 1) * (r1 + 1),
        r2 * r2 <= n < (r2 + 1) * (r2 + 1),
    ensures
        r1 == r2,
{
}

/// Whole meters between two positions: latitude and scaled longitude
/// differences in meters, combined by the Euclidean norm.
pub open spec fn spec_coord_distance_m(a: Coordinate, b: Coordinate) -> int {
    let dlat = if a.lat_micro >= b.lat_micro {
        a.lat_micro - b.lat_micro
    } else {
        b.lat_micro - a.lat_micro
    };
    let dlon = if a.lon_micro >= b.lon_micro {
        a.lon_micro - b.lon_micro
    } else {
        b.lon_micro - a.lon_micro
    };
    let mid2 = a.lat_micro + b.lat_micro;
    let mida = (if mid2 < 0 {
        -mid2
    } else {
        mid2
    }) / 2;
    let dy = dlat * MM_PER_MICRODEGREE / 1000;
    let dx = dlon * spec_cos_micro(mida) / 1000000 * MM_PER_MICRODEGREE / 1000;
    spec_isqrt(dy * dy + dx * dx)
}

/// The distance between two positions in milli-units of `unit`, truncated
/// to whole meters first.
pub open spec fn spec_coord_distance(a: Coordinate, b: Coordinate, unit: DistanceUnit) -> int {
    match unit {
        DistanceUnit::Meters => spec_coord_distance_m(a, b) * 1000,
        DistanceUnit::Kilometers => spec_coord_distance_m(a, b),
    }
}

/// The square root of `n`, rounded down.
fn isqrt(n: u64) -> (r: u64)
    ensures
        r * r <= n,
        n < (r + 1) * (r + 1),
        r == spec_isqrt(n as int),
{
    let mut lo: u64 = 0;
    let mut hi: u64 = 4294967296;
    proof {
        assert((hi as int) * (hi as int) > n as int) by (nonlinear_arith)
            requires
                hi == 4294967296,
                n <= u64::MAX,
        ;
    }
    while lo + 1 < hi
        invariant
            lo < hi,
            hi <= 4294967296,
            (lo as int) * (lo as int) <= n as int,
            (hi as int) * (hi as int) > n as int,
        decreases hi - lo,
    {
        let mid: u64 = lo + (hi - lo) / 2;
        proof {
            assert((mid as int) * (mid as int) < 0x10000000000000000) by (nonlinear_arith)
                requires
                    mid < 4294967296,
            ;
        }
        if mid * mid <= n {
            lo = mid;
        } else {
            hi = mid;
        }
    }
    proof {
        lemma_isqrt_unique(n as int, lo as int, spec_isqrt(n as int));
    }
    lo
}

/// One million times the cosine of `lat` microdegrees of latitude, given as
/// an absolute value.
fn cos_micro(lat_abs: u64) -> (r: u64)
    requires
        lat_abs <= 90000000,
    ensures
        r == spec_cos_micro(lat_abs as int),
        r <= 1300000,
{
    let a: u64 = lat_abs;
    proof {
        crate::units::lemma_mul_bounds(a as int, 17453293, 90000000, 17453293);
    }
    let x: u64 = a * 17453293 / 1000000000;
    proof {
        assert(x <= 1570796) by {
            vstd::arithmetic::div_mod::lemma_div_is_ordered(
                (a as int) * 17453293,
                (90000000 * 17453293) as int,
                1000000000,
            );
        }
        crate::units::lemma_mul_bounds(x as int, x as int, 1570796, 1570796);
    }
    let t: u64 = x * x / 1000000;
    proof {
        assert(t <= 2467400) by {
            vstd::arithmetic::div_mod::lemma_div_is_ordered(
                (x as int) * (x as int),
                (1570796 * 1570796) as int,
                1000000,
            );
        }
        crate::units::lemma_mul_bounds(t as int, t as int, 2467400, 2467400);
    }
    let term2: u64 = t / 2;
    let term4: u64 = t * t / 1000000 / 24;
    proof {
        assert(term4 <= 253669) by {
            vstd::arithmetic::div_mod::lemma_div_is_ordered(
                (t as int) * (t as int),
                (2467400 * 2467400) as int,
                1000000,
            );
            vstd::arithmetic::div_mod::lemma_div_is_ordered(
                (t as int) * (t as int) / 1000000,
                ((2467400 * 2467400) as int) / 1000000,
                24,
            );
        }
    }
    if 1000000 + term4 >= term2 {
        1000000 + term4 - term2
    } else {
        0
    }
}

/// The straight-line lower bound between two positions, in milli-units of
/// `unit`; zero for equal positions.
#[verifier::rlimit(60)]
pub fn coord_distance(a: Coordinate, b: Coordinate, unit: DistanceUnit) -> (r: Distance)
    requires
        valid_coordinate(a),
        valid_coordinate(b),
    ensures
        r.0 == spec_coord_distance(a, b, unit),
        a == b ==> r.0 == 0,
{
    let dlat: u64 = if a.lat_micro >= b.lat_micro {
        (a.lat_micro - b.lat_micro) as u64
    } else {
        (b.lat_micro - a.lat_micro) as u64
    };
    let dlon: u64 = if a.lon_micro >= b.lon_micro {
        (a.lon_micro - b.lon_micro) as u64
    } else {
        (b.lon_micro - a.lon_micro) as u64
    };
    let mid2: i64 = a.lat_micro + b.lat_micro;
    let mida: u64 = if mid2 < 0 {
        ((-mid2) as u64) / 2
    } else {
        (mid2 as u64) / 2
    };
    let cosf: u64 = cos_micro(mida);
    let dy: u64 = dlat * MM_PER_MICRODEGREE / 1000;
    proof {
        assert(dy <= 19980000) by {
            vstd::arithmetic::div_mod::lemma_div_is_ordered(
                (dlat as int) * 111,
                (180000000 * 111) as int,
                1000,
            );
        }
        assert((dlon as int) * (cosf as int) <= (360000000 * 1300000) as int) by (nonlinear_arith)
            requires
                dlon <= 360000000,
                cosf <= 1300000,
        ;
    }
    let step: u64 = dlon * cosf / 1000000;
    proof {
        assert(step <= 468000000) by {
            vstd::arithmetic::div_mod::lemma_div_is_ordered(
                (dlon as int) * (cosf as int),
                (360000000 * 1300000) as int,
                1000000,
            );
        }
    }
    let dx: u64 = step * MM_PER_MICRODEGREE / 1000;
    proof {
        assert(dx <= 51948000) by {
            vstd::arithmetic::div_mod::lemma_div_is_ordered(
                (step as int) * 111,
                (468000000 * 111) as int,
                1000,
            );
        }
        assert((dy as int) * (dy as int) + (dx as int) * (dx as int) <= 3097795104000000) by (
        nonlinear_arith)
            requires
                dy <= 19980000,
                dx <= 51948000,
        ;
    }
    let m: u64 = isqrt(dy * dy + dx * dx);
    proof {
        assert(m <= 55657839) by (nonlinear_arith)
            requires
                (m as int) * (m as int) <= 3097795104000000,
        ;
        if a == b {
            assert(a.lat_micro == b.lat_micro);
            assert(a.lon_micro == b.lon_micro);
            assert(dlat == 0);
            assert(dlon == 0);
            assert(dy == 0);
            assert(step == 0);
            assert(dx == 0);
            assert((dy as int) * (dy as int) + (dx as int) * (dx as int) == 0) by (nonlinear_arith)
                requires
                    dy == 0,
                    dx == 0,
            ;
            assert((m as int) * (m as int) <= 0);
            assert(m == 0) by (nonlinear_arith)
                requires
                    (m as int) * (m as int) <= 0,
            ;
        }
    }
    match unit {
        DistanceUnit::Meters => Distance(m * 1000),
        DistanceUnit::Kilometers => Distance(m),
    }
}

/// A pure lower bound on the cost between two vertices.
pub trait CostEstimator {
    /// What this estimator's configuration must satisfy.
    spec fn wf(&self) -> bool;

    /// The exact estimate this estimator computes.
    spec fn spec_estimate(&self, src: Vertex, dst: Vertex) -> int;

    /// The estimated cost from `src` to `dst`.
    fn cost_estimate(&self, src: &Vertex, dst: &Vertex) -> (r: Cost)
        requires
            self.wf(),
            valid_coordinate(src.coordinate),
            valid_coordinate(dst.coordinate),
        ensures
            r.0 == self.spec_estimate(*src, *dst),
            src.coordinate == dst.coordinate ==> r.0 == 0,
    ;
}

/// The baseline estimator: straight-line distance at a fixed travel speed,
/// expressed in a time unit.
pub struct Haversine {
    pub travel_speed: Speed,
    pub output_time_unit: TimeUnit,
}

impl CostEstimator for Haversine {
    open spec fn wf(&self) -> bool {
        self.travel_speed.0 > 0
    }

    open spec fn spec_estimate(&self, src: Vertex, dst: Vertex) -> int {
        let t = spec_time_for_distance(
            self.travel_speed.0 as int,
            SpeedUnit::KilometersPerHour,
            spec_coord_distance(src.coordinate, dst.coordinate, DistanceUnit::Meters),
            DistanceUnit::Meters,
            self.output_time_unit,
        );
        if t <= u64::MAX {
            t
        } else {
            u64::MAX as int
        }
    }

    fn cost_estimate(&self, src: &Vertex, dst: &Vertex) -> (r: Cost)
        ensures
            r.0 == self.spec_estimate(*src, *dst),
            src.coordinate == dst.coordinate ==> r.0 == 0,
    {
        let d: Distance = coord_distance(src.coordinate, dst.coordinate, DistanceUnit::Meters);
        match time_for_distance(
            self.travel_speed,
            SpeedUnit::KilometersPerHour,
            d,
            DistanceUnit::Meters,
            self.output_time_unit,
        ) {
            Some(t) => Cost(t.0),
            None => Cost(u64::MAX),
        }
    }
}

/// The straight-line lower bound expressed directly as a distance cost, for
/// searches whose objective is a distance feature in the same unit.
pub struct StraightLineDistance {
    pub distance_unit: DistanceUnit,
}

impl CostEstimator for StraightLineDistance {
    open spec fn wf(&self) -> bool {
        true
    }

    open spec fn spec_estimate(&self, src: Vertex, dst: Vertex) -> int {
        spec_coord_distance(src.coordinate, dst.coordinate, self.distance_unit)
    }

    fn cost_estimate(&self, src: &Vertex, dst: &Vertex) -> (r: Cost) {
        let d: Distance = coord_distance(src.coordinate, dst.coordinate, self.distance_unit);
        Cost(d.0)
    }
}

/// A least-energy lower bound: the straight-line distance priced at the
/// minimum energy rate, for searches whose objective is an energy feature.
pub struct MinEnergyRateEstimate {
    pub min_energy_rate: EnergyRate,
    pub energy_rate_unit: EnergyRateUnit,
    pub distance_unit: DistanceUnit,
    pub energy_unit: EnergyUnit,
}

impl CostEstimator for MinEnergyRateEstimate {
    open spec fn wf(&self) -> bool {
        true
    }

    open spec fn spec_estimate(&self, src: Vertex, dst: Vertex) -> int {
        let d = spec_coord_distance(src.coordinate, dst.coordinate, self.distance_unit);
        let e = spec_energy_for_distance(
            self.min_energy_rate.0 as int,
            self.energy_rate_unit,
            d,
            self.distance_unit,
            self.energy_unit,
        );
        if d == 0 {
            0
        } else if e <= u64::MAX {
            e
        } else {
            u64::MAX as int
        }
    }

    fn cost_estimate(&self, src: &Vertex, dst: &Vertex) -> (r: Cost) {
        let d: Distance = coord_distance(src.coordinate, dst.coordinate, self.distance_unit);
        if d.0 == 0 {
            return Cost(0);
        }
        match energy_for_distance(
            self.min_energy_rate,
            self.energy_rate_unit,
            d,
            self.distance_unit,
            self.energy_unit,
        ) {
            Some(e) => Cost(e.0),
            None => Cost(u64::MAX),
        }
    }
}

} // verus!
