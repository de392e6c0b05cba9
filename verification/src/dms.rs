use vstd::prelude::*;
use crate::bearing::Bearing;

verus! {

/// Whether a mathematical integer can be held in an `i32`.
pub open spec fn fits_i32(x: int) -> bool {
    i32::MIN <= x <= i32::MAX
}

/// The angle (in degrees) and the bearing that an azimuth of `degrees`
/// (measured clockwise from North, 0 to 360) falls into: below 90 it is
/// North-East, below 180 South-East (counted back from 180), below 270
/// South-West (counted on from 180), and North-West (counted back from 360)
/// from 270 on.
pub open spec fn azimuth_quadrant(degrees: int) -> (int, Bearing) {
    if degrees < 90 {
        (degrees, Bearing::NorthEast)
    } else if degrees < 180 {
        (180 - degrees, Bearing::SouthEast)
    } else if degrees < 270 {
        (degrees - 180, Bearing::SouthWest)
    } else {
        (360 - degrees, Bearing::NorthWest)
    }
}

/// The azimuth (in degrees, clockwise from North) of an angle of `degrees`
/// in `bearing`: the inverse of `azimuth_quadrant` for the quadrant
/// bearings; an angle in any other bearing is taken as an azimuth already.
pub open spec fn azimuth_of(degrees: int, bearing: Bearing) -> int {
    match bearing {
        Bearing::SouthEast => 180 - degrees,
        Bearing::SouthWest => 180 + degrees,
        Bearing::NorthWest => 360 - degrees,
        _ => degrees,
    }
}

/// Whether `bearing` is one of the four quadrants between the cardinal
/// points.
pub open spec fn is_quadrant(bearing: Bearing) -> bool {
    bearing is NorthEast || bearing is SouthEast || bearing is SouthWest || bearing is NorthWest
}

/// A D°M'S'' angle with its bearing. The seconds are of any type `S`;
/// nothing here computes with them.
#[derive(PartialEq, Clone, Debug)]
pub struct DMS<S> {
    pub degrees: i32,
    pub minutes: i32,
    pub seconds: S,
    pub bearing: Bearing,
}

impl<S> DMS<S> {
    /// The angle that `from_azimuth` builds from an azimuth of `degrees`
    /// degrees, `minutes` minutes and `seconds` seconds: the degrees are
    /// folded into their quadrant (see `azimuth_quadrant`), the minutes and
    /// seconds are kept as they are.
    pub open spec fn of_azimuth(degrees: i32, minutes: i32, seconds: S) -> DMS<S> {
        DMS {
            degrees: azimuth_quadrant(degrees as int).0 as i32,
            minutes,
            seconds,
            bearing: azimuth_quadrant(degrees as int).1,
        }
    }

    /// The azimuth degrees of this angle (see `azimuth_of`).
    pub open spec fn azimuth_degrees(self) -> int {
        azimuth_of(self.degrees as int, self.bearing)
    }

    /// Azimuth degrees and minutes of the sum of two angles taken as
    /// azimuths, with `carry` the minute carried over from the seconds: the
    /// minutes add up (plus the carry) and above 60 give one more degree, and
    /// the degrees are taken modulo 360, so that they name an azimuth in
    /// [0, 360).
    pub open spec fn sum_parts(self, rhs: Self, carry: bool) -> (int, int) {
        let m = self.minutes + rhs.minutes + (if carry { 1int } else { 0int });
        let (extra, minutes) = if m > 60 { (1int, m - 60) } else { (0int, m) };
        ((self.azimuth_degrees() + rhs.azimuth_degrees() + extra) % 360, minutes)
    }

    /// Whether the minutes of the sum can be held in an `i32`.
    pub open spec fn sum_fits(self, rhs: Self, carry: bool) -> bool {
        fits_i32(self.sum_parts(rhs, carry).1)
    }

    /// The result of `add_with_seconds`.
    pub open spec fn sum(self, rhs: Self, seconds: S, carry: bool) -> DMS<S> {
        DMS::of_azimuth(
            self.sum_parts(rhs, carry).0 as i32,
            self.sum_parts(rhs, carry).1 as i32,
            seconds,
        )
    }

    /// Azimuth degrees and minutes of `self` less `rhs`, both taken as
    /// azimuths, and whether a second is borrowed: the degrees are taken
    /// modulo 360, so that they name an azimuth in [0, 360), and a negative
    /// difference of minutes `m` becomes `60 - m` and costs one second.
    pub open spec fn difference_parts(self, rhs: Self) -> (int, int, bool) {
        let d = (self.azimuth_degrees() - rhs.azimuth_degrees()) % 360;
        let m = self.minutes - rhs.minutes;
        if m < 0 {
            (d, 60 - m, true)
        } else {
            (d, m, false)
        }
    }

    /// Whether the minutes of the difference can be held in an `i32`.
    pub open spec fn difference_fits(self, rhs: Self) -> bool {
        fits_i32(self.difference_parts(rhs).1)
    }

    /// The result of `sub_with_seconds`.
    pub open spec fn difference(self, rhs: Self, seconds: S, seconds_less_one: S) -> DMS<S> {
        DMS::of_azimuth(
            self.difference_parts(rhs).0 as i32,
            self.difference_parts(rhs).1 as i32,
            if self.difference_parts(rhs).2 { seconds_less_one } else { seconds },
        )
    }

    /// The azimuth degrees of the angle, in a type wide enough for any
    /// angle.
    fn wide_azimuth(&self) -> (a: i64)
        ensures
            a == self.azimuth_degrees(),
    {
        let degrees: i64 = self.degrees as i64;
        match self.bearing {
            Bearing::SouthEast => 180 - degrees,
            Bearing::SouthWest => 180 + degrees,
            Bearing::NorthWest => 360 - degrees,
            _ => degrees,
        }
    }

    /// Builds a `D°M'S''` angle from its parts.
    pub fn new(degrees: i32, minutes: i32, seconds: S, bearing: Bearing) -> (d: DMS<S>)
        ensures
            d == (DMS { degrees, minutes, seconds, bearing }),
    {
        DMS { degrees, minutes, seconds, bearing }
    }

    /// Builds the angle of an azimuth given as (degrees from North in
    /// [0, 360], minutes, seconds), deducing the quadrant bearing and the
    /// angle within it.
    pub fn from_azimuth(azimuth: (i32, i32, S)) -> (d: DMS<S>)
        ensures
            d == DMS::of_azimuth(azimuth.0, azimuth.1, azimuth.2),
    {
        let degrees: i32 = azimuth.0;
        let minutes: i32 = azimuth.1;
        let seconds = azimuth.2;
        if degrees < 90 {
            DMS { degrees, minutes, seconds, bearing: Bearing::NorthEast }
        } else if degrees < 180 {
            DMS { degrees: 180 - degrees, minutes, seconds, bearing: Bearing::SouthEast }
        } else if degrees < 270 {
            DMS { degrees: degrees - 180, minutes, seconds, bearing: Bearing::SouthWest }
        } else {
            DMS { degrees: 360 - degrees, minutes, seconds, bearing: Bearing::NorthWest }
        }
    }

    /// Converts the angle to an azimuth (degrees from North, minutes,
    /// seconds): the inverse of `from_azimuth`.
    pub fn to_azimuth(self) -> (a: (i32, i32, S))
        requires
            fits_i32(self.azimuth_degrees()),
        ensures
            a.0 == self.azimuth_degrees(),
            a.1 == self.minutes,
            a.2 == self.seconds,
    {
        let degrees: i32 = match self.bearing {
            Bearing::SouthEast => 180 - self.degrees,
            Bearing::SouthWest => 180 + self.degrees,
            Bearing::NorthWest => 360 - self.degrees,
            _ => self.degrees,
        };
        (degrees, self.minutes, self.seconds)
    }

    /// Like `to_azimuth`, but `None` where the azimuth does not fit in an
    /// `i32`.
    pub fn checked_to_azimuth(self) -> (a: Option<(i32, i32, S)>)
        ensures
            a == (if fits_i32(self.azimuth_degrees()) {
                Some((self.azimuth_degrees() as i32, self.minutes, self.seconds))
            } else {
                None
            }),
    {
        let azimuth: i64 = self.wide_azimuth();
        if i32::MIN as i64 <= azimuth && azimuth <= i32::MAX as i64 {
            Some(self.to_azimuth())
        } else {
            None
        }
    }

    /// Adds two angles as azimuths. `carry` tells whether the seconds of the
    /// two angles add up to more than 60, and `seconds` is their sum, less 60
    /// when they do. The minutes carry over into the degrees above 60, the
    /// degrees wrap around at 360, and the sum is turned back into an angle
    /// by `from_azimuth`.
    pub fn add_with_seconds(self, rhs: Self, seconds: S, carry: bool) -> (d: DMS<S>)
        requires
            self.sum_fits(rhs, carry),
        ensures
            d == self.sum(rhs, seconds, carry),
    {
        let mut degrees: i64 = self.wide_azimuth() + rhs.wide_azimuth();
        let mut minutes: i64 = self.minutes as i64 + rhs.minutes as i64;
        if carry {
            minutes = minutes + 1;
        }
        if minutes > 60 {
            degrees = degrees + 1;
            minutes = minutes - 60;
        }
        let wrapped: i64 = match degrees.checked_rem_euclid(360) {
            Some(r) => r,
            None => 0,
        };
        DMS::from_azimuth((wrapped as i32, minutes as i32, seconds))
    }

    /// Like `add_with_seconds`, but `None` where the minutes of the sum do
    /// not fit in an `i32`.
    pub fn checked_add_with_seconds(self, rhs: Self, seconds: S, carry: bool) -> (d: Option<DMS<S>>)
        ensures
            d == (if self.sum_fits(rhs, carry) {
                Some(self.sum(rhs, seconds, carry))
            } else {
                None
            }),
    {
        let mut minutes: i64 = self.minutes as i64 + rhs.minutes as i64;
        if carry {
            minutes = minutes + 1;
        }
        if minutes > 60 {
            minutes = minutes - 60;
        }
        if i32::MIN as i64 <= minutes && minutes <= i32::MAX as i64 {
            Some(self.add_with_seconds(rhs, seconds, carry))
        } else {
            None
        }
    }

    /// Subtracts `rhs` from the angle, both taken as azimuths. `seconds` is
    /// the difference of their seconds and `seconds_less_one` that difference
    /// less one second: the result holds the second one when the minutes
    /// borrow a second (see `difference_parts`), else the first. The degrees
    /// wrap around at 360, and the difference is turned back into an angle
    /// by `from_azimuth`.
    pub fn sub_with_seconds(self, rhs: Self, seconds: S, seconds_less_one: S) -> (d: DMS<S>)
        requires
            self.difference_fits(rhs),
        ensures
            d == self.difference(rhs, seconds, seconds_less_one),
    {
        let degrees: i64 = self.wide_azimuth() - rhs.wide_azimuth();
        let minutes: i64 = self.minutes as i64 - rhs.minutes as i64;
        let wrapped: i64 = match degrees.checked_rem_euclid(360) {
            Some(r) => r,
            None => 0,
        };
        if minutes < 0 {
            DMS::from_azimuth((wrapped as i32, (60 - minutes) as i32, seconds_less_one))
        } else {
            DMS::from_azimuth((wrapped as i32, minutes as i32, seconds))
        }
    }

    /// Like `sub_with_seconds`, but `None` where the minutes of the
    /// difference do not fit in an `i32`.
    pub fn checked_sub_with_seconds(self, rhs: Self, seconds: S, seconds_less_one: S) -> (d: Option<DMS<S>>)
        ensures
            d == (if self.difference_fits(rhs) {
                Some(self.difference(rhs, seconds, seconds_less_one))
            } else {
                None
            }),
    {
        let mut minutes: i64 = self.minutes as i64 - rhs.minutes as i64;
        if minutes < 0 {
            minutes = 60 - minutes;
        }
        if i32::MIN as i64 <= minutes && minutes <= i32::MAX as i64 {
            Some(self.sub_with_seconds(rhs, seconds, seconds_less_one))
        } else {
            None
        }
    }
}

/// Whether `degrees` is an angle that `from_azimuth` gives in the quadrant
/// `bearing`: below 90 in the North-East, in (0, 90] in the South-East, in
/// [0, 90) in the South-West, and at most 90 in the North-West.
pub open spec fn in_quadrant_range(degrees: int, bearing: Bearing) -> bool {
    match bearing {
        Bearing::NorthEast => degrees < 90,
        Bearing::SouthEast => 0 < degrees <= 90,
        Bearing::SouthWest => 0 <= degrees < 90,
        Bearing::NorthWest => degrees <= 90,
        _ => false,
    }
}

/// An azimuth in [0, 360] gives an angle between 0 and 90 degrees, and
/// every azimuth gives one of the four quadrant bearings.
pub proof fn lemma_from_azimuth_range<S>(degrees: i32, minutes: i32, seconds: S)
    ensures
        is_quadrant(DMS::of_azimuth(degrees, minutes, seconds).bearing),
        0 <= degrees <= 360 ==> 0 <= DMS::of_azimuth(degrees, minutes, seconds).degrees <= 90,
{
}

/// `to_azimuth` undoes `from_azimuth`: for every azimuth, the angle that
/// `from_azimuth` builds is accepted by `to_azimuth` and converts back to
/// the same degrees, minutes and seconds.
pub proof fn lemma_azimuth_round_trip<S>(degrees: i32, minutes: i32, seconds: S)
    ensures
        ({
            let d = DMS::of_azimuth(degrees, minutes, seconds);
            &&& fits_i32(d.azimuth_degrees())
            &&& d.azimuth_degrees() == degrees
            &&& d.minutes == minutes
            &&& d.seconds == seconds
        }),
{
}

/// `from_azimuth` undoes `to_azimuth` on the angles that it can give: an
/// angle in a quadrant bearing, within that quadrant's range, converts to an
/// azimuth that `from_azimuth` turns back into the same angle.
pub proof fn lemma_quadrant_round_trip<S>(d: DMS<S>)
    requires
        in_quadrant_range(d.degrees as int, d.bearing),
        fits_i32(d.azimuth_degrees()),
    ensures
        DMS::of_azimuth(d.azimuth_degrees() as i32, d.minutes, d.seconds) == d,
{
}

/// The sum of two angles does not depend on their order.
pub proof fn lemma_sum_commutes<S>(x: DMS<S>, y: DMS<S>, seconds: S, carry: bool)
    ensures
        x.sum_fits(y, carry) == y.sum_fits(x, carry),
        x.sum(y, seconds, carry) == y.sum(x, seconds, carry),
{
}

/// An angle less itself is 0°0' North-East, with the seconds handed in.
pub proof fn lemma_difference_with_itself<S>(x: DMS<S>, seconds: S, seconds_less_one: S)
    ensures
        x.difference_fits(x),
        x.difference(x, seconds, seconds_less_one) == (DMS { degrees: 0, minutes: 0, seconds, bearing: Bearing::NorthEast }),
{
}

/// Adding the angle 0°0' North-East, with no minute carried from the
/// seconds, gives back an angle that `from_azimuth` can give from an
/// azimuth in [0, 360), when its minutes are at most 60.
pub proof fn lemma_sum_with_zero<S>(x: DMS<S>, zero_seconds: S)
    requires
        in_quadrant_range(x.degrees as int, x.bearing),
        0 <= x.azimuth_degrees() < 360,
        x.minutes <= 60,
    ensures
        ({
            let zero = DMS { degrees: 0, minutes: 0, seconds: zero_seconds, bearing: Bearing::NorthEast };
            &&& x.sum_fits(zero, false)
            &&& x.sum(zero, x.seconds, false) == x
        }),
{
    lemma_quadrant_round_trip(x);
}

/// Sums and differences are angles from 0 to 90 degrees in a quadrant
/// bearing, whatever their operands.
pub proof fn lemma_sum_and_difference_in_range<S>(x: DMS<S>, y: DMS<S>, seconds: S, other: S, carry: bool)
    ensures
        is_quadrant(x.sum(y, seconds, carry).bearing),
        0 <= x.sum(y, seconds, carry).degrees <= 90,
        is_quadrant(x.difference(y, seconds, other).bearing),
        0 <= x.difference(y, seconds, other).degrees <= 90,
{
}

/// `to_azimuth` gives degrees in [0, 360] for every angle from 0 to 90
/// degrees, whatever its bearing.
pub proof fn lemma_to_azimuth_range<S>(x: DMS<S>)
    requires
        0 <= x.degrees <= 90,
    ensures
        0 <= x.azimuth_degrees() <= 360,
        fits_i32(x.azimuth_degrees()),
{
}

/// Subtracting what was added gives back the angle: for an angle that
/// `from_azimuth` gives from an azimuth in [0, 360), and minutes that are not
/// negative and add up to at most 60 with no minute carried from the
/// seconds, `(a + b) - b` has the degrees, minutes and bearing of `a`, and
/// the seconds handed to the subtraction.
pub proof fn lemma_sum_then_difference<S>(a: DMS<S>, b: DMS<S>, s_sum: S, s_diff: S, s_diff_less_one: S)
    requires
        in_quadrant_range(a.degrees as int, a.bearing),
        0 <= a.azimuth_degrees() < 360,
        0 <= a.minutes,
        0 <= b.minutes,
        a.minutes + b.minutes <= 60,
    ensures
        a.sum_fits(b, false),
        a.sum(b, s_sum, false).difference_fits(b),
        a.sum(b, s_sum, false).difference(b, s_diff, s_diff_less_one) == (DMS {
            degrees: a.degrees,
            minutes: a.minutes,
            seconds: s_diff,
            bearing: a.bearing,
        }),
{
    let x = a.azimuth_degrees() + b.azimuth_degrees();
    let d = x % 360;
    let s = a.sum(b, s_sum, false);
    assert(0 <= d < 360);
    lemma_azimuth_round_trip(d as i32, s.minutes, s_sum);
    assert(s.azimuth_degrees() == d);
    vstd::arithmetic::div_mod::lemma_sub_mod_noop(x, b.azimuth_degrees(), 360);
    vstd::arithmetic::div_mod::lemma_sub_mod_noop_right(d, b.azimuth_degrees(), 360);
    assert((d - b.azimuth_degrees()) % 360 == a.azimuth_degrees() % 360);
    vstd::arithmetic::div_mod::lemma_small_mod(a.azimuth_degrees() as nat, 360);
    let r = DMS { degrees: a.degrees, minutes: a.minutes, seconds: s_diff, bearing: a.bearing };
    lemma_quadrant_round_trip(r);
}

/// An angle in a cardinal bearing (North, South, East or West) is taken
/// as an azimuth already: `to_azimuth` keeps its degrees.
pub proof fn lemma_cardinal_azimuth<S>(x: DMS<S>)
    requires
        x.bearing is North || x.bearing is South || x.bearing is East || x.bearing is West,
    ensures
        x.azimuth_degrees() == x.degrees,
{
}

/// `from_azimuth` names the side of the azimuth: an azimuth in [0, 360)
/// gives a northern bearing exactly when it is below 90 or from 270 on, an
/// eastern one exactly when it is below 180, and always a quadrant; the
/// degrees are the azimuth's distance from the North–South line.
pub proof fn lemma_from_azimuth_sides<S>(azimuth: i32, minutes: i32, seconds: S)
    requires
        0 <= azimuth < 360,
    ensures
        ({
            let r = DMS::of_azimuth(azimuth, minutes, seconds);
            let a = azimuth as int;
            &&& is_quadrant(r.bearing)
            &&& r.bearing.is_northern() <==> (a < 90 || a >= 270)
            &&& r.bearing.is_southern() <==> (90 <= a < 270)
            &&& r.bearing.is_eastern() <==> a < 180
            &&& r.bearing.is_western() <==> a >= 180
            &&& r.degrees == (if a <= 180 {
                if a <= 180 - a { a } else { 180 - a }
            } else {
                if a - 180 <= 360 - a { a - 180 } else { 360 - a }
            })
            &&& r.minutes == minutes
            &&& r.seconds == seconds
        }),
{
}

/// A sum of two angles is an azimuth in [0, 360) whose total count of
/// minutes (60 per degree) is that of the two operands plus the carried
/// minute, up to whole turns; its minutes are the operands' minutes plus
/// the carry, less 60 when that is above 60.
pub proof fn lemma_sum_total_minutes<S>(x: DMS<S>, y: DMS<S>, seconds: S, carry: bool)
    requires
        x.sum_fits(y, carry),
    ensures
        ({
            let r = x.sum(y, seconds, carry);
            let c: int = if carry { 1 } else { 0 };
            let m = x.minutes + y.minutes + c;
            &&& 0 <= r.azimuth_degrees() < 360
            &&& (60 * r.azimuth_degrees() + r.minutes) % 21600
                == (60 * x.azimuth_degrees() + x.minutes + 60 * y.azimuth_degrees() + y.minutes + c) % 21600
            &&& r.minutes == (if m > 60 { m - 60 } else { m })
            &&& r.seconds == seconds
        }),
{
    let c: int = if carry { 1 } else { 0 };
    let m = x.minutes + y.minutes + c;
    let extra: int = if m > 60 { 1 } else { 0 };
    let big = x.azimuth_degrees() + y.azimuth_degrees() + extra;
    let d = big % 360;
    let r = x.sum(y, seconds, carry);
    assert(0 <= d < 360);
    lemma_azimuth_round_trip(d as i32, r.minutes, seconds);
    assert(r.azimuth_degrees() == d);
    let q = big / 360;
    vstd::arithmetic::div_mod::lemma_fundamental_div_mod(big, 360);
    assert(big == 360 * q + d);
    let rest = 60 * big + r.minutes;
    assert(60 * d + r.minutes == rest + 21600 * (-q)) by (nonlinear_arith)
        requires
            big == 360 * q + d,
            rest == 60 * big + r.minutes,
    ;
    vstd::arithmetic::div_mod::lemma_mod_multiples_vanish(-q, rest, 21600);
    assert(rest == 60 * x.azimuth_degrees() + x.minutes + 60 * y.azimuth_degrees() + y.minutes + c);
}

/// A carried minute counts as one more minute of an operand.
pub proof fn lemma_carry_is_one_more_minute<S>(x: DMS<S>, y: DMS<S>, seconds: S)
    requires
        y.minutes < i32::MAX,
    ensures
        ({
            let y1 = DMS { degrees: y.degrees, minutes: (y.minutes + 1) as i32, seconds: y.seconds, bearing: y.bearing };
            &&& x.sum(y, seconds, true) == x.sum(y1, seconds, false)
            &&& x.sum_fits(y, true) == x.sum_fits(y1, false)
        }),
{
}

/// With both operands' minutes in [0, 60), a sum always fits and its
/// minutes stay in [0, 60].
pub proof fn lemma_sum_minutes_in_range<S>(x: DMS<S>, y: DMS<S>, seconds: S, carry: bool)
    requires
        0 <= x.minutes < 60,
        0 <= y.minutes < 60,
    ensures
        x.sum_fits(y, carry),
        0 <= x.sum(y, seconds, carry).minutes <= 60,
{
}

/// A sum fails only where its minutes leave `i32`: minutes of at most
/// 2^29 in size always fit.
pub proof fn lemma_sum_fits_small<S>(x: DMS<S>, y: DMS<S>, carry: bool)
    requires
        -0x2000_0000 <= x.minutes <= 0x2000_0000,
        -0x2000_0000 <= y.minutes <= 0x2000_0000,
    ensures
        x.sum_fits(y, carry),
{
}

/// A difference fails only where its minutes leave `i32`: minutes of at
/// most 2^29 in size always fit.
pub proof fn lemma_difference_fits_small<S>(x: DMS<S>, y: DMS<S>)
    requires
        -0x2000_0000 <= x.minutes <= 0x2000_0000,
        -0x2000_0000 <= y.minutes <= 0x2000_0000,
    ensures
        x.difference_fits(y),
{
}

/// The difference of two angles is the difference of their azimuths
/// modulo 360, never has negative minutes, and borrows a second exactly
/// when `rhs` has more minutes than `self`: its minutes are the distance
/// between the two minute counts, plus 60 when a second is borrowed.
pub proof fn lemma_difference_borrows<S>(x: DMS<S>, y: DMS<S>, seconds: S, seconds_less_one: S)
    requires
        x.difference_fits(y),
    ensures
        ({
            let r = x.difference(y, seconds, seconds_less_one);
            &&& r.azimuth_degrees() == (x.azimuth_degrees() - y.azimuth_degrees()) % 360
            &&& r.minutes >= 0
            &&& x.minutes < y.minutes ==> r.minutes == 60 + (y.minutes - x.minutes) && r.seconds == seconds_less_one
            &&& x.minutes >= y.minutes ==> r.minutes == x.minutes - y.minutes && r.seconds == seconds
        }),
{
    let d = (x.azimuth_degrees() - y.azimuth_degrees()) % 360;
    let r = x.difference(y, seconds, seconds_less_one);
    lemma_azimuth_round_trip(d as i32, r.minutes, r.seconds);
}

} // verus!
