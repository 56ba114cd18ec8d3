//! Temperatures as exact fixed-point numbers: kelvins in hundredths, degrees
//! Fahrenheit in five-hundredths, so that the conversion between them loses
//! nothing; the bands a temperature falls into; and the text that shows one.

use vstd::prelude::*;
use crate::decimal::{digit_char, digits, push_digits};

verus! {

/// How many parts of a `Fahrenheit` make one degree.
pub const PARTS_PER_DEGREE: i64 = 500;

/// An absolute temperature, as a whole number of hundredths of a kelvin.
#[derive(Clone, Copy, Debug, PartialEq, Eq, Structural)]
pub struct Kelvin {
    pub hundredths: i32,
}

/// A temperature in degrees Fahrenheit, as a whole number of parts of which
/// 500 make one degree. Every hundredth of a kelvin is a whole number of
/// such parts.
#[derive(Clone, Copy, Debug, PartialEq, Eq, Structural)]
pub struct Fahrenheit {
    pub parts: i64,
}

/// The range of Fahrenheit temperatures that share a colour. Each band is
/// closed below and open above.
#[derive(Clone, Copy, Debug, PartialEq, Eq, Structural)]
pub enum Band {
    /// 100 degrees and more.
    Scorching,
    /// From 85 degrees up to 100.
    Hot,
    /// From 70 degrees up to 85.
    Warm,
    /// From 55 degrees up to 70.
    Mild,
    /// From 40 degrees up to 55.
    Cool,
    /// From 0 degrees up to 40.
    Cold,
    /// Below 0 degrees.
    Freezing,
}

/// Whole degrees Fahrenheit, in parts.
pub open spec fn degrees(d: int) -> int {
    d * 500
}

/// The parts of the Fahrenheit temperature that equals `hundredths`
/// hundredths of a kelvin: `(K - 273.15) * 9 / 5 + 32` degrees, times 500.
pub open spec fn fahrenheit_parts(hundredths: int) -> int {
    (hundredths - 27315) * 9 + degrees(32)
}

/// The band that holds a temperature of `parts` Fahrenheit parts: the
/// thresholds are tried from the highest down and the first reached wins.
pub open spec fn band_of(parts: int) -> Band {
    if parts >= degrees(100) {
        Band::Scorching
    } else if parts >= degrees(85) {
        Band::Hot
    } else if parts >= degrees(70) {
        Band::Warm
    } else if parts >= degrees(55) {
        Band::Mild
    } else if parts >= degrees(40) {
        Band::Cool
    } else if parts >= 0 {
        Band::Cold
    } else {
        Band::Freezing
    }
}

/// The lowest temperature of a band, in Fahrenheit parts; `Freezing` has none.
pub open spec fn band_floor(band: Band) -> Option<int> {
    match band {
        Band::Scorching => Some(degrees(100)),
        Band::Hot => Some(degrees(85)),
        Band::Warm => Some(degrees(70)),
        Band::Mild => Some(degrees(55)),
        Band::Cool => Some(degrees(40)),
        Band::Cold => Some(0),
        Band::Freezing => None,
    }
}

/// The temperature at which the band above `band` begins, in Fahrenheit
/// parts; `Scorching` has no band above it.
pub open spec fn band_ceiling(band: Band) -> Option<int> {
    match band {
        Band::Scorching => None,
        Band::Hot => Some(degrees(100)),
        Band::Warm => Some(degrees(85)),
        Band::Mild => Some(degrees(70)),
        Band::Cool => Some(degrees(55)),
        Band::Cold => Some(degrees(40)),
        Band::Freezing => Some(0),
    }
}

/// The magnitude of `i`.
pub open spec fn magnitude(i: int) -> nat {
    if i < 0 {
        (-i) as nat
    } else {
        i as nat
    }
}

/// `n / unit` rounded to the nearest whole number; a tie goes to the even
/// neighbour.
pub open spec fn round_half_even(n: nat, unit: nat) -> nat {
    let q = n / unit;
    let r = n % unit;
    if 2 * r > unit || (2 * r == unit && q % 2 == 1) {
        q + 1
    } else {
        q
    }
}

/// Two to the power `n`.
pub open spec fn two_to(n: nat) -> nat
    decreases n,
{
    if n == 0 {
        1
    } else {
        2 * two_to((n - 1) as nat)
    }
}

/// The exponent field of a single-precision binary floating-point number,
/// given by its bits.
pub open spec fn single_exponent(bits: u32) -> int {
    bits as int / 0x80_0000 % 256
}

/// The fraction field of a single-precision number.
pub open spec fn single_fraction(bits: u32) -> int {
    bits as int % 0x80_0000
}

/// Whether the sign bit of a single-precision number is set.
pub open spec fn single_is_negative(bits: u32) -> bool {
    bits >= 0x8000_0000
}

/// The significand of a single-precision number: the fraction, with the
/// hidden bit in front of it for a normal number.
pub open spec fn single_significand(bits: u32) -> nat {
    if single_exponent(bits) == 0 {
        single_fraction(bits) as nat
    } else {
        (0x80_0000 + single_fraction(bits)) as nat
    }
}

/// How many binary places the significand of a single-precision number
/// has: the number's magnitude is its significand divided by two to that
/// power, or times two to its opposite where it is negative.
pub open spec fn single_places(bits: u32) -> int {
    if single_exponent(bits) == 0 {
        149
    } else {
        150 - single_exponent(bits)
    }
}

/// A hundred times a finite single-precision number, rounded to the nearest
/// integer; a tie goes to the even neighbour.
pub open spec fn single_hundredths(bits: u32) -> int {
    let scaled = single_significand(bits) * 100;
    let places = single_places(bits);
    let shown = if places >= 0 {
        round_half_even(scaled, two_to(places as nat))
    } else {
        scaled * two_to((-places) as nat)
    };
    if single_is_negative(bits) {
        -(shown as int)
    } else {
        shown as int
    }
}

/// The temperature nearest to a single-precision number of kelvins. There
/// is none for an infinity, for what is not a number, or for a number whose
/// hundredths do not fit.
pub open spec fn kelvin_of_single(bits: u32) -> Option<Kelvin> {
    if single_exponent(bits) != 255 && i32::MIN <= single_hundredths(bits) <= i32::MAX {
        Some(Kelvin { hundredths: single_hundredths(bits) as i32 })
    } else {
        None
    }
}

/// A sign for a negative number, nothing otherwise.
pub open spec fn sign_text(i: int) -> Seq<char> {
    if i < 0 {
        seq!['-']
    } else {
        Seq::empty()
    }
}

/// A temperature of `parts` Fahrenheit parts, written with two decimals:
/// the sign of a temperature below zero, the whole degrees, a point and the
/// hundredths, rounded to the nearest hundredth.
pub open spec fn two_decimals(parts: int) -> Seq<char> {
    let shown = round_half_even(magnitude(parts), 5);
    sign_text(parts) + digits(shown / 100) + seq![
        '.',
        digit_char((shown / 10 % 10) as int),
        digit_char((shown % 10) as int),
    ]
}

/// A temperature of `parts` Fahrenheit parts, written without decimals: the
/// sign of a temperature below zero, then the nearest whole degree.
pub open spec fn whole_degrees(parts: int) -> Seq<char> {
    sign_text(parts) + digits(round_half_even(magnitude(parts), 500))
}

/// Converts kelvins to degrees Fahrenheit, exactly.
pub fn convert_k_to_f(temperature: Kelvin) -> (f: Fahrenheit)
    ensures
        f.parts == fahrenheit_parts(temperature.hundredths as int),
{
    let k: i64 = temperature.hundredths as i64;
    Fahrenheit { parts: (k - 27315) * 9 + 32 * PARTS_PER_DEGREE }
}

fn magnitude_of(i: i64) -> (m: u64)
    ensures
        m == magnitude(i as int),
{
    if i < 0 {
        (-(i + 1)) as u64 + 1
    } else {
        i as u64
    }
}

fn rounded(n: u64, unit: u64) -> (q: u64)
    requires
        1 <= unit <= 0x4000_0000_0000_0000,
    ensures
        q == round_half_even(n as nat, unit as nat),
{
    let q: u64 = n / unit;
    let r: u64 = n % unit;
    assert(unit >= 2 ==> 2 * q <= n) by (nonlinear_arith)
        requires
            q == n / unit,
            1 <= unit,
    ;
    if 2 * r > unit || (2 * r == unit && q % 2 == 1) {
        q + 1
    } else {
        q
    }
}

proof fn two_to_adds(a: nat, b: nat)
    ensures
        two_to(a + b) == two_to(a) * two_to(b),
    decreases b,
{
    if b > 0 {
        let less = (b - 1) as nat;
        two_to_adds(a, less);
        assert(((a + b) - 1) as nat == a + less);
        assert(two_to(a + b) == 2 * two_to(a + less));
        assert(two_to(b) == 2 * two_to(less));
        assert(2 * (two_to(a) * two_to(less)) == two_to(a) * (2 * two_to(less)))
            by (nonlinear_arith);
    } else {
        assert(a + b == a);
        assert(two_to(b) == 1);
        assert(two_to(a) * 1 == two_to(a)) by (nonlinear_arith);
    }
}

proof fn two_to_grows(a: nat, b: nat)
    requires
        a <= b,
    ensures
        1 <= two_to(a) <= two_to(b),
    decreases b,
{
    if a < b {
        two_to_grows(a, (b - 1) as nat);
    } else if a > 0 {
        two_to_grows((a - 1) as nat, (a - 1) as nat);
    }
}

proof fn two_to_32()
    ensures
        two_to(32) == 0x1_0000_0000,
{
    assert(two_to(8) == 256) by {
        reveal_with_fuel(two_to, 9);
    }
    two_to_adds(8, 8);
    assert(two_to(16) == 256 * 256);
    two_to_adds(16, 16);
    assert(two_to(32) == 65536 * 65536);
}

fn power_of_two(n: u32) -> (p: u64)
    requires
        n <= 32,
    ensures
        p == two_to(n as nat),
        1 <= p <= 0x1_0000_0000,
{
    let mut p: u64 = 1;
    let mut i: u32 = 0;
    proof {
        two_to_32();
        two_to_grows(n as nat, 32);
    }
    while i < n
        invariant
            i <= n <= 32,
            p == two_to(i as nat),
            two_to(n as nat) <= 0x1_0000_0000,
        decreases n - i,
    {
        proof {
            two_to_grows((i + 1) as nat, n as nat);
        }
        p = 2 * p;
        i += 1;
    }
    p
}

impl Kelvin {
    /// The temperature nearest to a single-precision number of kelvins,
    /// given by its bits as `to_bits` hands them out.
    pub fn from_f32_bits(bits: u32) -> (k: Option<Kelvin>)
        ensures
            k == kelvin_of_single(bits),
    {
        let exponent: u32 = bits / 0x80_0000 % 256;
        let fraction: u32 = bits % 0x80_0000;
        let negative = bits >= 0x8000_0000;
        if exponent == 255 {
            return None;
        }
        let significand: u64 = if exponent == 0 {
            fraction as u64
        } else {
            0x80_0000 + fraction as u64
        };
        let scaled: u64 = significand * 100;
        let shown: u64 = if exponent > 150 {
            if exponent > 151 {
                proof {
                    let up = (exponent - 150) as nat;
                    two_to_grows(2, up);
                    assert(two_to(2) == 4) by {
                        reveal_with_fuel(two_to, 3);
                    }
                    assert(significand >= 0x80_0000);
                    assert(scaled * two_to(up) > 0x8000_0000) by (nonlinear_arith)
                        requires
                            scaled >= 838860800,
                            two_to(up) >= 4,
                    ;
                }
                return None;
            }
            assert(two_to(1) == 2) by {
                reveal_with_fuel(two_to, 2);
            }
            scaled * 2
        } else {
            let places: u32 = if exponent == 0 {
                149
            } else {
                150 - exponent
            };
            if places > 32 {
                proof {
                    two_to_32();
                    two_to_grows(32, places as nat);
                    let unit = two_to(places as nat);
                    assert(scaled as nat / unit == 0 && scaled as nat % unit == scaled)
                        by (nonlinear_arith)
                        requires
                            scaled < 0x1_0000_0000,
                            unit >= 0x1_0000_0000,
                    ;
                }
                0
            } else {
                rounded(scaled, power_of_two(places))
            }
        };
        if negative {
            if shown > 0x8000_0000 {
                None
            } else {
                Some(Kelvin { hundredths: (-(shown as i64)) as i32 })
            }
        } else {
            if shown > 0x7fff_ffff {
                None
            } else {
                Some(Kelvin { hundredths: shown as i32 })
            }
        }
    }
}

impl Fahrenheit {
    /// The band that holds this temperature.
    pub fn band(&self) -> (b: Band)
        ensures
            b == band_of(self.parts as int),
    {
        if self.parts >= 100 * PARTS_PER_DEGREE {
            Band::Scorching
        } else if self.parts >= 85 * PARTS_PER_DEGREE {
            Band::Hot
        } else if self.parts >= 70 * PARTS_PER_DEGREE {
            Band::Warm
        } else if self.parts >= 55 * PARTS_PER_DEGREE {
            Band::Mild
        } else if self.parts >= 40 * PARTS_PER_DEGREE {
            Band::Cool
        } else if self.parts >= 0 {
            Band::Cold
        } else {
            Band::Freezing
        }
    }

    /// This temperature with two decimals, as in `71.60` or `-459.67`.
    pub fn to_two_decimals(&self) -> (s: String)
        ensures
            s@ == two_decimals(self.parts as int),
    {
        let shown: u64 = rounded(magnitude_of(self.parts), 5);
        let mut s = String::new();
        if self.parts < 0 {
            proof {
                reveal_strlit("-");
            }
            s.append("-");
        }
        assert(s@ =~= sign_text(self.parts as int));
        push_digits(&mut s, shown / 100);
        proof {
            reveal_strlit(".");
        }
        s.append(".");
        push_digits(&mut s, shown / 10 % 10);
        push_digits(&mut s, shown % 10);
        assert(s@ =~= two_decimals(self.parts as int));
        s
    }

    /// This temperature to the nearest degree, as in `62` or `-460`.
    pub fn to_whole_degrees(&self) -> (s: String)
        ensures
            s@ == whole_degrees(self.parts as int),
    {
        let shown: u64 = rounded(magnitude_of(self.parts), 500);
        let mut s = String::new();
        if self.parts < 0 {
            proof {
                reveal_strlit("-");
            }
            s.append("-");
        }
        assert(s@ =~= sign_text(self.parts as int));
        push_digits(&mut s, shown);
        s
    }
}

/// A temperature belongs to a band exactly when it has reached the band's
/// floor and not the floor of the band above: a temperature that sits on a
/// threshold belongs to the higher of the two bands that meet there.
pub proof fn band_holds_its_range(parts: int, band: Band)
    ensures
        band_of(parts) == band <==> {
            &&& band_floor(band) matches Some(low) ==> low <= parts
            &&& band_ceiling(band) matches Some(high) ==> parts < high
        },
{
}

/// A warmer temperature never falls into a band with a lower floor.
pub proof fn bands_rise_with_temperature(colder: int, warmer: int)
    requires
        colder <= warmer,
    ensures
        band_floor(band_of(colder)) matches Some(low) ==> {
            &&& band_floor(band_of(warmer)) matches Some(other)
            &&& low <= other
        },
{
}

} // verus!
