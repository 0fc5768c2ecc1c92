//! The media model: rational rates, timestamps, tracks and packets.
use vstd::prelude::*;

use crate::codec::SubtitleInfo;
use crate::span::Span;

verus! {

/// Greatest common divisor by Euclid's recursion.
pub open spec fn spec_gcd(a: nat, b: nat) -> nat
    decreases b,
{
    if b == 0 {
        a
    } else {
        spec_gcd(b, a % b)
    }
}

/// The greatest common divisor of two numbers that are not both zero is
/// positive, so dividing by it is well defined.
pub proof fn lemma_gcd_pos(a: nat, b: nat)
    requires
        a != 0 || b != 0,
    ensures
        spec_gcd(a, b) >= 1,
    decreases b,
{
    if b != 0 {
        lemma_gcd_pos(b, a % b);
    }
}


/// Law: Euclid's value divides both arguments, so `simplify` divides its
/// terms exactly.
pub proof fn lemma_gcd_divides(a: nat, b: nat)
    requires
        a != 0 || b != 0,
    ensures
        a as int % (spec_gcd(a, b) as int) == 0,
        b as int % (spec_gcd(a, b) as int) == 0,
    decreases b,
{
    lemma_gcd_pos(a, b);
    let g = spec_gcd(a, b) as int;
    if b == 0 {
        assert(a as int % g == 0) by (nonlinear_arith)
            requires
                g == a as int,
                g > 0,
        ;
        assert(0int % g == 0) by (nonlinear_arith)
            requires
                g > 0,
        ;
    } else {
        let r = a % b;
        lemma_gcd_divides(b, r);
        vstd::arithmetic::div_mod::lemma_fundamental_div_mod(a as int, b as int);
        vstd::arithmetic::div_mod::lemma_fundamental_div_mod(b as int, g);
        vstd::arithmetic::div_mod::lemma_fundamental_div_mod(r as int, g);
        let q = a as int / b as int;
        let kb = b as int / g;
        let kr = r as int / g;
        assert(a as int == (q * kb + kr) * g) by (nonlinear_arith)
            requires
                a as int == b as int * q + r as int,
                b as int == g * kb,
                r as int == g * kr,
        ;
        vstd::arithmetic::div_mod::lemma_mod_multiples_basic(q * kb + kr, g);
    }
}

/// Law: every common divisor is no larger than Euclid's value: it really is
/// the greatest.
pub proof fn lemma_gcd_greatest(a: nat, b: nat, d: nat)
    requires
        a != 0 || b != 0,
        d >= 1,
        a as int % (d as int) == 0,
        b as int % (d as int) == 0,
    ensures
        d <= spec_gcd(a, b),
    decreases b,
{
    if b == 0 {
        // the value is `a` itself, and a positive multiple of `d` is at least `d`
        vstd::arithmetic::div_mod::lemma_fundamental_div_mod(a as int, d as int);
        let k = a as int / d as int;
        assert(d <= a) by (nonlinear_arith)
            requires
                a as int == d as int * k,
                a > 0,
                d >= 1,
        ;
    } else {
        let r = a % b;
        // `d` divides the remainder too
        vstd::arithmetic::div_mod::lemma_fundamental_div_mod(a as int, b as int);
        vstd::arithmetic::div_mod::lemma_fundamental_div_mod(a as int, d as int);
        vstd::arithmetic::div_mod::lemma_fundamental_div_mod(b as int, d as int);
        let q = a as int / b as int;
        let ka = a as int / d as int;
        let kb = b as int / d as int;
        assert(r as int == (ka - q * kb) * d) by (nonlinear_arith)
            requires
                a as int == b as int * q + r as int,
                a as int == d as int * ka,
                b as int == d as int * kb,
        ;
        vstd::arithmetic::div_mod::lemma_mod_multiples_basic(ka - q * kb, d as int);
        lemma_gcd_greatest(b, r, d);
    }
}

/// Relies on gcd::Gcd::gcd for u32: it returns the greatest common divisor
/// of its two arguments (binary GCD), the same value Euclid's recursion gives.
#[verifier::external_body]
fn gcd_u32(a: u32, b: u32) -> (r: u32)
    ensures
        r == spec_gcd(a as nat, b as nat),
{
    gcd::Gcd::gcd(a, b)
}

/// An exact rational number, used for frame rates, sample rates and
/// timestamp scales; exact arithmetic must use this pair form rather than
/// a floating approximation, to avoid rounding drift in timing computations.
#[derive(Clone, Copy, Debug, PartialEq, Eq, Structural)]
pub struct Fraction {
    pub numerator: u32,
    pub denominator: u32,
}

impl Fraction {
    pub fn new(numerator: u32, denominator: u32) -> (r: Self)
        ensures
            r.numerator == numerator,
            r.denominator == denominator,
    {
        Fraction { numerator, denominator }
    }

    /// Reduces the fraction to lowest terms: both terms are divided by
    /// their greatest common divisor.
    pub fn simplify(&self) -> (r: Fraction)
        requires
            self.numerator != 0 || self.denominator != 0,
        ensures
            r.numerator == self.numerator as nat / spec_gcd(
                self.numerator as nat,
                self.denominator as nat,
            ),
            r.denominator == self.denominator as nat / spec_gcd(
                self.numerator as nat,
                self.denominator as nat,
            ),
    {
        proof {
            lemma_gcd_pos(self.numerator as nat, self.denominator as nat);
        }
        let divisor = gcd_u32(self.numerator, self.denominator);
        Fraction::new(self.numerator / divisor, self.denominator / divisor)
    }
}

/// A timestamp: a tick count against a rational timebase.
#[derive(Clone, Copy, Debug)]
pub struct MediaTime {
    pub pts: u64,
    pub timebase: Fraction,
}

/// The codec name and codec-specific description a decoder is started from.
#[derive(Clone, Debug)]
pub struct MediaInfo {
    pub name: String,
    pub subtitle: SubtitleInfo,
}

/// A numerically identified media stream within a session. The identifier
/// stays stable for the track's whole lifetime, so per-track transcoding
/// state stays correctly keyed.
#[derive(Clone, Debug)]
pub struct Track {
    pub id: u32,
    pub info: MediaInfo,
}

/// A timestamped unit of encoded media data, tagged with the owning track's
/// identifier. Packets are immutable value objects; the single permitted
/// mutation is retagging the track id on transcoded output.
#[derive(Clone, Debug)]
pub struct Packet {
    pub time: MediaTime,
    pub track: Track,
    pub buffer: Span,
}

impl Packet {
    /// Retags the packet with the session-level track id: the single
    /// permitted mutation of an output packet. Everything else — the
    /// timestamp, the payload, the track's codec description — stays
    /// exactly as the producer made it.
    pub fn retag(self, track_id: u32) -> (r: Packet)
        ensures
            r.track.id == track_id,
            r.time == self.time,
            r.buffer == self.buffer,
            r.track.info == self.track.info,
    {
        let mut p = self;
        p.track.id = track_id;
        p
    }
}

} // verus!
