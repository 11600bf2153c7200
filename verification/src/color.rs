//! Color normalization and classification.
//!
//! A raw tristimulus reading is rescaled against a calibration reference
//! (white point and black point) onto a fixed-point [0, 1] range, reduced to
//! a perceptual brightness, and matched against a priority-ordered list of
//! reference markers.

use vstd::prelude::*;
use vstd::arithmetic::div_mod::{
    lemma_div_is_ordered, lemma_div_multiples_vanish, lemma_div_pos_is_pos,
    lemma_multiply_divide_lt,
};
use vstd::arithmetic::mul::lemma_mul_upper_bound;

verus! {

/// Fixed-point scale: the integer that stands for the real value 1.0.
/// Normalized color channels, brightness values, steering errors, PID gains
/// and the PID bias are all integers measured in units of `1 / SCALE`.
pub const SCALE: i32 = 10000;

/// A raw tristimulus sensor reading: red, green and blue channels in raw
/// sensor units. Values are whatever the sensor delivers; out-of-range or
/// noisy readings are tolerated and handled by clamping downstream.
pub type RawColor = (i32, i32, i32);

/// Distance between two channel values.
pub open spec fn dist(a: int, b: int) -> int {
    if a >= b {
        a - b
    } else {
        b - a
    }
}

/// A reading matches a reference color when every channel lies strictly
/// within the tolerance of the reference channel.
pub open spec fn color_within(c: (int, int, int), reference: (int, int, int), tolerance: int) -> bool {
    &&& dist(c.0, reference.0) < tolerance
    &&& dist(c.1, reference.1) < tolerance
    &&& dist(c.2, reference.2) < tolerance
}

/// The channels of a raw reading as mathematical integers.
pub open spec fn raw_channels(c: RawColor) -> (int, int, int) {
    (c.0 as int, c.1 as int, c.2 as int)
}

/// Whether a raw reading matches the built-in blue marker reference
/// (30, 86, 93) within the built-in tolerance of 30 raw units.
pub fn check_blue(color: RawColor) -> (r: bool)
    ensures
        r == color_within(raw_channels(color), (30, 86, 93), 30),
{
    channel_within(color.0, 30, 30) && channel_within(color.1, 86, 30) && channel_within(
        color.2,
        93,
        30,
    )
}

/// Whether a raw reading matches the built-in red marker reference
/// (124, 27, 17) within the built-in tolerance of 20 raw units.
pub fn check_red(color: RawColor) -> (r: bool)
    ensures
        r == color_within(raw_channels(color), (124, 27, 17), 20),
{
    channel_within(color.0, 124, 20) && channel_within(color.1, 27, 20) && channel_within(
        color.2,
        17,
        20,
    )
}

/// Whether one channel lies strictly within `tolerance` of `reference`.
fn channel_within(value: i32, reference: i32, tolerance: i32) -> (r: bool)
    ensures
        r == (dist(value as int, reference as int) < tolerance),
{
    let v: i64 = value as i64;
    let rf: i64 = reference as i64;
    let d: i64 = if v >= rf {
        v - rf
    } else {
        rf - v
    };
    d < tolerance as i64
}

/// A named marker color: a reading that matches `reference` within
/// `tolerance` on every channel signals the end of the run.
pub struct MarkerReference {
    /// Name reported when this marker ends the run.
    pub label: String,
    /// Reference color in raw sensor units.
    pub reference: RawColor,
    /// Strict per-channel tolerance in raw sensor units.
    pub tolerance: i32,
}

/// Whether a raw reading matches a marker.
pub open spec fn marker_matches(m: MarkerReference, c: RawColor) -> bool {
    color_within(raw_channels(c), raw_channels(m.reference), m.tolerance as int)
}

/// Index of the first marker at or after `i` that matches `c`, if any.
pub open spec fn first_match_from(markers: Seq<MarkerReference>, c: RawColor, i: int) -> Option<int>
    recommends
        0 <= i <= markers.len(),
    decreases markers.len() - i,
{
    if i < 0 || i >= markers.len() {
        None
    } else if marker_matches(markers[i], c) {
        Some(i)
    } else {
        first_match_from(markers, c, i + 1)
    }
}

/// Index of the first marker in priority (declaration) order that matches
/// `c`, or `None` when no marker matches.
pub open spec fn spec_classify(markers: Seq<MarkerReference>, c: RawColor) -> Option<int> {
    first_match_from(markers, c, 0)
}

/// Matches a raw reading against the configured markers in priority
/// (declaration) order and returns the index of the first marker whose
/// tolerance the reading satisfies, or `None` when no marker matches.
pub fn classify(raw: RawColor, markers: &Vec<MarkerReference>) -> (r: Option<usize>)
    ensures
        (r matches Some(u) ==> u < markers@.len() && spec_classify(markers@, raw) == Some(
            u as int,
        )),
        (r is Some <==> spec_classify(markers@, raw) is Some),
{
    let mut idx: usize = 0;
    while idx < markers.len()
        invariant
            idx <= markers@.len(),
            spec_classify(markers@, raw) == first_match_from(markers@, raw, idx as int),
        decreases markers@.len() - idx,
    {
        if matches_marker(&markers[idx], raw) {
            return Some(idx);
        }
        idx = idx + 1;
    }
    None
}

/// Whether a raw reading matches one marker.
fn matches_marker(m: &MarkerReference, c: RawColor) -> (r: bool)
    ensures
        r == marker_matches(*m, c),
{
    channel_within(c.0, m.reference.0, m.tolerance) && channel_within(c.1, m.reference.1, m.tolerance)
        && channel_within(c.2, m.reference.2, m.tolerance)
}

proof fn lemma_first_match_found(markers: Seq<MarkerReference>, raw: RawColor, start: int, i: int)
    requires
        0 <= start <= i < markers.len(),
        marker_matches(markers[i], raw),
    ensures
        first_match_from(markers, raw, start) matches Some(k) && start <= k <= i
            && marker_matches(markers[k], raw),
    decreases i - start,
{
    if !marker_matches(markers[start], raw) {
        lemma_first_match_found(markers, raw, start + 1, i);
    }
}

/// Law: first match wins. When two markers both satisfy their tolerance for
/// the same reading, classification returns a matching marker that stands no
/// later in priority order than the earlier of the two.
pub proof fn lemma_first_match_wins(markers: Seq<MarkerReference>, raw: RawColor, i: int, j: int)
    requires
        0 <= i < j < markers.len(),
        marker_matches(markers[i], raw),
        marker_matches(markers[j], raw),
    ensures
        spec_classify(markers, raw) matches Some(k) && 0 <= k <= i && marker_matches(
            markers[k],
            raw,
        ),
{
    lemma_first_match_found(markers, raw, 0, i);
}

/// Raised at configuration validation when the white point equals the black
/// point on some channel: such a reference cannot normalize.
#[derive(Clone, Copy, Debug)]
pub struct CalibrationError;

/// The white point and black point that normalization rescales against.
/// Valid only when the two differ on every channel.
pub struct CalibrationReference {
    /// Reading of the brightest surface of the course.
    pub white: RawColor,
    /// Reading of the darkest surface of the course.
    pub black: RawColor,
}

impl CalibrationReference {
    /// Normalization divides by `white - black` per channel, so the two
    /// points must differ on every channel.
    pub open spec fn valid(self) -> bool {
        &&& self.white.0 != self.black.0
        &&& self.white.1 != self.black.1
        &&& self.white.2 != self.black.2
    }
}

/// A color rescaled onto [0, 1]: each channel is a fixed-point value in
/// [0, SCALE].
#[derive(Clone, Copy, Debug, PartialEq, Eq, Structural)]
pub struct NormalizedColor {
    /// Red channel in [0, SCALE].
    pub r: i32,
    /// Green channel in [0, SCALE].
    pub g: i32,
    /// Blue channel in [0, SCALE].
    pub b: i32,
}

impl NormalizedColor {
    /// The channels as mathematical integers.
    pub open spec fn channels(self) -> (int, int, int) {
        (self.r as int, self.g as int, self.b as int)
    }

    /// Every channel lies in [0, SCALE].
    pub open spec fn wf(self) -> bool {
        &&& 0 <= self.r <= SCALE
        &&& 0 <= self.g <= SCALE
        &&& 0 <= self.b <= SCALE
    }
}

/// One channel rescaled linearly from [black, white] onto [0, SCALE] and
/// clamped: the fixed-point value of `(raw - black) / (white - black)`,
/// truncated, with out-of-range input clamped rather than rejected.
pub open spec fn norm_channel(raw: int, black: int, white: int) -> int
    recommends
        white != black,
{
    let num = if white >= black {
        raw - black
    } else {
        black - raw
    };
    let den = if white >= black {
        white - black
    } else {
        black - white
    };
    if num <= 0 {
        0
    } else if num >= den {
        SCALE as int
    } else {
        num * (SCALE as int) / den
    }
}

/// All three channels of a reading rescaled against a calibration reference.
pub open spec fn adjust_spec(color: RawColor, reference: CalibrationReference) -> (int, int, int) {
    (
        norm_channel(color.0 as int, reference.black.0 as int, reference.white.0 as int),
        norm_channel(color.1 as int, reference.black.1 as int, reference.white.1 as int),
        norm_channel(color.2 as int, reference.black.2 as int, reference.white.2 as int),
    )
}

fn normalize_channel(raw: i32, black: i32, white: i32) -> (c: i32)
    requires
        white != black,
    ensures
        c == norm_channel(raw as int, black as int, white as int),
        0 <= c <= SCALE,
{
    let (num, den): (i64, i64) = if white >= black {
        (raw as i64 - black as i64, white as i64 - black as i64)
    } else {
        (black as i64 - raw as i64, black as i64 - white as i64)
    };
    if num <= 0 {
        0
    } else if num >= den {
        SCALE
    } else {
        proof {
            lemma_mul_upper_bound(num as int, 0xffff_ffff, SCALE as int, SCALE as int);
            lemma_div_pos_is_pos(num * (SCALE as int), den as int);
            lemma_multiply_divide_lt(num * (SCALE as int), den as int, SCALE as int);
            assert(num * (SCALE as int) < den * (SCALE as int)) by (nonlinear_arith)
                requires
                    0 < num < den,
            ;
        }
        let q: u64 = (num as u64) * (SCALE as u64) / (den as u64);
        q as i32
    }
}

/// Rescales a raw reading against the calibration reference, channel by
/// channel, onto [0, SCALE], clamping out-of-range input (sensor noise or
/// saturation) instead of failing. Every output channel lies in [0, SCALE].
pub fn adjust_color(color: RawColor, reference: &CalibrationReference) -> (n: NormalizedColor)
    requires
        reference.valid(),
    ensures
        n.channels() == adjust_spec(color, *reference),
        n.wf(),
{
    NormalizedColor {
        r: normalize_channel(color.0, reference.black.0, reference.white.0),
        g: normalize_channel(color.1, reference.black.1, reference.white.1),
        b: normalize_channel(color.2, reference.black.2, reference.white.2),
    }
}

/// Law: normalization maps the calibration endpoints to the extremes.
/// The white point normalizes to (SCALE, SCALE, SCALE), standing for
/// (1, 1, 1), and the black point to (0, 0, 0).
pub proof fn lemma_normalize_endpoints(reference: CalibrationReference)
    requires
        reference.valid(),
    ensures
        adjust_spec(reference.white, reference) == ((SCALE as int, SCALE as int, SCALE as int)),
        adjust_spec(reference.black, reference) == ((0int, 0int, 0int)),
{
}

/// Perceptual luma of a normalized color: the fixed-point value of
/// `0.299 r + 0.587 g + 0.114 b`, truncated. The weights sum to one, so the
/// result lies in [0, SCALE] whenever the channels lie in [0, SCALE].
pub open spec fn brightness_of(c: (int, int, int)) -> int {
    (299 * c.0 + 587 * c.1 + 114 * c.2) / 1000
}

/// Weighted perceptual brightness of a normalized color, in [0, SCALE].
pub fn calculate_brightness(color: &NormalizedColor) -> (b: i32)
    requires
        color.wf(),
    ensures
        b == brightness_of(color.channels()),
        0 <= b <= SCALE,
{
    let sum: i64 = 299 * (color.r as i64) + 587 * (color.g as i64) + 114 * (color.b as i64);
    proof {
        lemma_div_pos_is_pos(sum as int, 1000);
        lemma_div_is_ordered(sum as int, 1000 * (SCALE as int), 1000);
        lemma_div_multiples_vanish(SCALE as int, 1000);
    }
    let q: u64 = (sum as u64) / 1000;
    q as i32
}

} // verus!
