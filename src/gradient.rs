//! Two-color gradients in HSV and RGB space, and the resolution of a
//! gradient's direction around the hue wheel.

use vstd::prelude::*;

use crate::hsv::{FromHsv, HSV};
use crate::lerp::{lemma_accum_step, wrap_u16, ThreePointLerp};
use crate::rgb::ColorRGB;

verus! {

/// A direction around the color wheel that a hue can go.
#[derive(Clone, Copy, Debug, PartialEq, Eq, Structural)]
pub enum HueDirection {
    /// Clockwise: the hue increases, wrapping from 255 to 0.
    Forward,
    /// Counter-clockwise: the hue decreases, wrapping from 0 to 255.
    Backwards,
}

/// A direction around the color wheel that a gradient can go.
#[derive(Clone, Copy, Debug, PartialEq, Eq, Structural)]
pub enum GradientDirection {
    /// Clockwise: the hue increases, wrapping from 255 to 0.
    Forward,
    /// Counter-clockwise: the hue decreases, wrapping from 0 to 255.
    Backwards,
    /// Whichever way around the wheel is shorter.
    Shortest,
    /// Whichever way around the wheel is longer.
    Longest,
}

/// The way a gradient direction goes for the clockwise hue difference `hue_diff`:
/// more than 127 makes going backwards the short way.
pub open spec fn resolve_direction(dir: GradientDirection, hue_diff: u8) -> HueDirection {
    match dir {
        GradientDirection::Shortest => if hue_diff > 127 {
            HueDirection::Backwards
        } else {
            HueDirection::Forward
        },
        GradientDirection::Longest => if hue_diff < 128 {
            HueDirection::Backwards
        } else {
            HueDirection::Forward
        },
        GradientDirection::Forward => HueDirection::Forward,
        GradientDirection::Backwards => HueDirection::Backwards,
    }
}

/// The clockwise difference from hue `start` to hue `end`, modulo 256.
pub open spec fn hue_diff(start: u8, end: u8) -> u8 {
    ((end - start) % 256) as u8
}

/// The signed hue distance in 8.8 fixed point, halved: the clockwise
/// difference going forward, minus the counter-clockwise one going backwards.
pub open spec fn hue_distance(dir: GradientDirection, start: u8, end: u8) -> int {
    let diff = hue_diff(start, end);
    match resolve_direction(dir, diff) {
        HueDirection::Forward => diff * 128,
        HueDirection::Backwards => if diff == 0 {
            0
        } else {
            -((256 - diff) * 128)
        },
    }
}

/// `a / n` rounded toward zero.
pub open spec fn trunc_div(a: int, n: int) -> int {
    if a < 0 {
        -((-a) / n)
    } else {
        a / n
    }
}

/// `x` wrapped into the range of `i16`.
pub open spec fn wrap_i16(x: int) -> int {
    if x % 65536 > 32767 {
        x % 65536 - 65536
    } else {
        x % 65536
    }
}

/// The per-step delta of a channel that moves `distance` over `len` steps:
/// the distance divided by the step count, then doubled, as an `i16`.
pub open spec fn step_delta(distance: int, len: int) -> int {
    wrap_i16(2 * trunc_div(distance, len))
}

/// The top byte of a channel that starts at `start` after `k` steps of `delta`.
pub open spec fn lerp_byte(start: u8, delta: int, k: int) -> u8 {
    (wrap_u16(start * 256 + k * delta) / 256) as u8
}

/// The end color of an HSV gradient: without saturation or value its hue
/// is meaningless and becomes the start's hue.
pub open spec fn gradient_end(start: HSV, end: HSV) -> HSV {
    if end.v == 0 || end.s == 0 {
        HSV { h: start.h, ..end }
    } else {
        end
    }
}

/// The start color of an HSV gradient: without saturation or value its hue
/// becomes the (adjusted) end's hue.
pub open spec fn gradient_start(start: HSV, end: HSV) -> HSV {
    if start.v == 0 || start.s == 0 {
        HSV { h: gradient_end(start, end).h, ..start }
    } else {
        start
    }
}

/// Element `k` of an HSV gradient of `len` elements from `start` toward `end`.
pub open spec fn hsv_gradient_at(
    start: HSV,
    end: HSV,
    dir: GradientDirection,
    len: int,
    k: int,
) -> HSV {
    let s = gradient_start(start, end);
    let e = gradient_end(start, end);
    HSV {
        h: lerp_byte(s.h, step_delta(hue_distance(dir, s.h, e.h), len), k),
        s: lerp_byte(s.s, step_delta((e.s - s.s) * 128, len), k),
        v: lerp_byte(s.v, step_delta((e.v - s.v) * 128, len), k),
    }
}

/// Element `k` of an RGB gradient of `len` elements from `start` toward `end`.
pub open spec fn rgb_gradient_at(start: ColorRGB, end: ColorRGB, len: int, k: int) -> ColorRGB {
    ColorRGB {
        r: lerp_byte(start.r, step_delta((end.r - start.r) * 128, len), k),
        g: lerp_byte(start.g, step_delta((end.g - start.g) * 128, len), k),
        b: lerp_byte(start.b, step_delta((end.b - start.b) * 128, len), k),
    }
}

/// Element 0 of any HSV gradient is its (hue-adjusted) start color.
pub proof fn lemma_hsv_gradient_starts_at_start(
    start: HSV,
    end: HSV,
    dir: GradientDirection,
    len: int,
)
    ensures
        hsv_gradient_at(start, end, dir, len, 0) == gradient_start(start, end),
{
    assert forall|b: u8, d: int| #[trigger] lerp_byte(b, d, 0) == b by {
        assert(0 * d == 0);
    }
}

/// Element 0 of any RGB gradient is its start color; a gradient of one
/// element is exactly the start color.
pub proof fn lemma_rgb_gradient_starts_at_start(start: ColorRGB, end: ColorRGB, len: int)
    ensures
        rgb_gradient_at(start, end, len, 0) == start,
{
    assert forall|b: u8, d: int| #[trigger] lerp_byte(b, d, 0) == b by {
        assert(0 * d == 0);
    }
}

impl GradientDirection {
    /// Resolves into a real direction for the clockwise hue difference
    /// `hue_diff = end_hue - start_hue` (wrapping).
    pub fn into_hue_direction(self, hue_diff: u8) -> (d: HueDirection)
        ensures
            d == resolve_direction(self, hue_diff),
    {
        match self {
            GradientDirection::Shortest => {
                if hue_diff > 127 {
                    HueDirection::Backwards
                } else {
                    HueDirection::Forward
                }
            },
            GradientDirection::Longest => {
                if hue_diff < 128 {
                    HueDirection::Backwards
                } else {
                    HueDirection::Forward
                }
            },
            GradientDirection::Forward => HueDirection::Forward,
            GradientDirection::Backwards => HueDirection::Backwards,
        }
    }

    /// Resolves into `Forward` or `Backwards` for the clockwise hue difference
    /// `hue_diff = end_hue - start_hue` (wrapping).
    pub fn force_direction(self, hue_diff: u8) -> (d: GradientDirection)
        ensures
            resolve_direction(self, hue_diff) == HueDirection::Forward ==> d
                == GradientDirection::Forward,
            resolve_direction(self, hue_diff) == HueDirection::Backwards ==> d
                == GradientDirection::Backwards,
    {
        GradientDirection::from(self.into_hue_direction(hue_diff))
    }

    /// The signed hue distance from `start_hue` to `end_hue` in this
    /// direction, in 8.8 fixed point halved: going forward it lies in
    /// `0 ..= 32640`, going backwards in `-32640 ..= 0`.
    pub fn into_hue_distance(self, start_hue: u8, end_hue: u8) -> (d: i16)
        ensures
            d == hue_distance(self, start_hue, end_hue),
            resolve_direction(self, hue_diff(start_hue, end_hue)) == HueDirection::Forward ==> 0
                <= d <= 32640,
            resolve_direction(self, hue_diff(start_hue, end_hue)) == HueDirection::Backwards
                ==> -32640 <= d <= 0,
    {
        let hue_diff: u8 = end_hue.wrapping_sub(start_hue);
        match self.into_hue_direction(hue_diff) {
            HueDirection::Forward => (hue_diff as i16) * 128,
            HueDirection::Backwards => {
                let back: u8 = 0u8.wrapping_sub(hue_diff);
                -((back as i16) * 128)
            },
        }
    }
}

impl From<HueDirection> for GradientDirection {
    fn from(dir: HueDirection) -> (g: GradientDirection)
        ensures
            dir == HueDirection::Forward ==> g == GradientDirection::Forward,
            dir == HueDirection::Backwards ==> g == GradientDirection::Backwards,
    {
        match dir {
            HueDirection::Forward => GradientDirection::Forward,
            HueDirection::Backwards => GradientDirection::Backwards,
        }
    }
}

impl vstd::std_specs::convert::FromSpecImpl<HueDirection> for GradientDirection {
    open spec fn obeys_from_spec() -> bool {
        true
    }

    open spec fn from_spec(v: HueDirection) -> GradientDirection {
        match v {
            HueDirection::Forward => GradientDirection::Forward,
            HueDirection::Backwards => GradientDirection::Backwards,
        }
    }
}

/// `d / n` rounded toward zero.
fn div_toward_zero(d: i16, n: usize) -> (q: i16)
    requires
        n > 0,
    ensures
        q == trunc_div(d as int, n as int),
{
    let mag: u32 = if d >= 0 {
        d as u32
    } else {
        (0 - (d as i32)) as u32
    };
    let m: u32 = if n > 65536 {
        65536
    } else {
        n as u32
    };
    let qm: u32 = mag / m;
    proof {
        if n > 65536 {
            assert(mag as int / n as int == 0) by (nonlinear_arith)
                requires
                    0 <= mag <= 32768,
                    n > 65536,
            ;
        }
        assert(qm <= mag) by (nonlinear_arith)
            requires
                qm == mag as int / m as int,
                m >= 1,
                mag >= 0,
        ;
    }
    if d >= 0 {
        qm as i16
    } else {
        (0 - (qm as i32)) as i16
    }
}

/// The deltas of `lerp` divided by `len` toward zero and then doubled, wrapping.
fn per_step(lerp: ThreePointLerp, len: usize) -> (l: ThreePointLerp)
    requires
        len > 0,
        lerp.delta@.len() == 3,
    ensures
        l.accum@ == lerp.accum@,
        l.delta@.len() == 3,
        forall|c: int| 0 <= c < 3 ==> #[trigger] l.delta@[c] == step_delta(lerp.delta@[c] as int, len as int),
{
    let divide = |d: i16| -> (q: i16)
        requires
            (len > 0),
        ensures
            (q == trunc_div(d as int, len as int)),
        { div_toward_zero(d, len) };
    let double = |d: i16| -> (q: i16)
        ensures
            (q == wrap_i16(2 * d)),
        { d.wrapping_mul(2) };
    let divided = lerp.modify_delta(divide);
    let doubled = divided.modify_delta(double);
    assert forall|c: int| 0 <= c < 3 implies #[trigger] doubled.delta@[c] == step_delta(
        lerp.delta@[c] as int,
        len as int,
    ) by {
        assert(divided.delta@[c] == trunc_div(lerp.delta@[c] as int, len as int));
    }
    doubled
}

/// Fills `output[0..count]` with the HSV gradient of `count` elements; the
/// rest of `output` stays as it is.
fn fill_hsv_prefix<C: FromHsv>(
    start: HSV,
    end: HSV,
    dir: GradientDirection,
    output: &mut [C],
    count: usize,
)
    requires
        count <= old(output)@.len(),
    ensures
        final(output)@.len() == old(output)@.len(),
        forall|k: int|
            0 <= k < count ==> #[trigger] final(output)@[k] == C::from_hsv_spec(
                hsv_gradient_at(start, end, dir, count as int, k),
            ),
        forall|k: int| count <= k < old(output)@.len() ==> #[trigger] final(output)@[k] == old(output)@[k],
{
    if count == 0 {
        return ;
    }
    let mut from: HSV = start;
    let mut to: HSV = end;
    if to.v == 0 || to.s == 0 {
        to.h = from.h;
    }
    if from.v == 0 || from.s == 0 {
        from.h = to.h;
    }
    let hue_dist: i16 = dir.into_hue_distance(from.h, to.h);
    let lerp: ThreePointLerp = ThreePointLerp::new().set_lerp_from_distance(
        0,
        from.h,
        hue_dist,
    ).set_lerp_from_diff(1, from.s, to.s).set_lerp_from_diff(2, from.v, to.v);
    let mut lerp: ThreePointLerp = per_step(lerp, count);
    let ghost lerp0 = lerp;
    let ghost out0 = output@;
    let mut i: usize = 0;
    while i < count
        invariant
            0 <= i <= count,
            count <= out0.len(),
            output@.len() == out0.len(),
            lerp.delta@ == lerp0.delta@,
            lerp.accum@.len() == 3,
            lerp0.delta@.len() == 3,
            lerp0.accum@ == seq![(from.h * 256) as u16, (from.s * 256) as u16, (from.v * 256) as u16],
            lerp0.delta@[0] == step_delta(hue_distance(dir, from.h, to.h), count as int),
            lerp0.delta@[1] == step_delta((to.s - from.s) * 128, count as int),
            lerp0.delta@[2] == step_delta((to.v - from.v) * 128, count as int),
            from == gradient_start(start, end),
            to == gradient_end(start, end),
            forall|c: int|
                0 <= c < 3 ==> #[trigger] lerp.accum@[c] == wrap_u16(
                    lerp0.accum@[c] + i * lerp0.delta@[c],
                ),
            forall|j: int|
                0 <= j < i ==> #[trigger] output@[j] == C::from_hsv_spec(
                    hsv_gradient_at(start, end, dir, count as int, j),
                ),
            forall|j: int| count <= j < out0.len() ==> #[trigger] output@[j] == out0[j],
        decreases count - i,
    {
        proof {
            lemma_accum_step(lerp0.accum@[0] as int, lerp0.delta@[0] as int, i as int);
            lemma_accum_step(lerp0.accum@[1] as int, lerp0.delta@[1] as int, i as int);
            lemma_accum_step(lerp0.accum@[2] as int, lerp0.delta@[2] as int, i as int);
        }
        if let Some((h, s, v)) = lerp.next() {
            output[i] = C::from_hsv(HSV::new(h, s, v));
        }
        proof {
            assert(lerp.accum@[0] == wrap_u16(lerp0.accum@[0] + (i + 1) * lerp0.delta@[0]));
            assert(lerp.accum@[1] == wrap_u16(lerp0.accum@[1] + (i + 1) * lerp0.delta@[1]));
            assert(lerp.accum@[2] == wrap_u16(lerp0.accum@[2] + (i + 1) * lerp0.delta@[2]));
        }
        i += 1;
    }
}

/// Fills `output[0..count]` with the RGB gradient of `count` elements; the
/// rest of `output` stays as it is.
fn fill_rgb_prefix(start: ColorRGB, end: ColorRGB, output: &mut [ColorRGB], count: usize)
    requires
        count <= old(output)@.len(),
    ensures
        final(output)@.len() == old(output)@.len(),
        forall|k: int|
            0 <= k < count ==> #[trigger] final(output)@[k] == rgb_gradient_at(
                start,
                end,
                count as int,
                k,
            ),
        forall|k: int| count <= k < old(output)@.len() ==> #[trigger] final(output)@[k] == old(output)@[k],
{
    if count == 0 {
        return ;
    }
    let lerp: ThreePointLerp = ThreePointLerp::new().set_lerp_from_diff(
        0,
        start.r,
        end.r,
    ).set_lerp_from_diff(1, start.g, end.g).set_lerp_from_diff(2, start.b, end.b);
    let mut lerp: ThreePointLerp = per_step(lerp, count);
    let ghost lerp0 = lerp;
    let ghost out0 = output@;
    let mut i: usize = 0;
    while i < count
        invariant
            0 <= i <= count,
            count <= out0.len(),
            output@.len() == out0.len(),
            lerp.delta@ == lerp0.delta@,
            lerp.accum@.len() == 3,
            lerp0.delta@.len() == 3,
            lerp0.accum@ == seq![(start.r * 256) as u16, (start.g * 256) as u16, (start.b * 256) as u16],
            lerp0.delta@[0] == step_delta((end.r - start.r) * 128, count as int),
            lerp0.delta@[1] == step_delta((end.g - start.g) * 128, count as int),
            lerp0.delta@[2] == step_delta((end.b - start.b) * 128, count as int),
            forall|c: int|
                0 <= c < 3 ==> #[trigger] lerp.accum@[c] == wrap_u16(
                    lerp0.accum@[c] + i * lerp0.delta@[c],
                ),
            forall|j: int|
                0 <= j < i ==> #[trigger] output@[j] == rgb_gradient_at(start, end, count as int, j),
            forall|j: int| count <= j < out0.len() ==> #[trigger] output@[j] == out0[j],
        decreases count - i,
    {
        proof {
            lemma_accum_step(lerp0.accum@[0] as int, lerp0.delta@[0] as int, i as int);
            lemma_accum_step(lerp0.accum@[1] as int, lerp0.delta@[1] as int, i as int);
            lemma_accum_step(lerp0.accum@[2] as int, lerp0.delta@[2] as int, i as int);
        }
        if let Some((r, g, b)) = lerp.next() {
            output[i] = ColorRGB::new(r, g, b);
        }
        proof {
            assert(lerp.accum@[0] == wrap_u16(lerp0.accum@[0] + (i + 1) * lerp0.delta@[0]));
            assert(lerp.accum@[1] == wrap_u16(lerp0.accum@[1] + (i + 1) * lerp0.delta@[1]));
            assert(lerp.accum@[2] == wrap_u16(lerp0.accum@[2] + (i + 1) * lerp0.delta@[2]));
        }
        i += 1;
    }
}

/// Fills `output` with a gradient from `start` toward `end`, exclusive of
/// `end`: element 0 is the (hue-adjusted) start, the last element the color
/// one step before the end. An empty `output` is left as it is.
pub fn hsv_gradient<C: FromHsv>(start: HSV, end: HSV, dir: GradientDirection, output: &mut [C])
    ensures
        final(output)@.len() == old(output)@.len(),
        old(output)@.len() == 0 ==> final(output)@ == old(output)@,
        forall|k: int|
            0 <= k < old(output)@.len() ==> #[trigger] final(output)@[k] == C::from_hsv_spec(
                hsv_gradient_at(start, end, dir, old(output)@.len() as int, k),
            ),
{
    let len: usize = output.len();
    fill_hsv_prefix(start, end, dir, output, len);
    assert(len == 0 ==> output@ =~= old(output)@);
}

/// Fills `output` with a gradient from `start` to `end` inclusive: the last
/// element is `end` itself, the ones before it the gradient of one element
/// fewer. An empty `output` is left as it is.
pub fn hsv_gradient_inclusive_end<C: FromHsv>(
    start: HSV,
    end: HSV,
    dir: GradientDirection,
    output: &mut [C],
)
    ensures
        final(output)@.len() == old(output)@.len(),
        old(output)@.len() > 0 ==> final(output)@[old(output)@.len() - 1] == C::from_hsv_spec(end),
        forall|k: int|
            0 <= k < old(output)@.len() - 1 ==> #[trigger] final(output)@[k] == C::from_hsv_spec(
                hsv_gradient_at(start, end, dir, old(output)@.len() - 1, k),
            ),
{
    let len: usize = output.len();
    if len == 0 {
        return ;
    }
    output[len - 1] = C::from_hsv(end);
    fill_hsv_prefix(start, end, dir, output, len - 1);
}

/// Fills `output` with a gradient from `start` toward `end`, exclusive of
/// `end`: element 0 is `start`. An empty `output` is left as it is.
pub fn rgb_gradient(start: ColorRGB, end: ColorRGB, output: &mut [ColorRGB])
    ensures
        final(output)@.len() == old(output)@.len(),
        old(output)@.len() == 0 ==> final(output)@ == old(output)@,
        forall|k: int|
            0 <= k < old(output)@.len() ==> #[trigger] final(output)@[k] == rgb_gradient_at(
                start,
                end,
                old(output)@.len() as int,
                k,
            ),
        old(output)@.len() > 0 ==> final(output)@[0] == start,
{
    let len: usize = output.len();
    fill_rgb_prefix(start, end, output, len);
    assert(len == 0 ==> output@ =~= old(output)@);
    proof {
        lemma_rgb_gradient_starts_at_start(start, end, len as int);
    }
}

/// Fills `output` with a gradient from `start` to `end` inclusive: the last
/// element is `end` itself, the ones before it the gradient of one element
/// fewer. An empty `output` is left as it is.
pub fn rgb_gradient_inclusive_end(start: ColorRGB, end: ColorRGB, output: &mut [ColorRGB])
    ensures
        final(output)@.len() == old(output)@.len(),
        old(output)@.len() > 0 ==> final(output)@[old(output)@.len() - 1] == end,
        forall|k: int|
            0 <= k < old(output)@.len() - 1 ==> #[trigger] final(output)@[k] == rgb_gradient_at(
                start,
                end,
                old(output)@.len() - 1,
                k,
            ),
{
    let len: usize = output.len();
    if len == 0 {
        return ;
    }
    output[len - 1] = end;
    fill_rgb_prefix(start, end, output, len - 1);
}

} // verus!
