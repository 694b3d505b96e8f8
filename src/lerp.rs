//! A three-channel fixed-point linear interpolation accumulator.

use vstd::prelude::*;

verus! {

/// Three 8.8 fixed-point accumulators, each with a signed per-step delta.
///
/// Every step yields the top byte of each accumulator and then adds each
/// delta, wrapping modulo 65536: after `k` steps channel `c` holds
/// `(accum[c] + k * delta[c]) mod 65536`.
pub struct ThreePointLerp {
    pub delta: [i16; 3],
    pub accum: [u16; 3],
}

/// `x` wrapped into `0 .. 65536`.
pub open spec fn wrap_u16(x: int) -> int {
    x % 65536
}

/// One wrapped step on top of `k` wrapped steps is `k + 1` wrapped steps.
pub proof fn lemma_accum_step(a: int, d: int, k: int)
    ensures
        wrap_u16(wrap_u16(a + k * d) + d) == wrap_u16(a + (k + 1) * d),
{
    assert((k + 1) * d == k * d + d) by (nonlinear_arith);
}

impl ThreePointLerp {
    /// All accumulators and deltas zero.
    pub fn new() -> (l: Self)
        ensures
            l.delta@ == seq![0i16, 0i16, 0i16],
            l.accum@ == seq![0u16, 0u16, 0u16],
    {
        ThreePointLerp { delta: [0, 0, 0], accum: [0, 0, 0] }
    }

    /// Sets channel `num` to run from `start` to `end`: its delta becomes the
    /// difference times 128, its accumulator `start` in the top byte.
    pub fn set_lerp_from_diff(self, num: usize, start: u8, end: u8) -> (l: Self)
        requires
            num <= 2,
        ensures
            l.delta@ == self.delta@.update(num as int, ((end - start) * 128) as i16),
            l.accum@ == self.accum@.update(num as int, (start * 256) as u16),
    {
        let distance: i16 = ((end as i16) - (start as i16)) * 128;
        self.set_lerp_from_distance(num, start, distance)
    }

    /// Sets channel `num` to start at `start` in the top byte and to move by
    /// the signed `distance`.
    pub fn set_lerp_from_distance(self, num: usize, start: u8, distance: i16) -> (l: Self)
        requires
            num <= 2,
        ensures
            l.delta@ == self.delta@.update(num as int, distance),
            l.accum@ == self.accum@.update(num as int, (start * 256) as u16),
    {
        let mut l = self;
        l.delta[num] = distance;
        l.accum[num] = (start as u16) * 256;
        l
    }

    /// Replaces each delta `d` by `f(d)`.
    pub fn modify_delta<F: Fn(i16) -> i16>(self, f: F) -> (l: Self)
        requires
            forall|d: i16| f.requires((d,)),
        ensures
            forall|c: int| 0 <= c < 3 ==> f.ensures((self.delta@[c],), #[trigger] l.delta@[c]),
            l.accum@ == self.accum@,
    {
        let mut l = self;
        let d0: i16 = f(l.delta[0]);
        let d1: i16 = f(l.delta[1]);
        let d2: i16 = f(l.delta[2]);
        l.delta = [d0, d1, d2];
        assert(l.delta@ =~= seq![d0, d1, d2]);
        l
    }

    /// The top bytes of the three accumulators.
    pub fn lerp(&self) -> (t: (u8, u8, u8))
        ensures
            t == ((self.accum@[0] / 256) as u8, (self.accum@[1] / 256) as u8, (self.accum@[2]
                / 256) as u8),
    {
        ((self.accum[0] / 256) as u8, (self.accum[1] / 256) as u8, (self.accum[2] / 256) as u8)
    }

    /// Yields the current top bytes, then advances every accumulator by its
    /// delta, wrapping.
    pub fn next(&mut self) -> (t: Option<(u8, u8, u8)>)
        ensures
            t == Some(
                (
                    (old(self).accum@[0] / 256) as u8,
                    (old(self).accum@[1] / 256) as u8,
                    (old(self).accum@[2] / 256) as u8,
                ),
            ),
            final(self).delta@ == old(self).delta@,
            final(self).accum@.len() == 3,
            forall|c: int|
                0 <= c < 3 ==> #[trigger] final(self).accum@[c] == wrap_u16(
                    old(self).accum@[c] + old(self).delta@[c],
                ),
    {
        let tuple: (u8, u8, u8) = self.lerp();
        let a0: u16 = self.accum[0].wrapping_add_signed(self.delta[0]);
        let a1: u16 = self.accum[1].wrapping_add_signed(self.delta[1]);
        let a2: u16 = self.accum[2].wrapping_add_signed(self.delta[2]);
        self.accum = [a0, a1, a2];
        assert(self.accum@ =~= seq![a0, a1, a2]);
        Some(tuple)
    }
}

} // verus!
