//! Dividing a length among weights without losing or inventing a unit.
//!
//! Each weight in turn takes its part of the total, rounded to the nearest
//! whole number. What the rounding gave too much or too little is carried
//! over to the next part, so that the parts of all weights add up to the
//! total exactly.

use vstd::prelude::*;
use vstd::arithmetic::div_mod::{lemma_div_pos_is_pos, lemma_fundamental_div_mod};
use crate::geometry::ScreenCoord;

verus! {

/// The largest sum of weights that a division accepts.
pub const SUM_LIMIT: u128 = 0x1_0000_0000_0000_0000_0000_0000;

/// A division of `total` among weights that add up to `sum`, part of the
/// way through.
///
/// `carry` holds what the parts so far were rounded by: it is twice the
/// remainder plus `sum`, so it starts at `sum` and stays below twice `sum`.
#[derive(Clone, Copy, Debug, PartialEq, Eq, Structural)]
pub struct Shares {
    /// The length that is divided.
    pub total: ScreenCoord,
    /// The sum of all weights.
    pub sum: u128,
    /// The rounding carried over from the parts taken so far.
    pub carry: u128,
}

impl Shares {
    /// Whether the division can go on: the sum is within the limit and the
    /// carry is below twice the sum.
    pub open spec fn wf(self) -> bool {
        &&& self.sum <= SUM_LIMIT
        &&& if self.sum == 0 {
            self.carry == 0
        } else {
            self.carry < 2 * self.sum
        }
    }

    /// The division of `total` among weights that add up to `sum`, before
    /// any part is taken.
    pub open spec fn spec_start(total: ScreenCoord, sum: u128) -> Shares {
        Shares { total, sum, carry: sum }
    }

    /// The part of the next weight, before it is stopped at the largest
    /// coordinate: the weight's exact part plus the carry, rounded.
    pub open spec fn quota(self, weight: u8) -> int {
        (2 * self.total * weight + self.carry) / (2 * self.sum)
    }

    /// The part of the next weight. Where the weights add up to zero, every
    /// part is zero.
    pub open spec fn share(self, weight: u8) -> ScreenCoord {
        if self.sum == 0 {
            0
        } else if self.quota(weight) > 255 {
            255
        } else {
            self.quota(weight) as ScreenCoord
        }
    }

    /// The division after the next weight has taken its part.
    pub open spec fn after(self, weight: u8) -> Shares {
        if self.sum == 0 {
            self
        } else {
            Shares {
                carry: ((2 * self.total * weight + self.carry) % (2 * self.sum)) as u128,
                ..self
            }
        }
    }

    /// Starts a division of `total` among weights that add up to `sum`.
    #[verifier::when_used_as_spec(spec_start)]
    pub fn start(total: ScreenCoord, sum: u128) -> (s: Shares)
        ensures
            s == Shares::spec_start(total, sum),
            sum <= SUM_LIMIT ==> s.wf(),
    {
        Shares { total, sum, carry: sum }
    }

    /// Takes the part of the next weight.
    pub fn next(&mut self, weight: u8) -> (part: ScreenCoord)
        requires
            old(self).wf(),
        ensures
            part == old(self).share(weight),
            *final(self) == old(self).after(weight),
            final(self).wf(),
    {
        if self.sum == 0 {
            return 0;
        }
        assert(2 * self.total * weight <= 2 * 255 * 255) by (nonlinear_arith)
            requires
                self.total <= 255,
                weight <= 255,
        ;
        let t: u128 = 2 * (self.total as u128) * (weight as u128) + self.carry;
        let d: u128 = 2 * self.sum;
        let q: u128 = t / d;
        self.carry = t % d;
        if q > 255 {
            255
        } else {
            q as ScreenCoord
        }
    }
}

/// The sum of the weights from index `from` on.
pub open spec fn weight_sum(weights: Seq<u8>, from: int) -> int
    decreases weights.len() - from,
{
    if from < 0 || from >= weights.len() {
        0
    } else {
        weights[from] + weight_sum(weights, from + 1)
    }
}

/// The sum of the parts that the weights from index `from` on take in turn.
pub open spec fn parts_sum(s: Shares, weights: Seq<u8>, from: int) -> int
    decreases weights.len() - from,
{
    if from < 0 || from >= weights.len() {
        0
    } else {
        s.share(weights[from]) + parts_sum(s.after(weights[from]), weights, from + 1)
    }
}

/// The carry that is left after the weights from index `from` on have
/// taken their parts.
pub open spec fn parts_carry(s: Shares, weights: Seq<u8>, from: int) -> int
    decreases weights.len() - from,
{
    if from < 0 || from >= weights.len() {
        s.carry as int
    } else {
        parts_carry(s.after(weights[from]), weights, from + 1)
    }
}

/// A weight that is part of the sum takes no more than the total, and the
/// carry stays below twice the sum.
pub proof fn lemma_share_bounded(s: Shares, weight: u8)
    requires
        s.wf(),
        s.sum > 0,
        weight <= s.sum,
    ensures
        0 <= s.quota(weight) <= s.total,
        s.share(weight) == s.quota(weight),
        s.after(weight).wf(),
        2 * s.total * weight + s.carry == 2 * s.sum * s.quota(weight) + s.after(weight).carry,
{
    let t = 2 * s.total * weight + s.carry;
    let d = 2 * s.sum;
    assert(t >= 0) by (nonlinear_arith)
        requires
            t == 2 * s.total * weight + s.carry,
            s.total >= 0,
            weight >= 0,
            s.carry >= 0,
    ;
    lemma_fundamental_div_mod(t, d);
    lemma_div_pos_is_pos(t, d);
    assert(t < d * (s.total + 1)) by (nonlinear_arith)
        requires
            t == 2 * s.total * weight + s.carry,
            d == 2 * s.sum,
            s.carry < 2 * s.sum,
            weight <= s.sum,
            s.total >= 0,
            weight >= 0,
    ;
    assert(t / d < s.total + 1) by (nonlinear_arith)
        requires
            t == d * (t / d) + t % d,
            0 <= t % d < d,
            t < d * (s.total + 1),
            d > 0,
    ;
}

/// The invariant of a division: the weights taken so far, the parts given
/// so far and the carry always balance.
proof fn lemma_parts_balance(s: Shares, weights: Seq<u8>, from: int)
    requires
        s.wf(),
        s.sum > 0,
        0 <= from <= weights.len(),
        weight_sum(weights, from) <= s.sum,
    ensures
        2 * s.total * weight_sum(weights, from) + s.carry == 2 * s.sum * parts_sum(
            s,
            weights,
            from,
        ) + parts_carry(s, weights, from),
        0 <= parts_carry(s, weights, from) < 2 * s.sum,
    decreases weights.len() - from,
{
    if from < weights.len() {
        let w = weights[from];
        lemma_weight_sum_nonneg(weights, from + 1);
        lemma_share_bounded(s, w);
        let s2 = s.after(w);
        lemma_parts_balance(s2, weights, from + 1);
        let a = weight_sum(weights, from + 1);
        let p = parts_sum(s2, weights, from + 1);
        assert(2 * s.total * (w + a) == 2 * s.total * w + 2 * s.total * a) by (nonlinear_arith);
        assert(2 * s.sum * (s.quota(w) + p) == 2 * s.sum * s.quota(w) + 2 * s.sum * p)
            by (nonlinear_arith);
    }
}

/// A sum of weights is not negative.
pub proof fn lemma_weight_sum_nonneg(weights: Seq<u8>, from: int)
    ensures
        weight_sum(weights, from) >= 0,
    decreases weights.len() - from,
{
    if 0 <= from < weights.len() {
        lemma_weight_sum_nonneg(weights, from + 1);
    }
}

/// Weighted distribution: the parts of all weights add up to the total
/// exactly, whatever the weights are, as long as they do not all vanish.
pub proof fn lemma_parts_add_up(total: ScreenCoord, weights: Seq<u8>)
    requires
        0 < weight_sum(weights, 0) <= SUM_LIMIT,
    ensures
        parts_sum(Shares::spec_start(total, weight_sum(weights, 0) as u128), weights, 0) == total,
{
    let sum = weight_sum(weights, 0);
    let s = Shares::spec_start(total, sum as u128);
    lemma_parts_balance(s, weights, 0);
    let p = parts_sum(s, weights, 0);
    let c = parts_carry(s, weights, 0);
    // The carry is a multiple of the sum below twice the sum, and it is odd
    // in units of the sum: it is the sum itself, so nothing is left over.
    assert(p == total) by (nonlinear_arith)
        requires
            2 * total * sum + sum == 2 * sum * p + c,
            0 <= c < 2 * sum,
            sum > 0,
    ;
}

/// Two weights of one and three: the first takes a quarter of the total
/// and the second three quarters, each rounded to a nearest whole number,
/// and the two parts add up to the total.
pub proof fn lemma_one_to_three(total: ScreenCoord)
    ensures
        ({
            let s = Shares::spec_start(total, 4);
            let first = s.share(1);
            let second = s.after(1).share(3);
            &&& first == (total + 2) / 4
            &&& first + second == total
            &&& -2 <= 4 * first - total <= 2
            &&& -2 <= 4 * second - 3 * total <= 2
        }),
{
    let weights = seq![1u8, 3u8];
    assert(weight_sum(weights, 0) == 4) by {
        reveal_with_fuel(weight_sum, 3);
    }
    lemma_parts_add_up(total, weights);
    let s = Shares::spec_start(total, 4);
    assert(parts_sum(s, weights, 0) == s.share(1) + s.after(1).share(3)) by {
        reveal_with_fuel(parts_sum, 3);
    }
    lemma_share_bounded(s, 1);
    assert((2 * total * 1 + 4) / 8 == (total + 2) / 4) by (nonlinear_arith);
    assert(2 * total * 1 + 4 == 2 * total + 4);
}

} // verus!
