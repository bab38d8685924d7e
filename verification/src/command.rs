//! Motor commands: a signed speed as an exact fraction of full scale, the
//! direction it selects and the duty-cycle numerator it maps to.

use vstd::prelude::*;

verus! {

/// Sense of rotation of one motor.
#[derive(Clone, Copy, Debug, PartialEq, Eq, Structural)]
pub enum Direction {
    Forward,
    Backward,
}

/// A speed as the exact fraction `numerator / denominator` of full scale,
/// with its sign kept apart.
#[derive(Clone, Copy, Debug, PartialEq, Eq, Structural)]
pub struct Speed {
    pub negative: bool,
    pub numerator: u64,
    pub denominator: u64,
}

/// One run: both speeds and how long to hold them.
#[derive(Clone, Copy, Debug, PartialEq, Eq, Structural)]
pub struct MotorCommand {
    pub left: Speed,
    pub right: Speed,
    pub duration_ms: u32,
}

impl MotorCommand {
    /// Both speeds are proper fractions of full scale.
    pub open spec fn wf(&self) -> bool {
        self.left.wf() && self.right.wf()
    }

    /// A command, if both speeds are proper fractions of full scale.
    pub fn new(left: Speed, right: Speed, duration_ms: u32) -> (r: Option<MotorCommand>)
        ensures
            r == if left.wf() && right.wf() {
                Some((MotorCommand { left, right, duration_ms }))
            } else {
                None
            },
    {
        if left.denominator > 0 && left.numerator <= left.denominator && right.denominator > 0
            && right.numerator <= right.denominator {
            Some(MotorCommand { left, right, duration_ms })
        } else {
            None
        }
    }
}

/// The integer nearest to `p / q`, a tie going away from zero.
pub open spec fn nearest(p: nat, q: nat) -> nat
    recommends
        q > 0,
{
    (2 * p + q) / (2 * q)
}

/// What `nearest` means: `d - 1/2 <= p / q < d + 1/2` holds of
/// `d = nearest(p, q)`.
pub proof fn nearest_is_closest(p: nat, q: nat)
    requires
        q > 0,
    ensures
        2 * q * nearest(p, q) <= 2 * p + q,
        2 * p + q < 2 * q * (nearest(p, q) + 1),
{
    let n = (2 * p + q) as int;
    let m = (2 * q) as int;
    vstd::arithmetic::div_mod::lemma_fundamental_div_mod(n, m);
    vstd::arithmetic::div_mod::lemma_mod_bound(n, m);
    let e = n / m;
    assert(m * e <= n && n < m * (e + 1)) by (nonlinear_arith)
        requires
            n == m * e + n % m,
            0 <= n % m < m,
    ;
}

/// No other integer lies that close: `d - 1/2 <= p / q < d + 1/2` holds of
/// `nearest(p, q)` alone.
pub proof fn nearest_is_unique(p: nat, q: nat, d: nat)
    requires
        q > 0,
        2 * q * d <= 2 * p + q,
        2 * p + q < 2 * q * (d + 1),
    ensures
        d == nearest(p, q),
{
    nearest_is_closest(p, q);
    let e = nearest(p, q);
    let n = (2 * p + q) as int;
    let m = (2 * q) as int;
    assert(d == e) by (nonlinear_arith)
        requires
            m > 0,
            m * d <= n,
            n < m * (d + 1),
            m * e <= n,
            n < m * (e + 1),
    ;
}

impl Speed {
    /// The magnitude is a proper fraction of full scale: at most one.
    pub open spec fn wf(&self) -> bool {
        self.denominator > 0 && self.numerator <= self.denominator
    }

    /// Sign of the speed: -1, 0 or 1.
    pub open spec fn signum(&self) -> int {
        if self.numerator == 0 {
            0
        } else if self.negative {
            -1
        } else {
            1
        }
    }

    /// Forward for a positive speed, backward for a negative one; a speed of
    /// zero, whatever sign it was written with, counts as forward.
    pub open spec fn spec_direction(&self) -> Direction {
        if self.signum() < 0 {
            Direction::Backward
        } else {
            Direction::Forward
        }
    }

    /// The duty-cycle numerator for a denominator of `range`.
    pub open spec fn spec_duty(&self, range: u32) -> nat {
        nearest(range as nat * self.numerator as nat, self.denominator as nat)
    }

    /// The speed `numerator / denominator`, negated if `negative`, unless
    /// it is no proper fraction of full scale.
    pub fn new(negative: bool, numerator: u64, denominator: u64) -> (r: Option<Speed>)
        ensures
            r == if denominator > 0 && numerator <= denominator {
                Some((Speed { negative, numerator, denominator }))
            } else {
                None
            },
            r is Some ==> r->Some_0.wf(),
    {
        if denominator > 0 && numerator <= denominator {
            Some(Speed { negative, numerator, denominator })
        } else {
            None
        }
    }

    /// The direction that the sign selects.
    pub fn direction(&self) -> (d: Direction)
        ensures
            d == self.spec_direction(),
            self.signum() > 0 ==> d == Direction::Forward,
            self.signum() < 0 ==> d == Direction::Backward,
            self.signum() == 0 ==> d == Direction::Forward,
    {
        if self.negative && self.numerator != 0 {
            Direction::Backward
        } else {
            Direction::Forward
        }
    }

    /// `range * |speed|` rounded to the nearest integer, which never exceeds
    /// `range`.
    pub fn duty(&self, range: u32) -> (d: u32)
        requires
            self.wf(),
        ensures
            d == self.spec_duty(range),
            d <= range,
    {
        proof {
            duty_within_range(*self, range);
            assert(range as int * self.numerator as int <= 0xFFFF_FFFF
                * 0xFFFF_FFFF_FFFF_FFFF) by (nonlinear_arith)
                requires
                    0 <= range <= 0xFFFF_FFFF,
                    0 <= self.numerator <= 0xFFFF_FFFF_FFFF_FFFF,
            ;
        }
        let p: u128 = (range as u128) * (self.numerator as u128);
        let q: u128 = self.denominator as u128;
        let d: u128 = (2 * p + q) / (2 * q);
        d as u32
    }
}

/// The duty-cycle numerator of a well-formed speed lies in `0..=range`.
pub proof fn duty_within_range(speed: Speed, range: u32)
    requires
        speed.wf(),
    ensures
        0 <= speed.spec_duty(range) <= range,
{
    let p = range as nat * speed.numerator as nat;
    let q = speed.denominator as nat;
    nearest_is_closest(p, q);
    let d = nearest(p, q);
    assert(d <= range) by (nonlinear_arith)
        requires
            q > 0,
            speed.numerator <= q,
            p == range as nat * speed.numerator as nat,
            2 * q * d <= 2 * p + q,
    ;
}

} // verus!
