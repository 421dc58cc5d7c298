use vstd::prelude::*;

verus! {

use vstd::arithmetic::div_mod::lemma_div_is_ordered;
use vstd::arithmetic::div_mod::lemma_div_of0;
use vstd::arithmetic::div_mod::lemma_div_multiples_vanish;
use vstd::arithmetic::div_mod::lemma_div_pos_is_pos;
use vstd::arithmetic::mul::lemma_mul_inequality;
use vstd::arithmetic::mul::lemma_mul_is_commutative;
use vstd::arithmetic::mul::lemma_mul_nonnegative;
use vstd::arithmetic::mul::lemma_mul_strictly_positive;
use vstd::arithmetic::mul::lemma_mul_upper_bound;

/// The error returned by the checked constructor when the requested value
/// lies outside the closed unit interval.
#[derive(Clone, Copy, Debug, PartialEq, Eq, Structural)]
pub struct OutOfRangeError;

/// A scalar confined to the closed unit interval.
///
/// The value is the exact rational `num / den`: `num` is the numerator and
/// `den` the resolution (how many steps the interval is divided into). The
/// invariant `0 <= num <= den`, with `den >= 1`, holds for every
/// well-formed instance, which is exactly the statement that the value lies
/// between zero and one inclusive.
#[derive(Clone, Copy, Debug, PartialEq, Eq, Structural)]
pub struct Closed01 {
    n: i64,
    d: i64,
}

impl Closed01 {
    /// The numerator of the held value.
    pub closed spec fn num(self) -> int {
        self.n as int
    }

    /// The resolution the value is expressed in.
    pub closed spec fn den(self) -> int {
        self.d as int
    }

    /// Well-formedness: the value lies in the closed unit interval.
    pub open spec fn wf(self) -> bool {
        &&& 1 <= self.den()
        &&& 0 <= self.num() <= self.den()
    }

    /// The value with the numerator replaced, at the same resolution.
    closed spec fn with_num(self, k: int) -> Closed01 {
        Closed01 { n: k as i64, d: self.d }
    }

    /// The smaller of the two values; the first wins a tie.
    pub closed spec fn spec_min(self, other: Self) -> Self {
        if self.num() <= other.num() {
            self
        } else {
            other
        }
    }

    /// The greater of the two values; the first wins a tie.
    pub closed spec fn spec_max(self, other: Self) -> Self {
        if self.num() >= other.num() {
            self
        } else {
            other
        }
    }

    /// The absolute difference of the two values.
    pub closed spec fn spec_distance(self, other: Self) -> Self {
        self.with_num(
            if self.num() >= other.num() {
                self.num() - other.num()
            } else {
                other.num() - self.num()
            },
        )
    }

    /// The average of the two values, rounded down to the resolution.
    pub closed spec fn spec_average(self, other: Self) -> Self {
        self.with_num((self.num() + other.num()) / 2)
    }

    /// The sum, clamped at the upper endpoint.
    pub closed spec fn spec_saturating_add(self, other: Self) -> Self {
        self.with_num(
            if self.num() + other.num() > self.den() {
                self.den()
            } else {
                self.num() + other.num()
            },
        )
    }

    /// The difference, clamped at the lower endpoint.
    pub closed spec fn spec_saturating_sub(self, other: Self) -> Self {
        self.with_num(
            if self.num() - other.num() < 0 {
                0
            } else {
                self.num() - other.num()
            },
        )
    }

    /// The product of the two values, rounded down to the resolution.
    pub closed spec fn spec_mul(self, other: Self) -> Self {
        self.with_num(self.num() * other.num() / self.den())
    }

    /// The value moved toward one by the fraction `other`.
    pub closed spec fn spec_scale_up(self, other: Self) -> Self {
        self.with_num(self.num() + (self.den() - self.num()) * other.num() / self.den())
    }

    /// The value moved toward zero by the fraction `other`.
    pub closed spec fn spec_scale_down(self, other: Self) -> Self {
        self.with_num(self.num() - self.num() * other.num() / self.den())
    }

    /// The value mirrored at the midpoint.
    pub closed spec fn spec_inv(self) -> Self {
        self.with_num(self.den() - self.num())
    }

    /// The nearest endpoint; the exact midpoint rounds up.
    pub closed spec fn spec_round(self) -> Self {
        if 2 * self.num() < self.den() {
            self.with_num(0)
        } else {
            self.with_num(self.den())
        }
    }

    /// Whether the two values are strictly closer than `eps` to each other.
    pub open spec fn spec_approx_eq(self, other: Self, eps: Self) -> bool {
        self.spec_distance(other).num() < eps.num()
    }

    /// The value re-expressed at another resolution, rounded down.
    pub closed spec fn spec_with_resolution(self, new_den: int) -> Self {
        Closed01 { n: (self.num() * new_den / self.den()) as i64, d: new_den as i64 }
    }

    /// Builds an instance from parts the caller has already proved valid.
    ///
    /// This replaces a debug-only runtime recheck: every caller discharges
    /// the interval invariant statically, so no check is compiled in.
    fn from_parts(num: i64, den: i64) -> (r: Self)
        requires
            1 <= den,
            0 <= num <= den,
        ensures
            r.wf(),
            r.num() == num,
            r.den() == den,
    {
        Closed01 { n: num, d: den }
    }

    /// The checked constructor: accepts `num / den` exactly when it lies in
    /// the closed unit interval, and reports `OutOfRangeError` otherwise,
    /// never clamping silently.
    pub fn new(num: i64, den: i64) -> (r: Result<Self, OutOfRangeError>)
        requires
            1 <= den,
        ensures
            r is Ok <==> 0 <= num <= den,
            r matches Ok(c) ==> c.wf() && c.num() == num && c.den() == den,
    {
        if 0 <= num && num <= den {
            Ok(Closed01 { n: num, d: den })
        } else {
            Err(OutOfRangeError)
        }
    }

    /// The lower endpoint, at the given resolution.
    pub fn zero(den: i64) -> (r: Self)
        requires
            1 <= den,
        ensures
            r.wf(),
            r.num() == 0,
            r.den() == den,
    {
        Self::from_parts(0, den)
    }

    /// The upper endpoint, at the given resolution.
    pub fn one(den: i64) -> (r: Self)
        requires
            1 <= den,
        ensures
            r.wf(),
            r.num() == den,
            r.den() == den,
    {
        Self::from_parts(den, den)
    }

    /// The exact midpoint of the interval. The resolution must be even for
    /// the midpoint to be representable exactly.
    pub fn center(den: i64) -> (r: Self)
        requires
            2 <= den,
            den % 2 == 0,
        ensures
            r.wf(),
            2 * r.num() == den,
            r.den() == den,
    {
        Self::from_parts(den / 2, den)
    }

    /// The raw numerator. The interval invariant is proved statically for
    /// every reachable instance, so no defensive recheck is compiled in.
    pub fn get(self) -> (r: i64)
        requires
            self.wf(),
        ensures
            r == self.num(),
            0 <= r <= self.den(),
    {
        self.n
    }

    /// The resolution the value is expressed in.
    pub fn resolution(self) -> (r: i64)
        requires
            self.wf(),
        ensures
            r == self.den(),
            1 <= r,
    {
        self.d
    }

    /// Strict comparison of two values at the same resolution.
    pub fn lt(self, other: Self) -> (r: bool)
        requires
            self.wf(),
            other.wf(),
            self.den() == other.den(),
        ensures
            r == (self.num() < other.num()),
    {
        self.n < other.n
    }

    /// Non-strict comparison of two values at the same resolution.
    pub fn le(self, other: Self) -> (r: bool)
        requires
            self.wf(),
            other.wf(),
            self.den() == other.den(),
        ensures
            r == (self.num() <= other.num()),
    {
        self.n <= other.n
    }

    /// Returns the smaller of the two values. The first argument is returned
    /// unless it is strictly beaten by the second, so ties go to `self`.
    pub fn min(self, other: Self) -> (r: Self)
        requires
            self.wf(),
            other.wf(),
            self.den() == other.den(),
        ensures
            r == self.spec_min(other),
            self.num() <= other.num() ==> r == self,
            self.num() > other.num() ==> r == other,
            r.wf(),
    {
        if self.n <= other.n {
            self
        } else {
            other
        }
    }

    /// Returns the greater of the two values. The first argument is returned
    /// unless it is strictly beaten by the second, so ties go to `self`.
    pub fn max(self, other: Self) -> (r: Self)
        requires
            self.wf(),
            other.wf(),
            self.den() == other.den(),
        ensures
            r == self.spec_max(other),
            self.num() >= other.num() ==> r == self,
            self.num() < other.num() ==> r == other,
            r.wf(),
    {
        if self.n >= other.n {
            self
        } else {
            other
        }
    }

    /// Returns the distance between the two values: the absolute difference.
    pub fn distance(self, other: Self) -> (r: Self)
        requires
            self.wf(),
            other.wf(),
            self.den() == other.den(),
        ensures
            r == self.spec_distance(other),
            r.num() == (if self.num() >= other.num() {
                self.num() - other.num()
            } else {
                other.num() - self.num()
            }),
            r.den() == self.den(),
            r.wf(),
    {
        let diff: i64 = if self.n >= other.n {
            self.n - other.n
        } else {
            other.n - self.n
        };
        Self::from_parts(diff, self.d)
    }

    /// The average of the two values, rounded down to the resolution.
    pub fn average(self, other: Self) -> (r: Self)
        requires
            self.wf(),
            other.wf(),
            self.den() == other.den(),
        ensures
            r == self.spec_average(other),
            r.num() == (self.num() + other.num()) / 2,
            r.den() == self.den(),
            r.wf(),
    {
        let s: u128 = (self.n as u128) + (other.n as u128);
        let num: i64 = (s / 2) as i64;
        Self::from_parts(num, self.d)
    }

    /// Adds the two values, clamping the sum at the upper endpoint.
    pub fn saturating_add(self, other: Self) -> (r: Self)
        requires
            self.wf(),
            other.wf(),
            self.den() == other.den(),
        ensures
            r == self.spec_saturating_add(other),
            r.num() == (if self.num() + other.num() > self.den() {
                self.den()
            } else {
                self.num() + other.num()
            }),
            r.den() == self.den(),
            r.wf(),
    {
        let headroom: i64 = self.d - other.n;
        let num: i64 = if self.n > headroom {
            self.d
        } else {
            self.n + other.n
        };
        Self::from_parts(num, self.d)
    }

    /// Subtracts the second value, clamping the difference at the lower
    /// endpoint.
    pub fn saturating_sub(self, other: Self) -> (r: Self)
        requires
            self.wf(),
            other.wf(),
            self.den() == other.den(),
        ensures
            r == self.spec_saturating_sub(other),
            r.num() == (if self.num() - other.num() < 0 {
                0
            } else {
                self.num() - other.num()
            }),
            r.den() == self.den(),
            r.wf(),
    {
        let num: i64 = if self.n < other.n {
            0
        } else {
            self.n - other.n
        };
        Self::from_parts(num, self.d)
    }

    /// Multiplies the two values, rounding down to the resolution. The
    /// product of two values in the interval needs no clamping.
    pub fn mul(self, other: Self) -> (r: Self)
        requires
            self.wf(),
            other.wf(),
            self.den() == other.den(),
        ensures
            r == self.spec_mul(other),
            r.num() == self.num() * other.num() / self.den(),
            r.den() == self.den(),
            r.wf(),
    {
        proof {
            lemma_mul_upper_bound(self.num(), i64::MAX as int, other.num(), i64::MAX as int);
            lemma_mul_div_le(self.num(), other.num(), self.den());
        }
        let p: u128 = (self.n as u128) * (other.n as u128);
        let num: i64 = (p / (self.d as u128)) as i64;
        Self::from_parts(num, self.d)
    }

    /// Whether the two values are strictly closer than `eps` to each other.
    /// Values at a distance of exactly `eps` are not approximately equal.
    pub fn approx_eq(self, other: Self, eps: Self) -> (r: bool)
        requires
            self.wf(),
            other.wf(),
            eps.wf(),
            self.den() == other.den(),
            self.den() == eps.den(),
        ensures
            r == self.spec_approx_eq(other, eps),
            r == (self.spec_distance(other).num() < eps.num()),
    {
        self.distance(other).lt(eps)
    }

    /// Moves the value toward one by the fraction `other`: a fraction of
    /// zero is the identity, a fraction of one reaches the upper endpoint.
    pub fn scale_up(self, other: Self) -> (r: Self)
        requires
            self.wf(),
            other.wf(),
            self.den() == other.den(),
        ensures
            r == self.spec_scale_up(other),
            r.num() == self.num() + (self.den() - self.num()) * other.num() / self.den(),
            r.den() == self.den(),
            r.wf(),
    {
        proof {
            lemma_mul_upper_bound(self.den() - self.num(), i64::MAX as int, other.num(), i64::MAX as int);
            lemma_mul_div_le(self.den() - self.num(), other.num(), self.den());
        }
        let headroom: i64 = self.d - self.n;
        let p: u128 = (headroom as u128) * (other.n as u128);
        let gain: i64 = (p / (self.d as u128)) as i64;
        Self::from_parts(self.n + gain, self.d)
    }

    /// Moves the value toward zero by the fraction `other`: a fraction of
    /// zero is the identity, a fraction of one reaches the lower endpoint.
    pub fn scale_down(self, other: Self) -> (r: Self)
        requires
            self.wf(),
            other.wf(),
            self.den() == other.den(),
        ensures
            r == self.spec_scale_down(other),
            r.num() == self.num() - self.num() * other.num() / self.den(),
            r.den() == self.den(),
            r.wf(),
    {
        proof {
            lemma_mul_upper_bound(self.num(), i64::MAX as int, other.num(), i64::MAX as int);
            lemma_mul_div_le(self.num(), other.num(), self.den());
        }
        let p: u128 = (self.n as u128) * (other.n as u128);
        let loss: i64 = (p / (self.d as u128)) as i64;
        Self::from_parts(self.n - loss, self.d)
    }

    /// Inverts the value: mirrors it at the midpoint, giving one minus the
    /// value. Applying it twice gives back the original value.
    pub fn inv(self) -> (r: Self)
        requires
            self.wf(),
        ensures
            r == self.spec_inv(),
            r.num() == self.den() - self.num(),
            r.den() == self.den(),
            r.wf(),
    {
        Self::from_parts(self.d - self.n, self.d)
    }

    /// Rounds the value to the nearer endpoint. A value of exactly one half
    /// rounds up to one.
    pub fn round(self) -> (r: Self)
        requires
            self.wf(),
        ensures
            r == self.spec_round(),
            2 * self.num() < self.den() ==> r.num() == 0,
            2 * self.num() >= self.den() ==> r.num() == self.den(),
            r.den() == self.den(),
            r.wf(),
    {
        if self.n < self.d - self.n {
            Self::from_parts(0, self.d)
        } else {
            Self::from_parts(self.d, self.d)
        }
    }

    /// Re-expresses the value at another resolution, rounding down. Widening
    /// to a multiple of the current resolution is lossless; narrowing may
    /// lose precision but never leaves the interval.
    pub fn with_resolution(self, new_den: i64) -> (r: Self)
        requires
            self.wf(),
            1 <= new_den,
        ensures
            r == self.spec_with_resolution(new_den as int),
            r.num() == self.num() * new_den / self.den(),
            r.den() == new_den,
            r.wf(),
    {
        proof {
            lemma_mul_upper_bound(self.num(), i64::MAX as int, new_den as int, i64::MAX as int);
            lemma_mul_is_commutative(self.num(), new_den as int);
            lemma_mul_div_le(new_den as int, self.num(), self.den());
        }
        let p: u128 = (self.n as u128) * (new_den as u128);
        let num: i64 = (p / (self.d as u128)) as i64;
        Self::from_parts(num, new_den)
    }
}

/// For a factor no greater than the modulus, the scaled-and-divided product
/// stays bounded by the other factor: `0 <= x * y / d <= x` when `y <= d`.
proof fn lemma_mul_div_le(x: int, y: int, d: int)
    requires
        0 <= x,
        0 <= y <= d,
        1 <= d,
    ensures
        0 <= x * y / d <= x,
{
    lemma_mul_nonnegative(x, y);
    lemma_div_pos_is_pos(x * y, d);
    lemma_mul_inequality(y, d, x);
    lemma_mul_is_commutative(x, y);
    lemma_mul_is_commutative(x, d);
    lemma_div_is_ordered(x * y, d * x, d);
    lemma_div_multiples_vanish(x, d);
}

/// The type has pure value semantics: a value is determined by its numerator
/// and its resolution, with no notion of identity beyond them.
pub proof fn lemma_value_determined(a: Closed01, b: Closed01)
    requires
        a.num() == b.num(),
        a.den() == b.den(),
    ensures
        a == b,
{
}

/// Law: every operation of the interval algebra keeps its result inside the
/// closed unit interval.
pub proof fn lemma_range_closure(a: Closed01, b: Closed01)
    requires
        a.wf(),
        b.wf(),
        a.den() == b.den(),
    ensures
        a.spec_min(b).wf(),
        a.spec_max(b).wf(),
        a.spec_distance(b).wf(),
        a.spec_average(b).wf(),
        a.spec_saturating_add(b).wf(),
        a.spec_saturating_sub(b).wf(),
        a.spec_mul(b).wf(),
        a.spec_scale_up(b).wf(),
        a.spec_scale_down(b).wf(),
        a.spec_inv().wf(),
        a.spec_round().wf(),
{
    lemma_mul_div_le(a.num(), b.num(), a.den());
    lemma_mul_div_le(a.den() - a.num(), b.num(), a.den());
}

/// Law: inversion is an involution; mirroring a value at the midpoint twice
/// gives back the original value.
pub proof fn lemma_inv_involution(a: Closed01)
    requires
        a.wf(),
    ensures
        a.spec_inv().spec_inv() == a,
{
}

/// Law: on a tie, both `min` and `max` return the first argument.
pub proof fn lemma_min_max_first_on_tie(a: Closed01, b: Closed01)
    requires
        a.wf(),
        b.wf(),
        a == b,
    ensures
        a.spec_min(b) == a,
        a.spec_max(b) == a,
{
}

/// Law: blending by a fraction of zero is the identity, and blending by a
/// fraction of one reaches the endpoint blended toward, for every value.
pub proof fn lemma_scale_endpoints(a: Closed01, z: Closed01, o: Closed01)
    requires
        a.wf(),
        z.wf(),
        o.wf(),
        z.den() == a.den(),
        o.den() == a.den(),
        z.num() == 0,
        o.num() == o.den(),
    ensures
        a.spec_scale_up(z) == a,
        a.spec_scale_down(z) == a,
        a.spec_scale_up(o) == o,
        a.spec_scale_down(o) == z,
{
    let n: int = a.num();
    let d: int = a.den();
    lemma_div_of0(d);
    lemma_mul_is_commutative(d - n, d);
    lemma_div_multiples_vanish(d - n, d);
    lemma_mul_is_commutative(n, d);
    lemma_div_multiples_vanish(n, d);
}

/// Law: approximate equality is strict in its bound. Two values at a
/// distance of exactly `eps` are not approximately equal; two values
/// strictly closer than `eps` are.
pub proof fn lemma_approx_eq_strict(a: Closed01, b: Closed01, eps: Closed01)
    requires
        a.wf(),
        b.wf(),
        eps.wf(),
        a.den() == b.den(),
        a.den() == eps.den(),
    ensures
        a.spec_distance(b).num() == eps.num() ==> !a.spec_approx_eq(b, eps),
        a.spec_distance(b).num() < eps.num() ==> a.spec_approx_eq(b, eps),
{
}

/// Law: re-expressing a value at a finer resolution, any whole multiple of
/// the current one, is lossless, and narrowing back to the original
/// resolution restores the original value exactly.
pub proof fn lemma_resolution_round_trip(a: Closed01, k: int)
    requires
        a.wf(),
        1 <= k,
        a.den() * k <= i64::MAX as int,
    ensures
        a.spec_with_resolution(a.den() * k).num() == a.num() * k,
        a.spec_with_resolution(a.den() * k).den() == a.den() * k,
        a.spec_with_resolution(a.den() * k).spec_with_resolution(a.den()) == a,
{
    let n: int = a.num();
    let d: int = a.den();
    lemma_mul_strictly_positive(d, k);
    lemma_mul_nonnegative(n, k);
    lemma_mul_inequality(n, d, k);
    assert(n * (d * k) == d * (n * k)) by (nonlinear_arith);
    lemma_div_multiples_vanish(n * k, d);
    assert((n * k) * d == (d * k) * n) by (nonlinear_arith);
    lemma_div_multiples_vanish(n, d * k);
}

} // verus!
