//! Values carrying a power-of-ten scale factor, as used by SunSpec and, at
//! fixed scales, by SEP2.
use vstd::prelude::*;

verus! {

/// Ten to the power `e`.
pub open spec fn pow10(e: nat) -> int
    decreases e,
{
    if e == 0 {
        1
    } else {
        10 * pow10((e - 1) as nat)
    }
}

/// `x` bounded to the closed interval `[lo, hi]`.
pub open spec fn clamp(x: int, lo: int, hi: int) -> int {
    if x < lo {
        lo
    } else if x > hi {
        hi
    } else {
        x
    }
}

/// `v / f` rounded to the nearest integer, a half step rounding away from zero.
pub open spec fn round_half_away(v: int, f: int) -> int {
    if v >= 0 {
        (v + f / 2) / f
    } else {
        -((-v + f / 2) / f)
    }
}

/// The unbounded value of `v` at a scale factor that is `d` powers of ten
/// finer (when `d > 0`) or coarser (when `d < 0`), rounded to the nearest
/// integer.
pub open spec fn rescaled(v: int, d: int) -> int {
    if d >= 0 {
        v * pow10(d as nat)
    } else {
        round_half_away(v, pow10((-d) as nat))
    }
}

/// The integer types a `ScaledValue` can hold: each converts to an `i64`
/// exactly, and back from one when the value is within its bounds.
pub trait ScaledValueInner: Copy + Sized {
    /// The value as a mathematical integer.
    spec fn as_int(self) -> int;

    /// The least value of the type.
    spec fn lower() -> int;

    /// The greatest value of the type.
    spec fn upper() -> int;

    proof fn lemma_range()
        ensures
            i32::MIN <= Self::lower() <= 0,
            1 <= Self::upper() <= u32::MAX,
    ;

    proof fn lemma_bounds(v: Self)
        ensures
            Self::lower() <= v.as_int() <= Self::upper(),
    ;

    proof fn lemma_injective(a: Self, b: Self)
        ensures
            a.as_int() == b.as_int() ==> a == b,
    ;

    fn into_i64(self) -> (r: i64)
        ensures
            r == self.as_int(),
    ;

    fn try_from_i64(v: i64) -> (r: Option<Self>)
        ensures
            r is Some <==> Self::lower() <= v <= Self::upper(),
            r matches Some(x) ==> x.as_int() == v,
    ;

    fn max_value() -> (r: Self)
        ensures
            r.as_int() == Self::upper(),
    ;

    fn min_value() -> (r: Self)
        ensures
            r.as_int() == Self::lower(),
    ;
}

impl ScaledValueInner for u16 {
    open spec fn as_int(self) -> int {
        self as int
    }

    open spec fn lower() -> int {
        0
    }

    open spec fn upper() -> int {
        u16::MAX as int
    }

    proof fn lemma_range() {
    }

    proof fn lemma_bounds(v: Self) {
    }

    proof fn lemma_injective(a: Self, b: Self) {
    }

    fn into_i64(self) -> (r: i64) {
        self as i64
    }

    fn try_from_i64(v: i64) -> (r: Option<Self>) {
        if 0 <= v && v <= u16::MAX as i64 {
            Some(v as u16)
        } else {
            None
        }
    }

    fn max_value() -> (r: Self) {
        u16::MAX
    }

    fn min_value() -> (r: Self) {
        0
    }
}

impl ScaledValueInner for i16 {
    open spec fn as_int(self) -> int {
        self as int
    }

    open spec fn lower() -> int {
        i16::MIN as int
    }

    open spec fn upper() -> int {
        i16::MAX as int
    }

    proof fn lemma_range() {
    }

    proof fn lemma_bounds(v: Self) {
    }

    proof fn lemma_injective(a: Self, b: Self) {
    }

    fn into_i64(self) -> (r: i64) {
        self as i64
    }

    fn try_from_i64(v: i64) -> (r: Option<Self>) {
        if i16::MIN as i64 <= v && v <= i16::MAX as i64 {
            Some(v as i16)
        } else {
            None
        }
    }

    fn max_value() -> (r: Self) {
        i16::MAX
    }

    fn min_value() -> (r: Self) {
        i16::MIN
    }
}

impl ScaledValueInner for u32 {
    open spec fn as_int(self) -> int {
        self as int
    }

    open spec fn lower() -> int {
        0
    }

    open spec fn upper() -> int {
        u32::MAX as int
    }

    proof fn lemma_range() {
    }

    proof fn lemma_bounds(v: Self) {
    }

    proof fn lemma_injective(a: Self, b: Self) {
    }

    fn into_i64(self) -> (r: i64) {
        self as i64
    }

    fn try_from_i64(v: i64) -> (r: Option<Self>) {
        if 0 <= v && v <= u32::MAX as i64 {
            Some(v as u32)
        } else {
            None
        }
    }

    fn max_value() -> (r: Self) {
        u32::MAX
    }

    fn min_value() -> (r: Self) {
        0
    }
}

impl ScaledValueInner for i32 {
    open spec fn as_int(self) -> int {
        self as int
    }

    open spec fn lower() -> int {
        i32::MIN as int
    }

    open spec fn upper() -> int {
        i32::MAX as int
    }

    proof fn lemma_range() {
    }

    proof fn lemma_bounds(v: Self) {
    }

    proof fn lemma_injective(a: Self, b: Self) {
    }

    fn into_i64(self) -> (r: i64) {
        self as i64
    }

    fn try_from_i64(v: i64) -> (r: Option<Self>) {
        if i32::MIN as i64 <= v && v <= i32::MAX as i64 {
            Some(v as i32)
        } else {
            None
        }
    }

    fn max_value() -> (r: Self) {
        i32::MAX
    }

    fn min_value() -> (r: Self) {
        i32::MIN
    }
}

/// A value with a scale factor. This is common for translation between SEP2
/// and SunSpec: the quantity is `value * 10^sf`.
///
/// Equality does not recognise the same quantity at different scale factors
/// as equivalent; a false negative only costs a little extra communication.
#[derive(Clone, Copy, Debug, PartialEq, Eq)]
pub struct ScaledValue<T> {
    pub value: T,
    /// The scale factor (power of ten) that is attached to value.
    pub sf: i16,
}

impl<T: ScaledValueInner> ScaledValue<T> {
    pub fn new(value: T, sf: i16) -> (r: ScaledValue<T>)
        ensures
            r == (ScaledValue { value, sf }),
    {
        ScaledValue { value, sf }
    }

    /// Rescale a value to a new scale factor.
    ///
    /// Moving to a coarser scale loses precision: the result is rounded to the
    /// nearest value, with a half step rounding away from zero. Moving to a
    /// finer scale can overflow, in which case the value is bounded rather
    /// than wrapping.
    pub fn rescale(self, target_sf: i16) -> (r: ScaledValue<T>)
        ensures
            r.sf == target_sf,
            r.value.as_int() == clamp(
                rescaled(self.value.as_int(), self.sf - target_sf),
                T::lower(),
                T::upper(),
            ),
            self.sf == target_sf ==> r == self,
    {
        proof {
            T::lemma_range();
            T::lemma_bounds(self.value);
        }
        let sf_difference: i32 = self.sf as i32 - target_sf as i32;

        if sf_difference == 0 {
            assert(rescaled(self.value.as_int(), 0) == self.value.as_int() * 1);
            return self;
        }
        let value: i64 = self.value.into_i64();
        let exponent: u32 = if sf_difference > 0 {
            sf_difference as u32
        } else {
            (-sf_difference) as u32
        };
        let factor = saturating_pow10(exponent);

        let scaled: i64 = if sf_difference > 0 {
            let s = saturating_mul_positive(value, factor);
            proof {
                lemma_upscale(value as int, exponent as nat, factor as int, s as int, T::lower(), T::upper());
            }
            s
        } else {
            let half_step = factor / 2;
            let q = if value < 0 {
                -((-value + half_step) / factor)
            } else {
                (value + half_step) / factor
            };
            proof {
                lemma_downscale(value as int, exponent as nat, factor as int, q as int);
            }
            q
        };

        ScaledValue { value: saturating_from_i64(scaled), sf: target_sf }
    }
}

/// Narrows back to the value type, capping at its bounds rather than
/// wrapping.
fn saturating_from_i64<T: ScaledValueInner>(value: i64) -> (r: T)
    ensures
        r.as_int() == clamp(value as int, T::lower(), T::upper()),
{
    proof {
        T::lemma_range();
    }
    match T::try_from_i64(value) {
        Some(v) => v,
        None => {
            if value > 0 {
                T::max_value()
            } else {
                T::min_value()
            }
        },
    }
}

/// `10^e`, or `i64::MAX` when that power does not fit in an `i64`.
fn saturating_pow10(e: u32) -> (r: i64)
    ensures
        r == (if pow10(e as nat) > i64::MAX { i64::MAX as int } else { pow10(e as nat) }),
        r >= 1,
{
    let mut r: i64 = 1;
    let mut i: u32 = 0;
    while i < e
        invariant
            i <= e,
            r as int == pow10(i as nat),
            1 <= r,
        decreases e - i,
    {
        if r > i64::MAX / 10 {
            proof {
                lemma_pow10_monotone((i + 1) as nat, e as nat);
            }
            return i64::MAX;
        }
        r = r * 10;
        i = i + 1;
    }
    r
}

/// `v * f` for a positive `f`, bounded to the range of an `i64`.
fn saturating_mul_positive(v: i64, f: i64) -> (r: i64)
    requires
        f >= 1,
    ensures
        r == clamp(v * f, i64::MIN as int, i64::MAX as int),
{
    match v.checked_mul(f) {
        Some(p) => p,
        None => {
            if v < 0 {
                assert(v * f < 0) by (nonlinear_arith)
                    requires
                        v < 0,
                        f >= 1,
                ;
                i64::MIN
            } else {
                assert(v * f >= 0) by (nonlinear_arith)
                    requires
                        v >= 0,
                        f >= 1,
                ;
                i64::MAX
            }
        },
    }
}

proof fn lemma_pow10_positive(e: nat)
    ensures
        pow10(e) >= 1,
    decreases e,
{
    if e > 0 {
        lemma_pow10_positive((e - 1) as nat);
    }
}

proof fn lemma_pow10_monotone(a: nat, b: nat)
    requires
        a <= b,
    ensures
        pow10(a) <= pow10(b),
    decreases b,
{
    lemma_pow10_positive(b);
    if a < b {
        lemma_pow10_monotone(a, (b - 1) as nat);
    }
}

/// The scaled-up value, bounded first to an `i64` and then to the value type,
/// is the exact product bounded to the value type.
proof fn lemma_upscale(v: int, e: nat, factor: int, s: int, lo: int, hi: int)
    requires
        e >= 1,
        i32::MIN <= lo <= v <= hi <= u32::MAX,
        lo <= 0 < hi,
        factor == (if pow10(e) > i64::MAX { i64::MAX as int } else { pow10(e) }),
        s == clamp(v * factor, i64::MIN as int, i64::MAX as int),
    ensures
        clamp(s, lo, hi) == clamp(v * pow10(e), lo, hi),
{
    lemma_pow10_positive(e);
    let p = pow10(e);
    if p <= i64::MAX {
        assert(factor == p);
    } else {
        assert(factor == i64::MAX);
        if v > 0 {
            assert(v * factor >= factor) by (nonlinear_arith)
                requires
                    v >= 1,
                    factor >= 1,
            ;
            assert(v * p >= p) by (nonlinear_arith)
                requires
                    v >= 1,
                    p >= 1,
            ;
        } else if v < 0 {
            assert(v * factor <= -factor) by (nonlinear_arith)
                requires
                    v <= -1,
                    factor >= 1,
            ;
            assert(v * p <= -p) by (nonlinear_arith)
                requires
                    v <= -1,
                    p >= 1,
            ;
        } else {
            assert(v * factor == 0);
            assert(v * p == 0);
        }
    }
}

/// The rounding division, computed with a factor that may have been bounded
/// to `i64::MAX`, is the rounding division by the exact power of ten.
proof fn lemma_downscale(v: int, e: nat, factor: int, q: int)
    requires
        e >= 1,
        i32::MIN <= v <= u32::MAX,
        factor == (if pow10(e) > i64::MAX { i64::MAX as int } else { pow10(e) }),
        q == (if v < 0 {
            -((-v + factor / 2) / factor)
        } else {
            (v + factor / 2) / factor
        }),
    ensures
        q == round_half_away(v, pow10(e)),
{
    lemma_pow10_positive(e);
    let p = pow10(e);
    if p > i64::MAX {
        let a: int = if v < 0 { -v } else { v };
        assert(0 <= a <= u32::MAX);
        assert(0 <= a + factor / 2 < factor);
        assert((a + factor / 2) / factor == 0) by (nonlinear_arith)
            requires
                0 <= a + factor / 2 < factor,
        ;
        assert(p / 2 > u32::MAX);
        assert(0 <= a + p / 2 < p);
        assert((a + p / 2) / p == 0) by (nonlinear_arith)
            requires
                0 <= a + p / 2 < p,
        ;
    }
}

/// Dividing an exact multiple rounds to the exact quotient.
proof fn lemma_round_exact(v: int, p: int)
    requires
        p >= 1,
    ensures
        round_half_away(v * p, p) == v,
{
    if v >= 0 {
        assert(v * p >= 0) by (nonlinear_arith)
            requires
                v >= 0,
                p >= 1,
        ;
        assert((v * p + p / 2) / p == v) by (nonlinear_arith)
            requires
                p >= 1,
                0 <= p / 2 < p,
        ;
    } else {
        assert(v * p < 0) by (nonlinear_arith)
            requires
                v < 0,
                p >= 1,
        ;
        assert(-(v * p) == (-v) * p) by (nonlinear_arith);
        assert(((-v) * p + p / 2) / p == -v) by (nonlinear_arith)
            requires
                p >= 1,
                0 <= p / 2 < p,
        ;
    }
}

/// Scaling a value up by `d` powers of ten and back down again gives the
/// value back, as long as the scaled-up value stays within the bounds.
pub proof fn rescale_up_then_down_round_trips(v: int, d: nat, lo: int, hi: int)
    requires
        lo <= 0 <= hi,
        lo <= v * pow10(d) <= hi,
    ensures
        clamp(rescaled(clamp(rescaled(v, d as int), lo, hi), -(d as int)), lo, hi) == v,
{
    lemma_pow10_positive(d);
    let p = pow10(d);
    assert(rescaled(v, d as int) == v * p);
    if d == 0 {
        assert(rescaled(v, 0) == v * 1);
        assert(v * 1 == v);
    } else {
        let w = v * p;
        assert(rescaled(w, -(d as int)) == round_half_away(w, p));
        lemma_round_exact(v, p);
        assert(lo <= v <= hi) by (nonlinear_arith)
            requires
                lo <= v * p <= hi,
                p >= 1,
                lo <= 0 <= hi,
        ;
    }
}

} // verus!
