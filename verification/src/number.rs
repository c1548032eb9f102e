//! Numbers as the rules for ranges and steps see them.
//!
//! A [`Number`] is a single-precision binary floating-point number in the
//! IEEE 754 interchange format, held as its 32 bits: one sign bit, eight
//! exponent bits and twenty-three fraction bits. Every finite number of that
//! format is a whole multiple of 2^-149, so its value can be stated, and
//! compared, in whole numbers.
use vstd::prelude::*;
use vstd::arithmetic::div_mod::*;
use vstd::arithmetic::mul::*;
use vstd::arithmetic::power2::*;

verus! {

/// The bit that holds the sign.
pub const SIGN_BIT: u32 = 0x8000_0000;

/// The bits of positive infinity: every exponent bit set, no fraction bit.
pub const INFINITY_BITS: u32 = 0x7f80_0000;

/// Two to the power 23: the weight of the lowest exponent bit, and the
/// leading bit that a normal number's fraction leaves out.
pub const HIDDEN_BIT: u32 = 0x80_0000;

/// A single-precision floating-point number, held as its bits.
#[derive(Clone, Copy, Debug, PartialEq, Eq, Hash)]
pub struct Number {
    /// The 32 bits of the interchange format.
    pub bits: u32,
}

impl Number {
    /// Whether the sign bit is set.
    pub open spec fn is_negative(self) -> bool {
        self.bits >= SIGN_BIT
    }

    /// The bits without the sign bit.
    pub open spec fn magnitude(self) -> nat {
        if self.bits >= SIGN_BIT {
            (self.bits - SIGN_BIT) as nat
        } else {
            self.bits as nat
        }
    }

    /// Not a number.
    pub open spec fn is_nan(self) -> bool {
        self.magnitude() > INFINITY_BITS
    }

    /// Positive or negative infinity.
    pub open spec fn is_infinite(self) -> bool {
        self.magnitude() == INFINITY_BITS
    }

    /// Zero, subnormal or normal.
    pub open spec fn is_finite(self) -> bool {
        self.magnitude() < INFINITY_BITS
    }

    /// The eight exponent bits, as a number.
    pub open spec fn exponent_field(self) -> nat {
        self.magnitude() / (HIDDEN_BIT as nat)
    }

    /// The twenty-three fraction bits, as a number.
    pub open spec fn fraction_field(self) -> nat {
        self.magnitude() % (HIDDEN_BIT as nat)
    }

    /// The significand as a whole number: the fraction, with the hidden bit
    /// in front unless the exponent field is zero.
    pub open spec fn significand(self) -> nat {
        if self.exponent_field() == 0 {
            self.fraction_field()
        } else {
            HIDDEN_BIT as nat + self.fraction_field()
        }
    }

    /// The power of two that the significand is multiplied by, counted from
    /// 2^-149.
    pub open spec fn scale(self) -> nat {
        if self.exponent_field() == 0 {
            0
        } else {
            (self.exponent_field() - 1) as nat
        }
    }

    /// The absolute value in units of 2^-149. Of an infinity this is 2^277,
    /// which is more than the size of any finite number.
    pub open spec fn size(self) -> nat {
        self.significand() * pow2(self.scale())
    }

    /// The value in units of 2^-149: the size, with the sign.
    pub open spec fn scaled_value(self) -> int {
        if self.is_negative() {
            -(self.size() as int)
        } else {
            self.size() as int
        }
    }

    /// The value, taken `k` times, in units of 2^-149.
    pub open spec fn times(self, k: int) -> int {
        k * self.scaled_value()
    }

    /// Numerically less: neither side is not-a-number, and the value of this
    /// one is the smaller. Negative zero is not less than positive zero.
    pub open spec fn lt(self, other: Number) -> bool {
        !self.is_nan() && !other.is_nan() && self.scaled_value() < other.scaled_value()
    }

    /// A whole multiple of `step`: both are numbers, this one is finite,
    /// `step` is not zero, and this one's value is `step`'s value times an
    /// integer. An infinite `step` has zero as its only multiple.
    pub open spec fn multiple_of(self, step: Number) -> bool {
        &&& self.is_finite()
        &&& !step.is_nan()
        &&& step.size() != 0
        &&& self.size() % step.size() == 0
    }

    /// The bits without the sign bit.
    pub fn magnitude_bits(&self) -> (m: u32)
        ensures
            m == self.magnitude(),
            m < SIGN_BIT,
    {
        if self.bits >= SIGN_BIT {
            self.bits - SIGN_BIT
        } else {
            self.bits
        }
    }

    /// Whether this is not a number.
    pub fn nan(&self) -> (r: bool)
        ensures
            r == self.is_nan(),
    {
        self.magnitude_bits() > INFINITY_BITS
    }

    /// Whether this is zero, subnormal or normal.
    pub fn finite(&self) -> (r: bool)
        ensures
            r == self.is_finite(),
    {
        self.magnitude_bits() < INFINITY_BITS
    }

    /// The significand as a whole number.
    fn significand_bits(&self) -> (s: u32)
        ensures
            s == self.significand(),
            s < 2 * HIDDEN_BIT,
            self.exponent_field() > 0 ==> s >= HIDDEN_BIT,
    {
        let m = self.magnitude_bits();
        if m / HIDDEN_BIT == 0 {
            m % HIDDEN_BIT
        } else {
            HIDDEN_BIT + m % HIDDEN_BIT
        }
    }

    /// The power of two that goes with the significand.
    fn scale_bits(&self) -> (e: u32)
        ensures
            e == self.scale(),
            e <= 254,
    {
        let m = self.magnitude_bits();
        if m / HIDDEN_BIT == 0 {
            0
        } else {
            m / HIDDEN_BIT - 1
        }
    }

    /// Whether this number is less than `other`, as numbers compare: false
    /// when either is not a number.
    pub fn less_than(&self, other: &Number) -> (r: bool)
        ensures
            r == self.lt(*other),
    {
        let a = self.magnitude_bits();
        let b = other.magnitude_bits();
        if a > INFINITY_BITS || b > INFINITY_BITS {
            return false;
        }
        proof {
            lemma_size_order(*self, *other);
            lemma_size_order(*other, *self);
            lemma_size_zero(*self);
            lemma_size_zero(*other);
        }
        if self.bits >= SIGN_BIT {
            if other.bits >= SIGN_BIT {
                b < a
            } else {
                a != 0 || b != 0
            }
        } else {
            if other.bits >= SIGN_BIT {
                false
            } else {
                a < b
            }
        }
    }

    /// Whether this number is greater than `other`, as numbers compare:
    /// false when either is not a number.
    pub fn greater_than(&self, other: &Number) -> (r: bool)
        ensures
            r == other.lt(*self),
    {
        other.less_than(self)
    }

    /// Whether this number is a whole multiple of `step`.
    pub fn is_multiple_of(&self, step: &Number) -> (r: bool)
        ensures
            r == self.multiple_of(*step),
    {
        if !self.finite() || step.nan() {
            return false;
        }
        let sx: u64 = self.significand_bits() as u64;
        let ex: u32 = self.scale_bits();
        let sy: u64 = step.significand_bits() as u64;
        let ey: u32 = step.scale_bits();
        proof {
            lemma_pow2_pos(ex as nat);
            lemma_pow2_pos(ey as nat);
            lemma_mul_nonzero(sy as int, pow2(ey as nat) as int);
        }
        if sy == 0 {
            return false;
        }
        if ex >= ey {
            let d: u32 = ex - ey;
            let mut r: u64 = sx % sy;
            let mut i: u32 = 0;
            proof {
                lemma2_to64();
                lemma_mul_basics(sx as int);
            }
            while i < d
                invariant
                    i <= d,
                    0 < sy < 2 * HIDDEN_BIT,
                    r < sy,
                    r == (sx * pow2(i as nat)) % (sy as int),
                decreases d - i,
            {
                proof {
                    lemma_pow2_unfold((i + 1) as nat);
                    lemma_mul_mod_noop_left(sx * pow2(i as nat), 2, sy as int);
                    lemma_mul_is_associative(sx as int, pow2(i as nat) as int, 2);
                }
                r = (r * 2) % sy;
                i += 1;
            }
            proof {
                lemma_multiple_by_quotient(sx as nat, ex as nat, sy as nat, ey as nat);
            }
            r == 0
        } else {
            let d: u32 = ey - ex;
            proof {
                lemma2_to64();
                lemma_multiple_by_divisor(sx as nat, ex as nat, sy as nat, ey as nat);
            }
            if d >= 24 {
                sx == 0
            } else {
                let mut m: u64 = sy;
                let mut i: u32 = 0;
                proof {
                    lemma_mul_basics(sy as int);
                }
                while i < d
                    invariant
                        i <= d < 24,
                        0 < sy < 2 * HIDDEN_BIT,
                        m == sy * pow2(i as nat),
                        0 < m <= sy * HIDDEN_BIT,
                    decreases d - i,
                {
                    proof {
                        let p = pow2(i as nat) as int;
                        let q = pow2((i + 1) as nat) as int;
                        lemma_pow2_unfold((i + 1) as nat);
                        lemma2_to64();
                        if i + 1 < 23 {
                            lemma_pow2_strictly_increases((i + 1) as nat, 23);
                        }
                        assert(m * 2 == sy * q && sy * q <= sy * HIDDEN_BIT) by (nonlinear_arith)
                            requires
                                m == sy * p,
                                q == 2 * p,
                                q <= HIDDEN_BIT,
                                sy > 0,
                        ;
                        assert(sy * HIDDEN_BIT < 0x1_0000_0000_0000) by (nonlinear_arith)
                            requires
                                sy < 2 * HIDDEN_BIT,
                                HIDDEN_BIT == 0x80_0000,
                        ;
                    }
                    m = m * 2;
                    i += 1;
                }
                sx % m == 0
            }
        }
    }

    /// The number with the given bits.
    pub fn from_bits(bits: u32) -> (number: Number)
        ensures
            number.bits == bits,
    {
        Number { bits }
    }

    /// The bits of this number.
    pub fn to_bits(&self) -> (bits: u32)
        ensures
            bits == self.bits,
    {
        self.bits
    }
}

/// One is 2^149 units of 2^-149.
pub proof fn lemma_value_of_one()
    ensures
        (Number { bits: 0x3f80_0000 }).scaled_value() == pow2(149),
        (Number { bits: 0x3f80_0000 }).is_finite(),
{
    let one = Number { bits: 0x3f80_0000 };
    assert(one.exponent_field() == 127);
    assert(one.fraction_field() == 0);
    lemma2_to64();
    lemma_pow2_adds(23, 126);
}

/// Both zeros have the value zero, and neither is less than the other.
pub proof fn lemma_value_of_zero()
    ensures
        (Number { bits: 0 }).scaled_value() == 0,
        (Number { bits: SIGN_BIT }).scaled_value() == 0,
        !(Number { bits: SIGN_BIT }).lt(Number { bits: 0 }),
        !(Number { bits: 0 }).lt(Number { bits: SIGN_BIT }),
{
    lemma_size_zero(Number { bits: 0 });
    lemma_size_zero(Number { bits: SIGN_BIT });
}

/// Every finite number is less than positive infinity and greater than
/// negative infinity.
pub proof fn lemma_infinity_bounds(a: Number)
    requires
        a.is_finite(),
    ensures
        a.lt(Number { bits: INFINITY_BITS }),
        (Number { bits: 0xff80_0000 }).lt(a),
{
    let high = Number { bits: INFINITY_BITS };
    let low = Number { bits: 0xff80_0000 };
    lemma_size_order(a, high);
    lemma_size_order(a, low);
}

/// Less-than orders the numbers strictly: no number is less than itself,
/// and less-than carries over a number in between.
pub proof fn lemma_lt_is_a_strict_order(a: Number, b: Number, c: Number)
    ensures
        !a.lt(a),
        a.lt(b) ==> !b.lt(a),
        a.lt(b) && b.lt(c) ==> a.lt(c),
{
}

/// Two numbers that are less than one another in neither direction, and of
/// which neither is not-a-number, have the same value.
pub proof fn lemma_neither_less_is_equal(a: Number, b: Number)
    requires
        !a.is_nan(),
        !b.is_nan(),
        !a.lt(b),
        !b.lt(a),
    ensures
        a.scaled_value() == b.scaled_value(),
{
}

/// To be a whole multiple of a step is to be the step times an integer.
pub proof fn lemma_multiple_is_step_times_integer(a: Number, step: Number)
    requires
        a.is_finite(),
        !step.is_nan(),
        step.size() != 0,
    ensures
        a.multiple_of(step) <==> exists|k: int| a.scaled_value() == #[trigger] step.times(k),
{
    let x = a.size() as int;
    let y = step.size() as int;
    let same_sign = a.is_negative() == step.is_negative();
    if a.multiple_of(step) {
        lemma_fundamental_div_mod(x, y);
        let q = x / y;
        let k = if same_sign {
            q
        } else {
            -q
        };
        assert(a.scaled_value() == step.times(k)) by (nonlinear_arith)
            requires
                x == y * q,
                step.times(k) == k * step.scaled_value(),
                k == if same_sign {
                    q
                } else {
                    -q
                },
                a.scaled_value() == if a.is_negative() {
                    -x
                } else {
                    x
                },
                step.scaled_value() == if step.is_negative() {
                    -y
                } else {
                    y
                },
                same_sign == (a.is_negative() == step.is_negative()),
        ;
    }
    if exists|k: int| a.scaled_value() == #[trigger] step.times(k) {
        let k = choose|k: int| a.scaled_value() == #[trigger] step.times(k);
        let q = if same_sign {
            k
        } else {
            -k
        };
        assert(x == q * y) by (nonlinear_arith)
            requires
                a.scaled_value() == k * step.scaled_value(),
                q == if same_sign {
                    k
                } else {
                    -k
                },
                a.scaled_value() == if a.is_negative() {
                    -x
                } else {
                    x
                },
                step.scaled_value() == if step.is_negative() {
                    -y
                } else {
                    y
                },
                same_sign == (a.is_negative() == step.is_negative()),
        ;
        lemma_mod_multiples_basic(q, y);
    }
}

/// The size of a number grows with its bits, the sign bit aside.
proof fn lemma_size_increases(a: Number, b: Number)
    requires
        a.magnitude() < b.magnitude(),
    ensures
        a.size() < b.size(),
{
    let h = HIDDEN_BIT as int;
    let ea = a.exponent_field() as int;
    let fa = a.fraction_field() as int;
    let eb = b.exponent_field() as int;
    let fb = b.fraction_field() as int;
    lemma_fundamental_div_mod(a.magnitude() as int, h);
    lemma_fundamental_div_mod(b.magnitude() as int, h);
    lemma_mod_bound(a.magnitude() as int, h);
    lemma_mod_bound(b.magnitude() as int, h);
    let pa = pow2(a.scale()) as int;
    let pb = pow2(b.scale()) as int;
    lemma_pow2_pos(a.scale());
    lemma_pow2_pos(b.scale());
    if ea == eb {
        assert(fa < fb);
        assert(a.significand() < b.significand());
        assert(a.significand() * pa < b.significand() * pa) by (nonlinear_arith)
            requires
                a.significand() < b.significand(),
                pa > 0,
        ;
    } else {
        assert(ea < eb) by (nonlinear_arith)
            requires
                ea != eb,
                h * ea + fa < h * eb + fb,
                0 <= fa < h,
                0 <= fb < h,
        ;
        assert(h * pb <= b.significand() * pb) by (nonlinear_arith)
            requires
                h <= b.significand(),
                pb > 0,
        ;
        if ea == 0 {
            lemma2_to64();
            assert(a.size() == fa) by (nonlinear_arith)
                requires
                    a.size() == fa * pa,
                    pa == 1,
            ;
            assert(h <= h * pb) by (nonlinear_arith)
                requires
                    pb >= 1,
                    h > 0,
            ;
        } else {
            lemma_pow2_unfold(ea as nat);
            if ea < eb - 1 {
                lemma_pow2_strictly_increases(ea as nat, (eb - 1) as nat);
            }
            let pe = pow2(ea as nat) as int;
            assert(pe == 2 * pa);
            assert(pe <= pb);
            assert((h + fa) * pa < h * pe) by (nonlinear_arith)
                requires
                    0 <= fa < h,
                    pe == 2 * pa,
                    pa > 0,
            ;
            assert(h * pe <= h * pb) by (nonlinear_arith)
                requires
                    pe <= pb,
                    h > 0,
            ;
        }
    }
}

/// The bits of two numbers, the sign bit aside, stand in the order of their
/// sizes.
proof fn lemma_size_order(a: Number, b: Number)
    ensures
        (a.magnitude() < b.magnitude()) == (a.size() < b.size()),
{
    if a.magnitude() < b.magnitude() {
        lemma_size_increases(a, b);
    } else if b.magnitude() < a.magnitude() {
        lemma_size_increases(b, a);
    }
}

/// Only the two zeros have size zero.
proof fn lemma_size_zero(a: Number)
    ensures
        (a.magnitude() == 0) == (a.size() == 0),
{
    let zero = Number { bits: 0 };
    lemma_mul_basics(pow2(0) as int);
    assert(zero.size() == 0);
    lemma_size_order(zero, a);
}

/// Where the multiple has the larger scale: it is a multiple exactly when
/// its significand, shifted up by the difference, divides evenly.
proof fn lemma_multiple_by_quotient(sx: nat, ex: nat, sy: nat, ey: nat)
    requires
        ex >= ey,
        sy > 0,
    ensures
        ((sx * pow2(ex)) % (sy * pow2(ey)) == 0) == ((sx * pow2((ex - ey) as nat)) % sy == 0),
{
    let d = (ex - ey) as nat;
    let p = pow2(ey) as int;
    let x = (sx * pow2(d)) as int;
    lemma_pow2_pos(ey);
    lemma_pow2_adds(d, ey);
    lemma_mul_is_associative(sx as int, pow2(d) as int, p);
    lemma_truncate_middle(x, p, sy as int);
    lemma_mul_is_commutative(p, x);
    lemma_mul_is_commutative(p, sy as int);
    assert((x * p) % (sy * p) == p * (x % (sy as int)));
    lemma_mod_bound(x, sy as int);
    lemma_mul_nonzero(p, x % (sy as int));
}

/// Where the multiple has the smaller scale: it is a multiple exactly when
/// the step's significand, shifted up by the difference, divides its own;
/// and with a difference of 24 or more only zero is one.
proof fn lemma_multiple_by_divisor(sx: nat, ex: nat, sy: nat, ey: nat)
    requires
        ex < ey,
        sy > 0,
        sx < pow2(24),
    ensures
        ((sx * pow2(ex)) % (sy * pow2(ey)) == 0) == (sx % (sy * pow2((ey - ex) as nat)) == 0),
        ey - ex >= 24 ==> (sx % (sy * pow2((ey - ex) as nat)) == 0) == (sx == 0),
{
    let d = (ey - ex) as nat;
    let p = pow2(ex) as int;
    let y = (sy * pow2(d)) as int;
    lemma_pow2_pos(ex);
    lemma_pow2_pos(d);
    lemma_pow2_adds(d, ex);
    lemma_mul_is_associative(sy as int, pow2(d) as int, p);
    lemma_mul_strictly_positive(sy as int, pow2(d) as int);
    lemma_truncate_middle(sx as int, p, y);
    lemma_mul_is_commutative(p, sx as int);
    lemma_mul_is_commutative(p, y);
    assert((sx as int * p) % (y * p) == p * (sx as int % y));
    lemma_mod_bound(sx as int, y);
    lemma_mul_nonzero(p, sx as int % y);
    if d >= 24 {
        if d > 24 {
            lemma_pow2_strictly_increases(24, d);
        }
        assert(pow2(d) <= y) by (nonlinear_arith)
            requires
                y == sy * pow2(d),
                sy >= 1,
        ;
        lemma_small_mod(sx, y as nat);
    }
}

} // verus!
