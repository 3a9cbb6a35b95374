//! Amounts of storage in GiB.
//!
//! The configuration file gives the storage limit as a number with a fraction, in double
//! precision (IEEE 754 binary64). `Gib` holds the 64 bits of that number, and everything the node
//! decides about the limit is decided here in integers.

use vstd::arithmetic::power2::*;
use vstd::prelude::*;

verus! {

/// A double precision number of GiB, as its 64 bits: from the top, one bit for the sign, eleven
/// for the exponent, fifty-two for the fraction.
#[derive(Clone, Copy, Debug, PartialEq, Eq, Structural)]
pub struct Gib {
    pub bits: u64,
}

/// The bits of 40.0, the limit a new configuration proposes.
pub const DEFAULT_GIB_BITS: u64 = 0x4044_0000_0000_0000;

/// Two to the power of twenty, in GiB: the largest limit the node accepts.
pub const MAX_REASONABLE_GIB: u64 = 0x10_0000;

impl Gib {
    /// The sign bit is set.
    pub open spec fn negative(self) -> bool {
        self.bits >= 0x8000_0000_0000_0000
    }

    /// The exponent field.
    pub open spec fn exponent(self) -> nat {
        (self.bits as nat / 0x10_0000_0000_0000) % 0x800
    }

    /// The fraction field.
    pub open spec fn fraction(self) -> nat {
        self.bits as nat % 0x10_0000_0000_0000
    }

    /// Not a number: neither equal to, less than nor greater than anything.
    pub open spec fn is_nan(self) -> bool {
        self.exponent() == 0x7ff && self.fraction() != 0
    }

    /// Infinity of either sign.
    pub open spec fn is_infinite(self) -> bool {
        self.exponent() == 0x7ff && self.fraction() == 0
    }

    /// The absolute value of a finite number, in units of two to the power of -1074, the
    /// smallest number there is.
    pub open spec fn magnitude(self) -> nat {
        if self.exponent() == 0 {
            self.fraction()
        } else {
            (self.fraction() + 0x10_0000_0000_0000) * pow2((self.exponent() - 1) as nat)
        }
    }

    /// The number is zero, of either sign.
    pub open spec fn is_zero_amount(self) -> bool {
        self.exponent() == 0 && self.fraction() == 0
    }

    /// The number is greater than zero.
    pub open spec fn is_positive_amount(self) -> bool {
        !self.is_nan() && !self.negative() && !self.is_zero_amount()
    }

    /// The number is greater than `limit`, a whole number.
    pub open spec fn exceeds_whole(self, limit: nat) -> bool {
        &&& !self.is_nan()
        &&& !self.negative()
        &&& self.is_infinite() || self.magnitude() > limit * pow2(1074)
    }

    /// The amount in bytes, rounded towards zero and brought into the range of `u64`: what is
    /// not a number counts as nothing.
    pub open spec fn in_bytes(self) -> nat {
        if self.is_nan() || self.negative() {
            0
        } else if self.is_infinite() || self.magnitude() * pow2(30) / pow2(1074) > u64::MAX {
            u64::MAX as nat
        } else {
            self.magnitude() * pow2(30) / pow2(1074)
        }
    }

    fn exponent_field(self) -> (e: u64)
        ensures
            e == self.exponent(),
            e <= 0x7ff,
    {
        (self.bits / 0x10_0000_0000_0000) % 0x800
    }

    fn fraction_field(self) -> (f: u64)
        ensures
            f == self.fraction(),
            f < 0x10_0000_0000_0000,
    {
        self.bits % 0x10_0000_0000_0000
    }

    /// Is the number zero?
    pub fn is_zero(self) -> (yes: bool)
        ensures
            yes == self.is_zero_amount(),
    {
        self.exponent_field() == 0 && self.fraction_field() == 0
    }

    /// Is the number greater than zero?
    pub fn is_positive(self) -> (yes: bool)
        ensures
            yes == self.is_positive_amount(),
    {
        let e: u64 = self.exponent_field();
        let f: u64 = self.fraction_field();
        !(e == 0x7ff && f != 0) && self.bits < 0x8000_0000_0000_0000 && !(e == 0 && f == 0)
    }

    /// Is the number greater than the largest limit the node accepts?
    pub fn exceeds_reasonable(self) -> (yes: bool)
        ensures
            yes == self.exceeds_whole(MAX_REASONABLE_GIB as nat),
    {
        let e: u64 = self.exponent_field();
        let f: u64 = self.fraction_field();
        if (e == 0x7ff && f != 0) || self.bits >= 0x8000_0000_0000_0000 {
            return false;
        }
        if e == 0x7ff {
            return true;
        }
        proof {
            self.lemma_reasonable_by_fields();
        }
        e > 1043 || (e == 1043 && f > 0)
    }

    /// The amount in bytes.
    pub fn to_bytes(self) -> (n: u64)
        ensures
            n == self.in_bytes(),
    {
        let e: u64 = self.exponent_field();
        let f: u64 = self.fraction_field();
        if (e == 0x7ff && f != 0) || self.bits >= 0x8000_0000_0000_0000 {
            return 0;
        }
        if e == 0x7ff {
            return u64::MAX;
        }
        proof {
            self.lemma_bytes_by_shift();
            lemma2_to64();
            lemma2_to64_rest();
            lemma_pow2_pos(1044);
        }
        if e == 0 {
            proof {
                lemma_pow2_strictly_increases(52, 1044);
                vstd::arithmetic::div_mod::lemma_basic_div(f as int, pow2(1044) as int);
            }
            return 0;
        }
        let m: u64 = f + 0x10_0000_0000_0000;
        if e >= 1045 {
            let up: u64 = e - 1045;
            proof {
                // m * 2^(e - 1) / 2^1044 == m * 2^up
                lemma_pow2_adds(up as nat, 1044);
                lemma_pow2_pos(up as nat);
                vstd::arithmetic::mul::lemma_mul_is_associative(m as int, pow2(up as nat) as int, pow2(1044) as int);
                vstd::arithmetic::div_mod::lemma_div_multiples_vanish(
                    m * pow2(up as nat),
                    pow2(1044) as int,
                );
                vstd::arithmetic::mul::lemma_mul_is_commutative(m * pow2(up as nat), pow2(1044) as int);
            }
            if up >= 12 {
                proof {
                    if up > 12 {
                        lemma_pow2_strictly_increases(12, up as nat);
                    }
                    assert(m * pow2(up as nat) >= 0x10_0000_0000_0000 * 0x1000) by (nonlinear_arith)
                        requires
                            m >= 0x10_0000_0000_0000,
                            pow2(up as nat) >= 0x1000,
                    ;
                }
                return u64::MAX;
            }
            let mut n: u64 = m;
            let mut k: u64 = 0;
            proof {
                assert(m * pow2(0) == m);
            }
            while k < up
                invariant
                    k <= up < 12,
                    0x10_0000_0000_0000 <= m < 0x20_0000_0000_0000,
                    n == m * pow2(k as nat),
                decreases up - k,
            {
                proof {
                    lemma2_to64();
                    lemma_pow2_unfold((k + 1) as nat);
                    if k < 10 {
                        lemma_pow2_strictly_increases(k as nat, 10);
                    }
                    assert(m * pow2(k as nat) < 0x20_0000_0000_0000 * 1024) by (nonlinear_arith)
                        requires
                            m < 0x20_0000_0000_0000,
                            0 < pow2(k as nat) <= 1024,
                    ;
                    assert(m * (2 * pow2(k as nat)) == 2 * (m * pow2(k as nat))) by (nonlinear_arith);
                }
                n = n * 2;
                k += 1;
            }
            n
        } else {
            let down: u64 = 1045 - e;
            proof {
                // m * 2^(e - 1) / 2^1044 == m / 2^down
                lemma_pow2_adds((e - 1) as nat, down as nat);
                lemma_pow2_pos((e - 1) as nat);
                lemma_pow2_pos(down as nat);
                vstd::arithmetic::div_mod::lemma_div_denominator(
                    m * pow2((e - 1) as nat),
                    pow2((e - 1) as nat) as int,
                    pow2(down as nat) as int,
                );
                vstd::arithmetic::div_mod::lemma_div_multiples_vanish(m as int, pow2((e - 1) as nat) as int);
                vstd::arithmetic::mul::lemma_mul_is_commutative(m as int, pow2((e - 1) as nat) as int);
                assert(self.magnitude() / pow2(1044) == m as nat / pow2(down as nat));
            }
            if down >= 53 {
                proof {
                    if down > 53 {
                        lemma_pow2_strictly_increases(53, down as nat);
                    }
                    vstd::arithmetic::div_mod::lemma_basic_div(m as int, pow2(down as nat) as int);
                }
                return 0;
            }
            let mut n: u64 = m;
            let mut k: u64 = 0;
            proof {
                assert(m as nat / pow2(0) == m);
            }
            while k < down
                invariant
                    k <= down < 53,
                    n == m as nat / pow2(k as nat),
                decreases down - k,
            {
                proof {
                    lemma_pow2_unfold((k + 1) as nat);
                    lemma_pow2_pos(k as nat);
                    vstd::arithmetic::div_mod::lemma_div_denominator(m as int, pow2(k as nat) as int, 2);
                    vstd::arithmetic::mul::lemma_mul_is_commutative(pow2(k as nat) as int, 2);
                }
                n = n / 2;
                k += 1;
            }
            proof {
                vstd::arithmetic::div_mod::lemma_div_is_ordered_by_denominator(
                    m as int,
                    1,
                    pow2(down as nat) as int,
                );
            }
            n
        }
    }

    /// A limit the node accepts is at most 2^50 bytes: it never reaches the end of the range of
    /// `u64`, where bytes in use plus bytes to come could no longer be told apart from the limit.
    pub proof fn accepted_limit_fits(self)
        requires
            !self.exceeds_whole(MAX_REASONABLE_GIB as nat),
        ensures
            self.in_bytes() <= pow2(50),
            self.in_bytes() < u64::MAX,
    {
        lemma2_to64();
        lemma2_to64_rest();
        if !self.is_nan() && !self.negative() {
            self.lemma_bytes_by_shift();
            lemma_pow2_adds(20, 1074);
            lemma_pow2_adds(50, 1044);
            lemma_pow2_pos(1044);
            assert(self.magnitude() <= pow2(50) * pow2(1044));
            vstd::arithmetic::div_mod::lemma_div_is_ordered(
                self.magnitude() as int,
                (pow2(50) * pow2(1044)) as int,
                pow2(1044) as int,
            );
            vstd::arithmetic::div_mod::lemma_div_multiples_vanish(pow2(50) as int, pow2(1044) as int);
            vstd::arithmetic::mul::lemma_mul_is_commutative(pow2(50) as int, pow2(1044) as int);
        }
    }

    /// Taking 2^30 out of the quotient: the number of bytes is the magnitude over 2^1044.
    proof fn lemma_bytes_by_shift(self)
        ensures
            self.magnitude() * pow2(30) / pow2(1074) == self.magnitude() / pow2(1044),
    {
        let m = self.magnitude() as int;
        lemma_pow2_adds(30, 1044);
        lemma_pow2_pos(30);
        lemma_pow2_pos(1044);
        vstd::arithmetic::div_mod::lemma_div_denominator(
            m * pow2(30),
            pow2(30) as int,
            pow2(1044) as int,
        );
        vstd::arithmetic::div_mod::lemma_div_multiples_vanish(m, pow2(30) as int);
        vstd::arithmetic::mul::lemma_mul_is_commutative(m, pow2(30) as int);
    }

    /// A finite number is over 2^20 exactly when its exponent is over that of 2^20, or is the same
    /// with a fraction behind it.
    proof fn lemma_reasonable_by_fields(self)
        requires
            self.exponent() < 0x7ff,
        ensures
            self.magnitude() > MAX_REASONABLE_GIB as nat * pow2(1074) <==> self.exponent() > 1043 || (
            self.exponent() == 1043 && self.fraction() > 0),
    {
        let e = self.exponent();
        let f = self.fraction();
        lemma2_to64();
        lemma2_to64_rest();
        lemma_pow2_adds(20, 1074);
        lemma_pow2_adds(52, 1042);
        assert(MAX_REASONABLE_GIB as nat * pow2(1074) == pow2(1094));
        if e == 0 {
            lemma_pow2_strictly_increases(52, 1094);
        } else {
            let m = f + 0x10_0000_0000_0000;
            let x = (e - 1) as nat;
            lemma_pow2_pos(x);
            if e < 1043 {
                // m < 2^53, so m * 2^x < 2^(53 + x) <= 2^1094
                lemma_pow2_adds(53, x);
                assert(m * pow2(x) < pow2(53) * pow2(x)) by (nonlinear_arith)
                    requires
                        m < pow2(53),
                        pow2(x) > 0,
                ;
                if x < 1041 {
                    lemma_pow2_strictly_increases(53 + x, 1094);
                }
            } else {
                // m >= 2^52 and x >= 1042
                if x > 1042 {
                    lemma_pow2_strictly_increases(1042, x);
                }
                assert(m * pow2(x) >= pow2(52) * pow2(1042)) by (nonlinear_arith)
                    requires
                        m >= pow2(52),
                        pow2(x) >= pow2(1042),
                ;
                if x > 1042 {
                    assert(m * pow2(x) > pow2(52) * pow2(1042)) by (nonlinear_arith)
                        requires
                            m >= pow2(52),
                            pow2(52) > 0,
                            pow2(x) > pow2(1042),
                    ;
                } else if f > 0 {
                    assert(m * pow2(x) > pow2(52) * pow2(1042)) by (nonlinear_arith)
                        requires
                            m > pow2(52),
                            x == 1042,
                            pow2(x) > 0,
                    ;
                }
            }
        }
    }

    /// The order of positive numbers is that of their bits: a number is zero, positive, or over 2^20
    /// exactly where its bits say so.
    pub proof fn amounts_are_ordered_by_bits(self)
        ensures
            self.is_zero_amount() <==> self.bits == 0 || self.bits == 0x8000_0000_0000_0000,
            self.is_positive_amount() <==> 0 < self.bits <= 0x7ff0_0000_0000_0000,
            self.exceeds_whole(0x10_0000) <==> 0x4130_0000_0000_0000 < self.bits <= 0x7ff0_0000_0000_0000,
    {
        if self.exponent() < 0x7ff {
            self.lemma_reasonable_by_fields();
        }
    }

    /// A positive finite amount in bytes is rounded down: it is the largest whole number of bytes that
    /// is not more than the amount, as far as a counter goes.
    pub proof fn bytes_are_rounded_down(self)
        requires
            0 <= self.bits < 0x7ff0_0000_0000_0000,
            self.in_bytes() < u64::MAX,
        ensures
            self.in_bytes() * pow2(1074) <= self.magnitude() * pow2(30) < (self.in_bytes() + 1) * pow2(1074),
    {
        lemma_pow2_pos(1074);
        let x = (self.magnitude() * pow2(30)) as int;
        let d = pow2(1074) as int;
        vstd::arithmetic::div_mod::lemma_fundamental_div_mod(x, d);
        vstd::arithmetic::div_mod::lemma_mod_bound(x, d);
        vstd::arithmetic::mul::lemma_mul_is_commutative(d, x / d);
        vstd::arithmetic::mul::lemma_mul_is_distributive_add_other_way(d, x / d, 1);
    }

    /// A whole number of GiB is that many times 2^30 bytes. The bits of a whole number `n` with
    /// `2^k <= n < 2^(k + 1)` are those of the exponent `k` and of the fraction `n / 2^k - 1`.
    pub proof fn whole_amount_in_bytes(self, n: nat, k: nat)
        requires
            k <= 20,
            pow2(k) <= n < pow2(k + 1),
            self.bits == (1023 + k) * 0x10_0000_0000_0000 + (n - pow2(k)) * pow2((52 - k) as nat),
        ensures
            self.in_bytes() == n * 0x4000_0000,
    {
        lemma2_to64();
        lemma2_to64_rest();
        let j = (52 - k) as nat;
        let f = (n - pow2(k)) as nat * pow2(j);
        lemma_pow2_pos(j);
        lemma_pow2_adds(k, j);
        lemma_pow2_unfold(k + 1);
        assert(f + pow2(k) * pow2(j) == n * pow2(j)) by (nonlinear_arith)
            requires
                f == (n - pow2(k)) as nat * pow2(j),
                n >= pow2(k),
        ;
        assert(f < 0x10_0000_0000_0000) by (nonlinear_arith)
            requires
                f + pow2(k) * pow2(j) == n * pow2(j),
                n < 2 * pow2(k),
                pow2(j) > 0,
                pow2(k) * pow2(j) == 0x10_0000_0000_0000,
        ;
        assert(0 <= f);
        let e = 1023 + k;
        assert(self.bits as nat == e * 0x10_0000_0000_0000 + f);
        assert(self.exponent() == e && self.fraction() == f);
        lemma_pow2_adds(j, 1022 + k);
        vstd::arithmetic::mul::lemma_mul_is_associative(n as int, pow2(j) as int, pow2(1022 + k) as int);
        assert(self.magnitude() == n * pow2(1074));
        lemma_pow2_pos(1074);
        vstd::arithmetic::mul::lemma_mul_is_associative(n as int, pow2(1074) as int, pow2(30) as int);
        vstd::arithmetic::mul::lemma_mul_is_commutative(pow2(1074) as int, pow2(30) as int);
        vstd::arithmetic::mul::lemma_mul_is_associative(n as int, pow2(30) as int, pow2(1074) as int);
        vstd::arithmetic::mul::lemma_mul_is_commutative((n * pow2(30)) as int, pow2(1074) as int);
        vstd::arithmetic::div_mod::lemma_div_multiples_vanish((n * pow2(30)) as int, pow2(1074) as int);
        if k < 20 {
            lemma_pow2_strictly_increases(k + 1, 21);
        }
        assert(n < 0x20_0000);
    }

    /// An amount below 2^22 GiB in bytes, by its bits: with `e` and `f` the fields of the exponent and of
    /// the fraction, it is `2^52 + f`, cut off at the place that `e` gives.
    pub proof fn bytes_by_fields(self, e: nat, f: nat)
        requires
            1 <= e <= 1045,
            f < 0x10_0000_0000_0000,
            self.bits == e * 0x10_0000_0000_0000 + f,
        ensures
            self.in_bytes() == (0x10_0000_0000_0000 + f) / pow2((1045 - e) as nat),
    {
        let m = 0x10_0000_0000_0000 + f;
        let (up, down) = ((e - 1) as nat, (1045 - e) as nat);
        assert(self.exponent() == e && self.fraction() == f);
        self.lemma_bytes_by_shift();
        lemma_pow2_adds(up, down);
        lemma_pow2_pos(up);
        lemma_pow2_pos(down);
        vstd::arithmetic::div_mod::lemma_div_denominator((m * pow2(up)) as int, pow2(up) as int, pow2(down) as int);
        vstd::arithmetic::div_mod::lemma_div_multiples_vanish(m as int, pow2(up) as int);
        vstd::arithmetic::mul::lemma_mul_is_commutative(m as int, pow2(up) as int);
        vstd::arithmetic::div_mod::lemma_div_is_ordered_by_denominator(m as int, 1, pow2(down) as int);
    }

    /// A larger amount is not fewer bytes.
    pub proof fn larger_amount_is_not_fewer_bytes(self, larger: Gib)
        requires
            self.bits <= larger.bits <= 0x7ff0_0000_0000_0000,
        ensures
            self.in_bytes() <= larger.in_bytes(),
    {
        if larger.bits < 0x7ff0_0000_0000_0000 {
            let (ea, fa) = (self.exponent(), self.fraction());
            let (eb, fb) = (larger.exponent(), larger.fraction());
            assert(ea < eb || (ea == eb && fa <= fb));
            assert(self.magnitude() <= larger.magnitude()) by {
                if ea == eb && ea > 0 {
                    vstd::arithmetic::mul::lemma_mul_inequality(
                        (fa + 0x10_0000_0000_0000) as int,
                        (fb + 0x10_0000_0000_0000) as int,
                        pow2((ea - 1) as nat) as int,
                    );
                } else if ea < eb {
                    let low = if ea == 0 {
                        0nat
                    } else {
                        (ea - 1) as nat
                    };
                    let high = (eb - 1) as nat;
                    lemma_pow2_pos(low);
                    lemma_pow2_pos(high);
                    if ea == 0 {
                        assert((fb + 0x10_0000_0000_0000) * pow2(high) >= 0x10_0000_0000_0000) by (nonlinear_arith)
                            requires
                                pow2(high) >= 1,
                                fb >= 0,
                        ;
                    } else {
                        lemma_pow2_unfold((low + 1) as nat);
                        if low + 1 < high {
                            lemma_pow2_strictly_increases(low + 1, high);
                        }
                        assert((fa + 0x10_0000_0000_0000) * pow2(low) <= (fb + 0x10_0000_0000_0000) * pow2(high))
                            by (nonlinear_arith)
                            requires
                                fa < 0x10_0000_0000_0000,
                                fb >= 0,
                                pow2(low) > 0,
                                pow2(high) >= 2 * pow2(low),
                        ;
                    }
                }
            }
            lemma_pow2_pos(1074);
            vstd::arithmetic::mul::lemma_mul_inequality(
                self.magnitude() as int,
                larger.magnitude() as int,
                pow2(30) as int,
            );
            vstd::arithmetic::div_mod::lemma_div_is_ordered(
                (self.magnitude() * pow2(30)) as int,
                (larger.magnitude() * pow2(30)) as int,
                pow2(1074) as int,
            );
        } else if self.bits == 0x7ff0_0000_0000_0000 {
        } else {
            assert(larger.is_infinite());
        }
    }
}

} // verus!
