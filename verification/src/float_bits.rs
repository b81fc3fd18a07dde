//! Single-precision floating-point numbers held as their IEEE-754 bit
//! patterns (`f32::to_bits`), with the comparisons and the integer
//! conversion that the process table makes on them.

use vstd::prelude::*;

verus! {

/// 2 to the power `e`.
pub open spec fn two_pow(e: nat) -> nat
    decreases e,
{
    if e == 0 {
        1
    } else {
        2 * two_pow((e - 1) as nat)
    }
}

/// The number of binary digits of `n` (0 for 0).
pub open spec fn bit_length(n: nat) -> nat
    decreases n,
{
    if n == 0 {
        0
    } else {
        1 + bit_length(n / 2)
    }
}

/// A NaN: all exponent bits set and a non-zero fraction, whatever the sign.
pub open spec fn f32_is_nan(b: u32) -> bool {
    b % 0x8000_0000 > 0x7f80_0000
}

/// The position of a non-NaN float in the order of the real numbers:
/// IEEE-754 orders the magnitudes as their bit patterns, and both zeros
/// are equal.
pub open spec fn f32_rank(b: u32) -> int {
    if b >= 0x8000_0000 {
        -(b - 0x8000_0000)
    } else {
        b as int
    }
}

/// `<` on two floats given by their bits; false when either is NaN.
pub open spec fn f32_lt(a: u32, b: u32) -> bool {
    !f32_is_nan(a) && !f32_is_nan(b) && f32_rank(a) < f32_rank(b)
}

/// `==` on two floats given by their bits; false when either is NaN.
pub open spec fn f32_eq(a: u32, b: u32) -> bool {
    !f32_is_nan(a) && !f32_is_nan(b) && f32_rank(a) == f32_rank(b)
}

/// `n` rounded to 24 significant binary digits, ties to even: the value that
/// `n as f32` holds.
pub open spec fn round_to_f32_value(n: nat) -> nat {
    let len = bit_length(n);
    if len <= 24 {
        n
    } else {
        let unit = two_pow((len - 24) as nat);
        let q = n / unit;
        let r = n % unit;
        let half = unit / 2;
        let up = r > half || (r == half && q % 2 == 1);
        let rounded: nat = if up {
            q + 1
        } else {
            q
        };
        rounded * unit
    }
}

/// The bit pattern of the positive float whose value is the integer `v`
/// (at most 24 significant digits): biased exponent, then the fraction
/// without its leading one.
pub open spec fn f32_bits_of_value(v: nat) -> nat {
    if v == 0 {
        0
    } else {
        let e = (bit_length(v) - 1) as nat;
        let m = if e <= 23 {
            v * two_pow((23 - e) as nat)
        } else {
            v / two_pow((e - 23) as nat)
        };
        ((127 + e) * 0x80_0000 + (m - 0x80_0000)) as nat
    }
}

/// The bits of `n as f32`.
pub open spec fn f32_bits_of_u32(n: u32) -> u32 {
    f32_bits_of_value(round_to_f32_value(n as nat)) as u32
}

pub proof fn lemma_two_pow_pos(e: nat)
    ensures
        two_pow(e) >= 1,
    decreases e,
{
    if e > 0 {
        lemma_two_pow_pos((e - 1) as nat);
    }
}

pub proof fn lemma_two_pow_adds(a: nat, b: nat)
    ensures
        two_pow(a + b) == two_pow(a) * two_pow(b),
    decreases a,
{
    if a > 0 {
        lemma_two_pow_adds((a - 1) as nat, b);
        assert(((a + b - 1) as nat) == ((a - 1) as nat) + b);
        assert(two_pow(a + b) == 2 * two_pow((a + b - 1) as nat));
        assert(two_pow(a) == 2 * two_pow((a - 1) as nat));
        let x = two_pow((a - 1) as nat);
        let y = two_pow(b);
        assert(2 * (x * y) == (2 * x) * y) by (nonlinear_arith);
        assert(two_pow(a + b) == two_pow(a) * y);
    } else {
        assert(two_pow(0) == 1);
        assert(two_pow(a + b) == two_pow(b));
        assert(1 * two_pow(b) == two_pow(b));
    }
}

pub proof fn lemma_two_pow_monotone(a: nat, b: nat)
    requires
        a <= b,
    ensures
        two_pow(a) <= two_pow(b),
    decreases b,
{
    if a < b {
        lemma_two_pow_monotone(a, (b - 1) as nat);
    }
}

/// `n` lies between the powers of two around its bit length.
pub proof fn lemma_bit_length_bounds(n: nat)
    requires
        n > 0,
    ensures
        bit_length(n) >= 1,
        two_pow((bit_length(n) - 1) as nat) <= n < two_pow(bit_length(n)),
    decreases n,
{
    if n >= 2 {
        lemma_bit_length_bounds(n / 2);
        let k = bit_length(n / 2);
        assert(bit_length(n) == 1 + k);
        assert(two_pow(k) == 2 * two_pow((k - 1) as nat));
        assert(two_pow((k + 1) as nat) == 2 * two_pow(k));
    } else {
        assert(bit_length(0) == 0);
        assert(bit_length(1) == 1);
        assert(two_pow(1) == 2) by {
            reveal_with_fuel(two_pow, 2);
        }
    }
}

/// The bit length of a number below `2^k` is at most `k`.
pub proof fn lemma_bit_length_le(n: nat, k: nat)
    requires
        n < two_pow(k),
    ensures
        bit_length(n) <= k,
    decreases n,
{
    if n > 0 {
        lemma_bit_length_bounds(n);
        if bit_length(n) > k {
            lemma_two_pow_monotone(k, (bit_length(n) - 1) as nat);
        }
    }
}

/// The number of binary digits of `n`.
fn bit_length_u64(n: u64) -> (r: u32)
    ensures
        r == bit_length(n as nat),
        r <= 64,
{
    let mut x = n;
    let mut len: u32 = 0;
    proof {
        two_pow_64();
        lemma_bit_length_le(n as nat, 64);
    }
    while x > 0
        invariant
            bit_length(n as nat) == len + bit_length(x as nat),
            len + bit_length(x as nat) <= 64,
        decreases x,
    {
        x = x / 2;
        len = len + 1;
    }
    len
}

proof fn two_pow_64()
    ensures
        two_pow(64) == 0x1_0000_0000_0000_0000,
        two_pow(32) == 0x1_0000_0000,
        two_pow(24) == 0x100_0000,
        two_pow(23) == 0x80_0000,
{
    reveal_with_fuel(two_pow, 65);
}

proof fn two_pow_63()
    ensures
        two_pow(63) == 0x8000_0000_0000_0000,
{
    reveal_with_fuel(two_pow, 64);
}

/// `2^e` for `e` up to 63.
fn two_pow_u64(e: u32) -> (r: u64)
    requires
        e <= 63,
    ensures
        r == two_pow(e as nat),
{
    let mut r: u64 = 1;
    let mut i: u32 = 0;
    proof {
        two_pow_63();
    }
    while i < e
        invariant
            i <= e <= 63,
            r == two_pow(i as nat),
            two_pow(63) == 0x8000_0000_0000_0000,
        decreases e - i,
    {
        proof {
            lemma_two_pow_monotone((i + 1) as nat, 63);
            assert(two_pow((i + 1) as nat) == 2 * two_pow(i as nat));
        }
        r = r * 2;
        i = i + 1;
    }
    r
}

/// The bits of `n as f32`: `n` rounded to 24 significant binary digits,
/// ties to even.
pub fn u32_to_f32_bits(n: u32) -> (r: u32)
    ensures
        r == f32_bits_of_u32(n),
{
    proof {
        two_pow_64();
    }
    if n == 0 {
        return 0;
    }
    let len = bit_length_u64(n as u64);
    proof {
        lemma_bit_length_le(n as nat, 32);
        lemma_bit_length_bounds(n as nat);
    }
    let v: u64 = if len <= 24 {
        n as u64
    } else {
        let s = len - 24;
        let unit = two_pow_u64(s);
        proof {
            lemma_two_pow_pos(s as nat);
        }
        let nn = n as u64;
        let q = nn / unit;
        let rem = nn % unit;
        let half = unit / 2;
        let up = rem > half || (rem == half && q % 2 == 1);
        proof {
            lemma_two_pow_adds(24, s as nat);
            lemma_two_pow_pos(s as nat);
            assert(nn < two_pow(len as nat));
            assert(q < 0x100_0000) by (nonlinear_arith)
                requires
                    nn < 0x100_0000 * unit,
                    q == nn / unit,
                    unit >= 1,
            ;
            lemma_two_pow_monotone(len as nat, 32);
            assert(0x100_0000 * unit <= 0x1_0000_0000);
            assert((q + 1) * unit <= 0x100_0000 * unit) by (nonlinear_arith)
                requires
                    q < 0x100_0000,
                    unit >= 1,
            ;
        }
        let rq = if up { q + 1 } else { q };
        proof {
            assert(rq * unit <= 0x1_0000_0000) by (nonlinear_arith)
                requires
                    rq <= q + 1,
                    (q + 1) * unit <= 0x1_0000_0000,
                    unit >= 1,
            ;
        }
        rq * unit
    };
    proof {
        assert(v == round_to_f32_value(n as nat));
        assert(v <= 0x1_0000_0000);
        if len > 24 {
            let unit = two_pow((len - 24) as nat);
            lemma_two_pow_pos((len - 24) as nat);
            lemma_two_pow_adds(24, (len - 24) as nat);
            assert(two_pow((len - 1) as nat) <= n);
            lemma_two_pow_adds(23, (len - 24) as nat);
            let q = n as nat / unit;
            assert(q >= 0x80_0000) by (nonlinear_arith)
                requires
                    0x80_0000 * unit <= n,
                    q == n as nat / unit,
                    unit >= 1,
            ;
            assert(v >= 1) by (nonlinear_arith)
                requires
                    v >= q * unit || v >= (q + 1) * unit,
                    q >= 1,
                    unit >= 1,
            ;
        }
    }
    let e = bit_length_u64(v) - 1;
    proof {
        lemma_bit_length_bounds(v as nat);
        lemma_bit_length_le(v as nat, 33);
        assert(two_pow(33) == 0x2_0000_0000) by {
            reveal_with_fuel(two_pow, 34);
        }
    }
    let m: u64 = if e <= 23 {
        let k = two_pow_u64(23 - e);
        proof {
            lemma_two_pow_adds(e as nat, (23 - e) as nat);
            lemma_two_pow_adds((e + 1) as nat, (23 - e) as nat);
            lemma_two_pow_pos((23 - e) as nat);
            assert(v * k < two_pow((e + 1) as nat) * k) by (nonlinear_arith)
                requires
                    v < two_pow((e + 1) as nat),
                    k >= 1,
            ;
            lemma_two_pow_pos((23 - e) as nat);
            assert(two_pow(e as nat) * k <= v * k) by (nonlinear_arith)
                requires
                    two_pow(e as nat) <= v,
                    k >= 1,
            ;
        }
        v * k
    } else {
        let k = two_pow_u64(e - 23);
        proof {
            lemma_two_pow_adds(23, (e - 23) as nat);
            lemma_two_pow_adds(24, (e - 23) as nat);
            lemma_two_pow_pos((e - 23) as nat);
            assert(v / k >= 0x80_0000) by (nonlinear_arith)
                requires
                    0x80_0000 * k <= v,
                    k >= 1,
            ;
            assert(v / k < 0x100_0000) by (nonlinear_arith)
                requires
                    v < 0x100_0000 * k,
                    k >= 1,
            ;
        }
        v / k
    };
    proof {
        assert(0x80_0000 <= m < 0x100_0000);
        assert(e <= 32);
    }
    ((127 + e as u64) * 0x80_0000 + (m - 0x80_0000)) as u32
}

} // verus!
