//! Human-readable sizes and speeds.
//!
//! The pages print `bytes as f64 / 2^k` with `{:.1}` or `{:.0}`. That
//! output is computed here with integers: the `u64` is rounded to the
//! nearest `f64` (53 significant bits, ties to even), and the exact binary
//! quotient is rounded to the printed digits (ties to even).
use vstd::prelude::*;

use crate::text::{dec, digit_char, push_chars, push_str, string_from_chars, u64_to_dec};

verus! {

/// `2^k`.
pub open spec fn two_pow(k: nat) -> nat
    decreases k,
{
    if k == 0 {
        1
    } else {
        2 * two_pow((k - 1) as nat)
    }
}

/// `2^53`: every integer below it is an `f64`.
pub open spec fn f64_exact_limit() -> nat {
    9007199254740992
}

/// How many low bits `n` loses when it becomes an `f64`.
pub open spec fn excess_bits(n: nat) -> nat
    decreases n,
{
    if n < f64_exact_limit() {
        0
    } else {
        1 + excess_bits(n / 2)
    }
}

/// `a / b` rounded to the nearest integer, ties to even.
pub open spec fn round_half_even(a: nat, b: nat) -> nat {
    let k = a / b;
    let r = a % b;
    if 2 * r > b || (2 * r == b && k % 2 == 1) {
        k + 1
    } else {
        k
    }
}

/// The value of `n as f64` (`n` rounded to 53 significant bits, ties to
/// even).
pub open spec fn f64_of(n: nat) -> nat {
    if n < f64_exact_limit() {
        n
    } else {
        let p = two_pow(excess_bits(n));
        round_half_even(n, p) * p
    }
}

/// `{:.1}` of `v / 2^s`: tenths rounded ties-to-even.
pub open spec fn fixed1(v: nat, s: nat) -> Seq<char> {
    let t = round_half_even(v * 10, two_pow(s));
    dec(t / 10) + seq!['.'] + seq![digit_char(t % 10)]
}

/// `{:.0}` of `v / 2^s`.
pub open spec fn fixed0(v: nat, s: nat) -> Seq<char> {
    dec(round_half_even(v, two_pow(s)))
}

proof fn lemma_two_pow_pos(k: nat)
    ensures
        two_pow(k) >= 1,
    decreases k,
{
    if k > 0 {
        lemma_two_pow_pos((k - 1) as nat);
    }
}

/// `n as f64`, as an integer.
fn f64_value(n: u64) -> (r: u128)
    ensures
        r as nat == f64_of(n as nat),
        r <= 0x1_0000_0000_0000_0000,
{
    if n < 9007199254740992 {
        return n as u128;
    }
    let mut m: u64 = n;
    let mut p: u128 = 1;
    let ghost mut d: nat = 0;
    while m >= 9007199254740992
        invariant
            p as nat == two_pow(d),
            m as nat == (n as nat) / (p as nat),
            excess_bits(n as nat) == d + excess_bits(m as nat),
            1 <= p <= 2048,
            m as nat * p as nat <= n as nat,
            n >= 9007199254740992,
            d == 0 ==> m == n,
        decreases m,
    {
        proof {
            vstd::arithmetic::div_mod::lemma_div_denominator(n as int, p as int, 2);
            let mm = m as int;
            let pp = p as int;
            assert(pp <= 2047) by (nonlinear_arith)
                requires
                    mm * pp <= 0xFFFF_FFFF_FFFF_FFFF,
                    mm >= 9007199254740992,
                    pp >= 1,
            ;
            lemma_two_pow_values();
            if d >= 11 {
                lemma_two_pow_mono(11, d);
            } else {
                lemma_two_pow_mono(d, 10);
            }
            assert(pp <= 1024);
            assert((mm / 2) * (pp * 2) <= mm * pp) by (nonlinear_arith)
                requires
                    mm >= 0,
                    pp >= 1,
            ;
        }
        m = m / 2;
        p = p * 2;
        proof {
            d = d + 1;
        }
    }
    proof {
        vstd::arithmetic::div_mod::lemma_fundamental_div_mod(n as int, p as int);
        assert(d >= 1);
        assert(excess_bits(m as nat) == 0);
    }
    let r: u128 = (n as u128) - (m as u128) * p;
    assert(r == (n as nat) % (p as nat));
    let q: u128 = if 2 * r > p || (2 * r == p && m % 2 == 1) {
        (m as u128) + 1
    } else {
        m as u128
    };
    assert(q == round_half_even(n as nat, p as nat));
    proof {
        let qq = q as int;
        let pp = p as int;
        assert(qq * pp <= 0x1_0000_0000_0000_0000) by (nonlinear_arith)
            requires
                qq <= 9007199254740992,
                pp <= 2048,
                pp >= 1,
                qq >= 0,
        ;
    }
    q * p
}

/// The digits of `{:.1}` for `v / 2^s`.
fn fixed1_chars(v: u128, s: u32) -> (r: Vec<char>)
    requires
        v <= 0x1_0000_0000_0000_0000,
        10 <= s <= 30,
    ensures
        r@ == fixed1(v as nat, s as nat),
{
    let b: u128 = pow2_u128(s);
    let a: u128 = v * 10;
    let k: u128 = a / b;
    let rem: u128 = a % b;
    let t: u128 = if 2 * rem > b || (2 * rem == b && k % 2 == 1) {
        k + 1
    } else {
        k
    };
    assert(t == round_half_even(v as nat * 10, two_pow(s as nat)));
    proof {
        let aa = a as int;
        let bb = b as int;
        assert(aa / bb <= aa / 1024) by {
            vstd::arithmetic::div_mod::lemma_div_is_ordered_by_denominator(aa, 1024, bb);
        }
    }
    assert(t <= 0xFFFF_FFFF_FFFF_FFFF);
    let mut out = u64_to_dec((t / 10) as u64);
    out.push('.');
    out.push(((t % 10) as u32 + 48) as u8 as char);
    assert(out@ =~= fixed1(v as nat, s as nat));
    out
}

/// `2^s` for `s <= 30`.
fn pow2_u128(s: u32) -> (r: u128)
    requires
        s <= 30,
    ensures
        r as nat == two_pow(s as nat),
        r <= 0x4000_0000,
        s >= 10 ==> r >= 1024,
{
    let mut r: u128 = 1;
    let mut i: u32 = 0;
    proof {
        lemma_two_pow_values();
    }
    while i < s
        invariant
            0 <= i <= s <= 30,
            r as nat == two_pow(i as nat),
            two_pow(30) == 0x4000_0000,
            two_pow(10) == 1024,
        decreases s - i,
    {
        proof {
            lemma_two_pow_mono((i + 1) as nat, 30);
        }
        r = r * 2;
        i = i + 1;
    }
    proof {
        lemma_two_pow_mono(s as nat, 30);
        if s >= 10 {
            lemma_two_pow_mono(10, s as nat);
        }
    }
    r
}

proof fn lemma_two_pow_mono(a: nat, b: nat)
    requires
        a <= b,
    ensures
        two_pow(a) <= two_pow(b),
    decreases b,
{
    if b > a {
        lemma_two_pow_mono(a, (b - 1) as nat);
    }
}

proof fn lemma_two_pow_values()
    ensures
        two_pow(10) == 1024,
        two_pow(11) == 2048,
        two_pow(30) == 0x4000_0000,
{
    reveal_with_fuel(two_pow, 31);
}

/// The digits of `{:.0}` for `v / 2^s`.
fn fixed0_chars(v: u128, s: u32) -> (r: Vec<char>)
    requires
        v <= 0x1_0000_0000_0000_0000,
        10 <= s <= 30,
    ensures
        r@ == fixed0(v as nat, s as nat),
{
    let b: u128 = pow2_u128(s);
    let k: u128 = v / b;
    let rem: u128 = v % b;
    let t: u128 = if 2 * rem > b || (2 * rem == b && k % 2 == 1) {
        k + 1
    } else {
        k
    };
    assert(t == round_half_even(v as nat, two_pow(s as nat)));
    proof {
        let aa = v as int;
        let bb = b as int;
        assert(aa / bb <= aa / 1024) by {
            vstd::arithmetic::div_mod::lemma_div_is_ordered_by_denominator(aa, 1024, bb);
        }
    }
    assert(t <= 0xFFFF_FFFF_FFFF_FFFF);
    u64_to_dec(t as u64)
}

/// `{:.1}` of `n as f64 / 2^s`, followed by `unit`.
pub fn scaled1(n: u64, s: u32, unit: &str) -> (r: Vec<char>)
    requires
        10 <= s <= 30,
    ensures
        r@ == fixed1(f64_of(n as nat), s as nat) + unit@,
{
    let v = f64_value(n);
    let mut out = fixed1_chars(v, s);
    push_str(&mut out, unit);
    out
}

/// `{:.0}` of `n as f64 / 2^s`, followed by `unit`.
pub fn scaled0(n: u64, s: u32, unit: &str) -> (r: Vec<char>)
    requires
        10 <= s <= 30,
    ensures
        r@ == fixed0(f64_of(n as nat), s as nat) + unit@,
{
    let v = f64_value(n);
    let mut out = fixed0_chars(v, s);
    push_str(&mut out, unit);
    out
}

/// `{}` of `n`, followed by `unit`.
pub fn plain(n: u64, unit: &str) -> (r: Vec<char>)
    ensures
        r@ == dec(n as nat) + unit@,
{
    let mut out = u64_to_dec(n);
    push_str(&mut out, unit);
    out
}

} // verus!
