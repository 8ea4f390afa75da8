//! Text helpers: decimal numbers, byte counts in readable units, and blank
//! buffers for OpenGL info logs.
use vstd::prelude::*;
use crate::text::push_char;
use vstd::string::StringExecFns;

verus! {

// ---------------------------------------------------------------------------
// Decimal text
// ---------------------------------------------------------------------------

/// The decimal digit of `d` (below 10).
pub open spec fn digit_char(d: nat) -> char {
    ('0' as nat + d) as char
}

/// `n` in decimal, without leading zeros ("0" for zero).
pub open spec fn dec(n: nat) -> Seq<char>
    decreases n,
{
    if n < 10 {
        seq![digit_char(n)]
    } else {
        dec(n / 10).push(digit_char(n % 10))
    }
}


fn digit(d: u128) -> (r: char)
    requires
        d < 10,
    ensures
        r == digit_char(d as nat),
{
    (48u8 + d as u8) as char
}

/// Appends `n` in decimal to `s`.
pub fn push_decimal(s: &mut String, n: u128)
    ensures
        final(s)@ == old(s)@ + dec(n as nat),
    decreases n,
{
    if n >= 10 {
        push_decimal(s, n / 10);
    }
    push_char(s, digit(n % 10));
    proof {
        if n < 10 {
            assert(dec(n as nat) == seq![digit_char(n as nat)]);
            assert(old(s)@.push(digit_char(n as nat)) =~= old(s)@ + seq![digit_char(n as nat)]);
        } else {
            assert(old(s)@ + dec((n / 10) as nat) + seq![digit_char((n % 10) as nat)] =~= old(s)@ + dec(
                (n / 10) as nat,
            ).push(digit_char((n % 10) as nat)));
        }
    }
}

// ---------------------------------------------------------------------------
// Readable byte counts
// ---------------------------------------------------------------------------

/// `a / d` rounded to the nearest integer, halves to the even one.
pub open spec fn round_half_even(a: nat, d: nat) -> nat
    recommends
        d > 0,
{
    let q = a / d;
    let r = a % d;
    if 2 * r > d {
        q + 1
    } else if 2 * r < d {
        q
    } else if q % 2 == 0 {
        q
    } else {
        q + 1
    }
}

/// 2 to the power of `s`, for the shifts that occur below 2^64.
pub open spec fn pow2_small(s: nat) -> nat
    decreases s,
{
    if s == 0 {
        1
    } else {
        2 * pow2_small((s - 1) as nat)
    }
}

/// How many low bits of `b` (below 2^64) a 64-bit float cannot keep: the
/// number of binary digits of `b` beyond 53.
pub open spec fn float_shift(b: nat) -> nat {
    if b < 0x20_0000_0000_0000 {
        0
    } else if b < 0x40_0000_0000_0000 {
        1
    } else if b < 0x80_0000_0000_0000 {
        2
    } else if b < 0x100_0000_0000_0000 {
        3
    } else if b < 0x200_0000_0000_0000 {
        4
    } else if b < 0x400_0000_0000_0000 {
        5
    } else if b < 0x800_0000_0000_0000 {
        6
    } else if b < 0x1000_0000_0000_0000 {
        7
    } else if b < 0x2000_0000_0000_0000 {
        8
    } else if b < 0x4000_0000_0000_0000 {
        9
    } else if b < 0x8000_0000_0000_0000 {
        10
    } else {
        11
    }
}

/// The value `b as f64` holds: `b` rounded to 53 significant binary digits,
/// halves to an even last digit.
pub open spec fn as_float(b: nat) -> nat {
    let d = pow2_small(float_shift(b));
    round_half_even(b, d) * d
}

/// The text `{:.2}` gives for the value `m / d`: the value rounded to
/// hundredths (halves to even), with two decimals.
pub open spec fn fixed2(m: nat, d: nat) -> Seq<char> {
    let h = round_half_even(m * 100, d);
    dec(h / 100) + seq!['.', digit_char((h % 100) / 10), digit_char(h % 10)]
}

/// `bytes` in the largest unit (B, KB, MB, GB or TB, by powers of 1024)
/// that is not larger than it, with two decimals for the units above bytes.
pub open spec fn readable(bytes: u64) -> Seq<char> {
    let b = bytes as nat;
    if b < 0x400 {
        dec(b) + " B"@
    } else if b < 0x10_0000 {
        fixed2(as_float(b), 0x400) + " KB"@
    } else if b < 0x4000_0000 {
        fixed2(as_float(b), 0x10_0000) + " MB"@
    } else if b < 0x100_0000_0000 {
        fixed2(as_float(b), 0x4000_0000) + " GB"@
    } else {
        fixed2(as_float(b), 0x100_0000_0000) + " TB"@
    }
}

fn round_half_even_exec(a: u128, d: u128) -> (r: u128)
    requires
        d > 0,
        a <= 0x1_0000_0000_0000_0000_0000_0000int,
    ensures
        r == round_half_even(a as nat, d as nat),
{
    let q = a / d;
    let r = a % d;
    if r > d - r {
        q + 1
    } else if r < d - r {
        q
    } else if q % 2 == 0 {
        q
    } else {
        q + 1
    }
}

proof fn lemma_pow2_small_values()
    ensures
        pow2_small(0) == 1,
        pow2_small(1) == 2,
        pow2_small(2) == 4,
        pow2_small(3) == 8,
        pow2_small(4) == 16,
        pow2_small(5) == 32,
        pow2_small(6) == 64,
        pow2_small(7) == 128,
        pow2_small(8) == 256,
        pow2_small(9) == 512,
        pow2_small(10) == 1024,
        pow2_small(11) == 2048,
{
    reveal_with_fuel(pow2_small, 12);
}

/// The value `b as f64` holds, as an integer.
fn as_float_exec(b: u64) -> (r: u128)
    ensures
        r == as_float(b as nat),
        r <= 0x1_0000_0000_0000_0800,
{
    proof { lemma_pow2_small_values(); }
    let d: u128 = if b < 0x20_0000_0000_0000 {
        1
    } else if b < 0x40_0000_0000_0000 {
        2
    } else if b < 0x80_0000_0000_0000 {
        4
    } else if b < 0x100_0000_0000_0000 {
        8
    } else if b < 0x200_0000_0000_0000 {
        16
    } else if b < 0x400_0000_0000_0000 {
        32
    } else if b < 0x800_0000_0000_0000 {
        64
    } else if b < 0x1000_0000_0000_0000 {
        128
    } else if b < 0x2000_0000_0000_0000 {
        256
    } else if b < 0x4000_0000_0000_0000 {
        512
    } else if b < 0x8000_0000_0000_0000 {
        1024
    } else {
        2048
    };
    let q = round_half_even_exec(b as u128, d);
    proof {
        let bb = b as int;
        let dd = d as int;
        assert((bb / dd) * dd <= bb) by (nonlinear_arith)
            requires
                dd > 0,
                bb >= 0,
        {
            vstd::arithmetic::div_mod::lemma_fundamental_div_mod(bb, dd);
        }
        let qq = q as int;
        let k = bb / dd;
        assert(qq <= k + 1);
        assert(qq * dd <= bb + dd) by (nonlinear_arith)
            requires
                qq <= k + 1,
                k * dd <= bb,
                dd > 0,
                qq >= 0,
        ;
    }
    q * d
}

fn push_fixed2(s: &mut String, m: u128, d: u128)
    requires
        d > 0,
        m <= 0x1_0000_0000_0000_0800,
    ensures
        final(s)@ == old(s)@ + fixed2(m as nat, d as nat),
{
    let h = round_half_even_exec(m * 100, d);
    push_decimal(s, h / 100);
    push_char(s, '.');
    push_char(s, digit((h % 100) / 10));
    push_char(s, digit(h % 10));
    proof {
        let hh = round_half_even((m * 100) as nat, d as nat);
        assert(final(s)@ =~= old(s)@ + (dec(hh / 100) + seq!['.', digit_char((hh % 100) / 10), digit_char(hh % 10)]));
    }
}

/// `bytes` in the largest unit (B, KB, MB, GB or TB, by powers of 1024)
/// that is not larger than it, with two decimals for the units above bytes.
pub fn readable_bytes(bytes: u64) -> (r: String)
    ensures
        r@ == readable(bytes),
{
    let mut s = String::new();
    if bytes < 0x400 {
        push_decimal(&mut s, bytes as u128);
        s.append(" B");
    } else if bytes < 0x10_0000 {
        push_fixed2(&mut s, as_float_exec(bytes), 0x400);
        s.append(" KB");
    } else if bytes < 0x4000_0000 {
        push_fixed2(&mut s, as_float_exec(bytes), 0x10_0000);
        s.append(" MB");
    } else if bytes < 0x100_0000_0000 {
        push_fixed2(&mut s, as_float_exec(bytes), 0x4000_0000);
        s.append(" GB");
    } else {
        push_fixed2(&mut s, as_float_exec(bytes), 0x100_0000_0000);
        s.append(" TB");
    }
    s
}

/// `len` spaces: the blank text an info log of that length is read into.
pub fn create_whitespace_cstring_with_len(len: usize) -> (r: Vec<u8>)
    ensures
        r@ == Seq::new(len as nat, |i: int| 32u8),
{
    let mut v: Vec<u8> = Vec::new();
    let mut i: usize = 0;
    while i < len
        invariant
            i <= len,
            v@ == Seq::new(i as nat, |j: int| 32u8),
        decreases len - i,
    {
        v.push(32u8);
        i = i + 1;
        assert(v@ =~= Seq::new(i as nat, |j: int| 32u8));
    }
    v
}

} // verus!
