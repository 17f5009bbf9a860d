//! Human-readable formatting of byte sizes and prices.
//!
//! Pure integer renderings of the values the tooling prints: decimal digit
//! strings, digits grouped in threes, byte counts normalized to binary
//! units with significant-digit precision, and prices in MIST or SUI.
//! All rounding is to nearest, ties to even, computed exactly on integers.

use vstd::prelude::*;

verus! {

/// The decimal digit character for `d` (`d < 10`).
pub open spec fn spec_digit_char(d: nat) -> char {
    if d == 0 {
        '0'
    } else if d == 1 {
        '1'
    } else if d == 2 {
        '2'
    } else if d == 3 {
        '3'
    } else if d == 4 {
        '4'
    } else if d == 5 {
        '5'
    } else if d == 6 {
        '6'
    } else if d == 7 {
        '7'
    } else if d == 8 {
        '8'
    } else {
        '9'
    }
}

/// The decimal digits of `n`, most significant first, without leading
/// zeros (`0` is rendered as `"0"`).
pub open spec fn spec_digits(n: nat) -> Seq<char>
    decreases n,
{
    if n < 10 {
        seq![spec_digit_char(n)]
    } else {
        spec_digits(n / 10) + seq![spec_digit_char(n % 10)]
    }
}

/// The last `width` decimal digits of `n`, zero-padded to exactly `width`
/// characters.
pub open spec fn spec_padded_digits(n: nat, width: nat) -> Seq<char>
    decreases width,
{
    if width == 0 {
        Seq::empty()
    } else {
        spec_padded_digits(n / 10, (width - 1) as nat) + seq![spec_digit_char(n % 10)]
    }
}

/// Digits grouped in threes from the right, separated by commas.
pub open spec fn spec_grouped(s: Seq<char>) -> Seq<char>
    decreases s.len(),
{
    if s.len() <= 3 {
        s
    } else {
        spec_grouped(s.take(s.len() - 3)) + seq![','] + s.skip(s.len() - 3)
    }
}

/// `10^e`.
pub open spec fn spec_pow10(e: nat) -> nat
    decreases e,
{
    if e == 0 {
        1
    } else {
        10 * spec_pow10((e - 1) as nat)
    }
}

/// `1024^e`.
pub open spec fn spec_pow1024(e: nat) -> nat
    decreases e,
{
    if e == 0 {
        1
    } else {
        1024 * spec_pow1024((e - 1) as nat)
    }
}

/// `num / den` rounded to the nearest integer, ties to even.
pub open spec fn spec_round_half_even(num: nat, den: nat) -> nat
    recommends
        den >= 1,
{
    let q = num / den;
    let r = num % den;
    if 2 * r > den || (2 * r == den && q % 2 == 1) {
        q + 1
    } else {
        q
    }
}

proof fn lemma_digits_len_small(n: nat)
    ensures
        n < 10 ==> spec_digits(n).len() == 1,
        10 <= n < 100 ==> spec_digits(n).len() == 2,
        100 <= n < 1000 ==> spec_digits(n).len() == 3,
        1000 <= n < 10000 ==> spec_digits(n).len() == 4,
{
    assert(n / 10 / 10 == n / 100) by (nonlinear_arith);
    assert(n / 100 / 10 == n / 1000) by (nonlinear_arith);
    if 10 <= n && n < 100 {
        assert(spec_digits(n).len() == spec_digits(n / 10).len() + 1);
    }
    if 100 <= n && n < 1000 {
        assert(spec_digits(n).len() == spec_digits(n / 10).len() + 1);
        assert(spec_digits(n / 10).len() == spec_digits(n / 100).len() + 1);
    }
    if 1000 <= n && n < 10000 {
        assert(spec_digits(n).len() == spec_digits(n / 10).len() + 1);
        assert(spec_digits(n / 10).len() == spec_digits(n / 100).len() + 1);
        assert(spec_digits(n / 100).len() == spec_digits(n / 1000).len() + 1);
    }
}

proof fn lemma_padded_len(n: nat, width: nat)
    ensures
        spec_padded_digits(n, width).len() == width,
    decreases width,
{
    if width > 0 {
        lemma_padded_len(n / 10, (width - 1) as nat);
    }
}

proof fn lemma_digits_len_ge(n: nat)
    ensures
        spec_digits(n).len() >= 1,
    decreases n,
{
    if n >= 10 {
        lemma_digits_len_ge(n / 10);
    }
}

/// Splitting off the last three digits of a number with at least four.
proof fn lemma_digits_split_1000(n: nat)
    requires
        n >= 1000,
    ensures
        spec_digits(n) == spec_digits(n / 1000) + spec_padded_digits(n % 1000, 3),
        spec_digits(n).len() >= 4,
{
    let m = n % 1000;
    assert(n / 10 / 10 == n / 100) by (nonlinear_arith);
    assert(n / 100 / 10 == n / 1000) by (nonlinear_arith);
    assert(n / 10 % 10 == n % 100 / 10) by (nonlinear_arith);
    assert(n / 100 % 10 == n % 1000 / 100) by (nonlinear_arith);
    assert(n % 10 == n % 1000 % 10) by (nonlinear_arith);
    assert(n % 100 / 10 == n % 1000 / 10 % 10) by (nonlinear_arith);
    assert(spec_digits(n) == spec_digits(n / 10) + seq![spec_digit_char(n % 10)]);
    assert(spec_digits(n / 10) == spec_digits(n / 100) + seq![spec_digit_char(n / 10 % 10)]);
    assert(spec_digits(n / 100) == spec_digits(n / 1000) + seq![spec_digit_char(n / 100 % 10)]);
    assert(spec_padded_digits(m, 3) == spec_padded_digits(m / 10, 2) + seq![
        spec_digit_char(m % 10),
    ]);
    assert(spec_padded_digits(m / 10, 2) == spec_padded_digits(m / 100, 1) + seq![
        spec_digit_char(m / 10 % 10),
    ]);
    assert(spec_padded_digits(m / 100, 1) == spec_padded_digits(m / 1000, 0) + seq![
        spec_digit_char(m / 100 % 10),
    ]);
    assert(m < 1000);
    assert(m / 1000 == 0);
    assert(spec_digits(n) =~= spec_digits(n / 1000) + spec_padded_digits(m, 3));
    lemma_padded_len(m, 3);
    lemma_digits_len_ge(n / 1000);
}

/// Returns the digit as a one-character string.
fn digit_str(d: u64) -> (s: &'static str)
    requires
        d < 10,
    ensures
        s@ == seq![spec_digit_char(d as nat)],
{
    proof {
        reveal_strlit("0");
        reveal_strlit("1");
        reveal_strlit("2");
        reveal_strlit("3");
        reveal_strlit("4");
        reveal_strlit("5");
        reveal_strlit("6");
        reveal_strlit("7");
        reveal_strlit("8");
        reveal_strlit("9");
    }
    let s: &'static str = if d == 0 {
        "0"
    } else if d == 1 {
        "1"
    } else if d == 2 {
        "2"
    } else if d == 3 {
        "3"
    } else if d == 4 {
        "4"
    } else if d == 5 {
        "5"
    } else if d == 6 {
        "6"
    } else if d == 7 {
        "7"
    } else if d == 8 {
        "8"
    } else {
        "9"
    };
    proof {
        assert(s@ =~= seq![spec_digit_char(d as nat)]);
    }
    s
}

/// Renders `n` in decimal.
pub fn u64_to_decimal(n: u64) -> (s: String)
    ensures
        s@ == spec_digits(n as nat),
    decreases n,
{
    if n < 10 {
        String::from_str(digit_str(n))
    } else {
        let mut s = u64_to_decimal(n / 10);
        s.append(digit_str(n % 10));
        s
    }
}

/// Renders the last `width` decimal digits of `n`, zero-padded.
fn padded_decimal(n: u64, width: usize) -> (s: String)
    ensures
        s@ == spec_padded_digits(n as nat, width as nat),
    decreases width,
{
    if width == 0 {
        let s = String::new();
        proof {
            assert(s@ =~= spec_padded_digits(n as nat, 0));
        }
        s
    } else {
        let mut s = padded_decimal(n / 10, width - 1);
        s.append(digit_str(n % 10));
        s
    }
}

/// Renders `num` in decimal with its digits grouped in threes by commas.
pub fn thousands_separator(num: u64) -> (s: String)
    ensures
        s@ == spec_grouped(spec_digits(num as nat)),
    decreases num,
{
    if num < 1000 {
        proof {
            lemma_digits_len_small(num as nat);
        }
        u64_to_decimal(num)
    } else {
        proof {
            lemma_digits_split_1000(num as nat);
            reveal_strlit(",");
        }
        let mut s = thousands_separator(num / 1000);
        s.append(",");
        let tail = padded_decimal(num % 1000, 3);
        s.append(tail.as_str());
        proof {
            let ghost digits = spec_digits(num as nat);
            lemma_padded_len(num as nat % 1000, 3);
            assert(digits.take(digits.len() - 3) =~= spec_digits(num as nat / 1000));
            assert(digits.skip(digits.len() - 3) =~= spec_padded_digits(num as nat % 1000, 3));
            assert(","@ =~= seq![',']);
        }
        s
    }
}

/// The binary-prefix exponent of `v`: the number of times `v` can be
/// divided by 1024 before falling below 1024.
pub open spec fn spec_bin_exponent(v: nat) -> nat
    decreases v,
{
    if v < 1024 {
        0
    } else {
        1 + spec_bin_exponent(v / 1024)
    }
}

/// The unit string for binary-prefix exponent `e` (`1 <= e <= 6`).
pub open spec fn spec_unit(e: nat) -> Seq<char> {
    if e == 1 {
        seq!['K', 'i', 'B']
    } else if e == 2 {
        seq!['M', 'i', 'B']
    } else if e == 3 {
        seq!['G', 'i', 'B']
    } else if e == 4 {
        seq!['T', 'i', 'B']
    } else if e == 5 {
        seq!['P', 'i', 'B']
    } else {
        seq!['E', 'i', 'B']
    }
}

/// A byte count rendered with a binary prefix: values below 1024 print as
/// plain bytes; larger values are normalized into `[1, 1024)` by the
/// largest fitting power of 1024 and printed with `precision` significant
/// digits (`precision` below 1 counts as 1; digits beyond the integer part
/// become decimals, rounded to nearest, ties to even).
pub open spec fn spec_format_bytes(value: nat, precision: nat) -> Seq<char> {
    let p = if precision < 1 {
        1
    } else {
        precision
    };
    if value < 1024 {
        spec_digits(value) + seq![' ', 'B']
    } else {
        let e = spec_bin_exponent(value);
        let den = spec_pow1024(e);
        let int_digits = spec_digits(value / den).len();
        let d = if p > int_digits {
            (p - int_digits) as nat
        } else {
            0
        };
        let frac_den = spec_pow10(d);
        let scaled = spec_round_half_even(value * frac_den, den);
        spec_digits(scaled / frac_den) + (if d == 0 {
            Seq::<char>::empty()
        } else {
            seq!['.'] + spec_padded_digits(scaled % frac_den, d)
        }) + seq![' '] + spec_unit(e)
    }
}

/// A price in MIST: below one million it prints fully with thousands
/// separators; from one million on it prints in SUI with four (below ten
/// million) or three decimal places, rounded to nearest, ties to even.
pub open spec fn spec_format_mist(value: nat) -> Seq<char> {
    if value < 1000000 {
        spec_grouped(spec_digits(value)) + seq![' ', 'M', 'I', 'S', 'T']
    } else {
        let d: nat = if value < 10000000 {
            4
        } else {
            3
        };
        let scaled = spec_round_half_even(value, spec_pow10((9 - d) as nat));
        let frac_den = spec_pow10(d);
        spec_digits(scaled / frac_den) + seq!['.'] + spec_padded_digits(scaled % frac_den, d)
            + seq![' ', 'S', 'U', 'I']
    }
}

proof fn lemma_pow10_values()
    ensures
        spec_pow10(3) == 1000,
        spec_pow10(4) == 10000,
        spec_pow10(5) == 100000,
        spec_pow10(6) == 1000000,
        spec_pow10(18) == 0x0de0_b6b3_a764_0000,
        spec_pow10(19) == 0x8ac7_2304_89e8_0000,
{
    assert(spec_pow10(0) == 1);
    assert(spec_pow10(1) == 10);
    assert(spec_pow10(2) == 100);
    assert(spec_pow10(3) == 1000);
    assert(spec_pow10(4) == 10000);
    assert(spec_pow10(5) == 100000);
    assert(spec_pow10(6) == 1000000);
    assert(spec_pow10(7) == 10000000);
    assert(spec_pow10(8) == 100000000);
    assert(spec_pow10(9) == 1000000000);
    assert(spec_pow10(10) == 10000000000);
    assert(spec_pow10(11) == 100000000000);
    assert(spec_pow10(12) == 1000000000000);
    assert(spec_pow10(13) == 10000000000000);
    assert(spec_pow10(14) == 100000000000000);
    assert(spec_pow10(15) == 1000000000000000);
    assert(spec_pow10(16) == 10000000000000000);
    assert(spec_pow10(17) == 100000000000000000);
    assert(spec_pow10(18) == 1000000000000000000);
    assert(spec_pow10(19) == 10000000000000000000);
}

proof fn lemma_pow10_le(e1: nat, e2: nat)
    requires
        e1 <= e2,
    ensures
        spec_pow10(e1) <= spec_pow10(e2),
        spec_pow10(e1) >= 1,
    decreases e2,
{
    if e1 < e2 {
        lemma_pow10_le(e1, (e2 - 1) as nat);
    } else if e1 > 0 {
        lemma_pow10_le((e1 - 1) as nat, (e1 - 1) as nat);
    }
}

proof fn lemma_pow1024_values()
    ensures
        spec_pow1024(1) == 1024,
        spec_pow1024(6) == 0x1000_0000_0000_0000,
        spec_pow1024(7) > 0xffff_ffff_ffff_ffff,
{
    assert(spec_pow1024(0) == 1);
    assert(spec_pow1024(1) == 1024);
    assert(spec_pow1024(2) == 0x10_0000);
    assert(spec_pow1024(3) == 0x4000_0000);
    assert(spec_pow1024(4) == 0x100_0000_0000);
    assert(spec_pow1024(5) == 0x4_0000_0000_0000);
    assert(spec_pow1024(6) == 0x1000_0000_0000_0000);
    assert(spec_pow1024(7) == 0x40_0000_0000_0000_0000);
}

proof fn lemma_pow1024_pos(e: nat)
    ensures
        spec_pow1024(e) >= 1,
    decreases e,
{
    if e > 0 {
        lemma_pow1024_pos((e - 1) as nat);
    }
}

/// The exponent found by repeated division is the unique `e` with
/// `1024^e <= v < 1024^(e+1)`.
proof fn lemma_bin_exp_unique(v: nat, e: nat)
    requires
        spec_pow1024(e) <= v,
        v < spec_pow1024(e + 1),
    ensures
        spec_bin_exponent(v) == e,
    decreases e,
{
    lemma_pow1024_pos(e);
    if e == 0 {
        assert(spec_pow1024(1) == 1024 * spec_pow1024(0));
    } else {
        lemma_pow1024_pos((e - 1) as nat);
        assert(spec_pow1024(e) == 1024 * spec_pow1024((e - 1) as nat));
        assert(spec_pow1024(e + 1) == 1024 * spec_pow1024(e));
        assert(v >= 1024);
        assert(spec_pow1024((e - 1) as nat) <= v / 1024) by (nonlinear_arith)
            requires
                1024 * spec_pow1024((e - 1) as nat) <= v,
        ;
        assert(v / 1024 < spec_pow1024(e)) by (nonlinear_arith)
            requires
                v < 1024 * spec_pow1024(e),
        ;
        lemma_bin_exp_unique(v / 1024, (e - 1) as nat);
    }
}

/// Computes `10^e`.
fn pow10_u64(e: usize) -> (p: u64)
    requires
        e <= 19,
    ensures
        p == spec_pow10(e as nat),
{
    let mut p: u64 = 1;
    let mut i: usize = 0;
    while i < e
        invariant
            i <= e,
            e <= 19,
            p == spec_pow10(i as nat),
        decreases e - i,
    {
        proof {
            lemma_pow10_le(i as nat, 18);
            lemma_pow10_values();
        }
        p = p * 10;
        i = i + 1;
    }
    p
}

/// Returns the unit string for exponent `e`.
fn unit_str(e: u32) -> (s: &'static str)
    requires
        1 <= e <= 6,
    ensures
        s@ == spec_unit(e as nat),
{
    proof {
        reveal_strlit("KiB");
        reveal_strlit("MiB");
        reveal_strlit("GiB");
        reveal_strlit("TiB");
        reveal_strlit("PiB");
        reveal_strlit("EiB");
    }
    let s: &'static str = if e == 1 {
        "KiB"
    } else if e == 2 {
        "MiB"
    } else if e == 3 {
        "GiB"
    } else if e == 4 {
        "TiB"
    } else if e == 5 {
        "PiB"
    } else {
        "EiB"
    };
    proof {
        assert(s@ =~= spec_unit(e as nat));
    }
    s
}

/// A byte count that renders as a human-readable string with binary
/// prefixes.
#[derive(Debug, Default, Clone, Copy, PartialEq, Eq, Structural, PartialOrd, Ord)]
pub struct HumanReadableBytes(pub u64);

impl HumanReadableBytes {
    /// Renders the byte count with the given number of significant digits
    /// (a precision below 1 counts as 1).
    pub fn display_with_precision(&self, precision: usize) -> (s: String)
        requires
            precision <= 20,
        ensures
            s@ == spec_format_bytes(self.0 as nat, precision as nat),
    {
        let value = self.0;
        let p: usize = if precision < 1 {
            1
        } else {
            precision
        };
        if value < 1024 {
            let mut s = u64_to_decimal(value);
            proof {
                reveal_strlit(" B");
                assert((" B")@ =~= seq![' ', 'B']);
            }
            s.append(" B");
            return s;
        }
        let mut e: u32 = 0;
        let mut den: u64 = 1;
        proof {
            lemma_pow1024_values();
        }
        while den <= value / 1024
            invariant
                value >= 1024,
                e <= 6,
                den == spec_pow1024(e as nat),
                spec_pow1024(e as nat) <= value,
            decreases 7 - e,
        {
            proof {
                lemma_pow1024_values();
                if e == 6 {
                    assert(den == 0x1000_0000_0000_0000);
                    assert(false);
                }
            }
            den = den * 1024;
            e = e + 1;
        }
        proof {
            assert(value < 1024 * den);
            assert(spec_pow1024(e as nat + 1) == 1024 * spec_pow1024(e as nat));
            lemma_bin_exp_unique(value as nat, e as nat);
        }
        let norm_floor = value / den;
        proof {
            assert(norm_floor < 1024) by (nonlinear_arith)
                requires
                    den >= 1,
                    value < 1024 * den,
                    norm_floor == value as int / den as int,
            ;
            lemma_digits_len_small(norm_floor as nat);
        }
        let int_digits: usize = if norm_floor < 10 {
            1
        } else if norm_floor < 100 {
            2
        } else if norm_floor < 1000 {
            3
        } else {
            4
        };
        let d: usize = if p > int_digits {
            p - int_digits
        } else {
            0
        };
        let p10 = pow10_u64(d);
        proof {
            lemma_pow10_le(d as nat, 19);
            lemma_pow10_values();
        }
        proof {
            assert((value as nat) * (p10 as nat) <= 0xffff_ffff_ffff_ffff * 0x8ac7_2304_89e8_0000)
                by (nonlinear_arith)
                requires
                    value <= 0xffff_ffff_ffff_ffffu64,
                    p10 <= 0x8ac7_2304_89e8_0000u64,
            ;
        }
        let num: u128 = (value as u128) * (p10 as u128);
        let den128: u128 = den as u128;
        let q: u128 = num / den128;
        let r: u128 = num % den128;
        proof {
            assert(num == value as nat * spec_pow10(d as nat));
            assert(num < 1024 * den as nat * p10 as nat) by (nonlinear_arith)
                requires
                    num == value as nat * p10 as nat,
                    value < 1024 * den as nat,
                    p10 >= 1,
            ;
            assert(q < 1024 * p10 as nat) by (nonlinear_arith)
                requires
                    num < 1024 * den as nat * p10 as nat,
                    den >= 1,
                    q == num as int / den as int,
            ;
        }
        let scaled: u128 = if 2 * r > den128 || (2 * r == den128 && q % 2 == 1) {
            q + 1
        } else {
            q
        };
        proof {
            assert(scaled == spec_round_half_even(value as nat * spec_pow10(d as nat), den as nat));
            assert(scaled <= 1024 * p10 as nat);
            assert(scaled as nat / p10 as nat <= 1024) by (nonlinear_arith)
                requires
                    p10 >= 1,
                    scaled <= 1024 * p10 as nat,
            ;
        }
        let int_part: u64 = (scaled / (p10 as u128)) as u64;
        let frac: u64 = (scaled % (p10 as u128)) as u64;
        proof {
            assert(int_part == scaled as nat / p10 as nat);
            assert(frac == scaled as nat % p10 as nat);
        }
        let mut s = u64_to_decimal(int_part);
        if d > 0 {
            proof {
                reveal_strlit(".");
                assert((".")@ =~= seq!['.']);
            }
            s.append(".");
            let f = padded_decimal(frac, d);
            s.append(f.as_str());
        }
        proof {
            reveal_strlit(" ");
            assert((" ")@ =~= seq![' ']);
        }
        s.append(" ");
        s.append(unit_str(e));
        proof {
            assert(s@ =~= spec_format_bytes(value as nat, precision as nat));
        }
        s
    }

    /// Renders the byte count with the default precision of three
    /// significant digits.
    pub fn display(&self) -> (s: String)
        ensures
            s@ == spec_format_bytes(self.0 as nat, 3),
    {
        self.display_with_precision(3)
    }
}

/// A price in MIST that renders as a human-readable string, switching to
/// SUI for large amounts.
#[derive(Debug, Default, Clone, Copy, PartialEq, Eq, Structural, PartialOrd, Ord)]
pub struct HumanReadableMist(pub u64);

impl HumanReadableMist {
    /// Renders the price: fully in MIST below one million, in SUI above.
    pub fn display(&self) -> (s: String)
        ensures
            s@ == spec_format_mist(self.0 as nat),
    {
        let value = self.0;
        if value < 1000000 {
            let mut s = thousands_separator(value);
            proof {
                reveal_strlit(" MIST");
                assert((" MIST")@ =~= seq![' ', 'M', 'I', 'S', 'T']);
            }
            s.append(" MIST");
            proof {
                assert(s@ =~= spec_format_mist(value as nat));
            }
            return s;
        }
        let d: usize = if value < 10000000 {
            4
        } else {
            3
        };
        let div = pow10_u64(9 - d);
        proof {
            lemma_pow10_values();
        }
        let q = value / div;
        let r = value % div;
        let scaled = if 2 * r > div || (2 * r == div && q % 2 == 1) {
            q + 1
        } else {
            q
        };
        proof {
            assert(scaled == spec_round_half_even(value as nat, spec_pow10((9 - d) as nat)));
        }
        let frac_den = pow10_u64(d);
        let int_part = scaled / frac_den;
        let frac = scaled % frac_den;
        let mut s = u64_to_decimal(int_part);
        proof {
            reveal_strlit(".");
            reveal_strlit(" SUI");
            assert((".")@ =~= seq!['.']);
            assert((" SUI")@ =~= seq![' ', 'S', 'U', 'I']);
        }
        s.append(".");
        let f = padded_decimal(frac, d);
        s.append(f.as_str());
        s.append(" SUI");
        proof {
            assert(s@ =~= spec_format_mist(value as nat));
        }
        s
    }
}

} // verus!
