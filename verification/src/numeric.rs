//! Parsing of the wire format's numeric strings.
//!
//! The exchange sends every number as a JSON string: prices and amounts as
//! unsigned decimals ("10.5"), counts as plain digit strings ("3").  Prices
//! and amounts are held as integers scaled by `10^12`, so that ordering and
//! the zero test are plain integer operations.

use vstd::prelude::*;

use crate::OkxError;

verus! {

/// Number of fractional digits a scaled value carries.
pub open spec fn scale_digits() -> int {
    12
}

/// `10^n`.
pub open spec fn pow10(n: nat) -> int
    decreases n,
{
    if n == 0 {
        1
    } else {
        10 * pow10((n - 1) as nat)
    }
}

pub open spec fn is_digit_char(c: char) -> bool {
    48 <= c as u32 && c as u32 <= 57
}

pub open spec fn digit_of(c: char) -> int {
    if is_digit_char(c) {
        c as u32 - 48
    } else {
        0
    }
}

pub open spec fn all_digits(s: Seq<char>) -> bool {
    forall|i: int| 0 <= i < s.len() ==> is_digit_char(#[trigger] s[i])
}

/// Value of a digit string read left to right.
pub open spec fn digits_val(s: Seq<char>) -> int
    decreases s.len(),
{
    if s.len() == 0 {
        0
    } else {
        digits_val(s.drop_last()) * 10 + digit_of(s.last())
    }
}

pub proof fn lemma_digits_val_nonneg(s: Seq<char>)
    ensures
        digits_val(s) >= 0,
    decreases s.len(),
{
    if s.len() > 0 {
        lemma_digits_val_nonneg(s.drop_last());
    }
}

pub proof fn lemma_digits_val_lt_pow(s: Seq<char>)
    ensures
        digits_val(s) < pow10(s.len() as nat),
    decreases s.len(),
{
    if s.len() > 0 {
        lemma_digits_val_lt_pow(s.drop_last());
    }
}

/// A prefix of a digit string never exceeds the whole string's value.
pub proof fn lemma_digits_val_take_le(s: Seq<char>, i: int)
    requires
        0 <= i <= s.len(),
    ensures
        digits_val(s.take(i)) <= digits_val(s),
    decreases s.len() - i,
{
    lemma_digits_val_nonneg(s.take(i));
    if i < s.len() {
        let t = s.take(i + 1);
        assert(t.drop_last() =~= s.take(i));
        lemma_digits_val_nonneg(s.take(i + 1));
        lemma_digits_val_take_le(s, i + 1);
    } else {
        assert(s.take(i) =~= s);
    }
}

/// The meaning of a digit string as a `u32`, if it has one.
pub open spec fn u32_str_value(s: Seq<char>) -> Option<int> {
    if s.len() >= 1 && all_digits(s) && digits_val(s) <= u32::MAX {
        Some(digits_val(s))
    } else {
        None
    }
}

/// Parses a plain digit string into a `u32`.
pub fn parse_u32(s: &str) -> (r: Result<u32, OkxError>)
    ensures
        match r {
            Ok(v) => u32_str_value(s@) == Some(v as int),
            Err(e) => u32_str_value(s@) is None && e == OkxError::ParseIntError,
        },
{
    let n = s.unicode_len();
    if n == 0 {
        return Err(OkxError::ParseIntError);
    }
    let mut acc: u64 = 0;
    let mut i: usize = 0;
    while i < n
        invariant
            0 <= i <= n,
            n == s@.len(),
            all_digits(s@.take(i as int)),
            acc == digits_val(s@.take(i as int)),
            acc <= u32::MAX,
        decreases n - i,
    {
        let c = s.get_char(i);
        let cv = c as u32;
        if cv < 48 || cv > 57 {
            assert(!all_digits(s@));
            return Err(OkxError::ParseIntError);
        }
        let d = (cv - 48) as u64;
        proof {
            assert(s@.take(i + 1).drop_last() =~= s@.take(i as int));
        }
        acc = acc * 10 + d;
        i = i + 1;
        if acc > u32::MAX as u64 {
            proof {
                if all_digits(s@) {
                    lemma_digits_val_take_le(s@, i as int);
                }
            }
            return Err(OkxError::ParseIntError);
        }
    }
    proof {
        assert(s@.take(n as int) =~= s@);
    }
    Ok(acc as u32)
}

/// Index of the first occurrence of `sep` in `s`, or `s.len()` if there is none.
pub open spec fn char_index(s: Seq<char>, sep: char) -> int
    decreases s.len(),
{
    if s.len() == 0 {
        0
    } else if s[0] == sep {
        0
    } else {
        1 + char_index(s.drop_first(), sep)
    }
}

pub proof fn lemma_char_index_bounds(s: Seq<char>, sep: char)
    ensures
        0 <= char_index(s, sep) <= s.len(),
        forall|j: int| 0 <= j < char_index(s, sep) ==> s[j] != sep,
        char_index(s, sep) < s.len() ==> s[char_index(s, sep)] == sep,
    decreases s.len(),
{
    if s.len() > 0 && s[0] != sep {
        lemma_char_index_bounds(s.drop_first(), sep);
        assert forall|j: int| 0 <= j < char_index(s, sep) implies s[j] != sep by {
            if j > 0 {
                assert(s.drop_first()[j - 1] != sep);
            }
        }
    }
}

/// If `s[p] == sep` and nothing before `p` matches, the first occurrence is at `p`.
pub proof fn lemma_char_index_at(s: Seq<char>, sep: char, p: int)
    requires
        0 <= p < s.len(),
        s[p] == sep,
        forall|j: int| 0 <= j < p ==> s[j] != sep,
    ensures
        char_index(s, sep) == p,
    decreases p,
{
    if p > 0 {
        lemma_char_index_at(s.drop_first(), sep, p - 1);
    }
}

/// If no character of `s` matches, the first occurrence index is `s.len()`.
pub proof fn lemma_char_index_none(s: Seq<char>, sep: char)
    requires
        forall|j: int| 0 <= j < s.len() ==> s[j] != sep,
    ensures
        char_index(s, sep) == s.len(),
    decreases s.len(),
{
    if s.len() > 0 {
        lemma_char_index_none(s.drop_first(), sep);
    }
}

/// The meaning of an unsigned decimal string, scaled by `10^12`.
///
/// The integer part carries at most 26 digits and the fractional part at
/// most 12, so every value fits an `i128`.  Anything else has no meaning.
pub open spec fn dec_str_value(s: Seq<char>) -> Option<int> {
    let d = char_index(s, '.');
    let ip = s.take(d);
    let fp = if d < s.len() {
        s.skip(d + 1)
    } else {
        Seq::<char>::empty()
    };
    if ip.len() >= 1 && ip.len() <= 26 && all_digits(ip) && fp.len() <= 12 && all_digits(fp) {
        Some(digits_val(ip) * pow10(12) + digits_val(fp) * pow10((12 - fp.len()) as nat))
    } else {
        None
    }
}

/// Every defined decimal value fits an `i128` and is nonnegative.
pub proof fn lemma_dec_str_value_fits(s: Seq<char>)
    ensures
        match dec_str_value(s) {
            Some(v) => 0 <= v <= i128::MAX,
            None => true,
        },
{
    if dec_str_value(s) is Some {
        let d = char_index(s, '.');
        let ip = s.take(d);
        let fp = if d < s.len() {
            s.skip(d + 1)
        } else {
            Seq::<char>::empty()
        };
        lemma_digits_val_nonneg(ip);
        lemma_digits_val_nonneg(fp);
        lemma_digits_val_lt_pow(ip);
        lemma_digits_val_lt_pow(fp);
        lemma_pow10_mono(ip.len() as int, 26);
        lemma_pow10_pos((12 - fp.len()) as nat);
        lemma_pow10_unfold_all();
        assert(digits_val(ip) * pow10(12) <= (pow10(26) - 1) * pow10(12)) by (nonlinear_arith)
            requires
                digits_val(ip) < pow10(26),
                digits_val(ip) >= 0,
                pow10(12) > 0,
        ;
        assert(digits_val(fp) * pow10((12 - fp.len()) as nat) < pow10(12)) by {
            lemma_digits_val_mul_pow_lt(fp);
        }
        assert((pow10(26) - 1) * pow10(12) + pow10(12) == pow10(26) * pow10(12)) by (nonlinear_arith);
        assert(pow10(26) * pow10(12) == pow10(38)) by {
            lemma_pow10_add(26, 12);
        }
    }
}

pub proof fn lemma_pow10_pos(n: nat)
    ensures
        pow10(n) >= 1,
    decreases n,
{
    if n > 0 {
        lemma_pow10_pos((n - 1) as nat);
    }
}

pub proof fn lemma_pow10_add(a: nat, b: nat)
    ensures
        pow10(a + b) == pow10(a) * pow10(b),
    decreases a,
{
    if a == 0 {
    } else {
        lemma_pow10_add((a - 1) as nat, b);
        assert(pow10(a + b) == 10 * pow10((a + b - 1) as nat));
        assert(10 * (pow10((a - 1) as nat) * pow10(b)) == (10 * pow10((a - 1) as nat)) * pow10(b))
            by (nonlinear_arith);
    }
}

/// `digits_val(fp) * 10^(12-|fp|) < 10^12` whenever `|fp| <= 12`.
pub proof fn lemma_digits_val_mul_pow_lt(fp: Seq<char>)
    requires
        fp.len() <= 12,
    ensures
        digits_val(fp) * pow10((12 - fp.len()) as nat) < pow10(12),
        digits_val(fp) * pow10((12 - fp.len()) as nat) >= 0,
{
    lemma_digits_val_nonneg(fp);
    lemma_digits_val_lt_pow(fp);
    lemma_pow10_pos((12 - fp.len()) as nat);
    lemma_pow10_add(fp.len() as nat, (12 - fp.len()) as nat);
    assert(digits_val(fp) * pow10((12 - fp.len()) as nat) < pow10(fp.len() as nat) * pow10(
        (12 - fp.len()) as nat,
    )) by (nonlinear_arith)
        requires
            digits_val(fp) < pow10(fp.len() as nat),
            digits_val(fp) >= 0,
            pow10((12 - fp.len()) as nat) > 0,
    ;
    assert(digits_val(fp) * pow10((12 - fp.len()) as nat) >= 0) by (nonlinear_arith)
        requires
            digits_val(fp) >= 0,
            pow10((12 - fp.len()) as nat) > 0,
    ;
}

/// Concrete values of the small powers of ten.
pub proof fn lemma_pow10_unfold_all()
    ensures
        pow10(0) == 1,
        pow10(12) == 0x000000e8d4a51000,
        pow10(26) == 100000000000000000000000000,
        pow10(38) == 100000000000000000000000000000000000000,
{
    reveal_with_fuel(pow10, 39);
}

/// Computes `10^n` for `n <= 12`.
fn pow10_exec(n: usize) -> (r: i128)
    requires
        n <= 12,
    ensures
        r == pow10(n as nat),
        r >= 1,
{
    let mut r: i128 = 1;
    let mut i: usize = 0;
    proof {
        lemma_pow10_unfold_all();
    }
    while i < n
        invariant
            0 <= i <= n <= 12,
            r == pow10(i as nat),
            1 <= r <= 0x000000e8d4a51000,
        decreases n - i,
    {
        proof {
            lemma_pow10_pos(i as nat);
            lemma_pow10_add(i as nat, (12 - i) as nat);
            lemma_pow10_pos((12 - i - 1) as nat);
            assert(pow10((i + 1) as nat) == pow10(i as nat) * 10) by {
                lemma_pow10_add(i as nat, 1);
                reveal_with_fuel(pow10, 2);
            }
            assert(pow10((i + 1) as nat) <= pow10(12)) by {
                lemma_pow10_add((i + 1) as nat, (12 - i - 1) as nat);
                assert(pow10((i + 1) as nat) * pow10((12 - i - 1) as nat) >= pow10((i + 1) as nat)
                    * 1) by (nonlinear_arith)
                    requires
                        pow10((12 - i - 1) as nat) >= 1,
                        pow10((i + 1) as nat) >= 0,
                ;
                lemma_pow10_pos((i + 1) as nat);
            }
            lemma_pow10_unfold_all();
        }
        r = r * 10;
        i = i + 1;
    }
    r
}

/// Parses an unsigned decimal string into its value scaled by `10^12`.
pub fn parse_scaled_dec(s: &str) -> (r: Result<i128, OkxError>)
    ensures
        match r {
            Ok(v) => dec_str_value(s@) == Some(v as int) && v >= 0,
            Err(e) => dec_str_value(s@) is None && e == OkxError::DecimalError,
        },
{
    let n = s.unicode_len();
    let ghost gs = s@;
    // Scan the integer part, stopping at the first dot.
    let mut i: usize = 0;
    let mut found_dot = false;
    let mut int_acc: i128 = 0;
    proof {
        lemma_pow10_pos(26);
    }
    while i < n && !found_dot
        invariant
            0 <= i <= n,
            n == gs.len(),
            gs == s@,
            forall|j: int| 0 <= j < i ==> gs[j] != '.',
            found_dot ==> i < n && gs[i as int] == '.',
            all_digits(gs.take(i as int)),
            i <= 26,
            int_acc == digits_val(gs.take(i as int)),
            0 <= int_acc < pow10(26),
        decreases n - i + (if found_dot { 0int } else { 1int }),
    {
        let c = s.get_char(i);
        if c == '.' {
            found_dot = true;
        } else {
            let cv = c as u32;
            if cv < 48 || cv > 57 {
                proof {
                    lemma_dec_invalid_bad_char(gs, i as int);
                }
                return Err(OkxError::DecimalError);
            }
            if i == 26 {
                // An integer part longer than 26 digits carries no meaning here.
                proof {
                    lemma_dec_invalid_long_int(gs, i as int);
                }
                return Err(OkxError::DecimalError);
            }
            proof {
                assert(gs.take(i + 1).drop_last() =~= gs.take(i as int));
                lemma_digits_val_lt_pow(gs.take(i + 1));
                lemma_pow10_mono(i + 1, 26);
                lemma_pow10_unfold_all();
            }
            int_acc = int_acc * 10 + ((cv - 48) as i128);
            i = i + 1;
        }
    }
    proof {
        if found_dot {
            lemma_char_index_at(gs, '.', i as int);
        } else {
            lemma_char_index_none(gs, '.');
        }
        assert(char_index(gs, '.') == i as int);
    }
    if i == 0 {
        proof {
            assert(gs.take(0).len() == 0);
        }
        return Err(OkxError::DecimalError);
    }
    // Scan the fractional part, if any.
    let mut frac_acc: i128 = 0;
    let mut frac_len: usize = 0;
    if found_dot {
        let mut j: usize = i + 1;
        proof {
            lemma_pow10_pos(12);
            assert(gs.subrange(i + 1, i + 1).len() == 0);
        }
        while j < n
            invariant
                i + 1 <= j <= n,
                n == gs.len(),
                gs == s@,
                0 <= i < n,
                char_index(gs, '.') == i as int,
                all_digits(gs.subrange(i + 1, j as int)),
                j - i - 1 <= 12,
                frac_acc == digits_val(gs.subrange(i + 1, j as int)),
                0 <= frac_acc < pow10(12),
            decreases n - j,
        {
            let c = s.get_char(j);
            let cv = c as u32;
            if cv < 48 || cv > 57 {
                proof {
                    lemma_dec_invalid_bad_frac(gs, i as int, j as int);
                }
                return Err(OkxError::DecimalError);
            }
            if j - i - 1 == 12 {
                proof {
                    lemma_dec_invalid_long_frac(gs, i as int, j as int);
                }
                return Err(OkxError::DecimalError);
            }
            proof {
                assert(gs.subrange(i + 1, j + 1).drop_last() =~= gs.subrange(i + 1, j as int));
                lemma_digits_val_lt_pow(gs.subrange(i + 1, j + 1));
                lemma_pow10_mono(j - i, 12);
                lemma_pow10_unfold_all();
            }
            frac_acc = frac_acc * 10 + ((cv - 48) as i128);
            j = j + 1;
        }
        frac_len = j - i - 1;
    }
    let ghost ip = gs.take(i as int);
    let ghost fp = if (i as int) < gs.len() {
        gs.skip(i + 1)
    } else {
        Seq::<char>::empty()
    };
    proof {
        if (i as int) < gs.len() {
            assert(gs.subrange(i + 1, gs.len() as int) =~= gs.skip(i + 1));
        }
        assert(ip =~= gs.take(char_index(gs, '.')));
        lemma_digits_val_mul_pow_lt(fp);
        lemma_digits_val_nonneg(ip);
        lemma_digits_val_lt_pow(ip);
        lemma_pow10_unfold_all();
        assert(digits_val(ip) * pow10(12) <= (pow10(26) - 1) * pow10(12)) by (nonlinear_arith)
            requires
                digits_val(ip) < pow10(26),
                digits_val(ip) >= 0,
                pow10(12) > 0,
        ;
        assert((pow10(26) - 1) * pow10(12) + pow10(12) == pow10(26) * pow10(12)) by (nonlinear_arith);
        lemma_pow10_add(26, 12);
    }
    let scale = pow10_exec(12 - frac_len);
    proof {
        assert(int_acc * pow10(12) >= 0) by (nonlinear_arith)
            requires
                int_acc >= 0,
                pow10(12) > 0,
        ;
        assert(frac_acc * scale >= 0) by (nonlinear_arith)
            requires
                frac_acc >= 0,
                scale > 0,
        ;
    }
    let v: i128 = int_acc * 1_000_000_000_000i128 + frac_acc * scale;
    Ok(v)
}

pub proof fn lemma_pow10_mono(a: int, b: int)
    requires
        0 <= a <= b,
    ensures
        pow10(a as nat) <= pow10(b as nat),
    decreases b - a,
{
    if a < b {
        lemma_pow10_mono(a, b - 1);
        lemma_pow10_pos((b - 1) as nat);
    }
}

/// A non-digit character before the first dot makes the string meaningless.
proof fn lemma_dec_invalid_bad_char(s: Seq<char>, i: int)
    requires
        0 <= i < s.len(),
        forall|j: int| 0 <= j < i ==> s[j] != '.',
        s[i] != '.',
        !is_digit_char(s[i]),
    ensures
        dec_str_value(s) is None,
{
    lemma_char_index_bounds(s, '.');
    let d = char_index(s, '.');
    if d <= i {
        assert(s[d] == '.');
        assert(d == s.len());
        assert(false);
    }
    assert(s.take(d)[i] == s[i]);
    assert(!all_digits(s.take(d)));
}

/// More than 26 digits before the dot make the string meaningless.
proof fn lemma_dec_invalid_long_int(s: Seq<char>, i: int)
    requires
        0 <= i < s.len(),
        i >= 26,
        forall|j: int| 0 <= j < i ==> s[j] != '.',
        s[i] != '.',
    ensures
        dec_str_value(s) is None,
{
    lemma_char_index_bounds(s, '.');
    let d = char_index(s, '.');
    if d <= i {
        assert(s[d] == '.');
        assert(d == s.len());
        assert(false);
    }
    assert(s.take(d).len() > 26);
}

/// A non-digit character after the dot makes the string meaningless.
proof fn lemma_dec_invalid_bad_frac(s: Seq<char>, i: int, j: int)
    requires
        0 <= i < s.len(),
        i < j < s.len(),
        char_index(s, '.') == i,
        !is_digit_char(s[j]),
    ensures
        dec_str_value(s) is None,
{
    let fp = s.skip(i + 1);
    assert(fp[j - i - 1] == s[j]);
    assert(!all_digits(fp));
}

/// More than 12 digits after the dot make the string meaningless.
proof fn lemma_dec_invalid_long_frac(s: Seq<char>, i: int, j: int)
    requires
        0 <= i < s.len(),
        i < j < s.len(),
        char_index(s, '.') == i,
        j - i - 1 >= 12,
    ensures
        dec_str_value(s) is None,
{
    let fp = s.skip(i + 1);
    assert(fp.len() > 12);
}

} // verus!
