use vstd::prelude::*;
use vstd::string::StringExecFns;

use crate::arith::FRACTIONAL;

verus! {

/// The character for one decimal digit.
pub open spec fn dec_digit(d: int) -> char {
    if d == 0 {
        '0'
    } else if d == 1 {
        '1'
    } else if d == 2 {
        '2'
    } else if d == 3 {
        '3'
    } else if d == 4 {
        '4'
    } else if d == 5 {
        '5'
    } else if d == 6 {
        '6'
    } else if d == 7 {
        '7'
    } else if d == 8 {
        '8'
    } else {
        '9'
    }
}

/// The decimal digits of a non-negative number, most significant first.
pub open spec fn dec_str(n: int) -> Seq<char>
    recommends
        n >= 0,
    decreases n,
{
    if n < 10 {
        seq![dec_digit(n)]
    } else {
        dec_str(n / 10).push(dec_digit(n % 10))
    }
}

/// `k` zero characters.
pub open spec fn zeros(k: int) -> Seq<char> {
    Seq::new(if k >= 0 { k as nat } else { 0 }, |i: int| '0')
}

/// `width - s.len()` zeros in front of `s` (or `s` itself when as long).
pub open spec fn pad_left_zeros(s: Seq<char>, width: int) -> Seq<char> {
    if s.len() >= width {
        s
    } else {
        zeros(width - s.len()) + s
    }
}

/// `s` without its trailing zeros.
pub open spec fn strip_trailing_zeros(s: Seq<char>) -> Seq<char>
    decreases s.len(),
{
    if s.len() == 0 {
        s
    } else if s.last() == '0' {
        strip_trailing_zeros(s.drop_last())
    } else {
        s
    }
}

/// Ten to the `k`.
pub open spec fn pow10(k: int) -> int
    recommends
        k >= 0,
    decreases k,
{
    if k <= 0 {
        1
    } else {
        10 * pow10(k - 1)
    }
}

/// The display form of a fixed-point rate `a / FRACTIONAL`: the whole part,
/// then a point and the fractional digits with trailing zeros removed, the
/// point omitted when the fraction is zero.
pub open spec fn rate_str(a: u128) -> Seq<char> {
    let whole = a as int / FRACTIONAL as int;
    let frac = a as int % FRACTIONAL as int;
    if frac == 0 {
        dec_str(whole)
    } else {
        dec_str(whole) + seq!['.'] + strip_trailing_zeros(pad_left_zeros(dec_str(frac), 18))
    }
}

/// The one-character string of a decimal digit.
fn digit_str(d: u128) -> (r: &'static str)
    requires
        d < 10,
    ensures
        r@ =~= seq![dec_digit(d as int)],
{
    proof {
        reveal_strlit("0");
        reveal_strlit("1");
        reveal_strlit("2");
        reveal_strlit("3");
        reveal_strlit("4");
        reveal_strlit("5");
        reveal_strlit("6");
        reveal_strlit("7");
        reveal_strlit("8");
        reveal_strlit("9");
    }
    if d == 0 {
        "0"
    } else if d == 1 {
        "1"
    } else if d == 2 {
        "2"
    } else if d == 3 {
        "3"
    } else if d == 4 {
        "4"
    } else if d == 5 {
        "5"
    } else if d == 6 {
        "6"
    } else if d == 7 {
        "7"
    } else if d == 8 {
        "8"
    } else {
        "9"
    }
}

/// The digits of `ds` read back to front, as characters.
pub open spec fn digits_rev(ds: Seq<u128>) -> Seq<char> {
    Seq::new(ds.len(), |k: int| dec_digit(ds[ds.len() - 1 - k] as int))
}

/// Appends the decimal digits of `n` to `out`.
pub fn append_u128(out: &mut String, n: u128)
    ensures
        final(out)@ =~= old(out)@ + dec_str(n as int),
{
    if n < 10 {
        out.append(digit_str(n));
        return ;
    }
    let mut ds: Vec<u128> = Vec::new();
    let mut x: u128 = n;
    while x > 0
        invariant
            forall|j: int| 0 <= j < ds@.len() ==> #[trigger] ds@[j] < 10,
            x > 0 ==> dec_str(n as int) =~= dec_str(x as int) + digits_rev(ds@),
            x == 0 ==> dec_str(n as int) =~= digits_rev(ds@),
        decreases x,
    {
        let d = x % 10;
        proof {
            if x >= 10 {
                assert(dec_str(x as int) =~= dec_str(x as int / 10).push(dec_digit(x as int % 10)));
                if x > 0 {
                    assert(dec_str(x as int / 10) + digits_rev(ds@.push(d)) =~= dec_str(x as int)
                        + digits_rev(ds@));
                }
            } else {
                assert(dec_str(x as int) =~= seq![dec_digit(x as int)]);
                assert(digits_rev(ds@.push(d)) =~= dec_str(x as int) + digits_rev(ds@));
            }
        }
        ds.push(d);
        x = x / 10;
    }
    let len = ds.len();
    let mut k: usize = 0;
    while k < len
        invariant
            k <= len,
            len == ds@.len(),
            out@ =~= old(out)@ + digits_rev(ds@).take(k as int),
        decreases len - k,
    {
        let d = ds[len - 1 - k];
        out.append(digit_str(d));
        proof {
            assert(digits_rev(ds@).take(k + 1) =~= digits_rev(ds@).take(k as int).push(
                digits_rev(ds@)[k as int],
            ));
            assert(digits_rev(ds@)[k as int] == dec_digit(ds@[ds@.len() - 1 - k] as int));
        }
        k += 1;
    }
    proof {
        assert(digits_rev(ds@).take(len as int) =~= digits_rev(ds@));
    }
}

/// The decimal representation of `n`.
pub fn u128_to_string(n: u128) -> (s: String)
    ensures
        s@ =~= dec_str(n as int),
{
    let mut s = String::new();
    append_u128(&mut s, n);
    s
}

proof fn lemma_pow10_pos(k: int)
    ensures
        pow10(k) >= 1,
    decreases k,
{
    if k > 0 {
        lemma_pow10_pos(k - 1);
    }
}

/// The value of `pow10` at eighteen and nineteen.
proof fn lemma_pow10_18()
    ensures
        pow10(18) == FRACTIONAL,
        pow10(19) == 10 * FRACTIONAL,
{
    assert(pow10(0) == 1);
    assert(pow10(1) == 10);
    assert(pow10(2) == 100);
    assert(pow10(3) == 1000);
    assert(pow10(4) == 10000);
    assert(pow10(5) == 100000);
    assert(pow10(6) == 1000000);
    assert(pow10(7) == 10000000);
    assert(pow10(8) == 100000000);
    assert(pow10(9) == 1000000000);
    assert(pow10(10) == 10000000000);
    assert(pow10(11) == 100000000000);
    assert(pow10(12) == 1000000000000);
    assert(pow10(13) == 10000000000000);
    assert(pow10(14) == 100000000000000);
    assert(pow10(15) == 1000000000000000);
    assert(pow10(16) == 10000000000000000);
    assert(pow10(17) == 100000000000000000);
    assert(pow10(18) == 1000000000000000000);
    assert(pow10(19) == 10000000000000000000);
}

/// `pow10(39)` exceeds every 128-bit value.
proof fn lemma_pow10_39()
    ensures
        pow10(39) > u128::MAX,
{
    lemma_pow10_18();
    assert(pow10(19) == 10000000000000000000);
    assert(pow10(20) == 100000000000000000000);
    assert(pow10(21) == 1000000000000000000000);
    assert(pow10(22) == 10000000000000000000000);
    assert(pow10(23) == 100000000000000000000000);
    assert(pow10(24) == 1000000000000000000000000);
    assert(pow10(25) == 10000000000000000000000000);
    assert(pow10(26) == 100000000000000000000000000);
    assert(pow10(27) == 1000000000000000000000000000);
    assert(pow10(28) == 10000000000000000000000000000);
    assert(pow10(29) == 100000000000000000000000000000);
    assert(pow10(30) == 1000000000000000000000000000000);
    assert(pow10(31) == 10000000000000000000000000000000);
    assert(pow10(32) == 100000000000000000000000000000000);
    assert(pow10(33) == 1000000000000000000000000000000000);
    assert(pow10(34) == 10000000000000000000000000000000000);
    assert(pow10(35) == 100000000000000000000000000000000000);
    assert(pow10(36) == 1000000000000000000000000000000000000);
    assert(pow10(37) == 10000000000000000000000000000000000000);
    assert(pow10(38) == 100000000000000000000000000000000000000);
    assert(pow10(39) == 1000000000000000000000000000000000000000);
}

/// Appending a zero digit multiplies the represented number by ten.
proof fn lemma_dec_str_mul10(m: int)
    requires
        m >= 1,
    ensures
        dec_str(m * 10) =~= dec_str(m).push('0'),
{
    assert(m * 10 >= 10 && (m * 10) / 10 == m && (m * 10) % 10 == 0) by (nonlinear_arith)
        requires
            m >= 1,
    ;
}

/// Stripping zeros appended to a sequence that does not end in one gives the
/// sequence back.
proof fn lemma_strip_zeros(s: Seq<char>, k: int)
    requires
        s.len() > 0,
        s.last() != '0',
        k >= 0,
    ensures
        strip_trailing_zeros(s + zeros(k)) =~= s,
    decreases k,
{
    if k == 0 {
        assert(s + zeros(0) =~= s);
    } else {
        let t = s + zeros(k);
        assert(t.last() == '0');
        assert(t.drop_last() =~= s + zeros(k - 1));
        lemma_strip_zeros(s, k - 1);
    }
}

/// Multiplying by `10^k` appends `k` zero digits.
proof fn lemma_dec_str_shift(f: int, k: int)
    requires
        f >= 1,
        k >= 0,
    ensures
        dec_str(f * pow10(k)) =~= dec_str(f) + zeros(k),
    decreases k,
{
    if k == 0 {
        assert(f * 1 == f) by (nonlinear_arith);
        assert(dec_str(f) + zeros(0) =~= dec_str(f));
    } else {
        lemma_dec_str_shift(f, k - 1);
        lemma_pow10_pos(k - 1);
        assert(f * pow10(k) == (f * pow10(k - 1)) * 10) by (nonlinear_arith)
            requires
                pow10(k) == 10 * pow10(k - 1),
        ;
        assert(f * pow10(k - 1) >= 1) by (nonlinear_arith)
            requires
                f >= 1 && pow10(k - 1) >= 1,
        ;
        lemma_dec_str_mul10(f * pow10(k - 1));
        assert((dec_str(f) + zeros(k - 1)).push('0') =~= dec_str(f) + zeros(k));
    }
}

/// A positive number below `10^k` prints with at most `k` digits.
proof fn lemma_dec_str_len(n: int, k: int)
    requires
        0 <= n < pow10(k),
        k >= 1,
    ensures
        1 <= dec_str(n).len() <= k,
    decreases k,
{
    if n >= 10 {
        assert(pow10(0) == 1);
        assert(pow10(1) == 10);
        if k == 1 {
            assert(false);
        }
        lemma_pow10_pos(k - 1);
        assert(n / 10 < pow10(k - 1)) by (nonlinear_arith)
            requires
                n < pow10(k) && pow10(k) == 10 * pow10(k - 1) && n >= 10,
        ;
        lemma_dec_str_len(n / 10, k - 1);
    }
}

/// Stripping the appended zeros commutes with left padding to a fixed width.
proof fn lemma_strip_pad(s: Seq<char>, k: int, width: int)
    requires
        s.len() > 0,
        s.last() != '0',
        k >= 0,
        s.len() + k <= width,
    ensures
        strip_trailing_zeros(pad_left_zeros(s + zeros(k), width)) =~= pad_left_zeros(
            s,
            width - k,
        ),
{
    let padded = zeros(width - s.len() - k) + s;
    assert(pad_left_zeros(s + zeros(k), width) =~= padded + zeros(k));
    assert(padded.last() != '0');
    lemma_strip_zeros(padded, k);
    assert(pad_left_zeros(s, width - k) =~= padded);
}

/// The number of decimal digits of `n`.
fn count_digits(n: u128) -> (r: u128)
    ensures
        r == dec_str(n as int).len(),
    decreases n,
{
    if n < 10 {
        1
    } else {
        let rest = count_digits(n / 10);
        proof {
            lemma_pow10_39();
            lemma_dec_str_len(n as int, 39);
        }
        rest + 1
    }
}

/// Appends the display form of the fixed-point rate `a / FRACTIONAL`.
pub fn append_rate(out: &mut String, a: u128)
    ensures
        final(out)@ =~= old(out)@ + rate_str(a),
{
    let whole = a / FRACTIONAL;
    let frac = a % FRACTIONAL;
    append_u128(out, whole);
    if frac == 0 {
        return ;
    }
    proof {
        reveal_strlit(".");
    }
    out.append(".");
    proof {
        assert(out@ =~= old(out)@ + dec_str(whole as int) + seq!['.']);
        lemma_pow10_18();
    }
    // Strip the trailing zeros of the eighteen-digit fraction numerically:
    // write `frac` as `f * 10^z` with `f` not divisible by ten.
    let mut f: u128 = frac;
    let mut z: u128 = 0;
    while f % 10 == 0
        invariant
            1 <= f <= frac,
            z <= 17,
            frac == f * pow10(z as int),
            frac < pow10(18),
        decreases f,
    {
        proof {
            lemma_pow10_pos(z as int);
            assert((f / 10) * (10 * pow10(z as int)) == f * pow10(z as int)) by (nonlinear_arith)
                requires
                    f % 10 == 0 && f >= 10 && pow10(z as int) >= 1,
            ;
            if z + 1 > 17 {
                lemma_pow10_pos(z as int + 1 - 18);
                assert(pow10(z as int + 1) >= pow10(18)) by (nonlinear_arith)
                    requires
                        pow10(z as int + 1) == pow10(z as int + 1 - 18) * pow10(18) && pow10(
                            z as int + 1 - 18,
                        ) >= 1 && pow10(18) >= 1,
                ;
                lemma_pow10_split(z as int + 1, 18);
                assert(frac >= pow10(18)) by (nonlinear_arith)
                    requires
                        frac == (f / 10) * pow10(z as int + 1) && f / 10 >= 1 && pow10(
                            z as int + 1,
                        ) >= pow10(18) >= 1,
                ;
                assert(false);
            }
        }
        f = f / 10;
        z = z + 1;
    }
    // The fraction prints as `18 - z` places: `f` padded with leading zeros.
    let places = 18 - z;
    proof {
        lemma_pow10_18();
        lemma_pow10_pos(z as int);
        lemma_pow10_pos(18 - z as int);
        lemma_pow10_split(18, z as int);
        assert(f < pow10(18 - z as int)) by (nonlinear_arith)
            requires
                frac == f * pow10(z as int) && frac < pow10(18) && pow10(18) == pow10(
                    18 - z as int,
                ) * pow10(z as int) && pow10(z as int) >= 1 && pow10(18 - z as int) >= 1,
        ;
        lemma_dec_str_len(f as int, 18 - z as int);
        lemma_dec_str_shift(f as int, z as int);
        lemma_strip_pad(dec_str(f as int), z as int, 18);
        assert(dec_str(f as int).last() != '0');
    }
    let ghost fs = dec_str(f as int);
    let mut pad: u128 = 0;
    let digits = count_digits(f);
    while pad + digits < places
        invariant
            digits == fs.len(),
            digits + pad <= places,
            out@ =~= old(out)@ + dec_str((a / FRACTIONAL) as int) + seq!['.'] + zeros(
                pad as int,
            ),
        decreases places - pad,
    {
        proof {
            reveal_strlit("0");
            assert(zeros(pad as int).push('0') =~= zeros(pad as int + 1));
        }
        out.append("0");
        pad += 1;
    }
    append_u128(out, f);
    proof {
        if fs.len() < places as int {
            assert(pad + digits == places);
            assert(pad_left_zeros(fs, places as int) =~= zeros(pad as int) + fs);
        } else {
            assert(pad == 0);
            assert(pad_left_zeros(fs, places as int) =~= fs);
            assert(zeros(0) + fs =~= fs);
        }
        assert(strip_trailing_zeros(pad_left_zeros(dec_str(frac as int), 18)) =~= pad_left_zeros(
            fs,
            places as int,
        ));
    }
}

/// `10^a == 10^(a-b) * 10^b`.
proof fn lemma_pow10_split(a: int, b: int)
    requires
        0 <= b <= a,
    ensures
        pow10(a) == pow10(a - b) * pow10(b),
    decreases b,
{
    if b == 0 {
        assert(pow10(a) * 1 == pow10(a)) by (nonlinear_arith);
    } else {
        lemma_pow10_split(a, b - 1);
        assert(pow10(a - b + 1) == 10 * pow10(a - b));
        assert(pow10(b) == 10 * pow10(b - 1));
        assert(pow10(a - b + 1) * pow10(b - 1) == pow10(a - b) * pow10(b)) by (nonlinear_arith)
            requires
                pow10(a - b + 1) == 10 * pow10(a - b) && pow10(b) == 10 * pow10(b - 1),
        ;
    }
}

/// The display form of the fixed-point rate `a / FRACTIONAL`.
pub fn rate_to_string(a: u128) -> (s: String)
    ensures
        s@ =~= rate_str(a),
{
    let mut s = String::new();
    append_rate(&mut s, a);
    s
}

} // verus!
