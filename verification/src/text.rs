//! Decimal rendering of integers and small string helpers used by the
//! labels of the widgets (badge counts, calendar titles, time columns).

use vstd::prelude::*;

verus! {

/// The ASCII digit character for `d` (meaningful for `0 <= d < 10`).
pub open spec fn digit_char(d: int) -> char {
    if d == 0 { '0' }
    else if d == 1 { '1' }
    else if d == 2 { '2' }
    else if d == 3 { '3' }
    else if d == 4 { '4' }
    else if d == 5 { '5' }
    else if d == 6 { '6' }
    else if d == 7 { '7' }
    else if d == 8 { '8' }
    else { '9' }
}

/// The shortest decimal rendering of `n` (no sign, no leading zeros).
pub open spec fn decimal(n: nat) -> Seq<char>
    decreases n,
{
    if n < 10 {
        seq![digit_char(n as int)]
    } else {
        decimal(n / 10).push(digit_char((n % 10) as int))
    }
}

/// The decimal rendering of a signed integer: a leading `-` for
/// negative values, as Rust's `Display` for integers produces.
pub open spec fn signed_decimal(n: int) -> Seq<char> {
    if n < 0 {
        seq!['-'] + decimal((-n) as nat)
    } else {
        decimal(n as nat)
    }
}

/// `s` left-padded with `'0'` up to `width` characters.
pub open spec fn zero_pad(s: Seq<char>, width: nat) -> Seq<char> {
    if s.len() >= width {
        s
    } else {
        Seq::new((width - s.len()) as nat, |i: int| '0') + s
    }
}

/// `n` rendered with at least `width` digits, zero-padded on the left.
pub open spec fn padded_decimal(n: nat, width: nat) -> Seq<char> {
    zero_pad(decimal(n), width)
}

/// Appends one character to a string (std's `String::push`).
#[verifier::external_body]
pub(crate) fn push_char(s: &mut String, c: char)
    ensures
        final(s)@ == old(s)@.push(c),
{
    s.push(c);
}

/// The digit character of a value below ten.
pub fn digit(d: u64) -> (c: char)
    requires
        d < 10,
    ensures
        c == digit_char(d as int),
{
    match d {
        0 => '0',
        1 => '1',
        2 => '2',
        3 => '3',
        4 => '4',
        5 => '5',
        6 => '6',
        7 => '7',
        8 => '8',
        _ => '9',
    }
}

/// Number of decimal digits of `n`.
pub fn decimal_len(n: u64) -> (len: usize)
    ensures
        len == decimal(n as nat).len(),
        1 <= len <= 20,
    decreases n,
{
    if n < 10 {
        1
    } else {
        let l = decimal_len(n / 10);
        proof {
            lemma_decimal_len_bound(n as nat);
        }
        l + 1
    }
}

/// `10^k`.
pub open spec fn pow10(k: nat) -> nat
    decreases k,
{
    if k == 0 { 1 } else { 10 * pow10((k - 1) as nat) }
}

/// A value below `10^k` has at most `k` digits.
proof fn lemma_decimal_len_pow(n: nat, k: nat)
    requires
        k >= 1,
        n < pow10(k),
    ensures
        decimal(n).len() <= k,
    decreases n,
{
    if n >= 10 {
        assert(k >= 2) by {
            if k == 1 {
                assert(pow10(1) == 10 * pow10(0));
            }
        }
        assert(pow10(k) == 10 * pow10((k - 1) as nat));
        assert(n / 10 < pow10((k - 1) as nat));
        lemma_decimal_len_pow(n / 10, (k - 1) as nat);
    }
}

/// A `u64` has at most twenty decimal digits.
proof fn lemma_decimal_len_bound(n: nat)
    requires
        n <= u64::MAX,
    ensures
        1 <= decimal(n).len() <= 20,
{
    reveal_with_fuel(pow10, 21);
    assert(pow10(20) == 100_000_000_000_000_000_000);
    lemma_decimal_len_pow(n, 20);
}

/// Appends the decimal rendering of `n`.
pub fn write_decimal(s: &mut String, n: u64)
    ensures
        final(s)@ == old(s)@ + decimal(n as nat),
    decreases n,
{
    if n >= 10 {
        write_decimal(s, n / 10);
    }
    push_char(s, digit(n % 10));
    proof {
        if n >= 10 {
            assert(old(s)@ + decimal((n / 10) as nat) + seq![digit_char((n % 10) as int)]
                =~= old(s)@ + decimal(n as nat));
        } else {
            assert(old(s)@.push(digit_char(n as int)) =~= old(s)@ + decimal(n as nat));
        }
    }
}

/// Appends the decimal rendering of a signed value.
pub fn write_signed(s: &mut String, n: i64)
    ensures
        final(s)@ == old(s)@ + signed_decimal(n as int),
{
    if n < 0 {
        push_char(s, '-');
        let m: i128 = -(n as i128);
        write_decimal(s, m as u64);
        assert(final(s)@ =~= old(s)@ + signed_decimal(n as int));
    } else {
        write_decimal(s, n as u64);
    }
}

/// Appends `n` zero-padded to at least `width` digits.
pub fn write_padded(s: &mut String, n: u64, width: usize)
    ensures
        final(s)@ == old(s)@ + padded_decimal(n as nat, width as nat),
{
    let len = decimal_len(n);
    let ghost start = s@;
    let mut i: usize = len;
    while i < width
        invariant
            len <= i,
            len == decimal(n as nat).len(),
            s@ == start + Seq::new((i - len) as nat, |k: int| '0'),
            len >= width ==> i == len,
            len < width ==> i <= width,
        decreases width - i,
    {
        push_char(s, '0');
        i = i + 1;
        assert(s@ =~= start + Seq::new((i - len) as nat, |k: int| '0'));
    }
    let ghost mid = s@;
    write_decimal(s, n);
    proof {
        if len >= width {
            assert(mid =~= start);
        } else {
            assert(i == width);
        }
        assert(s@ =~= old(s)@ + padded_decimal(n as nat, width as nat));
    }
}

/// The decimal rendering of `n` as a new string.
pub fn u64_to_string(n: u64) -> (s: String)
    ensures
        s@ == decimal(n as nat),
{
    let mut s = String::new();
    write_decimal(&mut s, n);
    assert(s@ =~= decimal(n as nat));
    s
}


/// Whether `c` is an ASCII decimal digit.
pub open spec fn is_digit(c: char) -> bool {
    '0' <= c <= '9'
}

/// The value of a string of decimal digits (empty: 0).
pub open spec fn digits_value(s: Seq<char>) -> nat
    decreases s.len(),
{
    if s.len() == 0 {
        0
    } else {
        digits_value(s.drop_last()) * 10 + ((s.last() as int) - ('0' as int)) as nat
    }
}

/// Whether every character of `s` is a decimal digit.
pub open spec fn all_digits(s: Seq<char>) -> bool {
    forall|i: int| 0 <= i < s.len() ==> is_digit(#[trigger] s[i])
}

/// The integer written by `s` in the syntax of Rust's `FromStr` for
/// integers: an optional `+` (or `-` when `signed`) and at least one
/// decimal digit, nothing else. `None` for any other text.
pub open spec fn int_text_value(s: Seq<char>, signed: bool) -> Option<int> {
    if s.len() == 0 {
        None
    } else if s[0] == '+' || (s[0] == '-' && signed) {
        let rest = s.drop_first();
        if rest.len() > 0 && all_digits(rest) {
            if s[0] == '-' { Some(-(digits_value(rest) as int)) } else { Some(digits_value(rest) as int) }
        } else {
            None
        }
    } else if all_digits(s) {
        Some(digits_value(s) as int)
    } else {
        None
    }
}

/// Parses the integer text of `text` (Rust's `FromStr` syntax for a
/// signed or unsigned integer type) and accepts it only within
/// `lo..=hi`, as `FromStr` for a type with that range does.
pub fn parse_int_in_range(text: &str, signed: bool, lo: i128, hi: i128) -> (res: Option<i128>)
    requires
        -(u64::MAX as int) <= lo <= 0 <= hi <= u64::MAX,
    ensures
        res == (match int_text_value(text@, signed) {
            Some(v) => if lo <= v <= hi { Some(v as i128) } else { None },
            None => None,
        }),
{
    let n = text.unicode_len();
    if n == 0 {
        return None;
    }
    let first = text.get_char(0);
    let negative = first == '-' && signed;
    let start: usize = if first == '+' || negative { 1 } else { 0 };
    if start == n {
        return None;
    }
    let ghost digits = text@.subrange(start as int, n as int);
    let bound: i128 = if negative { -lo } else { hi };
    let mut acc: i128 = 0;
    let mut big = false;
    let mut i: usize = start;
    while i < n
        invariant
            n == text@.len(),
            start <= i <= n,
            start == 0 || start == 1,
            first == text@[0],
            negative == (first == '-' && signed),
            start == (if first == '+' || negative { 1usize } else { 0usize }),
            bound == (if negative { -lo } else { hi as int }),
            digits == text@.subrange(start as int, n as int),
            0 <= bound <= u64::MAX,
            forall|j: int| start <= j < i ==> is_digit(#[trigger] text@[j]),
            !big ==> acc == digits_value(text@.subrange(start as int, i as int)),
            !big ==> acc <= bound,
            big ==> digits_value(text@.subrange(start as int, i as int)) > bound,
        decreases n - i,
    {
        let c = text.get_char(i);
        if !('0' <= c && c <= '9') {
            proof {
                assert(!all_digits(digits)) by {
                    assert(digits[i - start] == c);
                }
                assert(first == text@[0]);
                if start == 0 {
                    assert(digits =~= text@);
                    assert(!all_digits(text@));
                    assert(!(text@[0] == '+' || (text@[0] == '-' && signed)));
                    assert(int_text_value(text@, signed) is None);
                } else {
                    assert(digits =~= text@.drop_first());
                    assert(int_text_value(text@, signed) is None);
                }
            }
            return None;
        }
        let ghost prefix = text@.subrange(start as int, i as int);
        let ghost next = text@.subrange(start as int, i + 1);
        assert(next.drop_last() =~= prefix);
        assert(next.last() == c);
        if !big {
            let d = (c as u32 - '0' as u32) as i128;
            let v = acc * 10 + d;
            if v > bound {
                big = true;
            } else {
                acc = v;
            }
        } else {
            assert(digits_value(next) >= digits_value(prefix)) by (nonlinear_arith)
                requires digits_value(next) == digits_value(prefix) * 10 + ((c as int) - ('0' as int)),
                    '0' <= c <= '9';
        }
        i = i + 1;
    }
    proof {
        assert(text@.subrange(start as int, n as int) =~= digits);
        assert(all_digits(digits));
        if start == 0 {
            assert(digits =~= text@);
        } else {
            assert(digits =~= text@.drop_first());
        }
    }
    if big {
        None
    } else if negative {
        Some(-acc)
    } else {
        Some(acc)
    }
}

/// A digit character is a digit and stands for its value.
proof fn lemma_digit_char(d: int)
    requires
        0 <= d < 10,
    ensures
        is_digit(digit_char(d)),
        digit_char(d) as int - '0' as int == d,
{
}

/// The decimal rendering of `n` is a non-empty string of digits whose
/// value is `n`.
pub proof fn lemma_decimal_digits(n: nat)
    ensures
        decimal(n).len() >= 1,
        all_digits(decimal(n)),
        digits_value(decimal(n)) == n,
    decreases n,
{
    if n < 10 {
        lemma_digit_char(n as int);
        assert(decimal(n).drop_last() =~= Seq::<char>::empty());
        assert(digits_value(decimal(n)) == digits_value(decimal(n).drop_last()) * 10 + ((decimal(n).last() as int) - ('0' as int)) as nat);
    } else {
        lemma_decimal_digits(n / 10);
        lemma_digit_char((n % 10) as int);
        let s = decimal(n);
        assert(s.drop_last() =~= decimal(n / 10));
        assert(s.last() == digit_char((n % 10) as int));
        assert(n == (n / 10) * 10 + n % 10) by {
            vstd::arithmetic::div_mod::lemma_fundamental_div_mod(n as int, 10);
        }
        assert(digits_value(s) == digits_value(decimal(n / 10)) * 10 + ((s.last() as int) - ('0' as int)) as nat);
        assert forall|i: int| 0 <= i < s.len() implies is_digit(#[trigger] s[i]) by {
            if i < s.len() - 1 {
                assert(s[i] == decimal(n / 10)[i]);
            }
        }
    }
}

/// The text of a value reads back as that value (for a negative value,
/// where a sign is accepted).
pub proof fn lemma_signed_decimal_parses(v: int, signed: bool)
    requires
        v >= 0 || signed,
    ensures
        int_text_value(signed_decimal(v), signed) == Some(v),
{
    if v < 0 {
        lemma_decimal_digits((-v) as nat);
        let s = signed_decimal(v);
        assert(s.drop_first() =~= decimal((-v) as nat));
    } else {
        lemma_decimal_digits(v as nat);
        let s = decimal(v as nat);
        assert(is_digit(s[0]));
    }
}

} // verus!
