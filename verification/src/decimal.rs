//! Decimal text of integers, as `Display` writes it for Rust integers.

use vstd::prelude::*;
use vstd::string::StringExecFns;

verus! {

/// The character of the decimal digit `d` (`d < 10`).
pub open spec fn digit_char(d: nat) -> char {
    (d + 48) as char
}

/// Decimal digits of a natural number, most significant first, without
/// leading zeros (zero itself is the single digit `0`).
pub open spec fn digits(m: nat) -> Seq<char>
    decreases m,
{
    if m < 10 {
        seq![digit_char(m)]
    } else {
        digits(m / 10).push(digit_char(m % 10))
    }
}

/// The text `Display` gives an integer: a `-` before negative numbers,
/// then the digits of its magnitude.
pub open spec fn decimal(n: int) -> Seq<char> {
    if n < 0 {
        seq!['-'] + digits((-n) as nat)
    } else {
        digits(n as nat)
    }
}

/// Whether `c` is one of the ASCII digits `0` to `9`.
pub open spec fn is_decimal_digit(c: char) -> bool {
    48 <= c as int && c as int <= 57
}

/// Whether `s` is a run of ASCII digits with no leading zero (zero itself is
/// the single digit `0`).
pub open spec fn is_canonical_unsigned(s: Seq<char>) -> bool {
    &&& s.len() > 0
    &&& forall|i: int| 0 <= i < s.len() ==> is_decimal_digit(#[trigger] s[i])
    &&& (s[0] == '0' ==> s.len() == 1)
}

/// Whether `s` is written as `Display` writes an integer: canonical digits,
/// or `-` followed by canonical digits of a nonzero magnitude.
pub open spec fn is_canonical_decimal(s: Seq<char>) -> bool {
    ||| is_canonical_unsigned(s)
    ||| (s.len() >= 2 && s[0] == '-' && s[1] != '0' && is_canonical_unsigned(s.drop_first()))
}

/// The value of a run of decimal digits.
pub open spec fn digits_value(s: Seq<char>) -> int
    decreases s.len(),
{
    if s.len() == 0 {
        0
    } else {
        digits_value(s.drop_last()) * 10 + (s.last() as int - 48)
    }
}

/// The value a reader of decimal text gives it: an optional leading `-`,
/// then digits.
pub open spec fn decimal_value(s: Seq<char>) -> int {
    if s.len() > 0 && s[0] == '-' {
        -digits_value(s.drop_first())
    } else {
        digits_value(s)
    }
}

/// The text of one decimal digit.
fn digit_str(d: u64) -> (s: &'static str)
    requires
        d < 10,
    ensures
        s@ == seq![digit_char(d as nat)],
{
    let s = if d == 0 {
        "0"
    } else if d == 1 {
        "1"
    } else if d == 2 {
        "2"
    } else if d == 3 {
        "3"
    } else if d == 4 {
        "4"
    } else if d == 5 {
        "5"
    } else if d == 6 {
        "6"
    } else if d == 7 {
        "7"
    } else if d == 8 {
        "8"
    } else {
        "9"
    };
    proof {
        reveal_strlit("0");
        reveal_strlit("1");
        reveal_strlit("2");
        reveal_strlit("3");
        reveal_strlit("4");
        reveal_strlit("5");
        reveal_strlit("6");
        reveal_strlit("7");
        reveal_strlit("8");
        reveal_strlit("9");
        assert(s@ =~= seq![digit_char(d as nat)]);
    }
    s
}

/// Appends the decimal digits of `m` to `text`.
pub fn push_digits(text: &mut String, m: u64)
    ensures
        final(text)@ == old(text)@ + digits(m as nat),
    decreases m,
{
    if m >= 10 {
        push_digits(text, m / 10);
        text.append(digit_str(m % 10));
        proof {
            assert(old(text)@ + digits(m as nat) =~= old(text)@ + digits((m / 10) as nat) + seq![
                digit_char((m % 10) as nat),
            ]);
        }
    } else {
        text.append(digit_str(m));
    }
}

/// Appends the decimal text of `n` to `text`, as `Display` writes it.
pub fn push_decimal(text: &mut String, n: i64)
    ensures
        final(text)@ == old(text)@ + decimal(n as int),
{
    if n < 0 {
        text.append("-");
        proof {
            reveal_strlit("-");
        }
        let magnitude: u64 = (0i128 - (n as i128)) as u64;
        push_digits(text, magnitude);
        proof {
            assert(text@ =~= old(text)@ + decimal(n as int)) by {
                assert("-"@ =~= seq!['-']);
            }
        }
    } else {
        push_digits(text, n as u64);
    }
}

/// The decimal text of `n`, as `n.to_string()` gives it.
pub fn decimal_text(n: i64) -> (text: String)
    ensures
        text@ == decimal(n as int),
        is_canonical_decimal(text@),
        decimal_value(text@) == n,
        (text@[0] == '-') == (n < 0),
{
    let mut text = String::new();
    push_decimal(&mut text, n);
    proof {
        assert(text@ =~= decimal(n as int));
        lemma_decimal_is_display(n as int);
    }
    text
}

/// The value of a digit character is the digit.
proof fn lemma_digit_char_value(d: nat)
    requires
        d < 10,
    ensures
        digit_char(d) as int - 48 == d,
{
}

/// Reading back the digits of `m` gives `m`.
proof fn lemma_digits_value(m: nat)
    ensures
        digits_value(digits(m)) == m,
        digits(m).len() > 0,
        digits(m)[0] != '-',
    decreases m,
{
    if m < 10 {
        lemma_digit_char_value(m);
        assert(digits(m).drop_last() =~= Seq::<char>::empty());
        assert(digits_value(Seq::<char>::empty()) == 0);
        assert(digits(m).last() == digit_char(m));
    } else {
        lemma_digits_value(m / 10);
        lemma_digit_char_value(m % 10);
        assert(digits(m).drop_last() =~= digits(m / 10));
        assert(digits(m).last() == digit_char(m % 10));
        assert(m == (m / 10) * 10 + m % 10) by (nonlinear_arith);
        assert(digits(m)[0] == digits(m / 10)[0]);
    }
}

/// Law: decimal text reads back as the number it was written from, so the
/// process id written into a `cgroup.procs` file names exactly that process.
pub proof fn lemma_decimal_round_trip(n: int)
    ensures
        decimal_value(decimal(n)) == n,
{
    if n < 0 {
        lemma_digits_value((-n) as nat);
        assert((seq!['-'] + digits((-n) as nat)).drop_first() =~= digits((-n) as nat));
    } else {
        lemma_digits_value(n as nat);
    }
}

/// The digits of `m` are ASCII digits without a leading zero, and the first
/// is not `0` unless `m` is zero.
proof fn lemma_digits_canonical(m: nat)
    ensures
        is_canonical_unsigned(digits(m)),
        m > 0 ==> digits(m)[0] != '0',
    decreases m,
{
    if m < 10 {
        lemma_digit_char_value(m);
        assert(digits(m)[0] == digit_char(m));
        assert(is_decimal_digit(digits(m)[0]));
    } else {
        lemma_digits_canonical(m / 10);
        lemma_digit_char_value(m % 10);
        let d = digits(m);
        let p = digits(m / 10);
        assert(d == p.push(digit_char(m % 10)));
        assert forall|i: int| 0 <= i < d.len() implies is_decimal_digit(#[trigger] d[i]) by {
            if i < p.len() {
                assert(d[i] == p[i]);
            } else {
                assert(d[i] == digit_char(m % 10));
            }
        }
        assert(d[0] == p[0]);
        assert(m / 10 > 0);
    }
}

/// Law: the decimal text of `n` is what `Display` writes for an integer:
/// only ASCII digits after an optional `-`, no leading zero, a `-` exactly
/// when `n` is negative, and it reads back as `n`.  Together these fix the
/// text, so no other text can pass for it.
pub proof fn lemma_decimal_is_display(n: int)
    ensures
        is_canonical_decimal(decimal(n)),
        decimal_value(decimal(n)) == n,
        (decimal(n)[0] == '-') == (n < 0),
{
    lemma_decimal_round_trip(n);
    if n < 0 {
        let m = (-n) as nat;
        lemma_digits_canonical(m);
        let t = seq!['-'] + digits(m);
        assert(t.drop_first() =~= digits(m));
        assert(t[1] == digits(m)[0]);
    } else {
        lemma_digits_canonical(n as nat);
        lemma_digits_value(n as nat);
    }
}

/// A run of digits has a nonnegative value, and a positive one when it does
/// not start with `0`.
proof fn lemma_digits_value_sign(s: Seq<char>)
    requires
        forall|i: int| 0 <= i < s.len() ==> is_decimal_digit(#[trigger] s[i]),
    ensures
        digits_value(s) >= 0,
        s.len() > 0 && s[0] != '0' ==> digits_value(s) >= 1,
    decreases s.len(),
{
    if s.len() > 0 {
        let p = s.drop_last();
        assert forall|i: int| 0 <= i < p.len() implies is_decimal_digit(#[trigger] p[i]) by {
            assert(p[i] == s[i]);
        }
        lemma_digits_value_sign(p);
        assert(is_decimal_digit(s[s.len() - 1]));
        if s.len() > 1 && s[0] != '0' {
            assert(p[0] == s[0]);
        }
        if s.len() == 1 && s[0] != '0' {
            assert(s.last() == s[0]);
            assert(s[0] as int != 48);
        }
    }
}

/// Canonical digits are the digits of their value.
proof fn lemma_canonical_unsigned_unique(s: Seq<char>, m: nat)
    requires
        is_canonical_unsigned(s),
        digits_value(s) == m,
    ensures
        s == digits(m),
    decreases s.len(),
{
    let c = s.last();
    assert(is_decimal_digit(s[s.len() - 1]));
    let d = c as int - 48;
    if s.len() == 1 {
        let p = s.drop_last();
        assert(p.len() == 0);
        assert(digits_value(p) == 0);
        assert(m == d);
        lemma_digit_char_value(m);
        assert(digit_char(m) == c);
        assert(s =~= seq![digit_char(m)]);
    } else {
        let p = s.drop_last();
        assert forall|i: int| 0 <= i < p.len() implies is_decimal_digit(#[trigger] p[i]) by {
            assert(p[i] == s[i]);
        }
        assert(p[0] == s[0]);
        assert(s[0] != '0');
        lemma_digits_value_sign(p);
        let v = digits_value(p);
        assert(m == v * 10 + d);
        assert(0 <= d < 10);
        assert(m / 10 == v && m % 10 == d) by (nonlinear_arith)
            requires
                m == v * 10 + d,
                0 <= d < 10,
                v >= 1,
        ;
        lemma_canonical_unsigned_unique(p, v as nat);
        lemma_digit_char_value(d as nat);
        assert(digit_char(d as nat) == c);
        assert(s =~= digits(m / 10).push(digit_char(m % 10)));
    }
}

/// Law: `Display`'s text of an integer is the only canonical decimal text
/// with its value: any text of ASCII digits after an optional `-`, without
/// leading zero, that reads back as `n` is `decimal(n)`.
pub proof fn lemma_canonical_decimal_unique(s: Seq<char>, n: int)
    requires
        is_canonical_decimal(s),
        decimal_value(s) == n,
    ensures
        s == decimal(n),
{
    if is_canonical_unsigned(s) {
        assert(is_decimal_digit(s[0]));
        assert(s[0] != '-');
        lemma_digits_value_sign(s);
        lemma_canonical_unsigned_unique(s, n as nat);
    } else {
        let t = s.drop_first();
        assert(t[0] == s[1]);
        lemma_digits_value_sign(t);
        assert(n < 0);
        lemma_canonical_unsigned_unique(t, (-n) as nat);
        assert(s =~= seq!['-'] + t);
    }
}

/// Law: distinct numbers have distinct decimal texts.
pub proof fn lemma_decimal_injective(a: int, b: int)
    requires
        decimal(a) == decimal(b),
    ensures
        a == b,
{
    lemma_decimal_round_trip(a);
    lemma_decimal_round_trip(b);
}

} // verus!
