use vstd::prelude::*;

verus! {

/// The character of the decimal digit `d` (`d < 10`).
pub open spec fn digit_char(d: nat) -> char {
    (d + 48) as char
}

/// Canonical base-10 text of `n`: no sign, no leading zeros.
pub open spec fn decimal(n: nat) -> Seq<char>
    decreases n,
{
    if n < 10 {
        seq![digit_char(n)]
    } else {
        decimal(n / 10).push(digit_char(n % 10))
    }
}

/// Appends one character to a string (std's `String::push`).
#[verifier::external_body]
pub(crate) fn push_char(s: &mut String, c: char)
    ensures
        final(s)@ == old(s)@.push(c),
{
    s.push(c)
}

fn digit_of(d: u128) -> (c: char)
    requires
        d < 10,
    ensures
        c == digit_char(d as nat),
{
    let b: u8 = d as u8 + 48;
    b as char
}

/// Formats `n` in base 10, as `n.to_string()` does.
pub fn decimal_string(n: u128) -> (s: String)
    ensures
        s@ == decimal(n as nat),
    decreases n,
{
    if n < 10 {
        let mut s = String::new();
        push_char(&mut s, digit_of(n));
        s
    } else {
        let mut s = decimal_string(n / 10);
        push_char(&mut s, digit_of(n % 10));
        s
    }
}

/// Whether `c` is an ASCII decimal digit.
pub open spec fn is_digit(c: char) -> bool {
    '0' <= c && c <= '9'
}

/// Whether every character of `t` is a decimal digit.
pub open spec fn all_digits(t: Seq<char>) -> bool {
    forall|i: int| 0 <= i < t.len() ==> is_digit(#[trigger] t[i])
}

/// The number that the decimal digits `t` denote (most significant first).
pub open spec fn digits_value(t: Seq<char>) -> nat
    decreases t.len(),
{
    if t.len() == 0 {
        0
    } else {
        digits_value(t.drop_last()) * 10 + ((t.last() as int) - 48) as nat
    }
}

/// A digit character is a digit and denotes its value.
pub proof fn lemma_digit_char(d: nat)
    requires
        d < 10,
    ensures
        is_digit(digit_char(d)),
        digit_char(d) as int == d + 48,
        (digit_char(d) == '0') <==> d == 0,
        digit_char(d) != '.',
{
}

/// The decimal text of `n` is a non-empty run of digits that denotes `n`,
/// with no leading zero, and is as long as `n` needs.
pub proof fn lemma_decimal(n: nat)
    ensures
        decimal(n).len() >= 1,
        all_digits(decimal(n)),
        digits_value(decimal(n)) == n,
        decimal(n).len() > 1 ==> decimal(n)[0] != '0',
        n < 10 <==> decimal(n).len() == 1,
        n < 100 ==> decimal(n).len() <= 2,
        n < 1000 ==> decimal(n).len() <= 3,
    decreases n,
{
    let d = decimal(n);
    if n < 10 {
        lemma_digit_char(n);
        assert(d.drop_last() =~= Seq::<char>::empty());
        assert(d.last() == digit_char(n));
        assert(digits_value(d.drop_last()) == 0);
    } else {
        lemma_decimal(n / 10);
        lemma_digit_char(n % 10);
        let prev = decimal(n / 10);
        assert(d.drop_last() =~= prev);
        assert(d.last() == digit_char(n % 10));
        assert(digits_value(d) == digits_value(prev) * 10 + n % 10);
        assert(n == (n / 10) * 10 + n % 10);
        assert(d[0] == prev[0]);
        if prev.len() == 1 {
            lemma_digit_char(n / 10);
            assert(prev[0] == digit_char(n / 10));
        }
        assert forall|i: int| 0 <= i < d.len() implies is_digit(#[trigger] d[i]) by {
            if i < prev.len() {
                assert(d[i] == prev[i]);
            }
        }
    }
}

/// Digits without a leading zero denote a positive number when the first
/// digit is not zero.
pub proof fn lemma_digits_value_positive(t: Seq<char>)
    requires
        t.len() >= 1,
        all_digits(t),
        t[0] != '0',
    ensures
        digits_value(t) >= 1,
    decreases t.len(),
{
    if t.len() > 1 {
        let p = t.drop_last();
        assert(p[0] == t[0]);
        assert(all_digits(p)) by {
            assert forall|j: int| 0 <= j < p.len() implies is_digit(#[trigger] p[j]) by {
                assert(p[j] == t[j]);
            }
        }
        lemma_digits_value_positive(p);
    } else {
        assert(is_digit(t[0]));
        assert(t.last() == t[0]);
    }
}

/// A non-empty run of digits with no leading zero is the decimal text of
/// the number it denotes.
pub proof fn lemma_decimal_of_digits(t: Seq<char>)
    requires
        t.len() >= 1,
        all_digits(t),
        t.len() > 1 ==> t[0] != '0',
    ensures
        decimal(digits_value(t)) == t,
    decreases t.len(),
{
    let c = t.last();
    assert(is_digit(t[t.len() - 1]));
    let d = (c as int - 48) as nat;
    assert(d < 10);
    assert(digit_char(d) == c);
    if t.len() == 1 {
        assert(t.drop_last() =~= Seq::<char>::empty());
        assert(digits_value(Seq::<char>::empty()) == 0);
        assert(digits_value(t) == d);
        assert(decimal(d) =~= t);
    } else {
        let p = t.drop_last();
        assert(p[0] == t[0]);
        assert(all_digits(p)) by {
            assert forall|j: int| 0 <= j < p.len() implies is_digit(#[trigger] p[j]) by {
                assert(p[j] == t[j]);
            }
        }
        lemma_decimal_of_digits(p);
        lemma_digits_value_positive(p);
        let v = digits_value(t);
        assert(v == digits_value(p) * 10 + d);
        assert(v >= 10);
        assert(v / 10 == digits_value(p));
        assert(v % 10 == d);
        assert(decimal(v) == decimal(v / 10).push(digit_char(v % 10)));
        assert(decimal(v) =~= t);
    }
}

} // verus!
