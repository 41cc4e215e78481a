use vstd::prelude::*;

verus! {

/// The character of a decimal digit.
pub open spec fn digit_char(d: int) -> char {
    (48 + d) as char
}

/// Whether `c` is an ASCII decimal digit.
pub open spec fn is_digit(c: char) -> bool {
    '0' <= c && c <= '9'
}

/// The value of a digit character.
pub open spec fn digit_value(c: char) -> int {
    c as int - 48
}

/// The usual decimal rendering of a natural number: no sign, no leading zeros.
pub open spec fn decimal(n: nat) -> Seq<char>
    decreases n,
{
    if n < 10 {
        seq![digit_char(n as int)]
    } else {
        decimal(n / 10).push(digit_char((n % 10) as int))
    }
}

/// Appends one character to a string.
#[verifier::external_body]
pub fn push_char(s: &mut String, c: char)
    ensures
        final(s)@ == old(s)@.push(c),
{
    s.push(c);
}

fn digit_to_char(d: u8) -> (c: char)
    requires
        d < 10,
    ensures
        c == digit_char(d as int),
        is_digit(c),
{
    (d + 48) as char
}

/// Appends the decimal rendering of `n` to `out`.
pub fn write_decimal(n: usize, out: &mut String)
    ensures
        final(out)@ == old(out)@ + decimal(n as nat),
    decreases n,
{
    if n >= 10 {
        write_decimal(n / 10, out);
    }
    let c = digit_to_char((n % 10) as u8);
    push_char(out, c);
    assert(old(out)@ + decimal(n as nat) =~= old(out)@ + (if n >= 10 { decimal((n / 10) as nat) } else { Seq::empty() }).push(c));
}

/// The decimal rendering of `n`, as `n.to_string()` gives it.
pub fn usize_to_string(n: usize) -> (s: String)
    ensures
        s@ == decimal(n as nat),
{
    let mut s = String::new();
    write_decimal(n, &mut s);
    assert(s@ =~= decimal(n as nat));
    s
}


/// Whether every character of `s` is a decimal digit.
pub open spec fn all_digits(s: Seq<char>) -> bool {
    forall|i: int| 0 <= i < s.len() ==> is_digit(#[trigger] s[i])
}

/// The value of a run of decimal digits, most significant first.
pub open spec fn digits_value(s: Seq<char>) -> int
    decreases s.len(),
{
    if s.len() == 0 {
        0
    } else {
        digits_value(s.drop_last()) * 10 + digit_value(s.last())
    }
}

/// The sign of a number's text and the digits that follow it.
pub open spec fn signed_parts(s: Seq<char>) -> (bool, Seq<char>) {
    if s.len() > 0 && s[0] == '-' {
        (true, s.drop_first())
    } else if s.len() > 0 && s[0] == '+' {
        (false, s.drop_first())
    } else {
        (false, s)
    }
}

/// What `str::parse::<i32>` accepts: an optional `+` or `-`, then at least one
/// decimal digit and nothing else, of a value in the range of `i32`.
pub open spec fn i32_value(s: Seq<char>) -> Option<i32> {
    let (negative, body) = signed_parts(s);
    let v = if negative { -digits_value(body) } else { digits_value(body) };
    if body.len() > 0 && all_digits(body) && i32::MIN <= v && v <= i32::MAX {
        Some(v as i32)
    } else {
        None
    }
}

/// A bound above every `i32` magnitude; larger values saturate to it.
pub open spec fn saturation() -> int {
    2147483649
}

pub open spec fn saturated(v: int) -> int {
    if v < saturation() { v } else { saturation() }
}

proof fn lemma_digit_char(d: int)
    requires
        0 <= d < 10,
    ensures
        digit_value(digit_char(d)) == d,
        is_digit(digit_char(d)),
{
    assert(((48 + d) as char) as int == 48 + d);
}

/// The decimal rendering is a nonempty run of digits whose value is the number.
pub proof fn lemma_decimal_value(n: nat)
    ensures
        decimal(n).len() > 0,
        all_digits(decimal(n)),
        digits_value(decimal(n)) == n,
    decreases n,
{
    let s = decimal(n);
    lemma_digit_char((n % 10) as int);
    if n < 10 {
        assert(s.drop_last() =~= Seq::<char>::empty());
        assert(digits_value(s.drop_last()) == 0);
        assert(s.last() == digit_char(n as int));
    } else {
        lemma_decimal_value(n / 10);
        assert(s.drop_last() =~= decimal(n / 10));
        assert(s.last() == digit_char((n % 10) as int));
        assert(digits_value(s) == digits_value(decimal(n / 10)) * 10 + (n % 10));
        assert forall|i: int| 0 <= i < s.len() implies is_digit(#[trigger] s[i]) by {
            if i < s.len() - 1 {
                assert(s[i] == decimal(n / 10)[i]);
            }
        }
    }
}

/// Two numbers with the same decimal rendering are equal.
pub proof fn lemma_decimal_injective(a: nat, b: nat)
    requires
        decimal(a) == decimal(b),
    ensures
        a == b,
{
    lemma_decimal_value(a);
    lemma_decimal_value(b);
}

/// Every natural number up to `i32::MAX`, written in decimal, is an `i32`
/// of that value, with or without a leading `+`; up to 2147483648, written in
/// decimal after `-`, it is the negated value.
pub proof fn law_decimal_parses(n: nat)
    ensures
        n <= i32::MAX ==> i32_value(decimal(n)) == Some(n as i32),
        n <= i32::MAX ==> i32_value(seq!['+'] + decimal(n)) == Some(n as i32),
        n <= 2147483648 ==> i32_value(seq!['-'] + decimal(n)) == Some((-n) as i32),
        n > 2147483648 ==> i32_value(seq!['-'] + decimal(n)) is None,
        n > i32::MAX ==> i32_value(decimal(n)) is None,
{
    lemma_decimal_value(n);
    let d = decimal(n);
    assert(is_digit(d[0]));
    assert(signed_parts(d) == (false, d));
    let plus = seq!['+'] + d;
    let minus = seq!['-'] + d;
    assert(plus.drop_first() =~= d);
    assert(minus.drop_first() =~= d);
    assert(signed_parts(plus) == (false, d));
    assert(signed_parts(minus) == (true, d));
}

/// A nonempty run of decimal digits, signed or not, whose value fits in an
/// `i32` is that `i32`; any other text is refused.
pub proof fn law_digits_parse(s: Seq<char>)
    ensures
        s.len() > 0 && all_digits(s) && digits_value(s) <= i32::MAX ==> i32_value(s) == Some(
            digits_value(s) as i32,
        ),
        s.len() > 0 && all_digits(s) && digits_value(s) <= 2147483648 ==> i32_value(
            seq!['-'] + s,
        ) == Some((-digits_value(s)) as i32),
        i32_value(s) matches Some(v) ==> {
            let (negative, body) = signed_parts(s);
            &&& body.len() > 0
            &&& all_digits(body)
            &&& v == (if negative { -digits_value(body) } else { digits_value(body) })
        },
{
    if s.len() > 0 && all_digits(s) {
        assert(is_digit(s[0]));
        assert(signed_parts(s) == (false, s));
        let minus = seq!['-'] + s;
        assert(minus.drop_first() =~= s);
        assert(signed_parts(minus) == (true, s));
        lemma_digits_value_nonnegative(s);
    }
}

proof fn lemma_digits_value_nonnegative(s: Seq<char>)
    requires
        all_digits(s),
    ensures
        digits_value(s) >= 0,
    decreases s.len(),
{
    if s.len() > 0 {
        assert(is_digit(s[s.len() - 1]));
        assert forall|i: int| 0 <= i < s.drop_last().len() implies is_digit(#[trigger] s.drop_last()[i]) by {
            assert(s.drop_last()[i] == s[i]);
        }
        lemma_digits_value_nonnegative(s.drop_last());
    }
}

/// Parses `s` as an `i32`, as `str::parse::<i32>` does.
pub fn parse_i32(s: &str) -> (res: Option<i32>)
    ensures
        res == i32_value(s@),
{
    let len = s.unicode_len();
    if len == 0 {
        return None;
    }
    let first = s.get_char(0);
    let negative = first == '-';
    let start: usize = if first == '-' || first == '+' { 1 } else { 0 };
    assert(signed_parts(s@).1 =~= s@.subrange(start as int, len as int));
    assert(signed_parts(s@).0 == negative);
    if start == len {
        return None;
    }
    let mut acc: i64 = 0;
    let mut i: usize = start;
    while i < len
        invariant
            start <= i <= len,
            len == s@.len(),
            start <= 1,
            signed_parts(s@).1 == s@.subrange(start as int, len as int),
            signed_parts(s@).0 == negative,
            digits_value(s@.subrange(start as int, i as int)) >= 0,
            acc == saturated(digits_value(s@.subrange(start as int, i as int))),
            all_digits(s@.subrange(start as int, i as int)),
        decreases len - i,
    {
        let c = s.get_char(i);
        let code = c as u32;
        if code < 48 || code > 57 {
            assert(s@.subrange(start as int, len as int)[i - start] == c);
            assert(!is_digit(c));
            assert(!all_digits(s@.subrange(start as int, len as int)));
            return None;
        }
        let ghost prev = s@.subrange(start as int, i as int);
        let ghost next = s@.subrange(start as int, i + 1);
        assert(next.drop_last() =~= prev);
        assert(next.last() == c);
        let d = (code - 48) as i64;
        acc = acc * 10 + d;
        if acc > 2147483649 {
            acc = 2147483649;
        }
        i = i + 1;
        assert(all_digits(next)) by {
            assert forall|k: int| 0 <= k < next.len() implies is_digit(#[trigger] next[k]) by {
                if k < prev.len() {
                    assert(next[k] == prev[k]);
                }
            }
        }
    }
    if negative {
        if acc <= 2147483648 {
            Some((-acc) as i32)
        } else {
            None
        }
    } else {
        if acc <= 2147483647 {
            Some(acc as i32)
        } else {
            None
        }
    }
}

} // verus!
