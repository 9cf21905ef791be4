//! Text: joining strings, and writing and reading decimal integers.

use vstd::prelude::*;
use vstd::string::*;

verus! {

/// The strings of `parts`, one after the other, with `sep` between each two.
pub open spec fn joined(parts: Seq<Seq<char>>, sep: Seq<char>) -> Seq<char>
    decreases parts.len(),
{
    if parts.len() == 0 {
        Seq::empty()
    } else if parts.len() == 1 {
        parts[0]
    } else {
        joined(parts.drop_last(), sep) + sep + parts.last()
    }
}

/// `itertools::Itertools::join` on the strings of `parts`: each string as it
/// is, with `sep` between each two, and the empty string for no parts.
#[verifier::external_body]
pub(crate) fn join_display(parts: &Vec<String>, sep: &str) -> (res: String)
    ensures
        res@ == joined(parts.deep_view(), sep@),
{
    itertools::Itertools::join(&mut parts.iter(), sep)
}

/// The slice method `join` of std on the strings of `parts`: the strings
/// flattened into one, with `sep` placed between each two.
#[verifier::external_body]
pub(crate) fn join_slice(parts: &Vec<String>, sep: &str) -> (res: String)
    ensures
        res@ == joined(parts.deep_view(), sep@),
{
    parts.join(sep)
}

/// The character of the decimal digit `d`.
pub open spec fn digit_char(d: int) -> char {
    if d == 0 {
        '0'
    } else if d == 1 {
        '1'
    } else if d == 2 {
        '2'
    } else if d == 3 {
        '3'
    } else if d == 4 {
        '4'
    } else if d == 5 {
        '5'
    } else if d == 6 {
        '6'
    } else if d == 7 {
        '7'
    } else if d == 8 {
        '8'
    } else {
        '9'
    }
}

/// The decimal digits of `n`, the most significant first, without leading
/// zeros: `0` has the one digit `0`.
pub open spec fn digits(n: nat) -> Seq<char>
    decreases n,
{
    if n < 10 {
        seq![digit_char(n as int)]
    } else {
        digits(n / 10).push(digit_char((n % 10) as int))
    }
}

/// Ten to the power `k`.
pub open spec fn pow10(k: nat) -> nat
    decreases k,
{
    if k == 0 {
        1
    } else {
        10 * pow10((k - 1) as nat)
    }
}

/// `v` in decimal, filled with zeros up to `width` characters: the sign of a
/// negative number comes first and counts as one of the characters, the
/// zeros stand between the sign and the digits, and a number that is longer
/// than `width` is written out in full.
pub open spec fn padded(v: int, width: nat) -> Seq<char> {
    let body = digits((if v < 0 { -v } else { v }) as nat);
    let sign = if v < 0 { seq!['-'] } else { Seq::<char>::empty() };
    let fill = if sign.len() + body.len() < width {
        (width - sign.len() - body.len()) as nat
    } else {
        0nat
    };
    sign + Seq::new(fill, |i: int| '0') + body
}

fn digit_text(d: u32) -> (r: &'static str)
    requires
        d < 10,
    ensures
        r@ == seq![digit_char(d as int)],
{
    proof {
        reveal_strlit("0");
        reveal_strlit("1");
        reveal_strlit("2");
        reveal_strlit("3");
        reveal_strlit("4");
        reveal_strlit("5");
        reveal_strlit("6");
        reveal_strlit("7");
        reveal_strlit("8");
        reveal_strlit("9");
    }
    let r = match d {
        0 => "0",
        1 => "1",
        2 => "2",
        3 => "3",
        4 => "4",
        5 => "5",
        6 => "6",
        7 => "7",
        8 => "8",
        _ => "9",
    };
    assert(r@ =~= seq![digit_char(d as int)]);
    r
}

fn push_digits(out: &mut String, n: u32)
    ensures
        final(out)@ == old(out)@ + digits(n as nat),
    decreases n,
{
    if n >= 10 {
        push_digits(out, n / 10);
    }
    out.append(digit_text(n % 10));
    assert(out@ =~= old(out)@ + digits(n as nat));
}

fn digit_count(n: u32) -> (r: usize)
    ensures
        r == digits(n as nat).len(),
        1 <= r <= 10,
    decreases n,
{
    if n < 10 {
        1
    } else {
        let rest = digit_count(n / 10);
        assert(rest <= 9) by {
            reveal_with_fuel(pow10, 10);
            lemma_digits_bound(n as nat / 10, 9);
        }
        rest + 1
    }
}

proof fn lemma_digits_bound(n: nat, k: nat)
    requires
        k >= 1,
        n < pow10(k),
    ensures
        digits(n).len() <= k,
    decreases k,
{
    if n >= 10 {
        assert(k > 1) by {
            reveal_with_fuel(pow10, 2);
        }
        assert(n / 10 < pow10((k - 1) as nat)) by {
            reveal_with_fuel(pow10, 2);
        }
        lemma_digits_bound(n / 10, (k - 1) as nat);
    }
}

/// Appends `v` in decimal to `out`, filled with zeros up to `width`
/// characters.
pub fn push_padded(out: &mut String, v: i32, width: usize)
    ensures
        final(out)@ == old(out)@ + padded(v as int, width as nat),
{
    let magnitude: u32 = if v < 0 {
        (-(v as i64)) as u32
    } else {
        v as u32
    };
    let ghost sign = if v < 0 { seq!['-'] } else { Seq::<char>::empty() };
    if v < 0 {
        proof {
            reveal_strlit("-");
        }
        out.append("-");
    }
    assert(out@ =~= old(out)@ + sign);
    let used: usize = digit_count(magnitude) + if v < 0 { 1usize } else { 0usize };
    let mut k: usize = used;
    while k < width
        invariant
            used <= k || k == used,
            k <= width || k == used,
            out@ == old(out)@ + sign + Seq::new((k - used) as nat, |i: int| '0'),
        decreases width - k,
    {
        proof {
            reveal_strlit("0");
        }
        out.append("0");
        k += 1;
        assert(out@ =~= old(out)@ + sign + Seq::new((k - used) as nat, |i: int| '0'));
    }
    push_digits(out, magnitude);
    assert(out@ =~= old(out)@ + padded(v as int, width as nat));
}

/// Whether `c` is one of the ten decimal digits.
pub open spec fn is_digit(c: char) -> bool {
    '0' <= c <= '9'
}

/// Whether every character of `s` is a decimal digit.
pub open spec fn all_digits(s: Seq<char>) -> bool {
    forall|i: int| 0 <= i < s.len() ==> is_digit(#[trigger] s[i])
}

/// The number that the decimal digits `s` write.
pub open spec fn digits_value(s: Seq<char>) -> nat
    decreases s.len(),
{
    if s.len() == 0 {
        0
    } else {
        (10 * digits_value(s.drop_last()) + (s.last() as int - '0' as int)) as nat
    }
}

/// The integer that `s` writes in decimal: an optional sign, `+` or `-`,
/// and then one digit or more. Any other text writes no integer.
pub open spec fn parse_int(s: Seq<char>) -> Option<int> {
    if s.len() > 0 && s[0] == '-' {
        if s.len() > 1 && all_digits(s.subrange(1, s.len() as int)) {
            Some(-(digits_value(s.subrange(1, s.len() as int)) as int))
        } else {
            None
        }
    } else if s.len() > 0 && s[0] == '+' {
        if s.len() > 1 && all_digits(s.subrange(1, s.len() as int)) {
            Some(digits_value(s.subrange(1, s.len() as int)) as int)
        } else {
            None
        }
    } else if s.len() > 0 && all_digits(s) {
        Some(digits_value(s) as int)
    } else {
        None
    }
}

/// The integer that `s` writes in decimal, where an `i64` can hold it.
pub open spec fn spec_parse_i64(s: Seq<char>) -> Option<i64> {
    match parse_int(s) {
        Some(v) => if i64::MIN <= v <= i64::MAX {
            Some(v as i64)
        } else {
            None
        },
        None => None,
    }
}

proof fn lemma_digits_value_grows(s: Seq<char>, k: int)
    requires
        0 <= k <= s.len(),
        all_digits(s),
    ensures
        digits_value(s.take(k)) <= digits_value(s),
    decreases s.len() - k,
{
    if k < s.len() {
        assert(s.take(k + 1).drop_last() == s.take(k));
        assert(is_digit(s[k]));
        assert(s.take(k + 1).last() == s[k]);
        lemma_digits_value_grows(s, k + 1);
    } else {
        assert(s.take(k) == s);
    }
}

proof fn lemma_not_ascii_is_no_integer(s: Seq<char>)
    requires
        !vstd::utf8::is_ascii_chars(s),
    ensures
        parse_int(s) is None,
{
    let i = choose|i: int| 0 <= i < s.len() && !('\0' <= #[trigger] s[i] <= '\u{7f}');
    assert(!is_digit(s[i]));
    if i > 0 {
        assert(s.subrange(1, s.len() as int)[i - 1] == s[i]);
    }
}

/// Reads a decimal integer: an optional sign and then digits only, with no
/// space before, between or after, and with a value that an `i64` can hold.
pub fn parse_i64(s: &str) -> (r: Option<i64>)
    ensures
        r == spec_parse_i64(s@),
{
    if !s.is_ascii() {
        proof {
            lemma_not_ascii_is_no_integer(s@);
        }
        return None;
    }
    let bytes = s.as_bytes();
    proof {
        is_ascii_spec_bytes(s);
    }
    let n = bytes.len();
    assert(n == s@.len());
    assert(forall|k: int| 0 <= k < n ==> bytes@[k] == #[trigger] s@[k] as u8);
    if n == 0 {
        return None;
    }
    let negative = bytes[0] == 45u8;
    let start: usize = if bytes[0] == 45u8 || bytes[0] == 43u8 {
        1
    } else {
        0
    };
    assert(negative == (s@[0] == '-'));
    assert(start == 1 <==> (s@[0] == '-' || s@[0] == '+'));
    if start == n {
        return None;
    }
    let ghost body = s@.subrange(start as int, n as int);
    let limit: u128 = 9223372036854775808;
    let mut acc: u128 = 0;
    let mut i: usize = start;
    while i < n
        invariant
            start <= i <= n,
            start < n,
            n == s@.len(),
            n == bytes@.len(),
            vstd::utf8::is_ascii_chars(s@),
            forall|k: int| 0 <= k < n ==> bytes@[k] == #[trigger] s@[k] as u8,
            negative == (s@[0] == '-'),
            start == 1 <==> (s@[0] == '-' || s@[0] == '+'),
            start == 0 || start == 1,
            body == s@.subrange(start as int, n as int),
            all_digits(body.take(i - start)),
            acc == digits_value(body.take(i - start)),
            acc <= limit,
            limit == 9223372036854775808,
        decreases n - i,
    {
        let b = bytes[i];
        assert(b == s@[i as int] as u8);
        assert(body.take(i - start + 1).drop_last() == body.take(i - start));
        assert(body.take(i - start + 1).last() == s@[i as int]);
        if !(48u8 <= b && b <= 57u8) {
            assert(!is_digit(body[i - start]));
            if start == 0 {
                assert(body == s@);
            }
            return None;
        }
        assert(is_digit(s@[i as int]));
        let d: u128 = (b - 48u8) as u128;
        acc = acc * 10 + d;
        i += 1;
        if acc > limit {
            proof {
                if start == 0 {
                    assert(body == s@);
                }
                if all_digits(body) {
                    lemma_digits_value_grows(body, i - start);
                }
            }
            return None;
        }
    }
    assert(body.take(n - start) == body);
    if start == 0 {
        assert(body == s@);
    }
    assert(parse_int(s@) == Some(if negative { -(acc as int) } else { acc as int }));
    if negative {
        if acc == limit {
            Some(i64::MIN)
        } else {
            Some(-(acc as i64))
        }
    } else if acc == limit {
        None
    } else {
        Some(acc as i64)
    }
}

} // verus!
