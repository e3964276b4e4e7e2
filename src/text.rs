//! Small text building blocks shared by the puzzle and notice builders.
use vstd::prelude::*;

use crate::symbols::{digit_char, digit_char_exec};

verus! {

/// Relies on `char::to_string` (std): the string holding exactly that one character.
#[verifier::external_body]
pub(crate) fn char_text(c: char) -> (r: String)
    ensures
        r@ == seq![c],
{
    c.to_string()
}

/// The decimal digits of `n`, most significant first, without leading zeros.
pub open spec fn decimal_digits(n: nat) -> Seq<char>
    decreases n,
{
    if n < 10 {
        seq![digit_char(n as int)]
    } else {
        decimal_digits(n / 10) + seq![digit_char((n % 10) as int)]
    }
}

/// `n` in decimal, with a leading `-` when negative.
pub open spec fn decimal(n: int) -> Seq<char> {
    if n < 0 {
        seq!['-'] + decimal_digits((-n) as nat)
    } else {
        decimal_digits(n as nat)
    }
}

/// The decimal digits of `n`.
pub fn natural_text(n: u64) -> (r: String)
    ensures
        r@ == decimal_digits(n as nat),
    decreases n,
{
    if n < 10 {
        char_text(digit_char_exec(n as u8))
    } else {
        let mut text = natural_text(n / 10);
        let last = char_text(digit_char_exec((n % 10) as u8));
        text.append(last.as_str());
        text
    }
}

/// `n` in decimal.
pub fn decimal_text(n: i64) -> (r: String)
    ensures
        r@ == decimal(n as int),
{
    if n < 0 {
        let magnitude = (0 - (n as i128)) as u64;
        let mut text = char_text('-');
        let digits = natural_text(magnitude);
        text.append(digits.as_str());
        text
    } else {
        natural_text(n as u64)
    }
}

/// Whether `c` is an ASCII decimal digit.
pub open spec fn is_ascii_digit(c: char) -> bool {
    '0' <= c && c <= '9'
}

/// The value of the decimal digits `s`, most significant first.
pub open spec fn digits_value(s: Seq<char>) -> int
    decreases s.len(),
{
    if s.len() == 0 {
        0
    } else {
        digits_value(s.drop_last()) * 10 + (s.last() as int - '0' as int)
    }
}

/// The value of the digits `body`, where they are one or more ASCII digits
/// whose value fits in `u64`; `None` for anything else.
pub open spec fn digits_reading(body: Seq<char>) -> Option<u64> {
    if body.len() > 0 && (forall|i: int| 0 <= i < body.len() ==> is_ascii_digit(#[trigger] body[i]))
        && digits_value(body) <= u64::MAX {
        Some(digits_value(body) as u64)
    } else {
        None
    }
}

/// `s` without a leading `+` or `-`.
pub open spec fn signed_body(s: Seq<char>) -> Seq<char> {
    if s.len() > 0 && (s[0] == '-' || s[0] == '+') {
        s.drop_first()
    } else {
        s
    }
}

/// `s` without a leading `+`.
pub open spec fn unsigned_body(s: Seq<char>) -> Seq<char> {
    if s.len() > 0 && s[0] == '+' {
        s.drop_first()
    } else {
        s
    }
}

/// The `i64` that `s` spells: an optional `+` or `-`, then one or more ASCII
/// digits, of a value in range; `None` for anything else.
pub open spec fn parsed_i64(s: Seq<char>) -> Option<i64> {
    match digits_reading(signed_body(s)) {
        Some(v) => {
            let value = if s.len() > 0 && s[0] == '-' {
                -(v as int)
            } else {
                v as int
            };
            if i64::MIN <= value <= i64::MAX {
                Some(value as i64)
            } else {
                None
            }
        },
        None => None,
    }
}

/// The `u64` that `s` spells: an optional `+`, then one or more ASCII digits,
/// of a value in range; `None` for anything else.
pub open spec fn parsed_u64(s: Seq<char>) -> Option<u64> {
    digits_reading(unsigned_body(s))
}

/// The value of the ASCII digits `s[start..]`, where they are one or more
/// digits whose value fits in `u64`; `None` for anything else.
fn digits_from(s: &str, start: usize) -> (r: Option<u64>)
    requires
        start <= s@.len(),
    ensures
        r == digits_reading(s@.subrange(start as int, s@.len() as int)),
{
    let n = s.unicode_len();
    let ghost body = s@.subrange(start as int, s@.len() as int);
    if start == n {
        return None;
    }
    let mut acc: u64 = 0;
    let mut overflow = false;
    let mut i: usize = start;
    while i < n
        invariant
            n == s@.len(),
            start < n,
            start <= i <= n,
            body == s@.subrange(start as int, n as int),
            forall|k: int| 0 <= k < i - start ==> is_ascii_digit(#[trigger] body[k]),
            !overflow ==> acc == digits_value(body.subrange(0, i - start)),
            overflow ==> digits_value(body.subrange(0, i - start)) > u64::MAX,
        decreases n - i,
    {
        let c = s.get_char(i);
        if c < '0' || c > '9' {
            assert(body[i - start] == c);
            return None;
        }
        let d = (c as u32 - '0' as u32) as u64;
        let ghost prefix = body.subrange(0, i - start);
        let ghost next = body.subrange(0, i - start + 1);
        assert(next.drop_last() =~= prefix);
        assert(next.last() == c);
        assert(digits_value(next) == digits_value(prefix) * 10 + (c as int - '0' as int));
        if !overflow {
            let wide = acc as u128 * 10 + d as u128;
            if wide > u64::MAX as u128 {
                overflow = true;
            } else {
                acc = wide as u64;
            }
        }
        i = i + 1;
    }
    assert(body.subrange(0, n - start) =~= body);
    if overflow {
        None
    } else {
        Some(acc)
    }
}

/// Reads `s` as a `u64`: an optional `+`, then one or more ASCII digits.
pub fn parse_u64(s: &str) -> (r: Option<u64>)
    ensures
        r == parsed_u64(s@),
{
    let start: usize = if s.unicode_len() > 0 && s.get_char(0) == '+' {
        1
    } else {
        0
    };
    proof {
        if start == 1 {
            assert(s@.drop_first() =~= s@.subrange(1, s@.len() as int));
        } else {
            assert(s@ =~= s@.subrange(0, s@.len() as int));
        }
    }
    let ghost body = s@.subrange(start as int, s@.len() as int);
    assert(body == unsigned_body(s@));
    digits_from(s, start)
}

/// Reads `s` as an `i64`: an optional `+` or `-`, then one or more ASCII
/// digits, of a value in range.
pub fn parse_i64(s: &str) -> (r: Option<i64>)
    ensures
        r == parsed_i64(s@),
{
    let signed = s.unicode_len() > 0 && (s.get_char(0) == '-' || s.get_char(0) == '+');
    let negative = s.unicode_len() > 0 && s.get_char(0) == '-';
    let start: usize = if signed {
        1
    } else {
        0
    };
    proof {
        if signed {
            assert(s@.drop_first() =~= s@.subrange(1, s@.len() as int));
        } else {
            assert(s@ =~= s@.subrange(0, s@.len() as int));
        }
    }
    let ghost body = s@.subrange(start as int, s@.len() as int);
    assert(body == signed_body(s@));
    assert(negative == (s@.len() > 0 && s@[0] == '-'));
    match digits_from(s, start) {
        None => None,
        Some(v) => if negative {
            if v <= 0x8000_0000_0000_0000 {
                Some((0 - v as i128) as i64)
            } else {
                None
            }
        } else if v <= 0x7fff_ffff_ffff_ffff {
            Some(v as i64)
        } else {
            None
        },
    }
}

/// The whitespace-separated words of `s`, in order, as `str::split_whitespace`
/// gives them.
pub uninterp spec fn words_of(s: Seq<char>) -> Seq<Seq<char>>;

/// The texts of `v`.
pub open spec fn texts_of(v: Seq<String>) -> Seq<Seq<char>> {
    v.map_values(|w: String| w@)
}

/// Relies on `str::split_whitespace` (std): the words of `s`, split at runs
/// of Unicode white space.
#[verifier::external_body]
pub(crate) fn split_words(s: &str) -> (r: Vec<String>)
    ensures
        texts_of(r@) == words_of(s@),
{
    s.split_whitespace().map(|w| w.to_string()).collect()
}

/// The digit character of `d` reads back as `d`.
proof fn lemma_digit_char_value(d: int)
    requires
        0 <= d <= 9,
    ensures
        digit_char(d) as int - '0' as int == d,
{
    assert('0' as int == 48);
    assert('9' as int == 57);
    assert('1' as int == 49 && '2' as int == 50 && '3' as int == 51 && '4' as int == 52);
    assert('5' as int == 53 && '6' as int == 54 && '7' as int == 55 && '8' as int == 56);
}

/// Reading back the decimal digits of `n` gives `n`.
pub proof fn lemma_decimal_digits_value(n: nat)
    ensures
        digits_value(decimal_digits(n)) == n,
    decreases n,
{
    let d = decimal_digits(n);
    if n < 10 {
        assert(d.drop_last() =~= Seq::<char>::empty());
        assert(digits_value(d.drop_last()) == 0);
        lemma_digit_char_value(n as int);
        assert(digits_value(d) == digits_value(d.drop_last()) * 10 + (d.last() as int - '0' as int));
    } else {
        lemma_digit_char_value((n % 10) as int);
        lemma_decimal_digits_value(n / 10);
        assert(d.drop_last() =~= decimal_digits(n / 10));
        assert(d.last() == digit_char((n % 10) as int));
        assert(n == (n / 10) * 10 + n % 10) by (nonlinear_arith);
        assert(digits_value(d) == digits_value(d.drop_last()) * 10 + (d.last() as int - '0' as int));
    }
}

/// Distinct numbers have distinct decimal digits.
pub proof fn lemma_decimal_digits_injective(m: nat, n: nat)
    requires
        m != n,
    ensures
        decimal_digits(m) != decimal_digits(n),
{
    lemma_decimal_digits_value(m);
    lemma_decimal_digits_value(n);
}

}
