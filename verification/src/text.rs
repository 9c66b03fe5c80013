//! Small text routines: writing and reading a charge as a decimal numeral,
//! comparing texts, and substituting a token inside a template.

use vstd::prelude::*;
use vstd::string::*;

verus! {

/// The character of a single decimal digit.
pub open spec fn digit_char(d: nat) -> char
    recommends
        d < 10,
{
    if d == 0 {
        '0'
    } else if d == 1 {
        '1'
    } else if d == 2 {
        '2'
    } else if d == 3 {
        '3'
    } else if d == 4 {
        '4'
    } else if d == 5 {
        '5'
    } else if d == 6 {
        '6'
    } else if d == 7 {
        '7'
    } else if d == 8 {
        '8'
    } else {
        '9'
    }
}

/// The decimal numeral of `n`, without leading zeros.
pub open spec fn decimal_text(n: nat) -> Seq<char>
    decreases n,
{
    if n < 10 {
        seq![digit_char(n)]
    } else {
        decimal_text(n / 10).push(digit_char(n % 10))
    }
}

/// `template` with every occurrence of `token` replaced by `value`,
/// occurrences being found from the left and never overlapping. An
/// empty token occurs nowhere.
pub open spec fn replace_all(template: Seq<char>, token: Seq<char>, value: Seq<char>) -> Seq<char>
    decreases template.len(),
{
    if token.len() == 0 || template.len() < token.len() {
        template
    } else if template.subrange(0, token.len() as int) == token {
        value + replace_all(template.subrange(token.len() as int, template.len() as int), token, value)
    } else {
        seq![template[0]] + replace_all(template.subrange(1, template.len() as int), token, value)
    }
}

fn digit_str(d: u8) -> (s: &'static str)
    requires
        d < 10,
    ensures
        s@ == seq![digit_char(d as nat)],
{
    proof {
        reveal_strlit("0");
        reveal_strlit("1");
        reveal_strlit("2");
        reveal_strlit("3");
        reveal_strlit("4");
        reveal_strlit("5");
        reveal_strlit("6");
        reveal_strlit("7");
        reveal_strlit("8");
        reveal_strlit("9");
    }
    let s = if d == 0 {
        "0"
    } else if d == 1 {
        "1"
    } else if d == 2 {
        "2"
    } else if d == 3 {
        "3"
    } else if d == 4 {
        "4"
    } else if d == 5 {
        "5"
    } else if d == 6 {
        "6"
    } else if d == 7 {
        "7"
    } else if d == 8 {
        "8"
    } else {
        "9"
    };
    assert(s@ =~= seq![digit_char(d as nat)]);
    s
}

/// Writes a charge as a decimal numeral.
pub fn decimal_string(n: u8) -> (text: String)
    ensures
        text@ == decimal_text(n as nat),
{
    let mut out = String::new();
    if n >= 100 {
        out.append(digit_str(n / 100));
    }
    if n >= 10 {
        out.append(digit_str((n / 10) % 10));
    }
    out.append(digit_str(n % 10));
    proof {
        reveal_with_fuel(decimal_text, 3);
        assert(out@ =~= decimal_text(n as nat));
    }
    out
}

/// Whether `token` stands in `text` at position `at`.
pub open spec fn occurs_at(text: Seq<char>, at: int, token: Seq<char>) -> bool {
    0 <= at && at + token.len() <= text.len() && text.subrange(at, at + token.len()) == token
}

fn token_at(text: &str, text_len: usize, at: usize, token: &str, token_len: usize) -> (found: bool)
    requires
        text_len == text@.len(),
        token_len == token@.len(),
        at <= text_len,
    ensures
        found == occurs_at(text@, at as int, token@),
{
    if token_len > text_len - at {
        return false;
    }
    let mut j: usize = 0;
    while j < token_len
        invariant
            text_len == text@.len(),
            token_len == token@.len(),
            at + token_len <= text_len,
            j <= token_len,
            forall|k: int| 0 <= k < j ==> text@[at + k] == token@[k],
        decreases token_len - j,
    {
        if text.get_char(at + j) != token.get_char(j) {
            proof {
                let window = text@.subrange(at as int, at + token_len);
                assert(window[j as int] == text@[at + j]);
            }
            return false;
        }
        j += 1;
    }
    assert(text@.subrange(at as int, at + token_len) =~= token@);
    true
}

/// Whether two texts are the same.
pub fn same_text(a: &str, b: &str) -> (same: bool)
    ensures
        same == (a@ == b@),
{
    let n = a.unicode_len();
    let m = b.unicode_len();
    if n != m {
        return false;
    }
    assert(a@.subrange(0, n as int) =~= a@);
    token_at(a, n, 0, b, m)
}

/// Substitutes `value` for every occurrence of `token`. An empty token
/// occurs nowhere.
pub fn replace(template: &str, token: &str, value: &str) -> (text: String)
    ensures
        text@ == replace_all(template@, token@, value@),
{
    let n = template.unicode_len();
    let m = token.unicode_len();
    if m == 0 {
        return String::from_str(template);
    }
    let mut out = String::new();
    let mut i: usize = 0;
    proof {
        assert(template@.subrange(0, n as int) =~= template@);
        assert(out@ + replace_all(template@, token@, value@) =~= replace_all(
            template@,
            token@,
            value@,
        ));
    }
    while i < n
        invariant
            n == template@.len(),
            m == token@.len(),
            m > 0,
            i <= n,
            out@ + replace_all(template@.subrange(i as int, n as int), token@, value@)
                == replace_all(template@, token@, value@),
        decreases n - i,
    {
        let ghost rest = template@.subrange(i as int, n as int);
        if token_at(template, n, i, token, m) {
            proof {
                assert(rest.subrange(0, m as int) =~= template@.subrange(i as int, i + m));
                assert(rest.subrange(m as int, rest.len() as int) =~= template@.subrange(
                    i + m,
                    n as int,
                ));
                assert(out@ + value@ + replace_all(template@.subrange(i + m, n as int), token@, value@)
                    =~= out@ + replace_all(rest, token@, value@));
            }
            out.append(value);
            i += m;
        } else {
            proof {
                if rest.len() >= m {
                    assert(rest.subrange(0, m as int) =~= template@.subrange(i as int, i + m));
                }
                assert(rest.subrange(1, rest.len() as int) =~= template@.subrange(i + 1, n as int));
                if rest.len() >= m {
                    assert(out@ + seq![template@[i as int]] + replace_all(
                        template@.subrange(i + 1, n as int),
                        token@,
                        value@,
                    ) =~= out@ + replace_all(rest, token@, value@));
                }
                assert(template@.subrange(i as int, i + 1) =~= seq![template@[i as int]]);
            }
            if n - i < m {
                // No further occurrence fits: the rest is copied as it stands.
                proof {
                    assert(replace_all(rest, token@, value@) == rest);
                    assert(replace_all(template@.subrange(n as int, n as int), token@, value@)
                        =~= Seq::<char>::empty());
                    assert(out@ + rest + Seq::<char>::empty() =~= out@ + rest);
                }
                out.append(template.substring_char(i, n));
                i = n;
            } else {
                out.append(template.substring_char(i, i + 1));
                i += 1;
            }
        }
    }
    proof {
        assert(template@.subrange(n as int, n as int) =~= Seq::<char>::empty());
        assert(replace_all(Seq::<char>::empty(), token@, value@) =~= Seq::<char>::empty());
        assert(out@ + Seq::<char>::empty() =~= out@);
    }
    out
}

/// Whether `c` is one of the ten decimal digits.
pub open spec fn is_digit(c: char) -> bool {
    '0' <= c && c <= '9'
}

/// The number that a digit stands for.
pub open spec fn digit_value(c: char) -> nat
    recommends
        is_digit(c),
{
    (c as u32 - '0' as u32) as nat
}

/// Whether every character is a decimal digit.
pub open spec fn all_digits(digits: Seq<char>) -> bool {
    forall|i: int| 0 <= i < digits.len() ==> is_digit(#[trigger] digits[i])
}

/// The number written by a run of digits, most significant first.
pub open spec fn digits_value(digits: Seq<char>) -> nat
    decreases digits.len(),
{
    if digits.len() == 0 {
        0
    } else {
        digits_value(digits.drop_last()) * 10 + digit_value(digits.last())
    }
}

/// The digits of a numeral: the text without one leading plus sign.
pub open spec fn numeral_digits(text: Seq<char>) -> Seq<char> {
    if text.len() > 0 && text[0] == '+' {
        text.drop_first()
    } else {
        text
    }
}

/// The number that `text` writes: an optional plus sign and then one
/// digit or more, nothing else.
pub open spec fn numeral_value(text: Seq<char>) -> Option<nat> {
    let digits = numeral_digits(text);
    if digits.len() > 0 && all_digits(digits) {
        Some(digits_value(digits))
    } else {
        None
    }
}

/// Why a text is no number of at most `limit`.
#[derive(Clone, Copy, Debug, PartialEq, Eq, Structural)]
pub enum NumeralError {
    /// The text is not an optional plus sign followed by digits.
    NotANumber,
    /// The text writes a number above the limit.
    TooLarge,
}

/// Reads a decimal numeral of at most `limit`.
pub fn parse_numeral(text: &str, limit: u8) -> (parsed: Result<u8, NumeralError>)
    ensures
        match numeral_value(text@) {
            Some(value) => if value <= limit {
                parsed == Ok::<u8, NumeralError>(value as u8)
            } else {
                parsed == Err::<u8, NumeralError>(NumeralError::TooLarge)
            },
            None => parsed == Err::<u8, NumeralError>(NumeralError::NotANumber),
        },
{
    let n = text.unicode_len();
    let start: usize = if n > 0 && text.get_char(0) == '+' {
        1
    } else {
        0
    };
    let ghost digits = numeral_digits(text@);
    assert(digits =~= text@.subrange(start as int, n as int));
    if start == n {
        return Err(NumeralError::NotANumber);
    }
    let mut value: u32 = 0;
    let mut too_large = false;
    let mut i: usize = start;
    assert(digits.subrange(0, 0) =~= Seq::<char>::empty());
    while i < n
        invariant
            n == text@.len(),
            start <= i <= n,
            digits == numeral_digits(text@),
            digits == text@.subrange(start as int, n as int),
            all_digits(digits.subrange(0, i - start)),
            value <= limit,
            !too_large ==> value == digits_value(digits.subrange(0, i - start)),
            too_large ==> digits_value(digits.subrange(0, i - start)) > limit,
        decreases n - i,
    {
        let c = text.get_char(i);
        let ghost before = digits.subrange(0, i - start);
        let ghost after = digits.subrange(0, i - start + 1);
        proof {
            assert(digits[i - start] == c);
            assert(after.drop_last() =~= before);
            assert(after.last() == c);
        }
        if c < '0' || c > '9' {
            assert(!is_digit(digits[i - start]));
            return Err(NumeralError::NotANumber);
        }
        assert(all_digits(after)) by {
            assert forall|j: int| 0 <= j < after.len() implies is_digit(#[trigger] after[j]) by {
                if j < before.len() {
                    assert(after[j] == before[j]);
                }
            }
        }
        if !too_large {
            let grown: u32 = value * 10 + (c as u32 - '0' as u32);
            if grown > limit as u32 {
                too_large = true;
            } else {
                value = grown;
            }
        }
        i += 1;
    }
    proof {
        assert(digits.subrange(0, n - start) =~= digits);
    }
    if too_large {
        Err(NumeralError::TooLarge)
    } else {
        Ok(value as u8)
    }
}

} // verus!
