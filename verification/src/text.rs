//! Text utilities: character-exact string comparison, prefix tests, and
//! decimal formatting of the integers that event payloads and route
//! responses carry.

use vstd::prelude::*;
use vstd::string::is_ascii;
use vstd::utf8::is_ascii_chars;

verus! {

/// Relies on `String::push` from std: it appends exactly the given character
/// to the end of the string.
#[verifier::external_body]
pub(crate) fn push_char(s: &mut String, c: char)
    ensures
        final(s)@ == old(s)@ + seq![c],
{
    s.push(c);
}

/// The character for one decimal digit.
pub open spec fn digit_char(d: nat) -> char {
    if d == 0 {
        '0'
    } else if d == 1 {
        '1'
    } else if d == 2 {
        '2'
    } else if d == 3 {
        '3'
    } else if d == 4 {
        '4'
    } else if d == 5 {
        '5'
    } else if d == 6 {
        '6'
    } else if d == 7 {
        '7'
    } else if d == 8 {
        '8'
    } else {
        '9'
    }
}

fn digit_char_exec(d: u64) -> (c: char)
    requires
        d < 10,
    ensures
        c == digit_char(d as nat),
{
    if d == 0 {
        '0'
    } else if d == 1 {
        '1'
    } else if d == 2 {
        '2'
    } else if d == 3 {
        '3'
    } else if d == 4 {
        '4'
    } else if d == 5 {
        '5'
    } else if d == 6 {
        '6'
    } else if d == 7 {
        '7'
    } else if d == 8 {
        '8'
    } else {
        '9'
    }
}

/// The decimal representation of a natural number, most significant digit
/// first, with no leading zeros (`0` is written as one digit).
pub open spec fn dec_of(n: nat) -> Seq<char>
    decreases n,
{
    if n < 10 {
        seq![digit_char(n)]
    } else {
        dec_of(n / 10) + seq![digit_char(n % 10)]
    }
}

/// The decimal representation of an integer: a `-` sign for negative values,
/// then the digits of the magnitude.
pub open spec fn dec_int(i: int) -> Seq<char> {
    if i >= 0 {
        dec_of(i as nat)
    } else {
        seq!['-'] + dec_of((-i) as nat)
    }
}

fn format_u64_into(n: u64, out: &mut String)
    ensures
        final(out)@ == old(out)@ + dec_of(n as nat),
    decreases n,
{
    if n >= 10 {
        format_u64_into(n / 10, out);
    }
    let d = digit_char_exec(n % 10);
    push_char(out, d);
    proof {
        assert(out@ =~= old(out)@ + dec_of(n as nat));
    }
}

/// Decimal rendering of an unsigned 64-bit value.
pub fn format_u64(n: u64) -> (s: String)
    ensures
        s@ == dec_of(n as nat),
{
    let mut s = String::new();
    format_u64_into(n, &mut s);
    proof {
        assert(s@ =~= dec_of(n as nat));
    }
    s
}

/// Decimal rendering of an unsigned 32-bit value.
pub fn format_u32(n: u32) -> (s: String)
    ensures
        s@ == dec_of(n as nat),
{
    format_u64(n as u64)
}

/// Decimal rendering of a signed 64-bit value, as the `position` payloads
/// and route responses carry it.
pub fn format_i64(n: i64) -> (s: String)
    ensures
        s@ == dec_int(n as int),
{
    let mut s = String::new();
    if n >= 0 {
        format_u64_into(n as u64, &mut s);
        proof {
            assert(s@ =~= dec_int(n as int));
        }
    } else {
        push_char(&mut s, '-');
        let mag: u64 = if n == i64::MIN {
            9223372036854775808
        } else {
            (-n) as u64
        };
        assert(mag as nat == (-(n as int)) as nat);
        format_u64_into(mag, &mut s);
        proof {
            assert(s@ =~= dec_int(n as int));
        }
    }
    s
}

/// Character-exact equality of two string slices.
pub fn str_eq(a: &str, b: &str) -> (r: bool)
    ensures
        r == (a@ == b@),
{
    let na = a.unicode_len();
    let nb = b.unicode_len();
    if na != nb {
        return false;
    }
    let mut i: usize = 0;
    while i < na
        invariant
            na == a@.len(),
            nb == b@.len(),
            na == nb,
            i <= na,
            forall|j: int| 0 <= j < i ==> a@[j] == b@[j],
        decreases na - i,
    {
        let ca = a.get_char(i);
        let cb = b.get_char(i);
        if ca != cb {
            return false;
        }
        i += 1;
    }
    proof {
        assert(a@ =~= b@);
    }
    true
}

/// A decimal digit character.
pub open spec fn is_dec_digit(c: char) -> bool {
    '0' <= c <= '9'
}

/// The numeric value of one digit character.
pub open spec fn digit_val(c: char) -> nat {
    (c as u32 - 48) as nat
}

/// The numeric value of a digit run, most significant digit first.
pub open spec fn dec_val(s: Seq<char>) -> nat
    decreases s.len(),
{
    if s.len() == 0 {
        0
    } else {
        dec_val(s.drop_last()) * 10 + digit_val(s.last())
    }
}

/// A nonempty run of decimal digits.
pub open spec fn all_dec_digits(s: Seq<char>) -> bool {
    s.len() >= 1 && forall|i: int| 0 <= i < s.len() ==> is_dec_digit(s[i])
}

/// What `str::parse::<i64>` accepts and returns: an optional sign, then one
/// or more digits, with the value in the type's range.
pub open spec fn parsed_i64(s: Seq<char>) -> Option<i64> {
    if s.len() > 0 && s[0] == '-' {
        if all_dec_digits(s.skip(1)) && dec_val(s.skip(1)) <= 0x8000000000000000 {
            Some((0 - dec_val(s.skip(1)) as int) as i64)
        } else {
            None
        }
    } else if s.len() > 0 && s[0] == '+' {
        if all_dec_digits(s.skip(1)) && dec_val(s.skip(1)) <= 0x7fffffffffffffff {
            Some(dec_val(s.skip(1)) as i64)
        } else {
            None
        }
    } else {
        if all_dec_digits(s) && dec_val(s) <= 0x7fffffffffffffff {
            Some(dec_val(s) as i64)
        } else {
            None
        }
    }
}

/// What `str::parse::<u32>` accepts and returns: an optional plus sign, then
/// one or more digits, with the value in the type's range.
pub open spec fn parsed_u32(s: Seq<char>) -> Option<u32> {
    if s.len() > 0 && s[0] == '+' {
        if all_dec_digits(s.skip(1)) && dec_val(s.skip(1)) <= 0xffffffff {
            Some(dec_val(s.skip(1)) as u32)
        } else {
            None
        }
    } else {
        if all_dec_digits(s) && dec_val(s) <= 0xffffffff {
            Some(dec_val(s) as u32)
        } else {
            None
        }
    }
}

/// The value of a digit run only grows as digits are appended.
proof fn lemma_dec_val_prefix(s: Seq<char>, k: int)
    requires
        0 <= k <= s.len(),
    ensures
        dec_val(s.take(k)) <= dec_val(s),
    decreases s.len() - k,
{
    if k == s.len() {
        assert(s.take(k) =~= s);
    } else {
        assert(s.take(k + 1).drop_last() =~= s.take(k));
        assert(dec_val(s.take(k + 1)) == dec_val(s.take(k)) * 10 + digit_val(s.take(k + 1).last()));
        lemma_dec_val_prefix(s, k + 1);
    }
}

/// Digits of `s` from `start` on, as a number no greater than `limit`;
/// `None` when a non-digit intervenes, no digit is there, or the value
/// exceeds `limit`.
fn parse_digits_limit(s: &str, start: usize, limit: u64) -> (r: Option<u64>)
    requires
        is_ascii(s),
        start <= s@.len(),
        limit >= 9,
    ensures
        match r {
            Some(v) => all_dec_digits(s@.skip(start as int)) && dec_val(s@.skip(start as int))
                == v && v <= limit,
            None => !(all_dec_digits(s@.skip(start as int)) && dec_val(s@.skip(start as int))
                <= limit),
        },
{
    let ghost digs = s@.skip(start as int);
    let n = s.unicode_len();
    if start == n {
        return None;
    }
    let mut acc: u64 = 0;
    let mut i: usize = start;
    while i < n
        invariant
            is_ascii(s),
            n == s@.len(),
            start <= i <= n,
            start < n,
            limit >= 9,
            digs == s@.skip(start as int),
            forall|j: int| start <= j < i ==> is_dec_digit(s@[j]),
            acc == dec_val(s@.subrange(start as int, i as int)),
            acc <= limit,
        decreases n - i,
    {
        proof {
            assert(s@[i as int] <= '\u{7f}');
        }
        let b = s.get_ascii(i);
        if b < 48 || b > 57 {
            proof {
                assert(digs[i - start as int] == s@[i as int]);
                assert(!is_dec_digit(s@[i as int]));
            }
            return None;
        }
        let d: u64 = (b - 48) as u64;
        proof {
            assert(is_dec_digit(s@[i as int]));
            assert(digit_val(s@[i as int]) == d as nat);
            assert(s@.subrange(start as int, i + 1).drop_last() =~= s@.subrange(
                start as int,
                i as int,
            ));
            assert(s@.subrange(start as int, i + 1).last() == s@[i as int]);
        }
        if acc > limit / 10 || acc * 10 > limit - d {
            proof {
                assert(acc * 10 + d > limit) by {
                    if acc > limit / 10 {
                        assert(acc * 10 > (limit / 10) * 10);
                    }
                };
                assert(dec_val(s@.subrange(start as int, i + 1)) > limit);
                assert(digs.take(i + 1 - start) =~= s@.subrange(start as int, i + 1));
                lemma_dec_val_prefix(digs, i + 1 - start);
            }
            return None;
        }
        acc = acc * 10 + d;
        i += 1;
        proof {
            assert(acc == dec_val(s@.subrange(start as int, i as int)));
        }
    }
    proof {
        assert(digs =~= s@.subrange(start as int, n as int));
        assert(all_dec_digits(digs));
    }
    Some(acc)
}

proof fn lemma_non_ascii_no_parse(s: Seq<char>)
    requires
        !is_ascii_chars(s),
    ensures
        parsed_i64(s) is None,
        parsed_u32(s) is None,
{
    let i = choose|i: int| 0 <= i < s.len() && !('\0' <= #[trigger] s[i] <= '\u{7f}');
    assert(!is_dec_digit(s[i]));
    if s.len() > 0 && (s[0] == '-' || s[0] == '+') {
        assert(i >= 1);
        assert(s.skip(1)[i - 1] == s[i]);
        assert(!all_dec_digits(s.skip(1)));
    } else {
        assert(!all_dec_digits(s));
    }
}

/// Parse a signed 64-bit decimal value, exactly as `str::parse::<i64>` does.
pub fn parse_i64(s: &str) -> (r: Option<i64>)
    ensures
        r == parsed_i64(s@),
{
    if !s.is_ascii() {
        proof {
            lemma_non_ascii_no_parse(s@);
        }
        return None;
    }
    let n = s.unicode_len();
    if n == 0 {
        return None;
    }
    let c0 = s.get_char(0);
    if c0 == '-' {
        match parse_digits_limit(s, 1, 0x8000000000000000) {
            Some(v) => {
                if v == 0x8000000000000000 {
                    Some(i64::MIN)
                } else {
                    Some(-(v as i64))
                }
            },
            None => None,
        }
    } else if c0 == '+' {
        match parse_digits_limit(s, 1, 0x7fffffffffffffff) {
            Some(v) => Some(v as i64),
            None => None,
        }
    } else {
        match parse_digits_limit(s, 0, 0x7fffffffffffffff) {
            Some(v) => {
                proof {
                    assert(s@.skip(0) =~= s@);
                }
                Some(v as i64)
            },
            None => {
                proof {
                    assert(s@.skip(0) =~= s@);
                }
                None
            },
        }
    }
}

/// Parse an unsigned 32-bit decimal value, exactly as `str::parse::<u32>`
/// does.
pub fn parse_u32(s: &str) -> (r: Option<u32>)
    ensures
        r == parsed_u32(s@),
{
    if !s.is_ascii() {
        proof {
            lemma_non_ascii_no_parse(s@);
        }
        return None;
    }
    let n = s.unicode_len();
    if n == 0 {
        return None;
    }
    let c0 = s.get_char(0);
    if c0 == '+' {
        match parse_digits_limit(s, 1, 0xffffffff) {
            Some(v) => Some(v as u32),
            None => None,
        }
    } else {
        match parse_digits_limit(s, 0, 0xffffffff) {
            Some(v) => {
                proof {
                    assert(s@.skip(0) =~= s@);
                }
                Some(v as u32)
            },
            None => {
                proof {
                    assert(s@.skip(0) =~= s@);
                }
                None
            },
        }
    }
}

/// `p` is an initial run of `s`.
pub open spec fn has_prefix_spec(s: Seq<char>, p: Seq<char>) -> bool {
    p.len() <= s.len() && s.subrange(0, p.len() as int) == p
}

/// Whether `s` begins with the prefix `p`, character for character.
pub fn has_prefix(s: &str, p: &str) -> (r: bool)
    ensures
        r == has_prefix_spec(s@, p@),
{
    let ns = s.unicode_len();
    let np = p.unicode_len();
    if np > ns {
        return false;
    }
    let mut i: usize = 0;
    while i < np
        invariant
            ns == s@.len(),
            np == p@.len(),
            np <= ns,
            i <= np,
            forall|j: int| 0 <= j < i ==> s@[j] == p@[j],
        decreases np - i,
    {
        let cs = s.get_char(i);
        let cp = p.get_char(i);
        if cs != cp {
            proof {
                assert(s@.subrange(0, p@.len() as int)[i as int] == s@[i as int]);
            }
            return false;
        }
        i += 1;
    }
    proof {
        assert(s@.subrange(0, p@.len() as int) =~= p@);
    }
    true
}

} // verus!
