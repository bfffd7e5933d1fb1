//! The verified half of the out-of-process volume controller: parsing what
//! the command prints (the default sink's name, the volume line's
//! percentage) and rendering the percentage argument handed back to it.
//! The subprocess calls themselves live in the I/O shell.

use vstd::prelude::*;
use crate::text::{dec_of, format_u32, parse_u32, parsed_u32, push_char};

verus! {

/// The whitespace the sink-name line is trimmed of: the ASCII space, tab,
/// line and page controls.
pub open spec fn is_ascii_space(c: char) -> bool {
    c == ' ' || c == '\t' || c == '\n' || c == '\r' || c as u32 == 11 || c as u32 == 12
}

/// `s` with its trailing whitespace removed.
pub open spec fn trimmed_end(s: Seq<char>) -> Seq<char>
    decreases s.len(),
{
    if s.len() == 0 {
        s
    } else if is_ascii_space(s.last()) {
        trimmed_end(s.drop_last())
    } else {
        s
    }
}

fn is_ascii_space_exec(c: char) -> (r: bool)
    ensures
        r == is_ascii_space(c),
{
    c == ' ' || c == '\t' || c == '\n' || c == '\r' || c as u32 == 11 || c as u32 == 12
}

fn trimmed_end_len(s: &str, end: usize) -> (r: usize)
    requires
        end <= s@.len(),
    ensures
        r <= end,
        trimmed_end(s@.take(end as int)) == s@.take(r as int),
    decreases end,
{
    if end == 0 {
        proof {
            assert(s@.take(0) =~= Seq::<char>::empty());
        }
        0
    } else {
        let c = s.get_char(end - 1);
        proof {
            assert(s@.take(end as int).last() == s@[end - 1]);
            assert(s@.take(end as int).drop_last() =~= s@.take(end - 1));
        }
        if is_ascii_space_exec(c) {
            trimmed_end_len(s, end - 1)
        } else {
            end
        }
    }
}

/// The index of the first space in `s`, or its length if it has none.
pub open spec fn first_space(s: Seq<char>) -> int
    decreases s.len(),
{
    if s.len() == 0 {
        0
    } else if s[0] == ' ' {
        0
    } else {
        1 + first_space(s.drop_first())
    }
}

/// The `k`-th (from zero) of the space-separated fields of `s`, counting
/// every field between two consecutive spaces — an empty one too; `None`
/// when fewer than `k` spaces remain.
pub open spec fn nth_token(s: Seq<char>, k: nat) -> Option<Seq<char>>
    decreases k,
{
    let f = first_space(s);
    if k == 0 {
        Some(s.take(f))
    } else if f == s.len() {
        None
    } else {
        nth_token(s.skip(f + 1), (k - 1) as nat)
    }
}

fn scan_token_end(s: &str, from: usize) -> (j: usize)
    requires
        from <= s@.len(),
    ensures
        from <= j <= s@.len(),
        j - from == first_space(s@.skip(from as int)),
    decreases s@.len() - from,
{
    let n = s.unicode_len();
    if from == n {
        proof {
            assert(s@.skip(from as int) =~= Seq::<char>::empty());
        }
        return from;
    }
    let c = s.get_char(from);
    proof {
        assert(s@.skip(from as int)[0] == s@[from as int]);
        assert(s@.skip(from as int).drop_first() =~= s@.skip(from + 1));
    }
    if c == ' ' {
        from
    } else {
        scan_token_end(s, from + 1)
    }
}

fn nth_token_from(s: &str, pos: usize, k: usize) -> (r: Option<String>)
    requires
        pos <= s@.len(),
    ensures
        match r {
            Some(t) => nth_token(s@.skip(pos as int), k as nat) == Some(t@),
            None => nth_token(s@.skip(pos as int), k as nat) is None,
        },
    decreases k,
{
    let j = scan_token_end(s, pos);
    let ghost rest = s@.skip(pos as int);
    if k == 0 {
        let t = s.substring_char(pos, j);
        proof {
            assert(t@ =~= rest.take(first_space(rest)));
        }
        Some(t.to_owned())
    } else if j == s.unicode_len() {
        proof {
            assert(first_space(rest) == rest.len());
        }
        None
    } else {
        proof {
            assert(rest.skip(first_space(rest) + 1) =~= s@.skip(j + 1));
        }
        nth_token_from(s, j + 1, k - 1)
    }
}

/// The `k`-th space-separated field of `s`, if `s` has that many.
pub fn nth_space_token(s: &str, k: usize) -> (r: Option<String>)
    ensures
        match r {
            Some(t) => nth_token(s@, k as nat) == Some(t@),
            None => nth_token(s@, k as nat) is None,
        },
{
    let r = nth_token_from(s, 0, k);
    proof {
        assert(s@.skip(0) =~= s@);
    }
    r
}

/// Why the volume line could not be read as a percentage.
#[derive(Debug, PartialEq, Eq)]
pub enum VolumeParseError {
    /// The line has no sixth space-separated field.
    MissingField,
    /// The sixth field, its trailing unit mark removed, is not an unsigned
    /// number.
    InvalidNumber,
}

/// The percentage the volume line carries: its sixth space-separated field
/// with the trailing `%` removed, read as an unsigned number.
pub open spec fn sink_volume_of(s: Seq<char>) -> Result<u32, VolumeParseError> {
    match nth_token(s, 5) {
        None => Err(VolumeParseError::MissingField),
        Some(t) => if t.len() == 0 {
            Err(VolumeParseError::InvalidNumber)
        } else {
            match parsed_u32(t.take(t.len() - 1)) {
                Some(v) => Ok(v),
                None => Err(VolumeParseError::InvalidNumber),
            }
        },
    }
}

/// The out-of-process volume controller's command-line front end — its
/// verified half: what the command prints is parsed here, and what it is
/// handed is rendered here. The subprocess itself runs in the I/O shell.
pub struct PaCtl;

impl PaCtl {
    /// The default sink as the command prints it: the output with its
    /// trailing whitespace (the final line break included) removed.
    pub fn parse_default_sink(output: &str) -> (r: String)
        ensures
            r@ == trimmed_end(output@),
    {
        let n = output.unicode_len();
        let m = trimmed_end_len(output, n);
        let t = output.substring_char(0, m);
        proof {
            assert(output@.take(n as int) =~= output@);
            assert(t@ =~= output@.take(m as int));
        }
        t.to_owned()
    }

    /// The sink volume percentage from the command's volume line.
    pub fn parse_sink_volume(output: &str) -> (r: Result<u32, VolumeParseError>)
        ensures
            r == sink_volume_of(output@),
    {
        match nth_space_token(output, 5) {
            None => Err(VolumeParseError::MissingField),
            Some(t) => {
                let tl = t.as_str().unicode_len();
                if tl == 0 {
                    Err(VolumeParseError::InvalidNumber)
                } else {
                    let digits = t.as_str().substring_char(0, tl - 1);
                    proof {
                        assert(digits@ =~= t@.take(tl - 1));
                    }
                    match parse_u32(digits) {
                        Some(v) => Ok(v),
                        None => Err(VolumeParseError::InvalidNumber),
                    }
                }
            },
        }
    }

    /// The percentage argument handed to the command when setting the
    /// volume: the number with a `%` appended.
    pub fn volume_percent_arg(percent: u32) -> (r: String)
        ensures
            r@ == dec_of(percent as nat) + "%"@,
    {
        let mut s = format_u32(percent);
        push_char(&mut s, '%');
        proof {
            reveal_strlit("%");
            assert(s@ =~= dec_of(percent as nat) + "%"@);
        }
        s
    }
}

/// The set-volume form body: the percentage to apply to the default sink.
pub struct VolumeForm {
    pub percent: u32,
}

} // verus!

