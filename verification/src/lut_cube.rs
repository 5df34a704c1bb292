//! The line structure of `.cube` LUT files: which lines are comments or keywords, which
//! carry the table size or the domain, and which carry three table values; and the check
//! that the table holds a value triple for every grid point. The numbers themselves are
//! read as floating point by the application.
use vstd::prelude::*;
use crate::text::{chars_of, string_of, slice_of, starts_with, trim_whitespace, is_whitespace, is_ws, trim_ws,
    has_prefix, views};

verus! {

/// The current token `cur` as a list of at most one token.
pub open spec fn flush(cur: Seq<char>) -> Seq<Seq<char>> {
    if cur.len() > 0 { seq![cur] } else { Seq::empty() }
}

/// The white-space separated tokens of `s`, the first one having begun with `cur`.
pub open spec fn tokens_from(s: Seq<char>, cur: Seq<char>) -> Seq<Seq<char>>
    decreases s.len(),
{
    if s.len() == 0 {
        flush(cur)
    } else if is_ws(s[0]) {
        flush(cur) + tokens_from(s.drop_first(), Seq::empty())
    } else {
        tokens_from(s.drop_first(), cur.push(s[0]))
    }
}

/// `str::split_whitespace`: the maximal runs of non-white-space characters of `s`, in order.
pub open spec fn ws_tokens(s: Seq<char>) -> Seq<Seq<char>> {
    tokens_from(s, Seq::empty())
}

/// The white-space separated tokens of `s` (see `ws_tokens`).
pub fn split_whitespace(s: &[char]) -> (r: Vec<Vec<char>>)
    ensures
        views(r@) == ws_tokens(s@),
{
    let mut r: Vec<Vec<char>> = Vec::new();
    let mut cur: Vec<char> = Vec::new();
    let mut i: usize = 0;
    assert(s@.skip(0) =~= s@);
    assert(views(r@) =~= Seq::<Seq<char>>::empty());
    assert(cur@ =~= Seq::<char>::empty());
    while i < s.len()
        invariant
            i <= s.len(),
            views(r@) + tokens_from(s@.skip(i as int), cur@) == ws_tokens(s@),
        decreases s.len() - i,
    {
        let ghost rest = s@.skip(i as int);
        let ghost before = views(r@);
        assert(rest.drop_first() =~= s@.skip(i as int + 1));
        assert(rest[0] == s@[i as int]);
        if is_whitespace(s[i]) {
            let ghost fl = flush(cur@);
            if cur.len() > 0 {
                r.push(cur);
                assert(views(r@) =~= before + fl);
            } else {
                assert(views(r@) =~= before + fl);
            }
            cur = Vec::new();
            assert(cur@ =~= Seq::<char>::empty());
            assert((before + fl) + tokens_from(s@.skip(i as int + 1), Seq::empty())
                =~= before + (fl + tokens_from(s@.skip(i as int + 1), Seq::empty())));
        } else {
            cur.push(s[i]);
        }
        i = i + 1;
    }
    assert(s@.skip(i as int) =~= Seq::<char>::empty());
    let ghost before = views(r@);
    if cur.len() > 0 {
        r.push(cur);
        assert(views(r@) =~= before + seq![cur@]);
    } else {
        assert(views(r@) =~= before + Seq::<Seq<char>>::empty());
    }
    r
}

/// What a line of a `.cube` file says.
#[derive(Debug, Clone, PartialEq, Eq)]
pub enum CubeLine {
    /// A blank line, a comment, another keyword, or a line with fewer than three tokens.
    Skip,
    /// The table size, given by the rest of the line.
    Size(String),
    /// The lower bounds of the domain, given by the rest of the line.
    DomainMin(String),
    /// The upper bounds of the domain, given by the rest of the line.
    DomainMax(String),
    /// The first three tokens of a table line.
    Values(String, String, String),
}

pub open spec fn is_ascii_alpha(c: char) -> bool {
    ('a' <= c && c <= 'z') || ('A' <= c && c <= 'Z')
}

/// Whether `r` is what the line `line` says: after trimming white space, a blank line or
/// one starting with `#` is skipped; `LUT_3D_SIZE`, `DOMAIN_MIN` and `DOMAIN_MAX` give
/// the rest of the line; another line starting with a letter or `_` is skipped; else the
/// line gives its first three tokens, or is skipped when it has fewer.
pub open spec fn is_cube_line(line: Seq<char>, r: CubeLine) -> bool {
    let t = trim_ws(line);
    if t.len() == 0 || t[0] == '#' {
        r == CubeLine::Skip
    } else if has_prefix(t, "LUT_3D_SIZE"@) {
        r matches CubeLine::Size(rest) && rest@ == t.skip("LUT_3D_SIZE"@.len() as int)
    } else if has_prefix(t, "DOMAIN_MIN"@) {
        r matches CubeLine::DomainMin(rest) && rest@ == t.skip("DOMAIN_MIN"@.len() as int)
    } else if has_prefix(t, "DOMAIN_MAX"@) {
        r matches CubeLine::DomainMax(rest) && rest@ == t.skip("DOMAIN_MAX"@.len() as int)
    } else if is_ascii_alpha(t[0]) || t[0] == '_' {
        r == CubeLine::Skip
    } else if ws_tokens(t).len() >= 3 {
        r matches CubeLine::Values(a, b, c) && a@ == ws_tokens(t)[0] && b@ == ws_tokens(t)[1]
            && c@ == ws_tokens(t)[2]
    } else {
        r == CubeLine::Skip
    }
}

/// The rest of `t` after the keyword `kw`, when `t` starts with it.
fn after_keyword(t: &[char], kw: &str) -> (r: Option<String>)
    ensures
        match r {
            Some(rest) => has_prefix(t@, kw@) && rest@ == t@.skip(kw@.len() as int),
            None => !has_prefix(t@, kw@),
        },
{
    let k = chars_of(kw);
    if starts_with(t, k.as_slice()) {
        let rest = slice_of(t, k.len(), t.len());
        assert(rest@ =~= t@.skip(kw@.len() as int));
        Some(string_of(rest.as_slice()))
    } else {
        None
    }
}

/// What the line `line` of a `.cube` file says (see `is_cube_line`).
pub fn classify_cube_line(line: &str) -> (r: CubeLine)
    ensures
        is_cube_line(line@, r),
{
    let t = trim_whitespace(chars_of(line).as_slice());
    if t.len() == 0 || t[0] == '#' {
        return CubeLine::Skip;
    }
    if let Some(rest) = after_keyword(t.as_slice(), "LUT_3D_SIZE") {
        return CubeLine::Size(rest);
    }
    if let Some(rest) = after_keyword(t.as_slice(), "DOMAIN_MIN") {
        return CubeLine::DomainMin(rest);
    }
    if let Some(rest) = after_keyword(t.as_slice(), "DOMAIN_MAX") {
        return CubeLine::DomainMax(rest);
    }
    let c0 = t[0];
    if ('a' <= c0 && c0 <= 'z') || ('A' <= c0 && c0 <= 'Z') || c0 == '_' {
        return CubeLine::Skip;
    }
    let parts = split_whitespace(t.as_slice());
    if parts.len() >= 3 {
        let a = string_of(parts[0].as_slice());
        let b = string_of(parts[1].as_slice());
        let c = string_of(parts[2].as_slice());
        CubeLine::Values(a, b, c)
    } else {
        CubeLine::Skip
    }
}

/// The number of table values of a LUT of grid size `size`: three per grid point.
pub open spec fn table_values(size: int) -> int {
    size * size * size * 3
}

/// The message for a table of `got` values where `expected` were due.
pub open spec fn table_len_message(expected: nat, got: nat) -> Seq<char> {
    "LUT parse error: expected "@ + crate::net::decimal_digits(expected) + " floats, got "@
        + crate::net::decimal_digits(got)
}

/// Whether a table of `len` values fits grid size `size`: it must hold exactly three
/// values per grid point.
pub fn check_table_len(size: usize, len: usize) -> (r: Result<(), String>)
    requires
        table_values(size as int) <= usize::MAX,
    ensures
        len as int == table_values(size as int) ==> r is Ok,
        len as int != table_values(size as int) ==> (r matches Err(m)
            && m@ == table_len_message(table_values(size as int) as nat, len as nat)),
{
    assert(size * size <= table_values(size as int) && size * size * size <= table_values(size as int))
        by (nonlinear_arith)
        requires
            size * size * size * 3 <= usize::MAX,
            table_values(size as int) == size * size * size * 3,
    {
        if size > 0 {
            assert(size * size <= size * size * size);
        }
    }
    let expected: usize = size * size * size * 3;
    if len == expected {
        Ok(())
    } else {
        let e = crate::net::decimal(expected as u64);
        let g = crate::net::decimal(len as u64);
        let a = crate::text::join_strs("LUT parse error: expected ", e.as_str());
        let b = crate::text::join_strs(a.as_str(), " floats, got ");
        Err(crate::text::join_strs(b.as_str(), g.as_str()))
    }
}


/// Why a table size does not read as a `usize` (the kinds `str::parse` reports).
#[derive(Debug, Clone, Copy, PartialEq, Eq, Structural)]
pub enum SizeParseError {
    Empty,
    InvalidDigit,
    PosOverflow,
}

/// The digits `d` read from the left onto `acc`, as `str::parse::<usize>` reads them: the
/// first character that is not a decimal digit, or the first digit that takes the value
/// past `usize::MAX`, decides the error.
pub open spec fn scan_digits(d: Seq<char>, acc: nat) -> Result<nat, SizeParseError>
    decreases d.len(),
{
    if d.len() == 0 {
        Ok(acc)
    } else if !crate::net::is_digit(d[0]) {
        Err(SizeParseError::InvalidDigit)
    } else if acc * 10 + crate::net::digit_value(d[0]) > usize::MAX {
        Err(SizeParseError::PosOverflow)
    } else {
        scan_digits(d.drop_first(), acc * 10 + crate::net::digit_value(d[0]))
    }
}

/// `str::parse::<usize>` on `s`: an optional `+`, then decimal digits.
pub open spec fn usize_parse(s: Seq<char>) -> Result<nat, SizeParseError> {
    if s.len() == 0 {
        Err(SizeParseError::Empty)
    } else if (s[0] == '+' || s[0] == '-') && s.len() == 1 {
        Err(SizeParseError::InvalidDigit)
    } else if s[0] == '+' {
        scan_digits(s.drop_first(), 0)
    } else {
        scan_digits(s, 0)
    }
}

/// The text `std` gives for each kind of error.
pub open spec fn size_error_text(e: SizeParseError) -> Seq<char> {
    match e {
        SizeParseError::Empty => "cannot parse integer from empty string"@,
        SizeParseError::InvalidDigit => "invalid digit found in string"@,
        SizeParseError::PosOverflow => "number too large to fit in target type"@,
    }
}

fn digit_of(c: char) -> (r: Option<usize>)
    ensures
        crate::net::is_digit(c) ==> r == Some(crate::net::digit_value(c) as usize),
        !crate::net::is_digit(c) ==> r is None,
{
    if '0' <= c && c <= '9' {
        Some((c as u32 - '0' as u32) as usize)
    } else {
        None
    }
}

fn scan_digits_exec(d: &[char]) -> (r: Result<usize, SizeParseError>)
    ensures
        match scan_digits(d@, 0) {
            Ok(v) => r == Ok::<usize, SizeParseError>(v as usize),
            Err(e) => r == Err::<usize, SizeParseError>(e),
        },
{
    let mut acc: usize = 0;
    let mut i: usize = 0;
    assert(d@.skip(0) =~= d@);
    while i < d.len()
        invariant
            i <= d.len(),
            scan_digits(d@, 0) == scan_digits(d@.skip(i as int), acc as nat),
        decreases d.len() - i,
    {
        let rest = Ghost(d@.skip(i as int));
        assert(rest@[0] == d@[i as int]);
        assert(rest@.drop_first() =~= d@.skip(i as int + 1));
        match digit_of(d[i]) {
            None => {
                return Err(SizeParseError::InvalidDigit);
            },
            Some(v) => {
                if acc > (usize::MAX - v) / 10 {
                    assert(acc * 10 + v > usize::MAX) by (nonlinear_arith)
                        requires
                            acc > (usize::MAX - v) / 10,
                            v <= 9;
                    return Err(SizeParseError::PosOverflow);
                }
                assert(acc * 10 + v <= usize::MAX) by (nonlinear_arith)
                    requires
                        acc <= (usize::MAX - v) / 10,
                        v <= 9;
                acc = acc * 10 + v;
            },
        }
        i = i + 1;
    }
    assert(d@.skip(i as int) =~= Seq::<char>::empty());
    Ok(acc)
}

/// The table size given by the rest of a `LUT_3D_SIZE` line: the rest, trimmed of white
/// space, read as a `usize` (see `usize_parse`), else the error naming why.
pub fn parse_lut_size(rest: &str) -> (r: Result<usize, String>)
    ensures
        match usize_parse(trim_ws(rest@)) {
            Ok(v) => r == Ok::<usize, String>(v as usize),
            Err(e) => r matches Err(m) && m@ == "Invalid LUT_3D_SIZE: "@ + size_error_text(e),
        },
{
    let t = trim_whitespace(chars_of(rest).as_slice());
    let res: Result<usize, SizeParseError> = if t.len() == 0 {
        Err(SizeParseError::Empty)
    } else if (t[0] == '+' || t[0] == '-') && t.len() == 1 {
        Err(SizeParseError::InvalidDigit)
    } else if t[0] == '+' {
        let d = slice_of(t.as_slice(), 1, t.len());
        assert(d@ =~= t@.drop_first());
        scan_digits_exec(d.as_slice())
    } else {
        scan_digits_exec(t.as_slice())
    };
    match res {
        Ok(v) => Ok(v),
        Err(e) => {
            let text = match e {
                SizeParseError::Empty => "cannot parse integer from empty string",
                SizeParseError::InvalidDigit => "invalid digit found in string",
                SizeParseError::PosOverflow => "number too large to fit in target type",
            };
            Err(crate::text::join_strs("Invalid LUT_3D_SIZE: ", text))
        },
    }
}

} // verus!
