//! Character-level helpers shared by the path, name and address logic.
use vstd::prelude::*;

verus! {

/// The characters of a string slice, in order.
pub fn chars_of(s: &str) -> (v: Vec<char>)
    ensures
        v@ == s@,
{
    let mut v: Vec<char> = Vec::new();
    for c in it: s.chars()
        invariant
            v@ == it.seq().take(it.index() as int),
            it.seq() == s@,
    {
        v.push(c);
    }
    v
}

/// `a` followed by `b`.
pub fn join_strs(a: &str, b: &str) -> (r: String)
    ensures
        r@ == a@ + b@,
{
    string_of(concat(chars_of(a).as_slice(), chars_of(b).as_slice()).as_slice())
}

/// Appends one character to a string.
#[verifier::external_body]
fn push_char(s: &mut String, c: char)
    ensures
        final(s)@ == old(s)@.push(c),
{
    s.push(c);
}

/// Builds a string from a character sequence.
pub fn string_of(v: &[char]) -> (s: String)
    ensures
        s@ == v@,
{
    let mut s = String::new();
    let mut i: usize = 0;
    while i < v.len()
        invariant
            i <= v.len(),
            s@ == v@.take(i as int),
        decreases v.len() - i,
    {
        push_char(&mut s, v[i]);
        assert(v@.take(i as int + 1) =~= v@.take(i as int).push(v@[i as int]));
        i = i + 1;
    }
    assert(v@.take(v.len() as int) =~= v@);
    s
}


/// ASCII lowercase of one character; other characters are unchanged.
pub open spec fn lower_char(c: char) -> char {
    if 'A' <= c && c <= 'Z' {
        ((c as u32) + 32) as char
    } else {
        c
    }
}

/// ASCII lowercase of a character sequence.
pub open spec fn lower(s: Seq<char>) -> Seq<char> {
    s.map_values(|c: char| lower_char(c))
}

/// `true` when `p` is a prefix of `s`.
pub open spec fn has_prefix(s: Seq<char>, p: Seq<char>) -> bool {
    p.len() <= s.len() && s.take(p.len() as int) == p
}

/// `true` when `p` is a suffix of `s`.
pub open spec fn has_suffix(s: Seq<char>, p: Seq<char>) -> bool {
    p.len() <= s.len() && s.skip(s.len() - p.len()) == p
}

/// Index of the last occurrence of `c` in `s`, if any.
pub open spec fn last_index_of(s: Seq<char>, c: char) -> Option<int>
    decreases s.len(),
{
    if s.len() == 0 {
        None
    } else if s.last() == c {
        Some(s.len() - 1)
    } else {
        last_index_of(s.drop_last(), c)
    }
}

/// Index of the first occurrence of `c` in `s`, if any.
pub open spec fn first_index_of(s: Seq<char>, c: char) -> Option<int>
    decreases s.len(),
{
    if s.len() == 0 {
        None
    } else if s[0] == c {
        Some(0)
    } else {
        match first_index_of(s.drop_first(), c) {
            Some(i) => Some(i + 1),
            None => None,
        }
    }
}

/// `s` with every leading `c` removed (`str::trim_start_matches` with one character).
pub open spec fn trim_start(s: Seq<char>, c: char) -> Seq<char>
    decreases s.len(),
{
    if s.len() > 0 && s[0] == c {
        trim_start(s.drop_first(), c)
    } else {
        s
    }
}

/// `s` with every trailing `c` removed (`str::trim_end_matches` with one character).
pub open spec fn trim_end(s: Seq<char>, c: char) -> Seq<char>
    decreases s.len(),
{
    if s.len() > 0 && s.last() == c {
        trim_end(s.drop_last(), c)
    } else {
        s
    }
}

pub proof fn lemma_last_index_of(s: Seq<char>, c: char)
    ensures
        match last_index_of(s, c) {
            Some(i) => 0 <= i < s.len() && s[i] == c && forall|j: int| i < j < s.len() ==> s[j] != c,
            None => forall|j: int| 0 <= j < s.len() ==> s[j] != c,
        },
    decreases s.len(),
{
    if s.len() > 0 && s.last() != c {
        lemma_last_index_of(s.drop_last(), c);
        assert forall|j: int| 0 <= j < s.len() - 1 implies s.drop_last()[j] == s[j] by {}
    }
}

pub proof fn lemma_first_index_of(s: Seq<char>, c: char)
    ensures
        match first_index_of(s, c) {
            Some(i) => 0 <= i < s.len() && s[i] == c && forall|j: int| 0 <= j < i ==> s[j] != c,
            None => forall|j: int| 0 <= j < s.len() ==> s[j] != c,
        },
    decreases s.len(),
{
    if s.len() > 0 && s[0] != c {
        lemma_first_index_of(s.drop_first(), c);
        match first_index_of(s.drop_first(), c) {
            Some(i) => {
                assert forall|j: int| 0 <= j < i + 1 implies s[j] != c by {
                    if j > 0 {
                        assert(s[j] == s.drop_first()[j - 1]);
                    }
                }
            },
            None => {
                assert forall|j: int| 0 <= j < s.len() implies s[j] != c by {
                    if j > 0 {
                        assert(s[j] == s.drop_first()[j - 1]);
                    }
                }
            },
        }
    }
}

/// ASCII lowercase of one character.
pub fn to_lower_char(c: char) -> (r: char)
    ensures
        r == lower_char(c),
{
    if 'A' <= c && c <= 'Z' {
        let b: u8 = (c as u8) + 32;
        b as char
    } else {
        c
    }
}

/// ASCII lowercase of a character slice.
pub fn to_lower(v: &[char]) -> (r: Vec<char>)
    ensures
        r@ == lower(v@),
{
    let mut r: Vec<char> = Vec::new();
    let mut i: usize = 0;
    while i < v.len()
        invariant
            i <= v.len(),
            r@ == lower(v@.take(i as int)),
        decreases v.len() - i,
    {
        let c = to_lower_char(v[i]);
        r.push(c);
        assert(lower(v@.take(i as int + 1)) =~= lower(v@.take(i as int)).push(lower_char(v@[i as int])));
        i = i + 1;
    }
    assert(v@.take(v.len() as int) =~= v@);
    r
}

/// Equality of two character slices.
pub fn chars_eq(a: &[char], b: &[char]) -> (r: bool)
    ensures
        r == (a@ == b@),
{
    if a.len() != b.len() {
        return false;
    }
    let mut i: usize = 0;
    while i < a.len()
        invariant
            a.len() == b.len(),
            i <= a.len(),
            forall|j: int| 0 <= j < i ==> a@[j] == b@[j],
        decreases a.len() - i,
    {
        if a[i] != b[i] {
            return false;
        }
        i = i + 1;
    }
    assert(a@ =~= b@);
    true
}

/// Whether `v` equals the characters of `lit`.
pub fn chars_eq_str(v: &[char], lit: &str) -> (r: bool)
    ensures
        r == (v@ == lit@),
{
    let l = chars_of(lit);
    chars_eq(v, l.as_slice())
}

/// Whether `p` is a prefix of `s`.
pub fn starts_with(s: &[char], p: &[char]) -> (r: bool)
    ensures
        r == has_prefix(s@, p@),
{
    if p.len() > s.len() {
        return false;
    }
    let mut i: usize = 0;
    while i < p.len()
        invariant
            p.len() <= s.len(),
            i <= p.len(),
            forall|j: int| 0 <= j < i ==> s@[j] == p@[j],
        decreases p.len() - i,
    {
        if s[i] != p[i] {
            assert(s@.take(p.len() as int)[i as int] != p@[i as int]);
            return false;
        }
        i = i + 1;
    }
    assert(s@.take(p.len() as int) =~= p@);
    true
}

/// Whether `p` is a suffix of `s`.
pub fn ends_with(s: &[char], p: &[char]) -> (r: bool)
    ensures
        r == has_suffix(s@, p@),
{
    if p.len() > s.len() {
        return false;
    }
    let off = s.len() - p.len();
    let mut i: usize = 0;
    while i < p.len()
        invariant
            p.len() <= s.len(),
            off == s.len() - p.len(),
            i <= p.len(),
            forall|j: int| 0 <= j < i ==> s@[off + j] == p@[j],
        decreases p.len() - i,
    {
        if s[off + i] != p[i] {
            assert(s@.skip(off as int)[i as int] != p@[i as int]);
            return false;
        }
        i = i + 1;
    }
    assert(s@.skip(off as int) =~= p@);
    true
}

/// Index of the last occurrence of `c`.
pub fn rfind(s: &[char], c: char) -> (r: Option<usize>)
    ensures
        match r {
            Some(i) => last_index_of(s@, c) == Some(i as int),
            None => last_index_of(s@, c) is None,
        },
{
    let mut i: usize = s.len();
    assert(s@.take(s.len() as int) =~= s@);
    while i > 0
        invariant
            i <= s.len(),
            last_index_of(s@, c) == last_index_of(s@.take(i as int), c),
        decreases i,
    {
        assert(s@.take(i as int).drop_last() =~= s@.take(i as int - 1));
        if s[i - 1] == c {
            return Some(i - 1);
        }
        i = i - 1;
    }
    None
}

/// Index of the first occurrence of `c`.
pub fn find(s: &[char], c: char) -> (r: Option<usize>)
    ensures
        match r {
            Some(i) => first_index_of(s@, c) == Some(i as int),
            None => first_index_of(s@, c) is None,
        },
{
    let mut i: usize = 0;
    while i < s.len()
        invariant
            i <= s.len(),
            forall|j: int| 0 <= j < i ==> s@[j] != c,
        decreases s.len() - i,
    {
        if s[i] == c {
            proof {
                lemma_first_index_of(s@, c);
            }
            return Some(i);
        }
        i = i + 1;
    }
    proof {
        lemma_first_index_of(s@, c);
    }
    None
}

/// `s[from..to]` as a vector.
pub fn slice_of(s: &[char], from: usize, to: usize) -> (r: Vec<char>)
    requires
        from <= to <= s.len(),
    ensures
        r@ == s@.subrange(from as int, to as int),
{
    let mut r: Vec<char> = Vec::new();
    let mut i: usize = from;
    while i < to
        invariant
            from <= i <= to <= s.len(),
            r@ == s@.subrange(from as int, i as int),
        decreases to - i,
    {
        r.push(s[i]);
        assert(s@.subrange(from as int, i as int + 1) =~= s@.subrange(from as int, i as int).push(s@[i as int]));
        i = i + 1;
    }
    r
}

/// Removes every leading `c`.
pub fn trim_start_char(s: &[char], c: char) -> (r: Vec<char>)
    ensures
        r@ == trim_start(s@, c),
{
    let mut i: usize = 0;
    assert(s@.skip(0) =~= s@);
    while i < s.len() && s[i] == c
        invariant
            i <= s.len(),
            trim_start(s@, c) == trim_start(s@.skip(i as int), c),
        decreases s.len() - i,
    {
        assert(s@.skip(i as int).drop_first() =~= s@.skip(i as int + 1));
        i = i + 1;
    }
    slice_of(s, i, s.len())
}

/// Removes every trailing `c`.
pub fn trim_end_char(s: &[char], c: char) -> (r: Vec<char>)
    ensures
        r@ == trim_end(s@, c),
{
    let mut i: usize = s.len();
    assert(s@.take(s.len() as int) =~= s@);
    while i > 0 && s[i - 1] == c
        invariant
            i <= s.len(),
            trim_end(s@, c) == trim_end(s@.take(i as int), c),
        decreases i,
    {
        assert(s@.take(i as int).drop_last() =~= s@.take(i as int - 1));
        i = i - 1;
    }
    assert(s@.subrange(0, i as int) =~= s@.take(i as int));
    slice_of(s, 0, i)
}

/// Concatenation of two character slices.
pub fn concat(a: &[char], b: &[char]) -> (r: Vec<char>)
    ensures
        r@ == a@ + b@,
{
    let mut r = slice_of(a, 0, a.len());
    assert(a@.subrange(0, a.len() as int) =~= a@);
    let mut i: usize = 0;
    while i < b.len()
        invariant
            i <= b.len(),
            r@ == a@ + b@.take(i as int),
        decreases b.len() - i,
    {
        r.push(b[i]);
        assert(a@ + b@.take(i as int + 1) =~= (a@ + b@.take(i as int)).push(b@[i as int]));
        i = i + 1;
    }
    assert(b@.take(b.len() as int) =~= b@);
    r
}


/// `s` split at every `c` (`str::split` with one character); always at least one part.
pub open spec fn split(s: Seq<char>, c: char) -> Seq<Seq<char>>
    decreases s.len(),
{
    match first_index_of(s, c) {
        Some(i) => if 0 <= i < s.len() {
            seq![s.take(i)] + split(s.skip(i + 1), c)
        } else {
            seq![s]
        },
        None => seq![s],
    }
}

/// The parts joined with `c` between consecutive parts.
pub open spec fn join(parts: Seq<Seq<char>>, c: char) -> Seq<char>
    decreases parts.len(),
{
    if parts.len() == 0 {
        Seq::empty()
    } else if parts.len() == 1 {
        parts[0]
    } else {
        join(parts.drop_last(), c) + seq![c] + parts.last()
    }
}

/// `c` does not occur in `s`.
pub open spec fn free_of(s: Seq<char>, c: char) -> bool {
    forall|j: int| 0 <= j < s.len() ==> s[j] != c
}

/// The first `c` of `a + c + b`, when `a` holds none, is the one after `a`.
pub proof fn lemma_first_index_after(a: Seq<char>, b: Seq<char>, c: char)
    requires
        free_of(a, c),
    ensures
        first_index_of(a + seq![c] + b, c) == Some(a.len() as int),
    decreases a.len(),
{
    if a.len() > 0 {
        assert((a + seq![c] + b).drop_first() =~= a.drop_first() + seq![c] + b);
        lemma_first_index_after(a.drop_first(), b, c);
    }
}

/// Splitting `a + c + b` at `c`, when `a` holds no `c`, gives `a` and the parts of `b`.
pub proof fn lemma_split_after(a: Seq<char>, b: Seq<char>, c: char)
    requires
        free_of(a, c),
    ensures
        split(a + seq![c] + b, c) == seq![a] + split(b, c),
{
    let s = a + seq![c] + b;
    lemma_first_index_after(a, b, c);
    assert(s.take(a.len() as int) =~= a);
    assert(s.skip(a.len() as int + 1) =~= b);
}

/// A string without `c` is its own only part.
pub proof fn lemma_split_free(a: Seq<char>, c: char)
    requires
        free_of(a, c),
    ensures
        split(a, c) == seq![a],
{
    lemma_first_index_of(a, c);
}

/// The parts of a split hold no separator.
pub proof fn lemma_split_parts_free(s: Seq<char>, c: char)
    ensures
        forall|k: int| 0 <= k < split(s, c).len() ==> free_of(#[trigger] split(s, c)[k], c),
    decreases s.len(),
{
    lemma_first_index_of(s, c);
    match first_index_of(s, c) {
        Some(i) => {
            let rest = s.skip(i + 1);
            lemma_split_parts_free(rest, c);
            assert forall|k: int| 0 <= k < split(s, c).len() implies free_of(#[trigger] split(s, c)[k], c) by {
                if k > 0 {
                    assert(split(s, c)[k] == split(rest, c)[k - 1]);
                }
            }
        },
        None => {},
    }
}

/// Joining two or more parts puts the first, a separator, then the rest joined.
pub proof fn lemma_join_front(parts: Seq<Seq<char>>, c: char)
    requires
        parts.len() >= 2,
    ensures
        join(parts, c) == parts[0] + seq![c] + join(parts.drop_first(), c),
    decreases parts.len(),
{
    let dl = parts.drop_last();
    let df = parts.drop_first();
    assert(join(parts, c) == join(dl, c) + seq![c] + parts.last());
    if parts.len() == 2 {
        assert(join(dl, c) == dl[0]);
        assert(join(df, c) == df[0]);
        assert(dl[0] == parts[0]);
        assert(df[0] == parts.last());
    } else {
        lemma_join_front(dl, c);
        assert(dl.drop_first() =~= df.drop_last());
        assert(df.last() == parts.last());
        assert(dl[0] == parts[0]);
        assert(join(df, c) == join(df.drop_last(), c) + seq![c] + df.last());
        assert(parts[0] + seq![c] + join(dl.drop_first(), c) + seq![c] + parts.last()
            =~= parts[0] + seq![c] + (join(df.drop_last(), c) + seq![c] + df.last()));
    }
}

/// Splitting joined parts that hold no separator gives the parts back.
pub proof fn lemma_split_join(parts: Seq<Seq<char>>, c: char)
    requires
        parts.len() >= 1,
        forall|k: int| 0 <= k < parts.len() ==> free_of(#[trigger] parts[k], c),
    ensures
        split(join(parts, c), c) == parts,
    decreases parts.len(),
{
    if parts.len() == 1 {
        assert(free_of(parts[0], c));
        lemma_split_free(parts[0], c);
        assert(seq![parts[0]] =~= parts);
    } else {
        lemma_join_front(parts, c);
        let rest = parts.drop_first();
        assert forall|k: int| 0 <= k < rest.len() implies free_of(#[trigger] rest[k], c) by {
            assert(rest[k] == parts[k + 1]);
        }
        lemma_split_join(rest, c);
        assert(free_of(parts[0], c));
        lemma_split_after(parts[0], join(rest, c), c);
        assert(seq![parts[0]] + rest =~= parts);
    }
}

/// Joined parts start with the first part, when it is not empty.
pub proof fn lemma_join_first(parts: Seq<Seq<char>>, c: char)
    requires
        parts.len() >= 1,
        parts[0].len() >= 1,
    ensures
        join(parts, c).len() >= 1,
        join(parts, c)[0] == parts[0][0],
{
    if parts.len() >= 2 {
        lemma_join_front(parts, c);
    }
}

/// The character views of a vector of character vectors.
pub open spec fn views(v: Seq<Vec<char>>) -> Seq<Seq<char>> {
    v.map_values(|x: Vec<char>| x@)
}

/// The character views of a sequence of strings.
pub open spec fn string_views(v: Seq<String>) -> Seq<Seq<char>> {
    v.map_values(|x: String| x@)
}

/// Splits `s` at every `c`.
pub fn split_char(s: &[char], c: char) -> (r: Vec<Vec<char>>)
    ensures
        views(r@) == split(s@, c),
{
    let mut parts: Vec<Vec<char>> = Vec::new();
    let mut rest: Vec<char> = slice_of(s, 0, s.len());
    assert(s@.subrange(0, s.len() as int) =~= s@);
    loop
        invariant
            views(parts@) + split(rest@, c) == split(s@, c),
        decreases rest@.len(),
    {
        match find(rest.as_slice(), c) {
            Some(i) => {
                proof {
                    lemma_first_index_of(rest@, c);
                }
                let head = slice_of(rest.as_slice(), 0, i);
                let tail = slice_of(rest.as_slice(), i + 1, rest.len());
                assert(head@ =~= rest@.take(i as int));
                assert(tail@ =~= rest@.skip(i + 1));
                let ghost old_parts = parts@;
                parts.push(head);
                assert(views(parts@) =~= views(old_parts).push(rest@.take(i as int)));
                assert(views(parts@) + split(tail@, c) =~= views(old_parts) + split(rest@, c));
                rest = tail;
            },
            None => {
                let ghost old_parts = parts@;
                let ghost last = rest@;
                parts.push(rest);
                assert(views(parts@) =~= views(old_parts) + seq![last]);
                return parts;
            },
        }
    }
}

/// Joins the parts with `c` between consecutive parts.
pub fn join_char(parts: &Vec<Vec<char>>, c: char) -> (r: Vec<char>)
    ensures
        r@ == join(views(parts@), c),
{
    let mut r: Vec<char> = Vec::new();
    let mut k: usize = 0;
    while k < parts.len()
        invariant
            k <= parts@.len(),
            r@ == join(views(parts@).take(k as int), c),
        decreases parts.len() - k,
    {
        let ghost before = views(parts@).take(k as int);
        assert(views(parts@).take(k as int + 1).drop_last() =~= before);
        if k > 0 {
            r.push(c);
        }
        let ghost mid = r@;
        let p = &parts[k];
        let mut i: usize = 0;
        while i < p.len()
            invariant
                i <= p@.len(),
                r@ == mid + p@.take(i as int),
            decreases p.len() - i,
        {
            r.push(p[i]);
            assert(mid + p@.take(i as int + 1) =~= (mid + p@.take(i as int)).push(p@[i as int]));
            i = i + 1;
        }
        assert(p@.take(p@.len() as int) =~= p@);
        assert(views(parts@)[k as int] == p@);
        if k == 0 {
            assert(r@ =~= join(views(parts@).take(1), c));
        } else {
            assert(r@ =~= join(before, c) + seq![c] + views(parts@)[k as int]);
        }
        k = k + 1;
    }
    assert(views(parts@).take(parts@.len() as int) =~= views(parts@));
    r
}

/// `char::is_whitespace`: the Unicode `White_Space` characters.
pub open spec fn is_ws(c: char) -> bool {
    ||| c == ' '
    ||| ('\u{9}' <= c && c <= '\u{d}')
    ||| c == '\u{85}'
    ||| c == '\u{a0}'
    ||| c == '\u{1680}'
    ||| ('\u{2000}' <= c && c <= '\u{200a}')
    ||| c == '\u{2028}'
    ||| c == '\u{2029}'
    ||| c == '\u{202f}'
    ||| c == '\u{205f}'
    ||| c == '\u{3000}'
}

/// `s` without leading white space.
pub open spec fn trim_ws_start(s: Seq<char>) -> Seq<char>
    decreases s.len(),
{
    if s.len() > 0 && is_ws(s[0]) { trim_ws_start(s.drop_first()) } else { s }
}

/// `s` without trailing white space.
pub open spec fn trim_ws_end(s: Seq<char>) -> Seq<char>
    decreases s.len(),
{
    if s.len() > 0 && is_ws(s.last()) { trim_ws_end(s.drop_last()) } else { s }
}

/// `str::trim`: `s` without leading and trailing white space.
pub open spec fn trim_ws(s: Seq<char>) -> Seq<char> {
    trim_ws_end(trim_ws_start(s))
}

/// `char::is_whitespace`.
pub fn is_whitespace(c: char) -> (r: bool)
    ensures
        r == is_ws(c),
{
    c == ' ' || ('\u{9}' <= c && c <= '\u{d}') || c == '\u{85}' || c == '\u{a0}'
        || c == '\u{1680}' || ('\u{2000}' <= c && c <= '\u{200a}') || c == '\u{2028}'
        || c == '\u{2029}' || c == '\u{202f}' || c == '\u{205f}' || c == '\u{3000}'
}

/// `str::trim` on a character slice.
pub fn trim_whitespace(s: &[char]) -> (r: Vec<char>)
    ensures
        r@ == trim_ws(s@),
{
    let mut i: usize = 0;
    assert(s@.skip(0) =~= s@);
    while i < s.len() && is_whitespace(s[i])
        invariant
            i <= s.len(),
            trim_ws_start(s@) == trim_ws_start(s@.skip(i as int)),
        decreases s.len() - i,
    {
        assert(s@.skip(i as int).drop_first() =~= s@.skip(i as int + 1));
        i = i + 1;
    }
    let t = slice_of(s, i, s.len());
    assert(t@ =~= s@.skip(i as int));
    let mut j: usize = t.len();
    assert(t@.take(t.len() as int) =~= t@);
    while j > 0 && is_whitespace(t[j - 1])
        invariant
            j <= t@.len(),
            trim_ws_end(t@) == trim_ws_end(t@.take(j as int)),
        decreases j,
    {
        assert(t@.take(j as int).drop_last() =~= t@.take(j as int - 1));
        j = j - 1;
    }
    let r = slice_of(t.as_slice(), 0, j);
    assert(r@ =~= t@.take(j as int));
    r
}

/// Strict lexicographic order of character sequences by code point
/// (the order of `String` comparison, since UTF-8 keeps code point order).
pub open spec fn seq_lt(a: Seq<char>, b: Seq<char>) -> bool
    decreases a.len(),
{
    if b.len() == 0 {
        false
    } else if a.len() == 0 {
        true
    } else if (a[0] as int) < (b[0] as int) {
        true
    } else if a[0] == b[0] {
        seq_lt(a.drop_first(), b.drop_first())
    } else {
        false
    }
}

pub proof fn lemma_seq_lt_irrefl(a: Seq<char>)
    ensures
        !seq_lt(a, a),
    decreases a.len(),
{
    if a.len() > 0 {
        lemma_seq_lt_irrefl(a.drop_first());
    }
}

pub proof fn lemma_seq_lt_trans(a: Seq<char>, b: Seq<char>, c: Seq<char>)
    requires
        seq_lt(a, b),
        seq_lt(b, c),
    ensures
        seq_lt(a, c),
    decreases a.len(),
{
    if a.len() > 0 && b.len() > 0 && c.len() > 0 && a[0] == b[0] && b[0] == c[0] {
        lemma_seq_lt_trans(a.drop_first(), b.drop_first(), c.drop_first());
    }
}

pub proof fn lemma_seq_lt_total(a: Seq<char>, b: Seq<char>)
    ensures
        a == b || seq_lt(a, b) || seq_lt(b, a),
    decreases a.len(),
{
    if a.len() > 0 && b.len() > 0 && a[0] == b[0] {
        lemma_seq_lt_total(a.drop_first(), b.drop_first());
        if a.drop_first() == b.drop_first() {
            assert(a.drop_first().len() == b.drop_first().len());
            assert(a.len() == b.len());
            assert forall|i: int| 0 <= i < a.len() implies a[i] == b[i] by {
                if i > 0 {
                    assert(a[i] == a.drop_first()[i - 1]);
                    assert(b[i] == b.drop_first()[i - 1]);
                }
            }
            assert(a =~= b);
        }
    } else if a.len() > 0 && b.len() > 0 && a[0] != b[0] {
        assert((a[0] as int) != (b[0] as int));
    } else if a.len() == 0 && b.len() == 0 {
        assert(a =~= b);
    }
}

pub proof fn lemma_seq_lt_asym(a: Seq<char>, b: Seq<char>)
    requires
        seq_lt(a, b),
    ensures
        !seq_lt(b, a),
        a != b,
{
    lemma_seq_lt_irrefl(a);
    if seq_lt(b, a) {
        lemma_seq_lt_trans(a, b, a);
    }
}

/// Strict lexicographic comparison of two character slices.
pub fn chars_lt(a: &[char], b: &[char]) -> (r: bool)
    ensures
        r == seq_lt(a@, b@),
{
    let mut i: usize = 0;
    assert(a@.skip(0) =~= a@);
    assert(b@.skip(0) =~= b@);
    while i < a.len() && i < b.len()
        invariant
            i <= a.len(),
            i <= b.len(),
            seq_lt(a@, b@) == seq_lt(a@.skip(i as int), b@.skip(i as int)),
        decreases a.len() - i,
    {
        let x = a[i];
        let y = b[i];
        assert(a@.skip(i as int)[0] == x);
        assert(b@.skip(i as int)[0] == y);
        if x < y {
            assert((x as int) < (y as int));
            return true;
        }
        if x != y {
            return false;
        }
        assert(a@.skip(i as int).drop_first() =~= a@.skip(i as int + 1));
        assert(b@.skip(i as int).drop_first() =~= b@.skip(i as int + 1));
        i = i + 1;
    }
    i == a.len() && i < b.len()
}

} // verus!
