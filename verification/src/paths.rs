//! Slash-separated path helpers with the meaning of `std::path::Path` on Unix:
//! file name, extension and stem of the last component.
use vstd::prelude::*;
use crate::text::{trim_end, last_index_of, lemma_last_index_of, trim_end_char, rfind, slice_of, chars_eq_str};

verus! {

/// `['.']`
pub open spec fn dot() -> Seq<char> {
    seq!['.']
}

/// `['.', '.']`
pub open spec fn dot_dot() -> Seq<char> {
    seq!['.', '.']
}

/// The last component of a path, as `Path::file_name` gives it: trailing
/// separators and `.` components are skipped, and a last component `..`
/// (or no component at all) gives `None`.
pub open spec fn file_name(p: Seq<char>) -> Option<Seq<char>>
    decreases p.len(),
{
    let q = trim_end(p, '/');
    if q.len() == 0 || q.len() > p.len() {
        None
    } else {
        match last_index_of(q, '/') {
            Some(i) => {
                let last = q.skip(i + 1);
                if last == dot() {
                    if 0 <= i < q.len() {
                        file_name(q.take(i))
                    } else {
                        None
                    }
                } else if last == dot_dot() {
                    None
                } else {
                    Some(last)
                }
            },
            None => {
                if q == dot() || q == dot_dot() {
                    None
                } else {
                    Some(q)
                }
            },
        }
    }
}

/// The extension of a file name: what follows its last `.`, when that dot is not its first character.
pub open spec fn name_extension(name: Seq<char>) -> Option<Seq<char>> {
    match last_index_of(name, '.') {
        Some(i) => if i > 0 { Some(name.skip(i + 1)) } else { None },
        None => None,
    }
}

/// The stem of a file name: what precedes its last `.`, or the whole name.
pub open spec fn name_stem(name: Seq<char>) -> Seq<char> {
    match last_index_of(name, '.') {
        Some(i) => if i > 0 { name.take(i) } else { name },
        None => name,
    }
}

/// `Path::extension`.
pub open spec fn extension(p: Seq<char>) -> Option<Seq<char>> {
    match file_name(p) {
        Some(n) => name_extension(n),
        None => None,
    }
}

/// `Path::file_stem`.
pub open spec fn file_stem(p: Seq<char>) -> Option<Seq<char>> {
    match file_name(p) {
        Some(n) => Some(name_stem(n)),
        None => None,
    }
}

/// `last_index_of` gives the one occurrence after which `c` no longer occurs.
proof fn lemma_last_index_is(s: Seq<char>, c: char, k: int)
    requires
        0 <= k < s.len(),
        s[k] == c,
        forall|j: int| k < j < s.len() ==> s[j] != c,
    ensures
        last_index_of(s, c) == Some(k),
{
    lemma_last_index_of(s, c);
}

/// A path made of a directory part (empty or ending in `/`), a non-empty stem without `/`,
/// a dot and a non-empty extension without `.` or `/` has that extension.
pub proof fn lemma_extension_of_file_path(dir: Seq<char>, stem: Seq<char>, ext: Seq<char>)
    requires
        dir.len() == 0 || dir.last() == '/',
        stem.len() > 0,
        forall|k: int| 0 <= k < stem.len() ==> stem[k] != '/',
        ext.len() > 0,
        forall|k: int| 0 <= k < ext.len() ==> ext[k] != '/' && ext[k] != '.',
    ensures
        extension(dir + stem + dot() + ext) == Some(ext),
{
    let name = stem + dot() + ext;
    let p = dir + name;
    assert(p =~= dir + stem + dot() + ext);
    assert(p.last() == ext.last());
    assert(trim_end(p, '/') == p);
    assert forall|j: int| dir.len() <= j < p.len() implies p[j] != '/' by {
        if j < dir.len() + stem.len() {
            assert(p[j] == stem[j - dir.len()]);
        } else if j == dir.len() + stem.len() {
            assert(p[j] == '.');
        } else {
            assert(p[j] == ext[j - dir.len() - stem.len() - 1]);
        }
    }
    if dir.len() > 0 {
        lemma_last_index_is(p, '/', dir.len() - 1);
        assert(p.skip(dir.len() as int) =~= name);
    } else {
        assert(p =~= name);
        lemma_last_index_of(p, '/');
    }
    assert(name.len() >= 3 && name != dot() && name != dot_dot());
    assert(file_name(p) == Some(name));
    lemma_last_index_is(name, '.', stem.len() as int);
    assert(name.skip(stem.len() + 1 as int) =~= ext);
}

proof fn lemma_trim_end_len(s: Seq<char>, c: char)
    ensures
        trim_end(s, c).len() <= s.len(),
        trim_end(s, c) == s.take(trim_end(s, c).len() as int),
        trim_end(s, c).len() == 0 || trim_end(s, c).last() != c,
    decreases s.len(),
{
    if s.len() > 0 && s.last() == c {
        lemma_trim_end_len(s.drop_last(), c);
        assert(s.drop_last().take(trim_end(s, c).len() as int) =~= s.take(trim_end(s, c).len() as int));
    } else {
        assert(s.take(s.len() as int) =~= s);
    }
}

/// `Path::file_name` of a slash-separated path.
pub fn file_name_of(p: &[char]) -> (r: Option<Vec<char>>)
    ensures
        match r {
            Some(v) => file_name(p@) == Some(v@),
            None => file_name(p@) is None,
        },
    decreases p.len(),
{
    let q = trim_end_char(p, '/');
    proof {
        lemma_trim_end_len(p@, '/');
    }
    if q.len() == 0 {
        return None;
    }
    match rfind(q.as_slice(), '/') {
        Some(i) => {
            proof {
                lemma_last_index_of(q@, '/');
            }
            let last = slice_of(q.as_slice(), i + 1, q.len());
            assert(last@ =~= q@.skip(i + 1));
            if chars_eq_str(last.as_slice(), ".") {
                proof {
                    reveal_strlit(".");
                    assert("."@ =~= dot());
                }
                assert(last@ == dot());
                let head = slice_of(q.as_slice(), 0, i);
                assert(head@ =~= q@.take(i as int));
                file_name_of(head.as_slice())
            } else if chars_eq_str(last.as_slice(), "..") {
                proof {
                    reveal_strlit("..");
                    assert(".."@ =~= dot_dot());
                }
                assert(last@ == dot_dot());
                None
            } else {
                proof {
                    reveal_strlit(".");
                    reveal_strlit("..");
                    assert("."@ =~= dot());
                    assert(".."@ =~= dot_dot());
                }
                Some(last)
            }
        },
        None => {
            proof {
                reveal_strlit(".");
                reveal_strlit("..");
                assert("."@ =~= dot());
                assert(".."@ =~= dot_dot());
            }
            if chars_eq_str(q.as_slice(), ".") || chars_eq_str(q.as_slice(), "..") {
                None
            } else {
                Some(q)
            }
        },
    }
}

/// The extension of a file name.
pub fn name_extension_of(name: &[char]) -> (r: Option<Vec<char>>)
    ensures
        match r {
            Some(v) => name_extension(name@) == Some(v@),
            None => name_extension(name@) is None,
        },
{
    match rfind(name, '.') {
        Some(i) => {
            proof {
                lemma_last_index_of(name@, '.');
            }
            assert(i < name.len());
            if i > 0 {
                let e = slice_of(name, i + 1, name.len());
                assert(e@ =~= name@.skip(i + 1));
                Some(e)
            } else {
                None
            }
        },
        None => None,
    }
}

/// `Path::extension` of a slash-separated path.
pub fn extension_of(p: &[char]) -> (r: Option<Vec<char>>)
    ensures
        match r {
            Some(v) => extension(p@) == Some(v@),
            None => extension(p@) is None,
        },
{
    match file_name_of(p) {
        Some(n) => name_extension_of(n.as_slice()),
        None => None,
    }
}

/// `Path::file_stem` of a slash-separated path.
pub fn file_stem_of(p: &[char]) -> (r: Option<Vec<char>>)
    ensures
        match r {
            Some(v) => file_stem(p@) == Some(v@),
            None => file_stem(p@) is None,
        },
{
    match file_name_of(p) {
        Some(n) => {
            match rfind(n.as_slice(), '.') {
                Some(i) => {
                    proof {
                        lemma_last_index_of(n@, '.');
                    }
                    if i > 0 {
                        let s = slice_of(n.as_slice(), 0, i);
                        assert(s@ =~= n@.take(i as int));
                        Some(s)
                    } else {
                        Some(n)
                    }
                },
                None => Some(n),
            }
        },
        None => None,
    }
}

} // verus!
