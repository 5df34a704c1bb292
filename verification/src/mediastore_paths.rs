//! Path rules of the MediaStore backend: normalization of FTP paths, the virtual roots
//! that FTP paths map to, the candidate MediaStore paths probed for a lookup, and the
//! directory an upload lands in.
use vstd::prelude::*;
use crate::text::{
    trim_start, trim_end, split, join, views, string_views, has_prefix, last_index_of, lemma_last_index_of,
    chars_of, string_of, split_char, join_char, trim_start_char, trim_end_char, chars_eq,
    chars_eq_str, starts_with, rfind, slice_of, concat,
};
use crate::mediastore::MediaStoreCollection;

verus! {

/// Default relative path for non-media file uploads.
pub const DOWNLOADS_RELATIVE_PATH: &'static str = "Download/CameraFTP/";

/// The component stack after one more path component: empty and `.` components change
/// nothing, `..` drops the last component (if any), anything else is pushed.
pub open spec fn push_component(stack: Seq<Seq<char>>, part: Seq<char>) -> Seq<Seq<char>> {
    if part.len() == 0 || part == "."@ {
        stack
    } else if part == ".."@ {
        if stack.len() > 0 { stack.drop_last() } else { stack }
    } else {
        stack.push(part)
    }
}

/// The components that remain after resolving `.` and `..` from left to right.
pub open spec fn resolve_components(parts: Seq<Seq<char>>) -> Seq<Seq<char>>
    decreases parts.len(),
{
    if parts.len() == 0 {
        Seq::empty()
    } else {
        push_component(resolve_components(parts.drop_last()), parts.last())
    }
}

/// A path without leading slashes and with `.` and `..` resolved, joined with `/`.
pub open spec fn normalized(p: Seq<char>) -> Seq<char> {
    join(resolve_components(split(trim_start(p, '/'), '/')), '/')
}

/// A component that survives resolution: not empty, not `.`, not `..`, without `/`.
pub open spec fn clean_component(part: Seq<char>) -> bool {
    &&& part.len() > 0
    &&& part != "."@
    &&& part != ".."@
    &&& crate::text::free_of(part, '/')
}

proof fn lemma_resolve_clean(parts: Seq<Seq<char>>)
    requires
        forall|k: int| 0 <= k < parts.len() ==> crate::text::free_of(#[trigger] parts[k], '/'),
    ensures
        forall|k: int| 0 <= k < resolve_components(parts).len() ==> clean_component(#[trigger] resolve_components(parts)[k]),
    decreases parts.len(),
{
    if parts.len() > 0 {
        let dl = parts.drop_last();
        assert forall|k: int| 0 <= k < dl.len() implies crate::text::free_of(#[trigger] dl[k], '/') by {
            assert(dl[k] == parts[k]);
        }
        lemma_resolve_clean(dl);
        let stack = resolve_components(dl);
        let part = parts.last();
        assert(crate::text::free_of(part, '/'));
        let r = resolve_components(parts);
        assert(r == push_component(stack, part));
        assert forall|k: int| 0 <= k < r.len() implies clean_component(#[trigger] r[k]) by {
            if part.len() == 0 || part == "."@ {
            } else if part == ".."@ {
                if stack.len() > 0 {
                    assert(r[k] == stack[k]);
                }
            } else {
                if k < stack.len() {
                    assert(r[k] == stack[k]);
                } else {
                    assert(r[k] == part);
                }
            }
        }
    }
}

proof fn lemma_resolve_identity(parts: Seq<Seq<char>>)
    requires
        forall|k: int| 0 <= k < parts.len() ==> clean_component(#[trigger] parts[k]),
    ensures
        resolve_components(parts) == parts,
    decreases parts.len(),
{
    if parts.len() > 0 {
        let dl = parts.drop_last();
        assert forall|k: int| 0 <= k < dl.len() implies clean_component(#[trigger] dl[k]) by {
            assert(dl[k] == parts[k]);
        }
        lemma_resolve_identity(dl);
        assert(clean_component(parts.last()));
        assert(dl.push(parts.last()) =~= parts);
    }
}

/// Normalizing a normalized path changes nothing.
pub proof fn lemma_normalized_idempotent(p: Seq<char>)
    ensures
        normalized(normalized(p)) == normalized(p),
{
    let parts = split(trim_start(p, '/'), '/');
    crate::text::lemma_split_parts_free(trim_start(p, '/'), '/');
    lemma_resolve_clean(parts);
    let cs = resolve_components(parts);
    let n = join(cs, '/');
    if cs.len() == 0 {
        assert(n == Seq::<char>::empty());
        assert(trim_start(n, '/') == n);
        crate::text::lemma_split_free(n, '/');
        let one = split(n, '/');
        assert(one.drop_last() =~= Seq::<Seq<char>>::empty());
        assert(resolve_components(one) == push_component(resolve_components(one.drop_last()), one.last()));
    } else {
        assert(clean_component(cs[0]));
        crate::text::lemma_join_first(cs, '/');
        assert(n[0] != '/');
        assert(trim_start(n, '/') == n);
        crate::text::lemma_split_join(cs, '/');
        lemma_resolve_identity(cs);
    }
}

fn normalize_chars(p: &[char]) -> (r: Vec<char>)
    ensures
        r@ == normalized(p@),
{
    let t = trim_start_char(p, '/');
    let parts = split_char(t.as_slice(), '/');
    let mut stack: Vec<Vec<char>> = Vec::new();
    let mut k: usize = 0;
    while k < parts.len()
        invariant
            k <= parts@.len(),
            views(stack@) == resolve_components(views(parts@).take(k as int)),
        decreases parts.len() - k,
    {
        let part = &parts[k];
        assert(views(parts@).take(k as int + 1).drop_last() =~= views(parts@).take(k as int));
        assert(views(parts@)[k as int] == part@);
        let ghost before = views(stack@);
        if part.len() == 0 || chars_eq_str(part.as_slice(), ".") {
        } else if chars_eq_str(part.as_slice(), "..") {
            if stack.len() > 0 {
                stack.pop();
                assert(views(stack@) =~= before.drop_last());
            }
        } else {
            stack.push(slice_of(part.as_slice(), 0, part.len()));
            assert(part@.subrange(0, part@.len() as int) =~= part@);
            assert(views(stack@) =~= before.push(part@));
        }
        k = k + 1;
    }
    assert(views(parts@).take(parts@.len() as int) =~= views(parts@));
    join_char(&stack, '/')
}

/// Normalizes a path by removing leading slashes and resolving "." and "..".
pub fn normalize_path(path: &str) -> (r: String)
    ensures
        r@ == normalized(path@),
{
    string_of(normalize_chars(chars_of(path).as_slice()).as_slice())
}

/// Whether a path names the FTP root.
pub fn is_root_path(path: &str) -> (r: bool)
    ensures
        r == (normalized(path@).len() == 0),
{
    normalize_chars(chars_of(path).as_slice()).len() == 0
}

/// Why a path is refused.
#[derive(Debug, Clone, Copy, PartialEq, Eq, Structural)]
pub enum PathViolation {
    /// The path contains a NUL character.
    NullByte,
    /// A component of the path is exactly `..`.
    Traversal,
}

/// The refusal (if any) of a client-supplied path: NUL characters first, then `..` components.
pub open spec fn path_violation(p: Seq<char>) -> Option<PathViolation> {
    if p.contains('\0') {
        Some(PathViolation::NullByte)
    } else if split(p, '/').contains(".."@) {
        Some(PathViolation::Traversal)
    } else {
        None
    }
}

/// Validates a path for security (prevents directory traversal attacks).
pub fn validate_path(path: &str) -> (r: Result<(), PathViolation>)
    ensures
        match r {
            Ok(()) => path_violation(path@) is None,
            Err(v) => path_violation(path@) == Some(v),
        },
{
    let p = chars_of(path);
    let mut i: usize = 0;
    while i < p.len()
        invariant
            p@ == path@,
            i <= p@.len(),
            forall|j: int| 0 <= j < i ==> p@[j] != '\0',
        decreases p.len() - i,
    {
        if p[i] == '\0' {
            assert(p@[i as int] == '\0');
            assert(path@.contains('\0'));
            return Err(PathViolation::NullByte);
        }
        i = i + 1;
    }
    assert(!p@.contains('\0'));
    let parts = split_char(p.as_slice(), '/');
    let mut k: usize = 0;
    while k < parts.len()
        invariant
            p@ == path@,
            !p@.contains('\0'),
            k <= parts@.len(),
            views(parts@) == split(p@, '/'),
            forall|j: int| 0 <= j < k ==> views(parts@)[j] != ".."@,
        decreases parts.len() - k,
    {
        assert(views(parts@)[k as int] == parts@[k as int]@);
        if chars_eq_str(parts[k].as_slice(), "..") {
            assert(split(p@, '/')[k as int] == ".."@);
            assert(split(path@, '/').contains(".."@));
            return Err(PathViolation::Traversal);
        }
        k = k + 1;
    }
    Ok(())
}

/// A virtual root as listed: no leading or trailing slashes, then one trailing slash.
pub open spec fn root_of(r: Seq<char>) -> Seq<char> {
    trim_end(trim_start(r, '/'), '/').push('/')
}

/// The virtual roots of a backend whose uploads go under `base`: the primary root, then
/// the downloads root unless it is the same.
pub open spec fn virtual_roots(base: Seq<char>) -> Seq<Seq<char>> {
    let p = root_of(base);
    let s = root_of(DOWNLOADS_RELATIVE_PATH@);
    if p == s { seq![p] } else { seq![p, s] }
}

fn root_chars(r: &[char]) -> (v: Vec<char>)
    ensures
        v@ == root_of(r@),
{
    let a = trim_start_char(r, '/');
    let mut b = trim_end_char(a.as_slice(), '/');
    b.push('/');
    b
}

/// The virtual roots, as character vectors.
fn roots_chars(base: &[char]) -> (v: Vec<Vec<char>>)
    ensures
        views(v@) == virtual_roots(base@),
{
    let p = root_chars(base);
    let s = root_chars(chars_of(DOWNLOADS_RELATIVE_PATH).as_slice());
    let mut v: Vec<Vec<char>> = Vec::new();
    if chars_eq(p.as_slice(), s.as_slice()) {
        v.push(p);
        assert(views(v@) =~= seq![root_of(base@)]);
    } else {
        v.push(p);
        v.push(s);
        assert(views(v@) =~= seq![root_of(base@), root_of(DOWNLOADS_RELATIVE_PATH@)]);
    }
    v
}

/// The virtual roots of a backend whose uploads go under `base_relative_path`.
pub fn listing_virtual_roots(base_relative_path: &str) -> (r: Vec<String>)
    ensures
        string_views(r@) == virtual_roots(base_relative_path@),
{
    let rc = roots_chars(chars_of(base_relative_path).as_slice());
    let mut r: Vec<String> = Vec::new();
    let mut k: usize = 0;
    while k < rc.len()
        invariant
            k <= rc@.len(),
            r@.len() == k,
            string_views(r@) == views(rc@).take(k as int),
        decreases rc.len() - k,
    {
        let s = string_of(rc[k].as_slice());
        let ghost before = r@;
        let ghost sv = s@;
        r.push(s);
        assert forall|i: int| 0 <= i < k + 1 implies #[trigger] string_views(r@)[i] == views(rc@).take(k as int + 1)[i] by {
            if i < k {
                assert(r@[i] == before[i]);
                assert(string_views(before)[i] == views(rc@).take(k as int)[i]);
            }
        }
        assert(string_views(r@) =~= views(rc@).take(k as int + 1));
        k = k + 1;
    }
    assert(views(rc@).take(rc@.len() as int) =~= views(rc@));
    r
}

/// A path equal to the root, or below it.
pub open spec fn within_root(path: Seq<char>, root: Seq<char>) -> bool {
    path == root || has_prefix(path, root.push('/'))
}

/// A path that names one of the roots explicitly (compared without the roots' trailing slash).
pub open spec fn names_root(path: Seq<char>, roots: Seq<Seq<char>>) -> bool {
    exists|i: int| 0 <= i < roots.len() && within_root(path, trim_end(roots[i], '/'))
}

fn within_root_chars(path: &[char], root: &[char]) -> (r: bool)
    ensures
        r == within_root(path@, root@),
{
    if chars_eq(path, root) {
        return true;
    }
    let mut rs = slice_of(root, 0, root.len());
    assert(rs@ =~= root@);
    rs.push('/');
    starts_with(path, rs.as_slice())
}

fn names_root_chars(path: &[char], roots: &Vec<Vec<char>>) -> (r: bool)
    ensures
        r == names_root(path@, views(roots@)),
{
    let mut k: usize = 0;
    while k < roots.len()
        invariant
            k <= roots@.len(),
            forall|j: int| 0 <= j < k ==> !within_root(path@, trim_end(views(roots@)[j], '/')),
        decreases roots.len() - k,
    {
        let t = trim_end_char(roots[k].as_slice(), '/');
        assert(views(roots@)[k as int] == roots@[k as int]@);
        if within_root_chars(path, t.as_slice()) {
            return true;
        }
        k = k + 1;
    }
    false
}

/// The MediaStore relative path an FTP path is stored under: paths that name a virtual
/// root explicitly are kept, all others go under `base`.
pub open spec fn resolved(base: Seq<char>, path: Seq<char>) -> Seq<char> {
    let n = normalized(path);
    if names_root(n, virtual_roots(base)) { n } else { base + n }
}

/// Resolves a user-provided path to the full relative path in MediaStore.
pub fn resolve_path(base_relative_path: &str, path: &str) -> (r: String)
    ensures
        r@ == resolved(base_relative_path@, path@),
{
    let base = chars_of(base_relative_path);
    let n = normalize_chars(chars_of(path).as_slice());
    let roots = roots_chars(base.as_slice());
    if names_root_chars(n.as_slice(), &roots) {
        string_of(n.as_slice())
    } else {
        string_of(concat(base.as_slice(), n.as_slice()).as_slice())
    }
}

/// A directory path with exactly one trailing slash, or empty for the empty path.
pub open spec fn as_dir(s: Seq<char>) -> Seq<char> {
    if s.len() == 0 { Seq::empty() } else { trim_end(s, '/').push('/') }
}

/// The MediaStore paths probed for an FTP path: the path itself when it names a virtual
/// root, else the path under each virtual root in order; directories get a trailing slash.
pub open spec fn candidates(base: Seq<char>, path: Seq<char>, for_directory: bool) -> Seq<Seq<char>> {
    let n = normalized(path);
    let ns = trim_start(n, '/');
    let roots = virtual_roots(base);
    if names_root(ns, roots) {
        if for_directory { seq![as_dir(ns)] } else { seq![ns] }
    } else {
        let suffix = if for_directory { as_dir(n) } else { trim_start(n, '/') };
        roots.map_values(|r: Seq<char>| r + suffix)
    }
}

fn as_dir_chars(s: &[char]) -> (r: Vec<char>)
    ensures
        r@ == as_dir(s@),
{
    if s.len() == 0 {
        let e: Vec<char> = Vec::new();
        assert(e@ =~= Seq::<char>::empty());
        e
    } else {
        let mut t = trim_end_char(s, '/');
        t.push('/');
        t
    }
}

fn virtual_path_candidates(base_relative_path: &str, path: &str, for_directory: bool) -> (r: Vec<String>)
    ensures
        string_views(r@) == candidates(base_relative_path@, path@, for_directory),
{
    let base = chars_of(base_relative_path);
    let n = normalize_chars(chars_of(path).as_slice());
    let ns = trim_start_char(n.as_slice(), '/');
    let roots = roots_chars(base.as_slice());
    let mut r: Vec<String> = Vec::new();
    if names_root_chars(ns.as_slice(), &roots) {
        if for_directory {
            r.push(string_of(as_dir_chars(ns.as_slice()).as_slice()));
        } else {
            r.push(string_of(ns.as_slice()));
        }
        assert(string_views(r@) =~= candidates(base_relative_path@, path@, for_directory));
        return r;
    }
    let suffix = if for_directory { as_dir_chars(n.as_slice()) } else { trim_start_char(n.as_slice(), '/') };
    let ghost want = candidates(base_relative_path@, path@, for_directory);
    let mut k: usize = 0;
    while k < roots.len()
        invariant
            k <= roots@.len(),
            want == views(roots@).map_values(|x: Seq<char>| x + suffix@),
            r@.len() == k,
            string_views(r@) == want.take(k as int),
        decreases roots.len() - k,
    {
        let c = concat(roots[k].as_slice(), suffix.as_slice());
        let ghost before = r@;
        r.push(string_of(c.as_slice()));
        assert forall|i: int| 0 <= i < k + 1 implies #[trigger] string_views(r@)[i] == want.take(k as int + 1)[i] by {
            if i < k {
                assert(r@[i] == before[i]);
                assert(string_views(before)[i] == want.take(k as int)[i]);
            } else {
                assert(views(roots@)[k as int] == roots@[k as int]@);
            }
        }
        assert(string_views(r@) =~= want.take(k as int + 1));
        k = k + 1;
    }
    assert(want.take(roots@.len() as int) =~= want);
    r
}

/// The MediaStore directory paths probed for an FTP directory path.
pub fn virtual_directory_candidates(base_relative_path: &str, path: &str) -> (r: Vec<String>)
    ensures
        string_views(r@) == candidates(base_relative_path@, path@, true),
{
    virtual_path_candidates(base_relative_path, path, true)
}

/// The MediaStore file paths probed for an FTP file path.
pub fn virtual_file_candidates(base_relative_path: &str, path: &str) -> (r: Vec<String>)
    ensures
        string_views(r@) == candidates(base_relative_path@, path@, false),
{
    virtual_path_candidates(base_relative_path, path, false)
}

/// The directory part (through its last slash) of what follows `base` in `rel`, or empty.
pub open spec fn subdir_below(rel: Seq<char>, base: Seq<char>) -> Seq<char> {
    if has_prefix(rel, base) {
        let rest = rel.skip(base.len() as int);
        match last_index_of(rest, '/') {
            Some(pos) => rest.take(pos + 1),
            None => Seq::empty(),
        }
    } else {
        Seq::empty()
    }
}

/// The directory an upload lands in: non-media uploads go under the downloads root
/// (keeping an explicit downloads path, or the virtual subdirectory below `base`);
/// media uploads keep their parent directory.
pub open spec fn upload_parent(
    collection: MediaStoreCollection,
    relative_path: Seq<char>,
    parent_path: Seq<char>,
    base: Seq<char>,
) -> Seq<char> {
    if collection == MediaStoreCollection::Downloads {
        if has_prefix(relative_path, DOWNLOADS_RELATIVE_PATH@) {
            parent_path
        } else {
            DOWNLOADS_RELATIVE_PATH@ + subdir_below(relative_path, base)
        }
    } else {
        parent_path
    }
}

/// A non-media upload below `base` (and not already under the downloads root) lands in
/// the downloads root followed by the whole directory part of its path below `base`: what
/// is kept ends with `/` (or is empty), and what is left of the path after it is the bare
/// file name, with no `/` in it, at any depth of nesting.
pub proof fn lemma_upload_parent_keeps_whole_subdirectory(
    relative_path: Seq<char>,
    parent_path: Seq<char>,
    base: Seq<char>,
)
    requires
        !has_prefix(relative_path, DOWNLOADS_RELATIVE_PATH@),
        has_prefix(relative_path, base),
    ensures
        ({
            let r = upload_parent(MediaStoreCollection::Downloads, relative_path, parent_path, base);
            let rest = relative_path.skip(base.len() as int);
            let kept = r.skip(DOWNLOADS_RELATIVE_PATH@.len() as int);
            &&& r == DOWNLOADS_RELATIVE_PATH@ + kept
            &&& kept.len() <= rest.len()
            &&& rest.take(kept.len() as int) == kept
            &&& kept.len() == 0 || kept.last() == '/'
            &&& forall|k: int| kept.len() <= k < rest.len() ==> rest[k] != '/'
        }),
{
    let rest = relative_path.skip(base.len() as int);
    lemma_last_index_of(rest, '/');
    let sub = subdir_below(relative_path, base);
    let r = upload_parent(MediaStoreCollection::Downloads, relative_path, parent_path, base);
    assert(r == DOWNLOADS_RELATIVE_PATH@ + sub);
    assert(r.skip(DOWNLOADS_RELATIVE_PATH@.len() as int) =~= sub);
}

/// A media upload (image, video, audio) keeps its own parent directory; so does a
/// non-media upload whose path is already under the downloads root; any other non-media
/// upload outside `base` lands in the downloads root itself.
pub proof fn lemma_upload_parent_other_cases(
    collection: MediaStoreCollection,
    relative_path: Seq<char>,
    parent_path: Seq<char>,
    base: Seq<char>,
)
    ensures
        collection != MediaStoreCollection::Downloads
            ==> upload_parent(collection, relative_path, parent_path, base) == parent_path,
        has_prefix(relative_path, DOWNLOADS_RELATIVE_PATH@)
            ==> upload_parent(collection, relative_path, parent_path, base) == parent_path,
        collection == MediaStoreCollection::Downloads && !has_prefix(relative_path, DOWNLOADS_RELATIVE_PATH@)
            && !has_prefix(relative_path, base)
            ==> upload_parent(collection, relative_path, parent_path, base) == DOWNLOADS_RELATIVE_PATH@,
{
    assert(DOWNLOADS_RELATIVE_PATH@ + Seq::<char>::empty() =~= DOWNLOADS_RELATIVE_PATH@);
}

/// The relative directory an upload is written to, by the collection it goes to.
pub fn effective_parent_path_for_upload(
    collection: MediaStoreCollection,
    relative_path: &str,
    parent_path: &str,
    base_relative_path: &str,
) -> (r: String)
    ensures
        r@ == upload_parent(collection, relative_path@, parent_path@, base_relative_path@),
{
    if collection == MediaStoreCollection::Downloads {
        let rel = chars_of(relative_path);
        let downloads = chars_of(DOWNLOADS_RELATIVE_PATH);
        if starts_with(rel.as_slice(), downloads.as_slice()) {
            return parent_path.to_string();
        }
        let base = chars_of(base_relative_path);
        let mut suffix: Vec<char> = Vec::new();
        if starts_with(rel.as_slice(), base.as_slice()) {
            let rest = slice_of(rel.as_slice(), base.len(), rel.len());
            assert(rest@ =~= rel@.skip(base@.len() as int));
            match rfind(rest.as_slice(), '/') {
                Some(pos) => {
                    proof {
                        lemma_last_index_of(rest@, '/');
                    }
                    suffix = slice_of(rest.as_slice(), 0, pos + 1);
                    assert(suffix@ =~= rest@.take(pos + 1));
                },
                None => {
                    assert(suffix@ =~= Seq::<char>::empty());
                },
            }
        } else {
            assert(suffix@ =~= Seq::<char>::empty());
        }
        string_of(concat(downloads.as_slice(), suffix.as_slice()).as_slice())
    } else {
        parent_path.to_string()
    }
}

} // verus!
