//! The index of the images in the save directory, newest first, with the position of the
//! file currently shown.
use vstd::prelude::*;
use std::sync::Arc;
use crate::text::{chars_of, string_of, chars_eq, to_lower, join_strs};
use crate::paths::{extension, file_name, extension_of, file_name_of};
use crate::image_utils::{is_jpeg_or_heif_extension, lower_ext_is_jpeg_or_heif};
use crate::error::AppError;

verus! {

/// An indexed image. Times are milliseconds since the Unix epoch.
#[derive(Debug)]
pub struct FileInfo {
    pub path: String,
    pub filename: String,
    /// When the picture was taken, from its EXIF data.
    pub exif_time: Option<u64>,
    /// When the file was last modified.
    pub modified_time: u64,
    /// The time the index sorts by: the EXIF time when known, else the modification time.
    pub sort_time: u64,
}

/// What an indexed file holds: (path, filename, exif_time, modified_time, sort_time).
pub type FileView = (Seq<char>, Seq<char>, Option<u64>, u64, u64);

pub open spec fn info_view(f: FileInfo) -> FileView {
    (f.path@, f.filename@, f.exif_time, f.modified_time, f.sort_time)
}

pub open spec fn info_views(s: Seq<FileInfo>) -> Seq<FileView> {
    s.map_values(|f: FileInfo| info_view(f))
}

/// Newest first: sort times never increase along the sequence.
pub open spec fn newest_first(s: Seq<FileView>) -> bool {
    forall|i: int, j: int| 0 <= i < j < s.len() ==> s[i].4 >= s[j].4
}

/// No path occurs twice.
pub open spec fn distinct_paths(s: Seq<FileView>) -> bool {
    forall|i: int, j: int| 0 <= i < j < s.len() ==> s[i].0 != s[j].0
}

/// Where a file with sort time `t` is inserted: before the first file that is strictly
/// older, or at the end.
pub open spec fn insert_pos(s: Seq<FileView>, t: u64) -> int
    decreases s.len(),
{
    if s.len() == 0 {
        0
    } else if s[0].4 < t {
        0
    } else {
        1 + insert_pos(s.drop_first(), t)
    }
}

/// The position of the first file with path `p`.
pub open spec fn path_pos(s: Seq<FileView>, p: Seq<char>) -> Option<int>
    decreases s.len(),
{
    if s.len() == 0 {
        None
    } else if s[0].0 == p {
        Some(0)
    } else {
        match path_pos(s.drop_first(), p) {
            Some(i) => Some(i + 1),
            None => None,
        }
    }
}

/// The current index after a file is inserted at `pos`: it moves with the file it points to.
pub open spec fn current_after_insert(current: Option<usize>, pos: int) -> Option<int> {
    match current {
        Some(c) => if pos <= c { Some(c + 1) } else { Some(c as int) },
        None => None,
    }
}

/// The current index after the file at `pos` is removed by a client request, `new_len`
/// files remaining: a file before it moves it back by one; when the current file itself is
/// removed, the index stays (now on the next file) unless it fell off the end, where it
/// moves to the last file, or to none when no file is left.
pub open spec fn current_after_remove(current: Option<usize>, pos: int, new_len: int) -> Option<int> {
    match current {
        Some(c) => if pos < c {
            Some(c - 1)
        } else if pos == c {
            if new_len == 0 { None } else if c >= new_len { Some(new_len - 1) } else { Some(c as int) }
        } else {
            Some(c as int)
        },
        None => None,
    }
}

/// The current index after a missing file at `pos` is dropped, `new_len` files remaining:
/// as `current_after_remove`, except that an index left on an empty index is kept.
pub open spec fn current_after_missing(current: Option<usize>, pos: int, new_len: int) -> Option<int> {
    match current {
        Some(c) => if pos < c {
            Some(c - 1)
        } else if pos == c && c >= new_len && new_len > 0 {
            Some(new_len - 1)
        } else {
            Some(c as int)
        },
        None => None,
    }
}

pub open spec fn opt_int(o: Option<usize>) -> Option<int> {
    match o {
        Some(c) => Some(c as int),
        None => None,
    }
}

/// A path the index holds: a JPEG or HEIF image.
pub open spec fn is_indexed_image(p: Seq<char>) -> bool {
    match extension(p) {
        Some(e) => is_jpeg_or_heif_extension(e),
        None => false,
    }
}

/// Whether the index takes a file: its extension is jpg, jpeg, heif, hif or heic,
/// whatever its case.
pub fn is_supported_image(path: &str) -> (r: bool)
    ensures
        r == is_indexed_image(path@),
{
    match extension_of(chars_of(path).as_slice()) {
        Some(e) => {
            let l = to_lower(e.as_slice());
            lower_ext_is_jpeg_or_heif(l.as_slice())
        },
        None => false,
    }
}

/// The index entry of the image at `path`, modified at `modified_time` and taken at
/// `exif_time` when its EXIF data says so: it sorts by the EXIF time when known; its name
/// is the last component of its path, or `unknown`.
pub fn file_info_for(path: &str, modified_time: u64, exif_time: Option<u64>) -> (f: FileInfo)
    ensures
        f.path@ == path@,
        f.filename@ == match file_name(path@) {
            Some(n) => n,
            None => "unknown"@,
        },
        f.exif_time == exif_time,
        f.modified_time == modified_time,
        f.sort_time == match exif_time {
            Some(t) => t,
            None => modified_time,
        },
{
    let filename = match file_name_of(chars_of(path).as_slice()) {
        Some(n) => string_of(n.as_slice()),
        None => "unknown".to_string(),
    };
    let sort_time = match exif_time {
        Some(t) => t,
        None => modified_time,
    };
    FileInfo { path: path.to_string(), filename, exif_time, modified_time, sort_time }
}

fn clone_info(f: &FileInfo) -> (r: FileInfo)
    ensures
        info_view(r) == info_view(*f),
{
    FileInfo {
        path: f.path.clone(),
        filename: f.filename.clone(),
        exif_time: f.exif_time,
        modified_time: f.modified_time,
        sort_time: f.sort_time,
    }
}

fn clone_infos(v: &Vec<FileInfo>) -> (r: Vec<FileInfo>)
    ensures
        info_views(r@) == info_views(v@),
{
    let mut r: Vec<FileInfo> = Vec::new();
    let mut i: usize = 0;
    while i < v.len()
        invariant
            i <= v@.len(),
            info_views(r@) == info_views(v@).take(i as int),
        decreases v.len() - i,
    {
        let ghost before = info_views(r@);
        r.push(clone_info(&v[i]));
        assert(info_views(r@) =~= before.push(info_view(v@[i as int])));
        assert(info_views(v@).take(i + 1) =~= info_views(v@).take(i as int).push(info_view(v@[i as int])));
        i = i + 1;
    }
    assert(info_views(v@).take(v@.len() as int) =~= info_views(v@));
    r
}

/// The image index: its files newest first, and the position of the file shown.
#[derive(Debug)]
pub struct FileIndex {
    pub files: Vec<FileInfo>,
    /// A snapshot of `files` handed to readers; `refresh_arc` brings it up to date.
    pub files_arc: Arc<Vec<FileInfo>>,
    pub current_index: Option<usize>,
}

impl FileIndex {
    pub open spec fn view(&self) -> Seq<FileView> {
        info_views(self.files@)
    }

    /// The files are newest first and the current index is at most their number.
    pub open spec fn wf(&self) -> bool {
        &&& newest_first(self.view())
        &&& match self.current_index {
            Some(c) => c <= self.files@.len(),
            None => true,
        }
    }

    /// An empty index.
    pub fn new() -> (r: Self)
        ensures
            r.wf(),
            r.view() == Seq::<FileView>::empty(),
            r.files_arc@.len() == 0,
            r.current_index is None,
    {
        let r = FileIndex { files: Vec::new(), files_arc: Arc::new(Vec::new()), current_index: None };
        assert(r.view() =~= Seq::<FileView>::empty());
        r
    }

    /// Brings the snapshot up to date with the files.
    pub fn refresh_arc(&mut self)
        ensures
            info_views(final(self).files_arc@) == old(self).view(),
            final(self).files@ == old(self).files@,
            final(self).current_index == old(self).current_index,
    {
        self.files_arc = Arc::new(clone_infos(&self.files));
    }

    /// The position of the first file with path `path`.
    pub fn find_file_index(&self, path: &str) -> (r: Option<usize>)
        ensures
            opt_int(r) == path_pos(self.view(), path@),
    {
        let key = chars_of(path);
        let mut i: usize = 0;
        assert(self.view().skip(0) =~= self.view());
        while i < self.files.len()
            invariant
                i <= self.files@.len(),
                key@ == path@,
                path_pos(self.view(), path@) == shift_pos(path_pos(self.view().skip(i as int), path@), i as int),
            decreases self.files.len() - i,
        {
            proof {
                lemma_path_pos_step(self.view().skip(i as int), path@);
                assert(self.view().skip(i as int).drop_first() =~= self.view().skip(i + 1));
                assert(self.view().skip(i as int)[0] == info_view(self.files@[i as int]));
            }
            if chars_eq(chars_of(self.files[i].path.as_str()).as_slice(), key.as_slice()) {
                return Some(i);
            }
            i = i + 1;
        }
        assert(self.view().skip(i as int).len() == 0);
        None
    }

    /// The newest file.
    pub fn latest_file(&self) -> (r: Option<FileInfo>)
        ensures
            match r {
                Some(f) => self.view().len() > 0 && info_view(f) == self.view()[0],
                None => self.view().len() == 0,
            },
    {
        if self.files.len() == 0 {
            None
        } else {
            Some(clone_info(&self.files[0]))
        }
    }

    /// The file at `index`.
    pub fn get_file_at_index(&self, index: usize) -> (r: Result<FileInfo, AppError>)
        ensures
            index < self.view().len() ==> (r matches Ok(f) && info_view(f) == self.view()[index as int]),
            index >= self.view().len() ==> (r matches Err(AppError::Other(m)) && m@ == "Index out of bounds"@),
    {
        if index >= self.files.len() {
            return Err(AppError::Other("Index out of bounds".to_string()));
        }
        Ok(clone_info(&self.files[index]))
    }
}

pub open spec fn shift_pos(p: Option<int>, k: int) -> Option<int> {
    match p {
        Some(i) => Some(i + k),
        None => None,
    }
}

proof fn lemma_path_pos_step(s: Seq<FileView>, p: Seq<char>)
    requires
        s.len() > 0,
    ensures
        path_pos(s, p) == if s[0].0 == p { Some(0int) } else { shift_pos(path_pos(s.drop_first(), p), 1) },
{
}


proof fn lemma_insert_pos_step(s: Seq<FileView>, i: int, t: u64)
    requires
        0 <= i < s.len(),
    ensures
        insert_pos(s.skip(i), t) == if s[i].4 < t { 0 } else { 1 + insert_pos(s.skip(i + 1), t) },
{
    assert(s.skip(i).drop_first() =~= s.skip(i + 1));
}

proof fn lemma_insert_pos_bounds(s: Seq<FileView>, t: u64)
    ensures
        0 <= insert_pos(s, t) <= s.len(),
        forall|j: int| 0 <= j < insert_pos(s, t) ==> s[j].4 >= t,
        insert_pos(s, t) < s.len() ==> s[insert_pos(s, t)].4 < t,
    decreases s.len(),
{
    if s.len() > 0 && s[0].4 >= t {
        lemma_insert_pos_bounds(s.drop_first(), t);
        assert forall|j: int| 0 <= j < insert_pos(s, t) implies s[j].4 >= t by {
            if j > 0 {
                assert(s[j] == s.drop_first()[j - 1]);
            }
        }
    }
}

/// Inserting a file where `insert_pos` puts it keeps a newest-first sequence newest first.
pub proof fn lemma_insert_keeps_newest_first(s: Seq<FileView>, v: FileView)
    requires
        newest_first(s),
    ensures
        newest_first(s.insert(insert_pos(s, v.4), v)),
{
    let p = insert_pos(s, v.4);
    lemma_insert_pos_bounds(s, v.4);
    let r = s.insert(p, v);
    assert forall|i: int, j: int| 0 <= i < j < r.len() implies r[i].4 >= r[j].4 by {
        if j < p {
        } else if j == p {
            assert(r[i] == s[i]);
        } else if i < p {
            assert(r[j] == s[j - 1]);
            assert(s[i].4 >= s[p].4 || p >= s.len());
        } else if i == p {
            assert(r[j] == s[j - 1]);
            assert(s[p].4 >= s[j - 1].4);
        } else {
            assert(r[i] == s[i - 1]);
            assert(r[j] == s[j - 1]);
        }
    }
}

/// The current file stays current when a file is inserted: the current index moves with it.
pub proof fn lemma_insert_keeps_current(s: Seq<FileView>, pos: int, v: FileView, current: usize)
    requires
        0 <= pos <= s.len(),
        current < s.len(),
    ensures
        current_after_insert(Some(current), pos) matches Some(c)
            && s.insert(pos, v)[c] == s[current as int],
{
}

/// The current file stays current when another file is removed by a client request.
pub proof fn lemma_remove_keeps_current(s: Seq<FileView>, pos: int, current: usize)
    requires
        0 <= pos < s.len(),
        current < s.len(),
        pos != current,
    ensures
        current_after_remove(Some(current), pos, s.len() - 1) matches Some(c)
            && s.remove(pos)[c] == s[current as int],
{
}

/// A file that was added is removed again by its path: the files are back as they were.
pub proof fn lemma_remove_undoes_add(s: Seq<FileView>, v: FileView)
    requires
        path_pos(s, v.0) is None,
    ensures
        path_pos(s.insert(insert_pos(s, v.4), v), v.0) == Some(insert_pos(s, v.4)),
        s.insert(insert_pos(s, v.4), v).remove(insert_pos(s, v.4)) == s,
{
    let p = insert_pos(s, v.4);
    lemma_insert_pos_bounds(s, v.4);
    lemma_path_pos_none(s, v.0);
    lemma_path_pos_first(s.insert(p, v), v.0, p);
    assert(s.insert(p, v).remove(p) =~= s);
}

proof fn lemma_path_pos_none(s: Seq<FileView>, p: Seq<char>)
    ensures
        path_pos(s, p) is None <==> forall|i: int| 0 <= i < s.len() ==> s[i].0 != p,
    decreases s.len(),
{
    if s.len() > 0 {
        lemma_path_pos_none(s.drop_first(), p);
        if path_pos(s, p) is None {
            assert forall|i: int| 0 <= i < s.len() implies s[i].0 != p by {
                if i > 0 {
                    assert(s[i] == s.drop_first()[i - 1]);
                }
            }
        }
        if forall|i: int| 0 <= i < s.len() ==> s[i].0 != p {
            assert forall|i: int| 0 <= i < s.drop_first().len() implies s.drop_first()[i].0 != p by {
                assert(s.drop_first()[i] == s[i + 1]);
            }
        }
    }
}

proof fn lemma_path_pos_first(s: Seq<FileView>, p: Seq<char>, k: int)
    requires
        0 <= k < s.len(),
        s[k].0 == p,
        forall|i: int| 0 <= i < k ==> s[i].0 != p,
    ensures
        path_pos(s, p) == Some(k),
    decreases k,
{
    if k > 0 {
        lemma_path_pos_first(s.drop_first(), p, k - 1);
    }
}

proof fn lemma_path_pos_found(s: Seq<FileView>, p: Seq<char>)
    ensures
        match path_pos(s, p) {
            Some(k) => 0 <= k < s.len() && s[k].0 == p,
            None => true,
        },
    decreases s.len(),
{
    if s.len() > 0 {
        lemma_path_pos_found(s.drop_first(), p);
    }
}

/// The files after `add_file` offers file `v`: inserted where `insert_pos` puts it when it
/// is a JPEG or HEIF image whose path is not indexed yet; else unchanged.
pub open spec fn added_view(s: Seq<FileView>, v: FileView) -> Seq<FileView> {
    if is_indexed_image(v.0) && path_pos(s, v.0) is None {
        s.insert(insert_pos(s, v.4), v)
    } else {
        s
    }
}

/// The files after `add_file` offers the files `vs`, in order.
pub open spec fn added_views(s: Seq<FileView>, vs: Seq<FileView>) -> Seq<FileView>
    decreases vs.len(),
{
    if vs.len() == 0 {
        s
    } else {
        added_view(added_views(s, vs.drop_last()), vs.last())
    }
}

/// An added file sits after every file at least as new and before every older one; the
/// files stay newest first, and no path occurs twice.
pub proof fn lemma_add_places_file(s: Seq<FileView>, v: FileView)
    requires
        newest_first(s),
        distinct_paths(s),
    ensures
        newest_first(added_view(s, v)),
        distinct_paths(added_view(s, v)),
        (is_indexed_image(v.0) && path_pos(s, v.0) is None) ==> ({
            let p = insert_pos(s, v.4);
            let r = added_view(s, v);
            &&& 0 <= p < r.len() && r[p] == v
            &&& forall|j: int| 0 <= j < p ==> r[j].4 >= v.4
            &&& forall|j: int| p < j < r.len() ==> r[j].4 < v.4
        }),
{
    if is_indexed_image(v.0) && path_pos(s, v.0) is None {
        let p = insert_pos(s, v.4);
        lemma_insert_pos_bounds(s, v.4);
        lemma_insert_keeps_newest_first(s, v);
        lemma_path_pos_none(s, v.0);
        let r = s.insert(p, v);
        assert forall|j: int| p < j < r.len() implies r[j].4 < v.4 by {
            assert(r[j] == s[j - 1]);
            assert(s[p].4 < v.4);
            assert(s[p].4 >= s[j - 1].4);
        }
        assert forall|i: int, j: int| 0 <= i < j < r.len() implies r[i].0 != r[j].0 by {
            if i < p && j < p {
            } else if i < p && j == p {
                assert(r[i] == s[i]);
            } else if i < p {
                assert(r[i] == s[i]);
                assert(r[j] == s[j - 1]);
            } else if i == p {
                assert(r[j] == s[j - 1]);
            } else {
                assert(r[i] == s[i - 1]);
                assert(r[j] == s[j - 1]);
            }
        }
    }
}

/// Whatever files are offered to `add_file`, one after another, the index stays newest
/// first and no path occurs twice.
pub proof fn lemma_adds_keep_order_and_unique_paths(s: Seq<FileView>, vs: Seq<FileView>)
    requires
        newest_first(s),
        distinct_paths(s),
    ensures
        newest_first(added_views(s, vs)),
        distinct_paths(added_views(s, vs)),
    decreases vs.len(),
{
    if vs.len() > 0 {
        lemma_adds_keep_order_and_unique_paths(s, vs.drop_last());
        lemma_add_places_file(added_views(s, vs.drop_last()), vs.last());
    }
}

/// What a client's removal does to the viewed file. When another file is removed, the
/// same file stays current. When the viewed file itself is removed, the file that followed
/// it becomes current, at the same index; when it was the last file, the new last file
/// (the one before it) becomes current; when no file is left, none is.
pub proof fn lemma_remove_keeps_or_advances_current(s: Seq<FileView>, pos: int, c: usize)
    requires
        0 <= pos < s.len(),
        c < s.len(),
    ensures
        ({
            let t = s.remove(pos);
            let r = current_after_remove(Some(c), pos, t.len() as int);
            &&& pos < c ==> r == Some(c - 1) && t[c - 1] == s[c as int]
            &&& pos > c ==> r == Some(c as int) && t[c as int] == s[c as int]
            &&& pos == c && c < t.len() ==> r == Some(c as int) && t[c as int] == s[pos + 1]
            &&& pos == c && c == t.len() && t.len() > 0 ==> r == Some(c - 1) && t[c - 1] == s[pos - 1]
            &&& t.len() == 0 ==> r is None
        }),
{
}

/// What dropping a missing file does to the viewed file: as for a client's removal, the
/// same file stays current when another one goes, and the file that followed the viewed
/// one (or the new last file) becomes current when the viewed file itself goes; when no
/// file is left, the index is kept as it was.
pub proof fn lemma_missing_keeps_or_advances_current(s: Seq<FileView>, pos: int, c: usize)
    requires
        0 <= pos < s.len(),
        c < s.len(),
    ensures
        ({
            let t = s.remove(pos);
            let r = current_after_missing(Some(c), pos, t.len() as int);
            &&& pos < c ==> r == Some(c - 1) && t[c - 1] == s[c as int]
            &&& pos > c ==> r == Some(c as int) && t[c as int] == s[c as int]
            &&& pos == c && c < t.len() ==> r == Some(c as int) && t[c as int] == s[pos + 1]
            &&& pos == c && c == t.len() && t.len() > 0 ==> r == Some(c - 1) && t[c - 1] == s[pos - 1]
            &&& t.len() == 0 ==> r == Some(c as int)
        }),
{
}

/// Adjusts the current index after the file at `removed_pos` was dropped from the index,
/// `new_len` files remaining (see `current_after_missing`).
pub fn adjust_current_index_after_removal(current_index: &mut Option<usize>, removed_pos: usize, new_len: usize)
    ensures
        opt_int(*final(current_index)) == current_after_missing(*old(current_index), removed_pos as int, new_len as int),
{
    match *current_index {
        Some(current) => {
            if removed_pos < current {
                *current_index = Some(current - 1);
            } else if removed_pos == current && current >= new_len && new_len > 0 {
                *current_index = Some(new_len - 1);
            }
        },
        None => {},
    }
}

impl FileIndex {
    /// Adds an image to the index, in sorted position (before the first strictly older
    /// file), unless it is not a JPEG or HEIF image or its path is already indexed; the
    /// current index moves with the current file. Returns whether it was added.
    pub fn add_file(&mut self, info: FileInfo) -> (added: bool)
        requires
            old(self).wf(),
            old(self).files@.len() < usize::MAX,
        ensures
            final(self).wf(),
            added == (is_indexed_image(info.path@) && path_pos(old(self).view(), info.path@) is None),
            final(self).view() == added_view(old(self).view(), info_view(info)),
            added ==> final(self).view() == old(self).view().insert(insert_pos(old(self).view(), info.sort_time), info_view(info)),
            added ==> opt_int(final(self).current_index)
                == current_after_insert(old(self).current_index, insert_pos(old(self).view(), info.sort_time)),
            !added ==> final(self).view() == old(self).view() && final(self).current_index == old(self).current_index,
            final(self).files_arc == old(self).files_arc,
    {
        if !is_supported_image(info.path.as_str()) {
            return false;
        }
        if self.find_file_index(info.path.as_str()).is_some() {
            return false;
        }
        let ghost s = self.view();
        let t = info.sort_time;
        let pos = insert_position(&self.files, t);
        proof {
            lemma_insert_keeps_newest_first(s, info_view(info));
            lemma_insert_pos_bounds(s, t);
        }
        let ghost v = info_view(info);
        self.files.insert(pos, info);
        assert(self.view() =~= s.insert(pos as int, v));
        match self.current_index {
            Some(current) => {
                if pos <= current {
                    self.current_index = Some(current + 1);
                }
            },
            None => {},
        }
        true
    }

    /// Removes the first file with path `path` at a client's request; the current index
    /// follows `current_after_remove`. Returns whether a file was removed.
    pub fn remove_file(&mut self, path: &str) -> (removed: bool)
        requires
            old(self).wf(),
        ensures
            final(self).wf(),
            final(self).files_arc == old(self).files_arc,
            match path_pos(old(self).view(), path@) {
                Some(p) => removed && final(self).view() == old(self).view().remove(p)
                    && opt_int(final(self).current_index)
                        == current_after_remove(old(self).current_index, p, old(self).view().len() - 1),
                None => !removed && final(self).view() == old(self).view()
                    && final(self).current_index == old(self).current_index,
            },
    {
        let ghost s = self.view();
        match self.find_file_index(path) {
            None => false,
            Some(pos) => {
                proof {
                    lemma_path_pos_found(s, path@);
                }
                self.files.remove(pos);
                assert(self.view() =~= s.remove(pos as int));
                let new_len = self.files.len();
                match self.current_index {
                    Some(current) => {
                        if pos < current {
                            self.current_index = Some(current - 1);
                        } else if pos == current {
                            if new_len == 0 {
                                self.current_index = None;
                            } else if current >= new_len {
                                self.current_index = Some(new_len - 1);
                            }
                        }
                    },
                    None => {},
                }
                true
            },
        }
    }

    /// Drops the first file with path `path` from the index after it was found missing on
    /// disk; the current index follows `current_after_missing`.
    pub fn remove_missing_file(&mut self, path: &str)
        requires
            old(self).wf(),
        ensures
            final(self).wf(),
            final(self).files_arc == old(self).files_arc,
            match path_pos(old(self).view(), path@) {
                Some(p) => final(self).view() == old(self).view().remove(p)
                    && opt_int(final(self).current_index)
                        == current_after_missing(old(self).current_index, p, old(self).view().len() - 1),
                None => final(self).view() == old(self).view()
                    && final(self).current_index == old(self).current_index,
            },
    {
        let ghost s = self.view();
        match self.find_file_index(path) {
            None => {},
            Some(pos) => {
                proof {
                    lemma_path_pos_found(s, path@);
                }
                self.files.remove(pos);
                assert(self.view() =~= s.remove(pos as int));
                let new_len = self.files.len();
                adjust_current_index_after_removal(&mut self.current_index, pos, new_len);
            },
        }
    }

    /// Makes the file at `new_index` the current one, given whether that file still
    /// exists on disk: an index past the end is refused; a missing file is dropped from the
    /// index (see `remove_missing_file`) and reported.
    pub fn navigate_to(&mut self, new_index: usize, file_exists: bool) -> (r: Result<FileInfo, AppError>)
        requires
            old(self).wf(),
        ensures
            final(self).wf(),
            final(self).files_arc == old(self).files_arc,
            new_index >= old(self).view().len() ==> (r matches Err(AppError::Other(m)) && m@ == "Index out of bounds"@)
                && final(self).view() == old(self).view() && final(self).current_index == old(self).current_index,
            new_index < old(self).view().len() && !file_exists ==> ({
                let p = old(self).view()[new_index as int].0;
                &&& r matches Err(AppError::Other(m)) && m@ == "File not found: "@ + p
                &&& path_pos(old(self).view(), p) matches Some(k)
                &&& final(self).view() == old(self).view().remove(k)
                &&& opt_int(final(self).current_index)
                        == current_after_missing(old(self).current_index, k, old(self).view().len() - 1)
            }),
            new_index < old(self).view().len() && file_exists ==> (r matches Ok(f)
                && info_view(f) == old(self).view()[new_index as int])
                && final(self).view() == old(self).view() && final(self).current_index == Some(new_index),
    {
        let info = match self.get_file_at_index(new_index) {
            Ok(f) => f,
            Err(e) => {
                return Err(e);
            },
        };
        if !file_exists {
            let ghost s = self.view();
            proof {
                lemma_path_pos_none(s, info.path@);
                lemma_path_pos_found(s, info.path@);
            }
            self.remove_missing_file(info.path.as_str());
            return Err(AppError::Other(join_strs("File not found: ", info.path.as_str())));
        }
        self.current_index = Some(new_index);
        Ok(info)
    }
}


fn insert_position(files: &Vec<FileInfo>, t: u64) -> (pos: usize)
    ensures
        pos == insert_pos(info_views(files@), t),
{
    let ghost s = info_views(files@);
    let mut pos: usize = 0;
    assert(s.skip(0) =~= s);
    while pos < files.len()
        invariant
            s == info_views(files@),
            pos <= s.len(),
            insert_pos(s, t) == pos + insert_pos(s.skip(pos as int), t),
        ensures
            insert_pos(s, t) == pos,
        decreases files.len() - pos,
    {
        proof {
            lemma_insert_pos_step(s, pos as int, t);
            assert(s[pos as int].4 == files@[pos as int].sort_time);
        }
        if files[pos].sort_time < t {
            break;
        }
        pos = pos + 1;
    }
    pos
}

/// The order a scan puts files in: each file, in the order found, inserted where
/// `insert_pos` puts it, so that files are newest first and files of equal time keep the
/// order in which they were found.
pub open spec fn scan_order(s: Seq<FileView>) -> Seq<FileView>
    decreases s.len(),
{
    if s.len() == 0 {
        Seq::empty()
    } else {
        let r = scan_order(s.drop_last());
        r.insert(insert_pos(r, s.last().4), s.last())
    }
}

/// A scan's order is newest first and holds exactly the files found.
pub proof fn lemma_scan_order_sorted_permutation(s: Seq<FileView>)
    ensures
        newest_first(scan_order(s)),
        scan_order(s).to_multiset() == s.to_multiset(),
    decreases s.len(),
{
    broadcast use vstd::seq_lib::to_multiset_insert, vstd::seq_lib::to_multiset_build;
    if s.len() > 0 {
        let r = scan_order(s.drop_last());
        lemma_scan_order_sorted_permutation(s.drop_last());
        lemma_insert_keeps_newest_first(r, s.last());
        lemma_insert_pos_bounds(r, s.last().4);
        assert(s =~= s.drop_last().push(s.last()));
        assert(scan_order(s).to_multiset() == r.to_multiset().insert(s.last()));
        assert(s.to_multiset() == s.drop_last().to_multiset().insert(s.last()));
    } else {
        assert(s =~= Seq::<FileView>::empty());
        assert(scan_order(s) =~= Seq::<FileView>::empty());
    }
}

impl FileIndex {
    /// Replaces the files with those a scan of the save directory found, in scan order
    /// (`scan_order`); the first (newest) file becomes current, if there is one.
    pub fn set_scanned_files(&mut self, files: Vec<FileInfo>)
        ensures
            final(self).wf(),
            final(self).view() == scan_order(info_views(files@)),
            final(self).current_index == if files@.len() > 0 { Some(0usize) } else { None },
            final(self).files_arc == old(self).files_arc,
    {
        let ghost input = info_views(files@);
        let mut sorted: Vec<FileInfo> = Vec::new();
        let mut i: usize = 0;
        assert(info_views(sorted@) =~= Seq::<FileView>::empty());
        assert(input.take(0) =~= Seq::<FileView>::empty());
        while i < files.len()
            invariant
                input == info_views(files@),
                i <= files@.len(),
                sorted@.len() == i,
                info_views(sorted@) == scan_order(input.take(i as int)),
            decreases files.len() - i,
        {
            let ghost before = info_views(sorted@);
            let f = clone_info(&files[i]);
            let pos = insert_position(&sorted, f.sort_time);
            proof {
                lemma_insert_pos_bounds(before, f.sort_time);
                assert(input.take(i + 1).drop_last() =~= input.take(i as int));
                assert(input.take(i + 1).last() == info_view(f));
            }
            let ghost v = info_view(f);
            sorted.insert(pos, f);
            assert(info_views(sorted@) =~= before.insert(pos as int, v));
            i = i + 1;
        }
        assert(input.take(input.len() as int) =~= input);
        proof {
            lemma_scan_order_sorted_permutation(input);
        }
        self.current_index = if sorted.len() > 0 { Some(0) } else { None };
        self.files = sorted;
    }
}


/// A change in the save directory that the index follows.
#[derive(Debug, Clone)]
pub enum FileSystemEvent {
    Created(String),
    Deleted(String),
    Renamed { from: String, to: String },
}

/// The kind of a raw file system notification.
#[derive(Debug, Clone, Copy, PartialEq, Eq, Structural)]
pub enum WatchEventKind {
    Create,
    Modify,
    Remove,
    Other,
}

/// What a file system event holds: (0 created, 1 deleted, 2 renamed; path; renamed-to path).
pub type EventView = (u8, Seq<char>, Seq<char>);

pub open spec fn event_view(e: FileSystemEvent) -> EventView {
    match e {
        FileSystemEvent::Created(p) => (0u8, p@, Seq::empty()),
        FileSystemEvent::Deleted(p) => (1u8, p@, Seq::empty()),
        FileSystemEvent::Renamed { from, to } => (2u8, from@, to@),
    }
}

pub open spec fn event_views(v: Seq<FileSystemEvent>) -> Seq<EventView> {
    v.map_values(|e: FileSystemEvent| event_view(e))
}

/// The events the index follows for a raw notification about `paths`: a creation or a
/// removal of each indexed image, in order; for another notification about exactly two
/// paths, a rename when either is an indexed image; nothing for a modification.
pub open spec fn watch_events(kind: WatchEventKind, paths: Seq<Seq<char>>) -> Seq<EventView>
    decreases paths.len(),
{
    match kind {
        WatchEventKind::Create | WatchEventKind::Remove => if paths.len() == 0 {
            Seq::empty()
        } else {
            let rest = watch_events(kind, paths.drop_last());
            let p = paths.last();
            if is_indexed_image(p) {
                rest.push((if kind == WatchEventKind::Create { 0u8 } else { 1u8 }, p, Seq::empty()))
            } else {
                rest
            }
        },
        WatchEventKind::Modify => Seq::empty(),
        WatchEventKind::Other => if paths.len() == 2 && (is_indexed_image(paths[0]) || is_indexed_image(paths[1])) {
            seq![(2u8, paths[0], paths[1])]
        } else {
            Seq::empty()
        },
    }
}

/// The events the index follows for a raw notification (see `watch_events`).
pub fn file_system_events(kind: WatchEventKind, paths: &Vec<String>) -> (r: Vec<FileSystemEvent>)
    ensures
        event_views(r@) == watch_events(kind, crate::text::string_views(paths@)),
{
    let ghost ps = crate::text::string_views(paths@);
    let mut r: Vec<FileSystemEvent> = Vec::new();
    match kind {
        WatchEventKind::Create | WatchEventKind::Remove => {
            let mut i: usize = 0;
            assert(ps.take(0) =~= Seq::<Seq<char>>::empty());
            assert(event_views(r@) =~= Seq::<EventView>::empty());
            while i < paths.len()
                invariant
                    ps == crate::text::string_views(paths@),
                    kind == WatchEventKind::Create || kind == WatchEventKind::Remove,
                    i <= paths@.len(),
                    event_views(r@) == watch_events(kind, ps.take(i as int)),
                decreases paths.len() - i,
            {
                assert(ps.take(i + 1).drop_last() =~= ps.take(i as int));
                assert(ps.take(i + 1).last() == paths@[i as int]@);
                let p = &paths[i];
                if is_supported_image(p.as_str()) {
                    let ghost before = event_views(r@);
                    let e = if kind == WatchEventKind::Create {
                        FileSystemEvent::Created(p.clone())
                    } else {
                        FileSystemEvent::Deleted(p.clone())
                    };
                    r.push(e);
                    assert(event_views(r@) =~= before.push(event_view(e)));
                }
                i = i + 1;
            }
            assert(ps.take(ps.len() as int) =~= ps);
        },
        WatchEventKind::Modify => {
            assert(event_views(r@) =~= Seq::<EventView>::empty());
        },
        WatchEventKind::Other => {
            if paths.len() == 2 && (is_supported_image(paths[0].as_str()) || is_supported_image(paths[1].as_str())) {
                r.push(FileSystemEvent::Renamed { from: paths[0].clone(), to: paths[1].clone() });
                assert(event_views(r@) =~= seq![(2u8, ps[0], ps[1])]);
            } else {
                assert(event_views(r@) =~= Seq::<EventView>::empty());
            }
        },
    }
    r
}


/// A change the index makes for a file system event.
#[derive(Debug, Clone, PartialEq, Eq)]
pub enum IndexUpdate {
    /// Once the file is ready to read, add it.
    AddWhenReady(String),
    /// Remove the file, if indexed.
    Remove(String),
}

/// The changes the index makes for an event, in order: a created file is added once ready;
/// a deleted one removed; a renamed one removed under its old path, then added under the
/// new one once ready.
pub fn index_updates(event: FileSystemEvent) -> (r: Vec<IndexUpdate>)
    ensures
        match event {
            FileSystemEvent::Created(p) => r@ == seq![IndexUpdate::AddWhenReady(p)],
            FileSystemEvent::Deleted(p) => r@ == seq![IndexUpdate::Remove(p)],
            FileSystemEvent::Renamed { from, to } => r@ == seq![IndexUpdate::Remove(from), IndexUpdate::AddWhenReady(to)],
        },
{
    let mut r: Vec<IndexUpdate> = Vec::new();
    match event {
        FileSystemEvent::Created(p) => {
            r.push(IndexUpdate::AddWhenReady(p));
        },
        FileSystemEvent::Deleted(p) => {
            r.push(IndexUpdate::Remove(p));
        },
        FileSystemEvent::Renamed { from, to } => {
            r.push(IndexUpdate::Remove(from));
            r.push(IndexUpdate::AddWhenReady(to));
        },
    }
    r
}

} // verus!
