//! Directory listings of the MediaStore backend: the direct children of a directory
//! prefix, and the merge of the listings of several virtual roots into one, by name.
use vstd::prelude::*;
use crate::text::{
    trim_start, has_prefix, split, trim_ws, seq_lt, lemma_seq_lt_irrefl, lemma_seq_lt_trans,
    lemma_seq_lt_total, lemma_seq_lt_asym, chars_of, string_of, trim_start_char, starts_with,
    slice_of, split_char, trim_whitespace, chars_eq, chars_lt, views, string_views,
};
use crate::mediastore::{QueryResult, is_directory_entry};

verus! {

/// Metadata of a MediaStore entry as the FTP server sees it; `modified` is in
/// milliseconds since the Unix epoch.
#[derive(Debug)]
pub struct MediaStoreMetadata {
    /// File size in bytes.
    pub size: u64,
    /// Last modified time, in milliseconds since the Unix epoch.
    pub modified: u64,
    /// Whether this is a directory.
    pub is_dir: bool,
    /// MIME type.
    pub mime_type: String,
}

impl MediaStoreMetadata {
    /// The metadata of a query result.
    pub fn from_query(result: QueryResult) -> (m: Self)
        ensures
            m.size == result.size,
            m.modified == result.date_modified,
            m.is_dir == is_directory_entry(result.mime_type@, result.display_name@),
            m.mime_type@ == result.mime_type@,
    {
        let is_dir = result.is_directory();
        MediaStoreMetadata {
            size: result.size,
            modified: result.date_modified,
            is_dir,
            mime_type: result.mime_type,
        }
    }
}

impl MediaStoreMetadata {
    /// Size in bytes.
    pub fn len(&self) -> (r: u64)
        ensures
            r == self.size,
    {
        self.size
    }

    pub fn is_dir(&self) -> (r: bool)
        ensures
            r == self.is_dir,
    {
        self.is_dir
    }

    pub fn is_file(&self) -> (r: bool)
        ensures
            r == !self.is_dir,
    {
        !self.is_dir
    }

    /// MediaStore entries are never symbolic links.
    pub fn is_symlink(&self) -> (r: bool)
        ensures
            !r,
    {
        false
    }

    /// Last modified time, in milliseconds since the Unix epoch.
    pub fn modified_millis(&self) -> (r: u64)
        ensures
            r == self.modified,
    {
        self.modified
    }

    /// Group id: entries have none, so 0.
    pub fn gid(&self) -> (r: u32)
        ensures
            r == 0,
    {
        0
    }

    /// User id: entries have none, so 0.
    pub fn uid(&self) -> (r: u32)
        ensures
            r == 0,
    {
        0
    }
}

/// One entry of a directory listing: a name relative to the listed directory.
#[derive(Debug)]
pub struct DirEntry {
    pub name: String,
    pub metadata: MediaStoreMetadata,
}

/// What a listing entry holds: (name, size, modified, is_dir, MIME type).
pub type EntryView = (Seq<char>, u64, u64, bool, Seq<char>);

pub open spec fn entry_view(e: DirEntry) -> EntryView {
    (e.name@, e.metadata.size, e.metadata.modified, e.metadata.is_dir, e.metadata.mime_type@)
}

pub open spec fn entry_views(v: Seq<DirEntry>) -> Seq<EntryView> {
    v.map_values(|e: DirEntry| entry_view(e))
}

/// The entry that stands for a subdirectory seen only through the paths of its contents.
pub open spec fn dir_view(name: Seq<char>, modified: u64) -> EntryView {
    (name, 0u64, modified, true, "inode/directory"@)
}

/// The entry of a file, named `name`, for a query result.
pub open spec fn file_view(name: Seq<char>, r: QueryResult) -> EntryView {
    (name, r.size, r.date_modified, is_directory_entry(r.mime_type@, r.display_name@), r.mime_type@)
}

/// The direct child of the directory `prefix` that an entry stored under `rel` with
/// display name `display` shows up as: the entry itself (a file) when it sits directly in
/// the directory, else the (trimmed) first path segment below the directory (a subdirectory).
pub open spec fn child_of(prefix: Seq<char>, rel: Seq<char>, display: Seq<char>) -> Option<(Seq<char>, bool)> {
    let erp = trim_start(rel, '/');
    let dp = trim_start(prefix, '/');
    if !has_prefix(erp, dp) {
        None
    } else {
        let rem = erp.skip(dp.len() as int);
        if rem.len() == 0 {
            Some((display, false))
        } else {
            let c = trim_ws(split(rem, '/')[0]);
            if c.len() == 0 { None } else { Some((c, true)) }
        }
    }
}

proof fn lemma_split_nonempty(s: Seq<char>, c: char)
    ensures
        split(s, c).len() >= 1,
    decreases s.len(),
{
    crate::text::lemma_first_index_of(s, c);
    match crate::text::first_index_of(s, c) {
        Some(i) => {
            if 0 <= i < s.len() {
                lemma_split_nonempty(s.skip(i + 1), c);
            }
        },
        None => {},
    }
}

/// The direct child a query result shows up as in a listing of `directory_prefix`.
pub fn direct_child_name(directory_prefix: &str, entry: &QueryResult) -> (r: Option<(String, bool)>)
    ensures
        match r {
            Some(c) => child_of(directory_prefix@, entry.relative_path@, entry.display_name@) == Some((c.0@, c.1)),
            None => child_of(directory_prefix@, entry.relative_path@, entry.display_name@) is None,
        },
{
    let erp = trim_start_char(chars_of(entry.relative_path.as_str()).as_slice(), '/');
    let dp = trim_start_char(chars_of(directory_prefix).as_slice(), '/');
    if !starts_with(erp.as_slice(), dp.as_slice()) {
        return None;
    }
    let rem = slice_of(erp.as_slice(), dp.len(), erp.len());
    assert(rem@ =~= erp@.skip(dp@.len() as int));
    if rem.len() == 0 {
        return Some((entry.display_name.clone(), false));
    }
    let parts = split_char(rem.as_slice(), '/');
    proof {
        lemma_split_nonempty(rem@, '/');
    }
    assert(views(parts@)[0] == parts@[0]@);
    let c = trim_whitespace(parts[0].as_slice());
    if c.len() == 0 {
        None
    } else {
        Some((string_of(c.as_slice()), true))
    }
}

/// Keys strictly increasing.
pub open spec fn strictly_sorted(keys: Seq<Seq<char>>) -> bool {
    forall|i: int, j: int| 0 <= i < j < keys.len() ==> seq_lt(keys[i], keys[j])
}

pub open spec fn names_of(v: Seq<EntryView>) -> Seq<Seq<char>> {
    v.map_values(|e: EntryView| e.0)
}

/// A listing sorted by name, with one entry per name, holding exactly the map `m`.
pub open spec fn lists_map(v: Seq<EntryView>, m: Map<Seq<char>, EntryView>) -> bool {
    &&& strictly_sorted(names_of(v))
    &&& forall|i: int| 0 <= i < v.len() ==> #[trigger] m.dom().contains(v[i].0) && m[v[i].0] == v[i]
    &&& forall|n: Seq<char>| #[trigger] m.dom().contains(n) ==> exists|i: int| 0 <= i < v.len() && v[i].0 == n
}

proof fn lemma_lists_map_at(v: Seq<EntryView>, m: Map<Seq<char>, EntryView>, j: int)
    requires
        lists_map(v, m),
        0 <= j < v.len(),
    ensures
        m.dom().contains(v[j].0),
        m[v[j].0] == v[j],
{
    let e = v[j];
    assert(m.dom().contains(e.0));
    assert(m[e.0] == e);
}

proof fn lemma_sorted_at(v: Seq<EntryView>, a: int, b: int)
    requires
        strictly_sorted(names_of(v)),
        0 <= a < b < v.len(),
    ensures
        seq_lt(v[a].0, v[b].0),
{
    assert(names_of(v)[a] == v[a].0);
    assert(names_of(v)[b] == v[b].0);
}

/// The entry kept when `incoming` meets `existing` under the same name: two directories
/// merge into one with the later modification time, a directory wins over a file, and
/// between two files the existing one stays.
pub open spec fn combine(existing: EntryView, incoming: EntryView) -> EntryView {
    if existing.3 && incoming.3 {
        (existing.0, existing.1, if incoming.2 > existing.2 { incoming.2 } else { existing.2 }, existing.3, existing.4)
    } else if !existing.3 && incoming.3 {
        incoming
    } else {
        existing
    }
}

/// `m` after `e` is added under its name: it replaces an entry of that name when
/// `overwrite`, and is combined with it otherwise.
pub open spec fn upsert_map(m: Map<Seq<char>, EntryView>, e: EntryView, overwrite: bool) -> Map<Seq<char>, EntryView> {
    if m.dom().contains(e.0) && !overwrite {
        m.insert(e.0, combine(m[e.0], e))
    } else {
        m.insert(e.0, e)
    }
}

/// The subdirectories of a listing of `prefix`, by name, each with the latest
/// modification time among the entries below it.
pub open spec fn dir_map(prefix: Seq<char>, rs: Seq<QueryResult>) -> Map<Seq<char>, EntryView>
    decreases rs.len(),
{
    if rs.len() == 0 {
        Map::empty()
    } else {
        let m = dir_map(prefix, rs.drop_last());
        let e = rs.last();
        match child_of(prefix, e.relative_path@, e.display_name@) {
            Some(c) => if c.1 { upsert_map(m, dir_view(c.0, e.date_modified), false) } else { m },
            None => m,
        }
    }
}

/// The files directly in a listing of `prefix`, in query order.
pub open spec fn file_list(prefix: Seq<char>, rs: Seq<QueryResult>) -> Seq<EntryView>
    decreases rs.len(),
{
    if rs.len() == 0 {
        Seq::empty()
    } else {
        let f = file_list(prefix, rs.drop_last());
        let e = rs.last();
        match child_of(prefix, e.relative_path@, e.display_name@) {
            Some(c) => if !c.1 { f.push(file_view(c.0, e)) } else { f },
            None => f,
        }
    }
}

/// The map of a listing built from `v` entry by entry.
pub open spec fn fold_map(m: Map<Seq<char>, EntryView>, v: Seq<EntryView>, overwrite: bool) -> Map<Seq<char>, EntryView>
    decreases v.len(),
{
    if v.len() == 0 {
        m
    } else {
        upsert_map(fold_map(m, v.drop_last(), overwrite), v.last(), overwrite)
    }
}

/// The merged listing of two virtual roots, by name: the primary's entries (a later one
/// replacing an earlier one of the same name), then the secondary's combined into them.
pub open spec fn merged_map(primary: Seq<EntryView>, secondary: Seq<EntryView>) -> Map<Seq<char>, EntryView> {
    fold_map(fold_map(Map::empty(), primary, true), secondary, false)
}

fn clone_entry(e: &DirEntry) -> (r: DirEntry)
    ensures
        entry_view(r) == entry_view(*e),
{
    DirEntry {
        name: e.name.clone(),
        metadata: MediaStoreMetadata {
            size: e.metadata.size,
            modified: e.metadata.modified,
            is_dir: e.metadata.is_dir,
            mime_type: e.metadata.mime_type.clone(),
        },
    }
}

fn combine_entries(existing: &DirEntry, incoming: DirEntry) -> (r: DirEntry)
    ensures
        entry_view(r) == combine(entry_view(*existing), entry_view(incoming)),
{
    if existing.metadata.is_dir && incoming.metadata.is_dir {
        let mut r = clone_entry(existing);
        if incoming.metadata.modified > existing.metadata.modified {
            r.metadata.modified = incoming.metadata.modified;
        }
        r
    } else if !existing.metadata.is_dir && incoming.metadata.is_dir {
        incoming
    } else {
        clone_entry(existing)
    }
}

/// Adds `e` to a listing sorted by name.
fn upsert(v: &mut Vec<DirEntry>, e: DirEntry, overwrite: bool, Ghost(m): Ghost<Map<Seq<char>, EntryView>>)
    requires
        lists_map(entry_views(old(v)@), m),
    ensures
        lists_map(entry_views(final(v)@), upsert_map(m, entry_view(e), overwrite)),
{
    let ghost ev = entry_view(e);
    let ghost old_views = entry_views(v@);
    let key = chars_of(e.name.as_str());
    let mut i: usize = 0;
    while i < v.len()
        invariant
            old_views == entry_views(v@),
            lists_map(old_views, m),
            i <= v@.len(),
            key@ == ev.0,
            ev == entry_view(e),
            forall|j: int| 0 <= j < i ==> seq_lt(#[trigger] old_views[j].0, ev.0),
        ensures
            i < v@.len() ==> !seq_lt(old_views[i as int].0, ev.0),
        decreases v.len() - i,
    {
        let k = chars_of(v[i].name.as_str());
        assert(old_views[i as int].0 == k@);
        if !chars_lt(k.as_slice(), key.as_slice()) {
            break;
        }
        i = i + 1;
    }
    let ghost target = upsert_map(m, ev, overwrite);
    let same = i < v.len() && chars_eq(chars_of(v[i].name.as_str()).as_slice(), key.as_slice());
    proof {
        if i < v.len() {
            assert(old_views[i as int].0 == v@[i as int].name@);
        }
    }
    if same {
        assert(old_views[i as int].0 == ev.0);
        assert(m.dom().contains(ev.0));
        let existing = v.remove(i);
        let ghost exv = entry_view(existing);
        assert(exv == m[ev.0]);
        let newe = if overwrite { e } else { combine_entries(&existing, e) };
        assert(entry_view(newe).0 == ev.0);
        v.insert(i, newe);
        proof {
            let nv = entry_views(v@);
            assert(nv =~= old_views.update(i as int, entry_view(newe)));
            assert(target[ev.0] == entry_view(newe));
            assert(names_of(nv) =~= names_of(old_views));
            assert forall|n: Seq<char>| #[trigger] target.dom().contains(n) implies exists|j: int| 0 <= j < nv.len() && nv[j].0 == n by {
                if n != ev.0 {
                    assert(m.dom().contains(n));
                    let j = choose|j: int| 0 <= j < old_views.len() && old_views[j].0 == n;
                    assert(nv[j].0 == n);
                } else {
                    assert(nv[i as int].0 == n);
                }
            }
            assert forall|j: int| 0 <= j < nv.len() implies #[trigger] target.dom().contains(nv[j].0) && target[nv[j].0] == nv[j] by {
                if j != i {
                    assert(nv[j] == old_views[j]);
                    assert(names_of(old_views)[j] == old_views[j].0);
                    assert(names_of(old_views)[i as int] == old_views[i as int].0);
                    if j < i {
                        assert(seq_lt(old_views[j].0, old_views[i as int].0));
                    } else {
                        assert(seq_lt(old_views[i as int].0, old_views[j].0));
                    }
                    lemma_seq_lt_irrefl(old_views[j].0);
                    assert(old_views[j].0 != ev.0);
                    lemma_lists_map_at(old_views, m, j);
                } else {
                    assert(nv[j] == entry_view(newe));
                }
            }
        }
    } else {
        proof {
            if i < v.len() {
                assert(old_views[i as int].0 != ev.0);
                lemma_seq_lt_total(old_views[i as int].0, ev.0);
                assert(seq_lt(ev.0, old_views[i as int].0));
            }
            assert(!m.dom().contains(ev.0)) by {
                if m.dom().contains(ev.0) {
                    let j = choose|j: int| 0 <= j < old_views.len() && old_views[j].0 == ev.0;
                    if j < i {
                        assert(seq_lt(old_views[j].0, ev.0));
                        lemma_seq_lt_irrefl(ev.0);
                    } else if j == i {
                    } else {
                        assert(names_of(old_views)[i as int] == old_views[i as int].0);
                        assert(names_of(old_views)[j] == old_views[j].0);
                        assert(seq_lt(old_views[i as int].0, old_views[j].0));
                        lemma_seq_lt_trans(ev.0, old_views[i as int].0, old_views[j].0);
                        lemma_seq_lt_irrefl(ev.0);
                    }
                }
            }
            assert(target == m.insert(ev.0, ev));
        }
        v.insert(i, e);
        proof {
            let nv = entry_views(v@);
            assert(nv =~= old_views.insert(i as int, ev));
            assert forall|a: int, b: int| 0 <= a < b < nv.len() implies seq_lt(names_of(nv)[a], names_of(nv)[b]) by {
                assert(names_of(nv)[a] == nv[a].0);
                assert(names_of(nv)[b] == nv[b].0);
                if b < i {
                    assert(names_of(old_views)[a] == old_views[a].0);
                    assert(names_of(old_views)[b] == old_views[b].0);
                } else if b == i {
                    assert(nv[a] == old_views[a]);
                } else if a < i {
                    assert(nv[b] == old_views[b - 1]);
                    assert(seq_lt(old_views[a].0, ev.0));
                    assert(i <= b - 1);
                    if i < b - 1 {
                        assert(names_of(old_views)[i as int] == old_views[i as int].0);
                        assert(names_of(old_views)[b - 1] == old_views[b - 1].0);
                        assert(seq_lt(old_views[i as int].0, old_views[b - 1].0));
                        lemma_seq_lt_trans(ev.0, old_views[i as int].0, old_views[b - 1].0);
                    }
                    lemma_seq_lt_trans(old_views[a].0, ev.0, old_views[b - 1].0);
                } else if a == i {
                    assert(nv[b] == old_views[b - 1]);
                    if i < b - 1 {
                        assert(names_of(old_views)[i as int] == old_views[i as int].0);
                        assert(names_of(old_views)[b - 1] == old_views[b - 1].0);
                        assert(seq_lt(old_views[i as int].0, old_views[b - 1].0));
                        lemma_seq_lt_trans(ev.0, old_views[i as int].0, old_views[b - 1].0);
                    }
                } else {
                    assert(nv[a] == old_views[a - 1]);
                    assert(nv[b] == old_views[b - 1]);
                    assert(names_of(old_views)[a - 1] == old_views[a - 1].0);
                    assert(names_of(old_views)[b - 1] == old_views[b - 1].0);
                }
            }
            assert forall|n: Seq<char>| #[trigger] target.dom().contains(n) implies exists|j: int| 0 <= j < nv.len() && nv[j].0 == n by {
                if n != ev.0 {
                    let j = choose|j: int| 0 <= j < old_views.len() && old_views[j].0 == n;
                    if j < i {
                        assert(nv[j].0 == n);
                    } else {
                        assert(nv[j + 1].0 == n);
                    }
                } else {
                    assert(nv[i as int].0 == n);
                }
            }
            assert forall|j: int| 0 <= j < nv.len() implies #[trigger] target.dom().contains(nv[j].0) && target[nv[j].0] == nv[j] by {
                if j < i {
                    assert(nv[j] == old_views[j]);
                    assert(nv[j].0 != ev.0) by {
                        lemma_seq_lt_irrefl(ev.0);
                    }
                    lemma_lists_map_at(old_views, m, j);
                } else if j > i {
                    assert(nv[j] == old_views[j - 1]);
                    lemma_lists_map_at(old_views, m, j - 1);
                    assert(nv[j].0 != ev.0);
                } else {
                    assert(nv[j] == ev);
                }
            }
        }
    }
}


fn metadata_of(r: &QueryResult) -> (m: MediaStoreMetadata)
    ensures
        m.size == r.size,
        m.modified == r.date_modified,
        m.is_dir == is_directory_entry(r.mime_type@, r.display_name@),
        m.mime_type@ == r.mime_type@,
{
    MediaStoreMetadata {
        size: r.size,
        modified: r.date_modified,
        is_dir: r.is_directory(),
        mime_type: r.mime_type.clone(),
    }
}

/// The entry of a subdirectory seen only through the paths of its contents.
pub fn synthesize_directory_info(name: String, modified: u64) -> (e: DirEntry)
    ensures
        entry_view(e) == dir_view(name@, modified),
{
    DirEntry {
        name,
        metadata: MediaStoreMetadata {
            size: 0,
            modified,
            is_dir: true,
            mime_type: "inode/directory".to_string(),
        },
    }
}

/// The listing of the directory `directory_prefix` from the entries that a query below it
/// returned: first its subdirectories, sorted by name, each once, with the latest
/// modification time among the entries below it; then the files directly in it, in
/// query order.
pub fn build_directory_listing(directory_prefix: &str, results: &Vec<QueryResult>) -> (listing: Vec<DirEntry>)
    ensures
        listing@.len() >= file_list(directory_prefix@, results@).len(),
        lists_map(
            entry_views(listing@).take(listing@.len() - file_list(directory_prefix@, results@).len()),
            dir_map(directory_prefix@, results@),
        ),
        entry_views(listing@).skip(listing@.len() - file_list(directory_prefix@, results@).len())
            == file_list(directory_prefix@, results@),
{
    let ghost prefix = directory_prefix@;
    let ghost rs = results@;
    let mut directories: Vec<DirEntry> = Vec::new();
    let mut files: Vec<DirEntry> = Vec::new();
    let mut i: usize = 0;
    assert(rs.take(0) =~= Seq::<QueryResult>::empty());
    assert(entry_views(directories@) =~= Seq::<EntryView>::empty());
    assert(entry_views(files@) =~= Seq::<EntryView>::empty());
    while i < results.len()
        invariant
            prefix == directory_prefix@,
            rs == results@,
            i <= rs.len(),
            lists_map(entry_views(directories@), dir_map(prefix, rs.take(i as int))),
            entry_views(files@) == file_list(prefix, rs.take(i as int)),
        decreases results.len() - i,
    {
        let entry = &results[i];
        let ghost before = rs.take(i as int);
        assert(rs.take(i + 1).drop_last() =~= before);
        assert(rs.take(i + 1).last() == rs[i as int]);
        match direct_child_name(directory_prefix, entry) {
            Some((child_name, is_directory)) => {
                if is_directory {
                    let d = synthesize_directory_info(child_name, entry.date_modified);
                    upsert(&mut directories, d, false, Ghost(dir_map(prefix, before)));
                } else {
                    let ghost fv = entry_views(files@);
                    let f = DirEntry { name: child_name, metadata: metadata_of(entry) };
                    files.push(f);
                    assert(entry_views(files@) =~= fv.push(file_view(child_name@, *entry)));
                }
            },
            None => {},
        }
        i = i + 1;
    }
    assert(rs.take(rs.len() as int) =~= rs);
    let ghost dv = entry_views(directories@);
    let ghost fv = entry_views(files@);
    directories.append(&mut files);
    assert(entry_views(directories@) =~= dv + fv);
    assert(entry_views(directories@).take(dv.len() as int) =~= dv);
    assert(entry_views(directories@).skip(dv.len() as int) =~= fv);
    directories
}

/// The listing of one virtual directory from the listings of its two roots: one entry per
/// name, sorted by name. Within the primary listing a later entry replaces an earlier one
/// of the same name; an entry of the secondary listing whose name is new is added, and
/// one whose name is taken is combined with the entry there (`combine`).
pub fn merge_directory_listings(primary: Vec<DirEntry>, secondary: Vec<DirEntry>) -> (merged: Vec<DirEntry>)
    ensures
        lists_map(entry_views(merged@), merged_map(entry_views(primary@), entry_views(secondary@))),
{
    let ghost pv = entry_views(primary@);
    let ghost sv = entry_views(secondary@);
    let mut merged: Vec<DirEntry> = Vec::new();
    assert(entry_views(merged@) =~= Seq::<EntryView>::empty());
    assert(pv.take(0) =~= Seq::<EntryView>::empty());
    let mut i: usize = 0;
    while i < primary.len()
        invariant
            pv == entry_views(primary@),
            i <= primary@.len(),
            lists_map(entry_views(merged@), fold_map(Map::empty(), pv.take(i as int), true)),
        decreases primary.len() - i,
    {
        assert(pv.take(i + 1).drop_last() =~= pv.take(i as int));
        assert(pv.take(i + 1).last() == entry_view(primary@[i as int]));
        let e = clone_entry(&primary[i]);
        upsert(&mut merged, e, true, Ghost(fold_map(Map::empty(), pv.take(i as int), true)));
        i = i + 1;
    }
    assert(pv.take(pv.len() as int) =~= pv);
    let ghost pm = fold_map(Map::empty(), pv, true);
    let mut j: usize = 0;
    assert(sv.take(0) =~= Seq::<EntryView>::empty());
    while j < secondary.len()
        invariant
            sv == entry_views(secondary@),
            pm == fold_map(Map::empty(), pv, true),
            j <= secondary@.len(),
            lists_map(entry_views(merged@), fold_map(pm, sv.take(j as int), false)),
        decreases secondary.len() - j,
    {
        assert(sv.take(j + 1).drop_last() =~= sv.take(j as int));
        assert(sv.take(j + 1).last() == entry_view(secondary@[j as int]));
        let e = clone_entry(&secondary[j]);
        upsert(&mut merged, e, false, Ghost(fold_map(pm, sv.take(j as int), false)));
        j = j + 1;
    }
    assert(sv.take(sv.len() as int) =~= sv);
    merged
}


/// `m` with the entries of `d` added: a name in both gets `combine(m[n], d[n])`.
pub open spec fn absorb(m: Map<Seq<char>, EntryView>, d: Map<Seq<char>, EntryView>) -> Map<Seq<char>, EntryView> {
    Map::new(
        |n: Seq<char>| m.dom().contains(n) || d.dom().contains(n),
        |n: Seq<char>|
            if m.dom().contains(n) && d.dom().contains(n) {
                combine(m[n], d[n])
            } else if d.dom().contains(n) {
                d[n]
            } else {
                m[n]
            },
    )
}

/// The map of the listing of one virtual directory over its candidate directories, in
/// candidate order, each listed from its query results: each candidate's subdirectories
/// are absorbed into the entries so far, then its files are added one by one.
pub open spec fn listing_map(cands: Seq<Seq<char>>, rss: Seq<Seq<QueryResult>>) -> Map<Seq<char>, EntryView>
    decreases cands.len(),
{
    if cands.len() == 0 {
        Map::empty()
    } else {
        let k = cands.len() - 1;
        let m = listing_map(cands.drop_last(), rss.take(k));
        fold_map(absorb(m, dir_map(cands[k], rss[k])), file_list(cands[k], rss[k]), false)
    }
}

proof fn lemma_fold_concat(m: Map<Seq<char>, EntryView>, a: Seq<EntryView>, b: Seq<EntryView>, overwrite: bool)
    ensures
        fold_map(m, a + b, overwrite) == fold_map(fold_map(m, a, overwrite), b, overwrite),
    decreases b.len(),
{
    if b.len() == 0 {
        assert(a + b =~= a);
    } else {
        assert((a + b).drop_last() =~= a + b.drop_last());
        assert((a + b).last() == b.last());
        lemma_fold_concat(m, a, b.drop_last(), overwrite);
    }
}

proof fn lemma_lists_map_drop_last(v: Seq<EntryView>, d: Map<Seq<char>, EntryView>)
    requires
        lists_map(v, d),
        v.len() > 0,
    ensures
        lists_map(v.drop_last(), d.remove(v.last().0)),
        d.dom().contains(v.last().0),
        d[v.last().0] == v.last(),
{
    let k = v.len() - 1;
    let w = v.drop_last();
    let d2 = d.remove(v.last().0);
    lemma_lists_map_at(v, d, k);
    assert(names_of(w) =~= names_of(v).take(k));
    assert forall|i: int| 0 <= i < w.len() implies #[trigger] d2.dom().contains(w[i].0) && d2[w[i].0] == w[i] by {
        lemma_lists_map_at(v, d, i);
        lemma_sorted_at(v, i, k);
        lemma_seq_lt_irrefl(v[k].0);
    }
    assert forall|n: Seq<char>| #[trigger] d2.dom().contains(n) implies exists|i: int| 0 <= i < w.len() && w[i].0 == n by {
        let i = choose|i: int| 0 <= i < v.len() && v[i].0 == n;
        assert(i != k);
        assert(w[i].0 == n);
    }
}

proof fn lemma_fold_distinct(m: Map<Seq<char>, EntryView>, v: Seq<EntryView>, d: Map<Seq<char>, EntryView>)
    requires
        lists_map(v, d),
    ensures
        fold_map(m, v, false) == absorb(m, d),
        fold_map(m, v, true) == m.union_prefer_right(d),
    decreases v.len(),
{
    if v.len() == 0 {
        assert(d.dom() =~= Set::<Seq<char>>::empty()) by {
            assert forall|n: Seq<char>| !d.dom().contains(n) by {
                if d.dom().contains(n) {
                    let i = choose|i: int| 0 <= i < v.len() && v[i].0 == n;
                }
            }
        }
        assert(absorb(m, d) =~= m);
        assert(m.union_prefer_right(d) =~= m);
    } else {
        let e = v.last();
        let d2 = d.remove(e.0);
        lemma_lists_map_drop_last(v, d);
        lemma_fold_distinct(m, v.drop_last(), d2);
        assert(upsert_map(absorb(m, d2), e, false) =~= absorb(m, d));
        assert(upsert_map(m.union_prefer_right(d2), e, true) =~= m.union_prefer_right(d));
    }
}

/// The listing of the virtual directory whose candidate directories (in candidate order)
/// are `candidates`, from the query results below each: the listing of each candidate is
/// built (`build_directory_listing`) and merged into the listing so far, as the secondary
/// listing (`merge_directory_listings`). The result is sorted by name, one entry per name.
pub fn list_directory(candidates: &Vec<String>, results: &Vec<Vec<QueryResult>>) -> (listing: Vec<DirEntry>)
    requires
        candidates@.len() == results@.len(),
    ensures
        lists_map(
            entry_views(listing@),
            listing_map(string_views(candidates@), crate::mediastore_lookup::result_views(results@)),
        ),
{
    let ghost cs = string_views(candidates@);
    let ghost rss = crate::mediastore_lookup::result_views(results@);
    let mut merged: Vec<DirEntry> = Vec::new();
    let mut i: usize = 0;
    assert(entry_views(merged@) =~= Seq::<EntryView>::empty());
    assert(cs.take(0) =~= Seq::<Seq<char>>::empty());
    while i < candidates.len()
        invariant
            cs == string_views(candidates@),
            rss == crate::mediastore_lookup::result_views(results@),
            candidates@.len() == results@.len(),
            i <= candidates@.len(),
            lists_map(entry_views(merged@), listing_map(cs.take(i as int), rss.take(i as int))),
        decreases candidates.len() - i,
    {
        let ghost m = listing_map(cs.take(i as int), rss.take(i as int));
        let ghost mv = entry_views(merged@);
        let listing = build_directory_listing(candidates[i].as_str(), &results[i]);
        let ghost lv = entry_views(listing@);
        let ghost c = cs[i as int];
        let ghost rs = rss[i as int];
        assert(c == candidates@[i as int]@);
        assert(rs == results@[i as int]@);
        let ghost k = lv.len() - file_list(c, rs).len();
        let next = merge_directory_listings(merged, listing);
        proof {
            assert(cs.take(i + 1).drop_last() =~= cs.take(i as int));
            assert(rss.take(i + 1).take(i as int) =~= rss.take(i as int));
            assert(cs.take(i + 1)[i as int] == c);
            assert(rss.take(i + 1)[i as int] == rs);
            lemma_fold_distinct(Map::empty(), mv, m);
            assert(Map::<Seq<char>, EntryView>::empty().union_prefer_right(m) =~= m);
            assert(lv =~= lv.take(k) + lv.skip(k));
            lemma_fold_concat(m, lv.take(k), lv.skip(k), false);
            lemma_fold_distinct(m, lv.take(k), dir_map(c, rs));
        }
        merged = next;
        i = i + 1;
    }
    assert(cs.take(cs.len() as int) =~= cs);
    assert(rss.take(rss.len() as int) =~= rss);
    merged
}


/// A listing is determined by the entries it holds: two listings sorted by name, one entry
/// per name, that hold the same entries are the same sequence.
pub proof fn lemma_listing_determined(v1: Seq<EntryView>, v2: Seq<EntryView>, m: Map<Seq<char>, EntryView>)
    requires
        lists_map(v1, m),
        lists_map(v2, m),
    ensures
        v1 == v2,
    decreases v1.len() + v2.len(),
{
    if v1.len() == 0 || v2.len() == 0 {
        if v1.len() > 0 {
            lemma_lists_map_at(v1, m, 0);
            let j = choose|j: int| 0 <= j < v2.len() && v2[j].0 == v1[0].0;
        }
        if v2.len() > 0 {
            lemma_lists_map_at(v2, m, 0);
            let j = choose|j: int| 0 <= j < v1.len() && v1[j].0 == v2[0].0;
        }
        assert(v1 =~= v2);
    } else {
        let k1 = v1.len() - 1;
        let k2 = v2.len() - 1;
        let n1 = v1[k1].0;
        let n2 = v2[k2].0;
        lemma_lists_map_at(v1, m, k1);
        lemma_lists_map_at(v2, m, k2);
        let j2 = choose|j: int| 0 <= j < v2.len() && v2[j].0 == n1;
        let j1 = choose|j: int| 0 <= j < v1.len() && v1[j].0 == n2;
        if n1 != n2 {
            if j2 < k2 {
                lemma_sorted_at(v2, j2, k2);
            }
            if j1 < k1 {
                lemma_sorted_at(v1, j1, k1);
            }
            lemma_seq_lt_asym(n1, n2);
        }
        lemma_lists_map_drop_last(v1, m);
        lemma_lists_map_drop_last(v2, m);
        lemma_listing_determined(v1.drop_last(), v2.drop_last(), m.remove(n1));
        assert(v1 =~= v1.drop_last().push(v1.last()));
        assert(v2 =~= v2.drop_last().push(v2.last()));
    }
}

} // verus!
