//! The decisions of the MediaStore backend between its queries: which candidate path a
//! file lookup resolves to, whether a virtual directory exists and when it last changed,
//! what an FTP command answers, and where an upload goes.
use vstd::prelude::*;
use crate::text::{chars_of, string_of, concat};
use crate::mediastore::{
    QueryResult, MediaStoreCollection, MediaFileClass, is_directory_entry, display_name,
    relative_dir, classification, collection_for, display_name_from_path,
    relative_path_from_full_path, classify_file_with, collection_from_class,
};
use crate::mediastore_paths::{
    PathViolation, path_violation, validate_path, resolved, resolve_path, upload_parent,
    effective_parent_path_for_upload,
};
use crate::mediastore_listing::MediaStoreMetadata;

verus! {

/// What the query of one candidate path of a file lookup gave.
#[derive(Debug)]
pub enum CandidateOutcome {
    /// An entry exists at the candidate path.
    Found(QueryResult),
    /// Nothing exists at the candidate path.
    Missing,
    /// The query failed for another reason; the message describes it.
    Failed(String),
}

/// Where a file lookup over the virtual roots ends.
#[derive(Debug)]
pub enum FileLookupResolution {
    /// A file, found at `candidate_path`.
    File { candidate_path: String, entry: QueryResult },
    /// A virtual directory, last modified at `modified` (milliseconds since the epoch).
    Directory { modified: u64 },
    /// Neither.
    NotFound,
}

/// Why an FTP storage command fails.
#[derive(Debug)]
pub enum StorageFailure {
    /// The client-supplied path is refused.
    InvalidPath(PathViolation),
    /// The command is not implemented by this backend.
    CommandNotImplemented(String),
    /// The file is not available.
    FileNotAvailable(String),
    /// The directory is not available.
    DirectoryNotAvailable(String),
}

/// The index of the first candidate whose query failed.
pub open spec fn first_failure(outs: Seq<CandidateOutcome>) -> Option<int>
    decreases outs.len(),
{
    if outs.len() == 0 {
        None
    } else {
        match first_failure(outs.drop_last()) {
            Some(i) => Some(i),
            None => if outs.last() is Failed { Some(outs.len() - 1) } else { None },
        }
    }
}

/// Whether an outcome is an entry that is not a directory.
pub open spec fn is_file_outcome(o: CandidateOutcome) -> bool {
    match o {
        CandidateOutcome::Found(e) => !is_directory_entry(e.mime_type@, e.display_name@),
        _ => false,
    }
}

/// The index of the first candidate at which a file (not a directory) was found.
pub open spec fn first_file(outs: Seq<CandidateOutcome>) -> Option<int>
    decreases outs.len(),
{
    if outs.len() == 0 {
        None
    } else {
        match first_file(outs.drop_last()) {
            Some(i) => Some(i),
            None => if is_file_outcome(outs.last()) { Some(outs.len() - 1) } else { None },
        }
    }
}

proof fn lemma_first_failure_step(outs: Seq<CandidateOutcome>, k: int)
    requires
        0 <= k < outs.len(),
    ensures
        first_failure(outs.take(k + 1)) == match first_failure(outs.take(k)) {
            Some(i) => Some(i),
            None => if outs[k] is Failed { Some(k) } else { None },
        },
{
    assert(outs.take(k + 1).drop_last() =~= outs.take(k));
}

proof fn lemma_first_file_step(outs: Seq<CandidateOutcome>, k: int)
    requires
        0 <= k < outs.len(),
    ensures
        first_file(outs.take(k + 1)) == match first_file(outs.take(k)) {
            Some(i) => Some(i),
            None => if is_file_outcome(outs[k]) { Some(k) } else { None },
        },
{
    assert(outs.take(k + 1).drop_last() =~= outs.take(k));
}

proof fn lemma_first_failure_bound(outs: Seq<CandidateOutcome>)
    ensures
        match first_failure(outs) {
            Some(i) => 0 <= i < outs.len() && outs[i] is Failed,
            None => true,
        },
    decreases outs.len(),
{
    if outs.len() > 0 {
        lemma_first_failure_bound(outs.drop_last());
    }
}

proof fn lemma_first_file_bound(outs: Seq<CandidateOutcome>)
    ensures
        match first_file(outs) {
            Some(i) => 0 <= i < outs.len() && is_file_outcome(outs[i]),
            None => true,
        },
    decreases outs.len(),
{
    if outs.len() > 0 {
        lemma_first_file_bound(outs.drop_last());
    }
}

/// The message of the first failed candidate query, if any failed: a file lookup stops
/// there.
pub fn lookup_failure(outcomes: &Vec<CandidateOutcome>) -> (r: Option<String>)
    ensures
        match first_failure(outcomes@) {
            Some(i) => r matches Some(m) && outcomes@[i] matches CandidateOutcome::Failed(f) && m@ == f@,
            None => r is None,
        },
{
    let mut k: usize = 0;
    assert(outcomes@.take(0) =~= Seq::<CandidateOutcome>::empty());
    while k < outcomes.len()
        invariant
            k <= outcomes@.len(),
            first_failure(outcomes@.take(k as int)) is None,
        decreases outcomes.len() - k,
    {
        proof {
            lemma_first_failure_step(outcomes@, k as int);
        }
        match &outcomes[k] {
            CandidateOutcome::Failed(m) => {
                assert(outcomes@.take(outcomes@.len() as int) =~= outcomes@);
                proof {
                    lemma_first_failure_prefix(outcomes@, k as int + 1);
                }
                return Some(m.clone());
            },
            _ => {},
        }
        k = k + 1;
    }
    assert(outcomes@.take(outcomes@.len() as int) =~= outcomes@);
    None
}

proof fn lemma_first_failure_prefix(outs: Seq<CandidateOutcome>, n: int)
    requires
        0 <= n <= outs.len(),
        first_failure(outs.take(n)) is Some,
    ensures
        first_failure(outs) == first_failure(outs.take(n)),
    decreases outs.len() - n,
{
    if n < outs.len() {
        lemma_first_failure_step(outs, n);
        lemma_first_failure_prefix(outs, n + 1);
    } else {
        assert(outs.take(n) =~= outs);
    }
}

/// The resolution of a file lookup over the candidate paths of the virtual roots, from the
/// outcome of each candidate's query (in candidate order) and from whether the path is a
/// virtual directory: a failed query ends the lookup with its message; a directory wins
/// over any file; else the first candidate holding a file (not a directory) wins.
pub fn resolve_file_lookup(
    candidates: Vec<String>,
    outcomes: Vec<CandidateOutcome>,
    directory_modified: Option<u64>,
) -> (r: Result<FileLookupResolution, String>)
    requires
        candidates@.len() == outcomes@.len(),
    ensures
        match first_failure(outcomes@) {
            Some(i) => r matches Err(m) && outcomes@[i] matches CandidateOutcome::Failed(f) && m@ == f@,
            None => match directory_modified {
                Some(d) => r == Ok::<FileLookupResolution, String>(FileLookupResolution::Directory { modified: d }),
                None => match first_file(outcomes@) {
                    Some(i) => r matches Ok(FileLookupResolution::File { candidate_path, entry })
                        && candidate_path@ == candidates@[i]@
                        && outcomes@[i] == CandidateOutcome::Found(entry),
                    None => r matches Ok(FileLookupResolution::NotFound),
                },
            },
        },
{
    let failure = lookup_failure(&outcomes);
    match failure {
        Some(m) => {
            return Err(m);
        },
        None => {},
    }
    match directory_modified {
        Some(d) => {
            return Ok(FileLookupResolution::Directory { modified: d });
        },
        None => {},
    }
    let mut cands = candidates;
    let mut outs = outcomes;
    let ghost cs = cands@;
    let ghost os = outs@;
    let mut k: usize = 0;
    assert(os.take(0) =~= Seq::<CandidateOutcome>::empty());
    while k < outs.len()
        invariant
            cs == cands@,
            os == outs@,
            os == outcomes@,
            cs == candidates@,
            first_failure(outcomes@) is None,
            directory_modified is None,
            cs.len() == os.len(),
            k <= os.len(),
            first_file(os.take(k as int)) is None,
        decreases outs.len() - k,
    {
        proof {
            lemma_first_file_step(os, k as int);
        }
        let is_file = match &outs[k] {
            CandidateOutcome::Found(e) => !e.is_directory(),
            _ => false,
        };
        if is_file {
            proof {
                lemma_first_file_prefix(os, k as int + 1);
            }
            assert(first_file(os) == Some(k as int));
            let o = outs.swap_remove(k);
            let c = cands.swap_remove(k);
            match o {
                CandidateOutcome::Found(entry) => {
                    return Ok(FileLookupResolution::File { candidate_path: c, entry });
                },
                _ => {
                    return Ok(FileLookupResolution::NotFound);
                },
            }
        }
        k = k + 1;
    }
    assert(os.take(os.len() as int) =~= os);
    Ok(FileLookupResolution::NotFound)
}

proof fn lemma_first_file_prefix(outs: Seq<CandidateOutcome>, n: int)
    requires
        0 <= n <= outs.len(),
        first_file(outs.take(n)) is Some,
    ensures
        first_file(outs) == first_file(outs.take(n)),
    decreases outs.len() - n,
{
    if n < outs.len() {
        lemma_first_file_step(outs, n);
        lemma_first_file_prefix(outs, n + 1);
    } else {
        assert(outs.take(n) =~= outs);
    }
}


/// The latest modification time among query results, or 0 when there are none.
pub open spec fn latest_modified(rs: Seq<QueryResult>) -> u64
    decreases rs.len(),
{
    if rs.len() == 0 {
        0
    } else {
        let m = latest_modified(rs.drop_last());
        if rs.last().date_modified > m { rs.last().date_modified } else { m }
    }
}

/// The latest modification time over the results of several queries, or 0.
pub open spec fn latest_modified_all(rss: Seq<Seq<QueryResult>>) -> u64
    decreases rss.len(),
{
    if rss.len() == 0 {
        0
    } else {
        let m = latest_modified_all(rss.drop_last());
        let l = latest_modified(rss.last());
        if l > m { l } else { m }
    }
}

/// Whether some query returned an entry.
pub open spec fn any_entries(rss: Seq<Seq<QueryResult>>) -> bool {
    exists|i: int| 0 <= i < rss.len() && #[trigger] rss[i].len() > 0
}

pub open spec fn result_views(v: Seq<Vec<QueryResult>>) -> Seq<Seq<QueryResult>> {
    v.map_values(|r: Vec<QueryResult>| r@)
}

/// The modification time of a virtual directory from the entries found below each of its
/// candidate paths: the latest among them when there are any; 0 for the FTP root, which
/// always exists; else none, the directory does not exist.
pub open spec fn directory_modified(rss: Seq<Seq<QueryResult>>, is_root: bool) -> Option<u64> {
    if any_entries(rss) {
        Some(latest_modified_all(rss))
    } else if is_root {
        Some(0)
    } else {
        None
    }
}

fn latest_of(rs: &Vec<QueryResult>) -> (m: u64)
    ensures
        m == latest_modified(rs@),
{
    let mut m: u64 = 0;
    let mut i: usize = 0;
    assert(rs@.take(0) =~= Seq::<QueryResult>::empty());
    while i < rs.len()
        invariant
            i <= rs@.len(),
            m == latest_modified(rs@.take(i as int)),
        decreases rs.len() - i,
    {
        assert(rs@.take(i + 1).drop_last() =~= rs@.take(i as int));
        if rs[i].date_modified > m {
            m = rs[i].date_modified;
        }
        i = i + 1;
    }
    assert(rs@.take(rs@.len() as int) =~= rs@);
    m
}

/// The modification time of a virtual directory (see `directory_modified`), from the
/// results of the queries below each of its candidate paths, in candidate order.
pub fn directory_modified_millis(results: &Vec<Vec<QueryResult>>, is_root: bool) -> (r: Option<u64>)
    ensures
        r == directory_modified(result_views(results@), is_root),
{
    let ghost rss = result_views(results@);
    let mut found = false;
    let mut max: u64 = 0;
    let mut i: usize = 0;
    assert(rss.take(0) =~= Seq::<Seq<QueryResult>>::empty());
    while i < results.len()
        invariant
            rss == result_views(results@),
            i <= results@.len(),
            max == latest_modified_all(rss.take(i as int)),
            found == any_entries(rss.take(i as int)),
        decreases results.len() - i,
    {
        assert(rss.take(i + 1).drop_last() =~= rss.take(i as int));
        assert(rss.take(i + 1).last() == results@[i as int]@);
        let l = latest_of(&results[i]);
        proof {
            let t = rss.take(i as int);
            let t1 = rss.take(i + 1);
            assert(t1[i as int] == results@[i as int]@);
            if any_entries(t) {
                let j = choose|j: int| 0 <= j < t.len() && #[trigger] t[j].len() > 0;
                assert(t1[j].len() > 0);
            }
            if any_entries(t1) {
                let j = choose|j: int| 0 <= j < t1.len() && #[trigger] t1[j].len() > 0;
                if j < i {
                    assert(t[j].len() > 0);
                }
            }
            assert(any_entries(t1) == (any_entries(t) || results@[i as int]@.len() > 0));
        }
        if results[i].len() > 0 {
            found = true;
        }
        if l > max {
            max = l;
        }
        i = i + 1;
    }
    assert(rss.take(rss.len() as int) =~= rss);
    if found {
        Some(max)
    } else if is_root {
        Some(0)
    } else {
        None
    }
}

/// `lit` followed by `path`.
fn message(lit: &str, path: &str) -> (r: String)
    ensures
        r@ == lit@ + path@,
{
    string_of(concat(chars_of(lit).as_slice(), chars_of(path).as_slice()).as_slice())
}

/// The metadata of the FTP root, which is a directory, from its modification time when
/// known.
pub fn root_metadata(modified: Option<u64>) -> (m: MediaStoreMetadata)
    ensures
        m.size == 0,
        m.modified == match modified { Some(t) => t, None => 0 },
        m.is_dir,
        m.mime_type@ == "inode/directory"@,
{
    let t = match modified {
        Some(t) => t,
        None => 0,
    };
    MediaStoreMetadata { size: 0, modified: t, is_dir: true, mime_type: "inode/directory".to_string() }
}

/// The answer to a metadata request for `path` (not the root) from its lookup.
pub fn metadata_from_lookup(path: &str, resolution: FileLookupResolution) -> (r: Result<MediaStoreMetadata, StorageFailure>)
    ensures
        match resolution {
            FileLookupResolution::File { entry, .. } => r matches Ok(m)
                && m.size == entry.size && m.modified == entry.date_modified
                && m.is_dir == is_directory_entry(entry.mime_type@, entry.display_name@)
                && m.mime_type@ == entry.mime_type@,
            FileLookupResolution::Directory { modified } => r matches Ok(m)
                && m.size == 0 && m.modified == modified && m.is_dir && m.mime_type@ == "inode/directory"@,
            FileLookupResolution::NotFound => r matches Err(StorageFailure::FileNotAvailable(msg))
                && msg@ == "Metadata not found: "@ + path@,
        },
{
    match resolution {
        FileLookupResolution::File { entry, .. } => Ok(MediaStoreMetadata::from_query(entry)),
        FileLookupResolution::Directory { modified } => Ok(root_metadata(Some(modified))),
        FileLookupResolution::NotFound => Err(StorageFailure::FileNotAvailable(message("Metadata not found: ", path))),
    }
}

/// The MediaStore path a download of `path` reads, from its lookup: only a file can be read.
pub fn readable_file_path(path: &str, resolution: FileLookupResolution) -> (r: Result<String, StorageFailure>)
    ensures
        match resolution {
            FileLookupResolution::File { candidate_path, .. } => r matches Ok(p) && p@ == candidate_path@,
            FileLookupResolution::Directory { .. } => r matches Err(StorageFailure::FileNotAvailable(msg))
                && msg@ == "Path is a directory and cannot be opened as a file: "@ + path@,
            FileLookupResolution::NotFound => r matches Err(StorageFailure::FileNotAvailable(msg))
                && msg@ == "File not found: "@ + path@,
        },
{
    match resolution {
        FileLookupResolution::File { candidate_path, .. } => Ok(candidate_path),
        FileLookupResolution::Directory { .. } => Err(StorageFailure::FileNotAvailable(
            message("Path is a directory and cannot be opened as a file: ", path),
        )),
        FileLookupResolution::NotFound => Err(StorageFailure::FileNotAvailable(message("File not found: ", path))),
    }
}

/// The MediaStore path a deletion of `path` removes, from its lookup: only a file can be
/// deleted.
pub fn deletable_file_path(path: &str, resolution: FileLookupResolution) -> (r: Result<String, StorageFailure>)
    ensures
        match resolution {
            FileLookupResolution::File { candidate_path, .. } => r matches Ok(p) && p@ == candidate_path@,
            FileLookupResolution::Directory { .. } => r matches Err(StorageFailure::FileNotAvailable(msg))
                && msg@ == "Path is a directory and cannot be deleted as a file: "@ + path@,
            FileLookupResolution::NotFound => r matches Err(StorageFailure::FileNotAvailable(msg))
                && msg@ == "File not found: "@ + path@,
        },
{
    match resolution {
        FileLookupResolution::File { candidate_path, .. } => Ok(candidate_path),
        FileLookupResolution::Directory { .. } => Err(StorageFailure::FileNotAvailable(
            message("Path is a directory and cannot be deleted as a file: ", path),
        )),
        FileLookupResolution::NotFound => Err(StorageFailure::FileNotAvailable(message("File not found: ", path))),
    }
}

/// Whether a client may change into, or list, `path`: the root always; another path only
/// when it is an existing virtual directory.
pub fn check_directory(path: &str, is_root: bool, exists: bool) -> (r: Result<(), StorageFailure>)
    ensures
        (is_root || exists) ==> r is Ok,
        !(is_root || exists) ==> (r matches Err(StorageFailure::DirectoryNotAvailable(msg))
            && msg@ == "Directory not found: "@ + path@),
{
    if is_root || exists {
        Ok(())
    } else {
        Err(StorageFailure::DirectoryNotAvailable(message("Directory not found: ", path)))
    }
}

/// The answer to MKD for a valid path: not implemented.
pub fn make_directory(path: &str) -> (r: Result<(), StorageFailure>)
    ensures
        match path_violation(path@) {
            Some(v) => r matches Err(StorageFailure::InvalidPath(w)) && w == v,
            None => r matches Err(StorageFailure::CommandNotImplemented(msg)) && msg@ == "MKD is currently unsupported: "@ + path@,
        },
{
    match validate_path(path) {
        Err(v) => Err(StorageFailure::InvalidPath(v)),
        Ok(()) => Err(StorageFailure::CommandNotImplemented(message("MKD is currently unsupported: ", path))),
    }
}

/// The answer to RMD for a valid path: not implemented.
pub fn remove_directory(path: &str) -> (r: Result<(), StorageFailure>)
    ensures
        match path_violation(path@) {
            Some(v) => r matches Err(StorageFailure::InvalidPath(w)) && w == v,
            None => r matches Err(StorageFailure::CommandNotImplemented(msg)) && msg@ == "RMD is currently unsupported: "@ + path@,
        },
{
    match validate_path(path) {
        Err(v) => Err(StorageFailure::InvalidPath(v)),
        Ok(()) => Err(StorageFailure::CommandNotImplemented(message("RMD is currently unsupported: ", path))),
    }
}

/// The answer to RNFR/RNTO: both paths are validated, then the command is refused.
pub fn rename(from: &str, to: &str) -> (r: Result<(), StorageFailure>)
    ensures
        match path_violation(from@) {
            Some(v) => r matches Err(StorageFailure::InvalidPath(w)) && w == v,
            None => match path_violation(to@) {
                Some(v) => r matches Err(StorageFailure::InvalidPath(w)) && w == v,
                None => r matches Err(StorageFailure::CommandNotImplemented(msg))
                    && msg@ == "Rename not supported in MediaStore backend"@,
            },
        },
{
    match validate_path(from) {
        Err(v) => {
            return Err(StorageFailure::InvalidPath(v));
        },
        Ok(()) => {},
    }
    match validate_path(to) {
        Err(v) => Err(StorageFailure::InvalidPath(v)),
        Ok(()) => Err(StorageFailure::CommandNotImplemented("Rename not supported in MediaStore backend".to_string())),
    }
}

/// Where an upload goes and as what.
#[derive(Debug)]
pub struct UploadPlan {
    /// The file name the entry gets.
    pub display_name: String,
    /// Its MIME type.
    pub mime_type: String,
    /// Its media class.
    pub file_class: MediaFileClass,
    /// The collection it is inserted into.
    pub collection: MediaStoreCollection,
    /// The relative directory it is written to.
    pub relative_path: String,
}

/// The plan of an upload of `path` below the base directory `base_relative_path`, given
/// the system MIME map's answer for the file's extension: the path is validated, the file
/// classified, its collection chosen and its directory resolved; a resumed upload
/// (`start_pos > 0`) is refused.
pub fn plan_upload(base_relative_path: &str, path: &str, start_pos: u64, system_mime: Option<String>) -> (r: Result<UploadPlan, StorageFailure>)
    ensures
        match path_violation(path@) {
            Some(v) => r matches Err(StorageFailure::InvalidPath(w)) && w == v,
            None => if start_pos > 0 {
                r matches Err(StorageFailure::CommandNotImplemented(msg))
                    && msg@ == "Resume upload is not supported for Android MediaStore backend"@
            } else {
                r matches Ok(p) && {
                    let name = display_name(path@);
                    let cls = classification(name, match system_mime { Some(m) => Some(m@), None => None });
                    let rel = resolved(base_relative_path@, path@);
                    &&& p.display_name@ == name
                    &&& p.mime_type@ == cls.0
                    &&& p.file_class == cls.1
                    &&& p.collection == collection_for(cls.1)
                    &&& p.relative_path@ == upload_parent(collection_for(cls.1), rel, relative_dir(rel), base_relative_path@)
                }
            },
        },
{
    match validate_path(path) {
        Err(v) => {
            return Err(StorageFailure::InvalidPath(v));
        },
        Ok(()) => {},
    }
    let name = display_name_from_path(path);
    let relative_path = resolve_path(base_relative_path, path);
    let parent_path = relative_path_from_full_path(relative_path.as_str());
    let (mime_type, file_class) = classify_file_with(name.as_str(), system_mime);
    let collection = collection_from_class(file_class);
    let effective = effective_parent_path_for_upload(
        collection,
        relative_path.as_str(),
        parent_path.as_str(),
        base_relative_path,
    );
    if start_pos > 0 {
        return Err(StorageFailure::CommandNotImplemented(
            "Resume upload is not supported for Android MediaStore backend".to_string(),
        ));
    }
    Ok(UploadPlan { display_name: name, mime_type, file_class, collection, relative_path: effective })
}

} // verus!
