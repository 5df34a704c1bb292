//! Types of the Android MediaStore storage backend and the naming rules that route an
//! upload: MIME type by file name, media class, target collection, display name and
//! relative directory.
use vstd::prelude::*;
use crate::text::join_strs;
use crate::text::{
    lower, has_prefix, has_suffix, last_index_of, trim_start, lemma_last_index_of, chars_of,
    string_of, to_lower, starts_with, ends_with, rfind, slice_of, trim_start_char, chars_eq_str,
};

verus! {

/// MIME types supported by MediaStore for image files.
pub const MIME_TYPE_JPEG: &'static str = "image/jpeg";
pub const MIME_TYPE_HEIF: &'static str = "image/heif";
pub const MIME_TYPE_MP4: &'static str = "video/mp4";
pub const MIME_TYPE_MOV: &'static str = "video/quicktime";

/// RAW image MIME types for camera photo formats.
pub const MIME_TYPE_DNG: &'static str = "image/x-adobe-dng";
pub const MIME_TYPE_NEF: &'static str = "image/x-nikon-nef";
pub const MIME_TYPE_NRW: &'static str = "image/x-nikon-nrw";
pub const MIME_TYPE_CR2: &'static str = "image/x-canon-cr2";
pub const MIME_TYPE_CR3: &'static str = "image/x-canon-cr3";
pub const MIME_TYPE_ARW: &'static str = "image/x-sony-arw";
pub const MIME_TYPE_SR2: &'static str = "image/x-sony-sr2";
pub const MIME_TYPE_RAF: &'static str = "image/x-fuji-raf";
pub const MIME_TYPE_ORF: &'static str = "image/x-olympus-orf";
pub const MIME_TYPE_RW2: &'static str = "image/x-panasonic-rw2";
pub const MIME_TYPE_PEF: &'static str = "image/x-pentax-pef";
pub const MIME_TYPE_X3F: &'static str = "image/x-sigma-x3f";

/// Default MIME type for unknown files.
pub const MIME_TYPE_DEFAULT: &'static str = "application/octet-stream";

/// Target MediaStore collection for an upload.
#[derive(Debug, Clone, Copy, PartialEq, Eq, Structural)]
pub enum MediaStoreCollection {
    Images,
    Videos,
    Downloads,
}

/// The name of a collection as the bridge expects it.
pub open spec fn collection_name(c: MediaStoreCollection) -> Seq<char> {
    match c {
        MediaStoreCollection::Images => "images"@,
        MediaStoreCollection::Videos => "videos"@,
        MediaStoreCollection::Downloads => "downloads"@,
    }
}

impl MediaStoreCollection {
    pub fn as_str(self) -> (r: &'static str)
        ensures
            r@ == collection_name(self),
    {
        match self {
            MediaStoreCollection::Images => "images",
            MediaStoreCollection::Videos => "videos",
            MediaStoreCollection::Downloads => "downloads",
        }
    }
}

/// Classification of a file based on MIME type.
#[derive(Debug, Clone, Copy, PartialEq, Eq, Structural)]
pub enum MediaFileClass {
    /// Image file (image/*)
    Image,
    /// Video file (video/*)
    Video,
    /// Non-media file (anything else)
    NonMedia,
}

/// The media class of a MIME type, by its (lowercased) top-level type.
pub open spec fn class_of_mime(mime: Seq<char>) -> MediaFileClass {
    let l = lower(mime);
    if has_prefix(l, "image/"@) {
        MediaFileClass::Image
    } else if has_prefix(l, "video/"@) {
        MediaFileClass::Video
    } else {
        MediaFileClass::NonMedia
    }
}

/// Classifies a MIME type string into a media file class.
pub fn classify_from_system_mime(mime: &str) -> (r: MediaFileClass)
    ensures
        r == class_of_mime(mime@),
{
    let l = to_lower(chars_of(mime).as_slice());
    if starts_with(l.as_slice(), chars_of("image/").as_slice()) {
        MediaFileClass::Image
    } else if starts_with(l.as_slice(), chars_of("video/").as_slice()) {
        MediaFileClass::Video
    } else {
        MediaFileClass::NonMedia
    }
}

/// The system MIME type registered for a file extension. This build has no system
/// MIME map (that exists on Android only), so no extension is recognized.
pub fn system_mime_from_extension(extension: &str) -> (r: Option<String>)
    ensures
        r is None,
{
    let _ = extension;
    None
}

/// What follows the last `.` of a file name, or the whole name when it has none
/// (`filename.rsplit('.').next()`).
pub open spec fn last_dot_segment(name: Seq<char>) -> Seq<char> {
    match last_index_of(name, '.') {
        Some(i) => name.skip(i + 1),
        None => name,
    }
}

/// The (MIME type, class) of a file whose extension the system MIME map answered with
/// `system_mime`: an empty extension or an unknown one gives the default type, non-media.
pub open spec fn classification(name: Seq<char>, system_mime: Option<Seq<char>>) -> (Seq<char>, MediaFileClass) {
    if last_dot_segment(name).len() == 0 {
        (MIME_TYPE_DEFAULT@, MediaFileClass::NonMedia)
    } else {
        match system_mime {
            Some(m) => (m, class_of_mime(m)),
            None => (MIME_TYPE_DEFAULT@, MediaFileClass::NonMedia),
        }
    }
}

/// The extension segment used to query the system MIME map.
pub fn extension_segment(filename: &str) -> (r: String)
    ensures
        r@ == last_dot_segment(filename@),
{
    let n = chars_of(filename);
    match rfind(n.as_slice(), '.') {
        Some(i) => {
            proof {
                lemma_last_index_of(n@, '.');
            }
            let e = slice_of(n.as_slice(), i + 1, n.len());
            assert(e@ =~= n@.skip(i + 1));
            string_of(e.as_slice())
        },
        None => string_of(n.as_slice()),
    }
}

/// Classifies a file given the answer of the system MIME map for its extension.
pub fn classify_file_with(filename: &str, system_mime: Option<String>) -> (r: (String, MediaFileClass))
    ensures
        (r.0@, r.1) == classification(filename@, match system_mime {
            Some(m) => Some(m@),
            None => None,
        }),
{
    let ext = extension_segment(filename);
    if ext.as_str().unicode_len() == 0 {
        return (MIME_TYPE_DEFAULT.to_string(), MediaFileClass::NonMedia);
    }
    match system_mime {
        Some(mime) => {
            let class = classify_from_system_mime(mime.as_str());
            (mime, class)
        },
        None => (MIME_TYPE_DEFAULT.to_string(), MediaFileClass::NonMedia),
    }
}

/// Classifies a file by querying the system MimeTypeMap for its extension.
pub fn classify_file(filename: &str) -> (r: (String, MediaFileClass))
    ensures
        (r.0@, r.1) == classification(filename@, None),
{
    let ext = extension_segment(filename);
    let mime = system_mime_from_extension(ext.as_str());
    classify_file_with(filename, mime)
}

/// The collection an upload of the given class goes to.
pub open spec fn collection_for(class: MediaFileClass) -> MediaStoreCollection {
    match class {
        MediaFileClass::Image => MediaStoreCollection::Images,
        MediaFileClass::Video => MediaStoreCollection::Videos,
        MediaFileClass::NonMedia => MediaStoreCollection::Downloads,
    }
}

/// Determines the MediaStore collection from a MediaFileClass.
pub fn collection_from_class(class: MediaFileClass) -> (r: MediaStoreCollection)
    ensures
        r == collection_for(class),
{
    match class {
        MediaFileClass::Image => MediaStoreCollection::Images,
        MediaFileClass::Video => MediaStoreCollection::Videos,
        MediaFileClass::NonMedia => MediaStoreCollection::Downloads,
    }
}

/// Result of a MediaStore query operation.
#[derive(Debug, Clone)]
pub struct QueryResult {
    /// Content URI of the file
    pub content_uri: String,
    /// Display name (filename)
    pub display_name: String,
    /// File size in bytes
    pub size: u64,
    /// Last modified timestamp (Unix epoch millis)
    pub date_modified: u64,
    /// MIME type
    pub mime_type: String,
    /// Relative path within the collection (e.g., "DCIM/Camera/")
    pub relative_path: String,
}

/// A directory entry: MIME type `inode/directory`, or no MIME type and a name ending in `/`.
pub open spec fn is_directory_entry(mime: Seq<char>, display_name: Seq<char>) -> bool {
    mime == "inode/directory"@ || (mime.len() == 0 && has_suffix(display_name, seq!['/']))
}

impl QueryResult {
    /// Returns true if this entry is a directory (based on MIME type).
    pub fn is_directory(&self) -> (r: bool)
        ensures
            r == is_directory_entry(self.mime_type@, self.display_name@),
    {
        let m = chars_of(self.mime_type.as_str());
        if chars_eq_str(m.as_slice(), "inode/directory") {
            return true;
        }
        let n = chars_of(self.display_name.as_str());
        let slash = vec!['/'];
        assert(slash@ =~= seq!['/']);
        m.len() == 0 && ends_with(n.as_slice(), slash.as_slice())
    }
}

/// File descriptor wrapper for Android ParcelFileDescriptor.
#[derive(Debug)]
pub struct FileDescriptorInfo {
    /// The raw file descriptor.
    pub fd: i32,
    /// MediaStore content URI for this entry.
    pub content_uri: String,
    /// The file path for reference.
    pub path: String,
}

/// Error type for MediaStore operations.
#[derive(Debug, Clone, PartialEq, Eq)]
pub enum MediaStoreError {
    OpenFdFailed(String),
    InsertFailed(String),
    QueryFailed(String),
    DeleteFailed(String),
    NotFound(String),
    InvalidPath(String),
    PermissionDenied(String),
    IoError(String),
    BridgeError(String),
    Cancelled,
}

/// The text of a MediaStore error.
pub open spec fn media_store_error_text(e: MediaStoreError) -> Seq<char> {
    match e {
        MediaStoreError::OpenFdFailed(m) => "Failed to open file descriptor: "@ + m@,
        MediaStoreError::InsertFailed(m) => "Failed to insert into MediaStore: "@ + m@,
        MediaStoreError::QueryFailed(m) => "Failed to query MediaStore: "@ + m@,
        MediaStoreError::DeleteFailed(m) => "Failed to delete from MediaStore: "@ + m@,
        MediaStoreError::NotFound(m) => "File not found: "@ + m@,
        MediaStoreError::InvalidPath(m) => "Invalid path: "@ + m@,
        MediaStoreError::PermissionDenied(m) => "Permission denied: "@ + m@,
        MediaStoreError::IoError(m) => "IO error: "@ + m@,
        MediaStoreError::BridgeError(m) => "Bridge error: "@ + m@,
        MediaStoreError::Cancelled => "Operation cancelled"@,
    }
}

impl MediaStoreError {
    /// The text of the error (see `media_store_error_text`).
    pub fn message(&self) -> (r: String)
        ensures
            r@ == media_store_error_text(*self),
    {
        match self {
            MediaStoreError::OpenFdFailed(m) => join_strs("Failed to open file descriptor: ", m.as_str()),
            MediaStoreError::InsertFailed(m) => join_strs("Failed to insert into MediaStore: ", m.as_str()),
            MediaStoreError::QueryFailed(m) => join_strs("Failed to query MediaStore: ", m.as_str()),
            MediaStoreError::DeleteFailed(m) => join_strs("Failed to delete from MediaStore: ", m.as_str()),
            MediaStoreError::NotFound(m) => join_strs("File not found: ", m.as_str()),
            MediaStoreError::InvalidPath(m) => join_strs("Invalid path: ", m.as_str()),
            MediaStoreError::PermissionDenied(m) => join_strs("Permission denied: ", m.as_str()),
            MediaStoreError::IoError(m) => join_strs("IO error: ", m.as_str()),
            MediaStoreError::BridgeError(m) => join_strs("Bridge error: ", m.as_str()),
            MediaStoreError::Cancelled => "Operation cancelled".to_string(),
        }
    }
}

/// The last segment of a path after its leading slashes are removed.
pub open spec fn display_name(p: Seq<char>) -> Seq<char> {
    let t = trim_start(p, '/');
    match last_index_of(t, '/') {
        Some(i) => t.skip(i + 1),
        None => t,
    }
}

/// The directory part (with its trailing slash) of a path after its leading slashes are
/// removed; empty when there is no slash left.
pub open spec fn relative_dir(p: Seq<char>) -> Seq<char> {
    let t = trim_start(p, '/');
    match last_index_of(t, '/') {
        Some(i) => t.take(i + 1),
        None => Seq::empty(),
    }
}

/// Extracts the display name (filename) from a path.
pub fn display_name_from_path(path: &str) -> (r: String)
    ensures
        r@ == display_name(path@),
{
    let t = trim_start_char(chars_of(path).as_slice(), '/');
    match rfind(t.as_slice(), '/') {
        Some(i) => {
            proof {
                lemma_last_index_of(t@, '/');
            }
            let n = slice_of(t.as_slice(), i + 1, t.len());
            assert(n@ =~= t@.skip(i + 1));
            string_of(n.as_slice())
        },
        None => string_of(t.as_slice()),
    }
}

/// Extracts the relative directory path from a full path.
///
/// Returns the parent directory path, or empty string if the path has no parent.
pub fn relative_path_from_full_path(path: &str) -> (r: String)
    ensures
        r@ == relative_dir(path@),
{
    let t = trim_start_char(chars_of(path).as_slice(), '/');
    match rfind(t.as_slice(), '/') {
        Some(i) => {
            proof {
                lemma_last_index_of(t@, '/');
            }
            let d = slice_of(t.as_slice(), 0, i + 1);
            assert(d@ =~= t@.take(i + 1));
            string_of(d.as_slice())
        },
        None => {
            let e: Vec<char> = Vec::new();
            assert(e@ =~= Seq::<char>::empty());
            string_of(e.as_slice())
        },
    }
}

/// The MIME type of a file name, by its lowercased ending.
pub open spec fn mime_for_name(name: Seq<char>) -> Seq<char> {
    let l = lower(name);
    if has_suffix(l, ".jpg"@) || has_suffix(l, ".jpeg"@) {
        MIME_TYPE_JPEG@
    } else if has_suffix(l, ".heif"@) || has_suffix(l, ".heic"@) || has_suffix(l, ".hif"@) {
        MIME_TYPE_HEIF@
    } else if has_suffix(l, ".dng"@) {
        MIME_TYPE_DNG@
    } else if has_suffix(l, ".nef"@) {
        MIME_TYPE_NEF@
    } else if has_suffix(l, ".nrw"@) {
        MIME_TYPE_NRW@
    } else if has_suffix(l, ".cr2"@) {
        MIME_TYPE_CR2@
    } else if has_suffix(l, ".cr3"@) {
        MIME_TYPE_CR3@
    } else if has_suffix(l, ".arw"@) {
        MIME_TYPE_ARW@
    } else if has_suffix(l, ".sr2"@) {
        MIME_TYPE_SR2@
    } else if has_suffix(l, ".raf"@) {
        MIME_TYPE_RAF@
    } else if has_suffix(l, ".orf"@) {
        MIME_TYPE_ORF@
    } else if has_suffix(l, ".rw2"@) {
        MIME_TYPE_RW2@
    } else if has_suffix(l, ".pef"@) {
        MIME_TYPE_PEF@
    } else if has_suffix(l, ".x3f"@) {
        MIME_TYPE_X3F@
    } else if has_suffix(l, ".mp4"@) {
        MIME_TYPE_MP4@
    } else if has_suffix(l, ".mov"@) {
        MIME_TYPE_MOV@
    } else {
        MIME_TYPE_DEFAULT@
    }
}

/// Whether the lowercased name ends with the given literal.
fn ends_lit(l: &[char], suffix: &str) -> (r: bool)
    ensures
        r == has_suffix(l@, suffix@),
{
    ends_with(l, chars_of(suffix).as_slice())
}

/// Determines the MIME type from a file extension.
///
/// This static mapping is the fallback MIME source where no system MIME map exists,
/// and the reference mapping for the Android bridge.
pub fn mime_type_from_filename(filename: &str) -> (r: &'static str)
    ensures
        r@ == mime_for_name(filename@),
{
    let l = to_lower(chars_of(filename).as_slice());
    let l = l.as_slice();
    if ends_lit(l, ".jpg") || ends_lit(l, ".jpeg") {
        MIME_TYPE_JPEG
    } else if ends_lit(l, ".heif") || ends_lit(l, ".heic") || ends_lit(l, ".hif") {
        MIME_TYPE_HEIF
    } else if ends_lit(l, ".dng") {
        MIME_TYPE_DNG
    } else if ends_lit(l, ".nef") {
        MIME_TYPE_NEF
    } else if ends_lit(l, ".nrw") {
        MIME_TYPE_NRW
    } else if ends_lit(l, ".cr2") {
        MIME_TYPE_CR2
    } else if ends_lit(l, ".cr3") {
        MIME_TYPE_CR3
    } else if ends_lit(l, ".arw") {
        MIME_TYPE_ARW
    } else if ends_lit(l, ".sr2") {
        MIME_TYPE_SR2
    } else if ends_lit(l, ".raf") {
        MIME_TYPE_RAF
    } else if ends_lit(l, ".orf") {
        MIME_TYPE_ORF
    } else if ends_lit(l, ".rw2") {
        MIME_TYPE_RW2
    } else if ends_lit(l, ".pef") {
        MIME_TYPE_PEF
    } else if ends_lit(l, ".x3f") {
        MIME_TYPE_X3F
    } else if ends_lit(l, ".mp4") {
        MIME_TYPE_MP4
    } else if ends_lit(l, ".mov") {
        MIME_TYPE_MOV
    } else {
        MIME_TYPE_DEFAULT
    }
}

/// Default relative path for camera uploads.
pub fn default_relative_path() -> (r: &'static str)
    ensures
        r@ == "DCIM/CameraFTP/"@,
{
    "DCIM/CameraFTP/"
}

} // verus!
