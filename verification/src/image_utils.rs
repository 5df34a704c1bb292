//! Image format detection by file extension, and the EXIF APP1 segment of JPEG data.
use vstd::prelude::*;
use crate::text::{lower, lower_char, to_lower, chars_of, chars_eq_str};
use crate::paths::{extension, extension_of, dot, lemma_extension_of_file_path};

verus! {

/// RAW extensions, compared without regard to ASCII case:
/// nef nrw cr2 cr3 arw sr2 raf orf rw2 pef dng x3f raw srw.
pub open spec fn is_raw_extension(e: Seq<char>) -> bool {
    let l = lower(e);
    ||| l == "nef"@
    ||| l == "nrw"@
    ||| l == "cr2"@
    ||| l == "cr3"@
    ||| l == "arw"@
    ||| l == "sr2"@
    ||| l == "raf"@
    ||| l == "orf"@
    ||| l == "rw2"@
    ||| l == "pef"@
    ||| l == "dng"@
    ||| l == "x3f"@
    ||| l == "raw"@
    ||| l == "srw"@
}

/// JPEG and HEIF extensions, compared after lowercasing: jpg jpeg heif hif heic.
pub open spec fn is_jpeg_or_heif_extension(e: Seq<char>) -> bool {
    let l = lower(e);
    ||| l == "jpg"@
    ||| l == "jpeg"@
    ||| l == "heif"@
    ||| l == "hif"@
    ||| l == "heic"@
}

/// A path whose extension is a RAW extension.
pub open spec fn is_raw_path(p: Seq<char>) -> bool {
    match extension(p) {
        Some(e) => is_raw_extension(e),
        None => false,
    }
}

/// A path of a supported image: RAW, JPEG or HEIF.
pub open spec fn is_supported_image_path(p: Seq<char>) -> bool {
    match extension(p) {
        Some(e) => is_raw_extension(e) || is_jpeg_or_heif_extension(e),
        None => false,
    }
}

/// Every path whose file name ends in `.` and one of the RAW extensions nef, nrw, cr2,
/// cr3, arw, sr2, raf, orf, rw2, pef, dng, x3f, raw or srw, in any ASCII case, is a RAW
/// path and a supported image, whatever its directory and stem.
pub proof fn lemma_raw_extensions_recognized(dir: Seq<char>, stem: Seq<char>, ext: Seq<char>)
    requires
        dir.len() == 0 || dir.last() == '/',
        stem.len() > 0,
        forall|k: int| 0 <= k < stem.len() ==> stem[k] != '/',
        ({
            ||| lower(ext) == "nef"@
            ||| lower(ext) == "nrw"@
            ||| lower(ext) == "cr2"@
            ||| lower(ext) == "cr3"@
            ||| lower(ext) == "arw"@
            ||| lower(ext) == "sr2"@
            ||| lower(ext) == "raf"@
            ||| lower(ext) == "orf"@
            ||| lower(ext) == "rw2"@
            ||| lower(ext) == "pef"@
            ||| lower(ext) == "dng"@
            ||| lower(ext) == "x3f"@
            ||| lower(ext) == "raw"@
            ||| lower(ext) == "srw"@
        }),
    ensures
        is_raw_path(dir + stem + dot() + ext),
        is_supported_image_path(dir + stem + dot() + ext),
{
    reveal_strlit("nef");
    reveal_strlit("nrw");
    reveal_strlit("cr2");
    reveal_strlit("cr3");
    reveal_strlit("arw");
    reveal_strlit("sr2");
    reveal_strlit("raf");
    reveal_strlit("orf");
    reveal_strlit("rw2");
    reveal_strlit("pef");
    reveal_strlit("dng");
    reveal_strlit("x3f");
    reveal_strlit("raw");
    reveal_strlit("srw");
    let l = lower(ext);
    assert(l.len() == 3);
    assert forall|k: int| 0 <= k < ext.len() implies ext[k] != '/' && ext[k] != '.' by {
        assert(l[k] == lower_char(ext[k]));
        assert(l[k] != '/' && l[k] != '.');
    }
    lemma_extension_of_file_path(dir, stem, ext);
}

/// Every path whose file name ends in `.` and one of jpg, jpeg, heif, hif or heic, in any
/// ASCII case, is a supported image and not a RAW path, whatever its directory and stem.
pub proof fn lemma_jpeg_heif_extensions_recognized(dir: Seq<char>, stem: Seq<char>, ext: Seq<char>)
    requires
        dir.len() == 0 || dir.last() == '/',
        stem.len() > 0,
        forall|k: int| 0 <= k < stem.len() ==> stem[k] != '/',
        ({
            ||| lower(ext) == "jpg"@
            ||| lower(ext) == "jpeg"@
            ||| lower(ext) == "heif"@
            ||| lower(ext) == "hif"@
            ||| lower(ext) == "heic"@
        }),
    ensures
        is_supported_image_path(dir + stem + dot() + ext),
        !is_raw_path(dir + stem + dot() + ext),
{
    reveal_strlit("jpg");
    reveal_strlit("jpeg");
    reveal_strlit("heif");
    reveal_strlit("hif");
    reveal_strlit("heic");
    reveal_strlit("nef");
    reveal_strlit("nrw");
    reveal_strlit("cr2");
    reveal_strlit("cr3");
    reveal_strlit("arw");
    reveal_strlit("sr2");
    reveal_strlit("raf");
    reveal_strlit("orf");
    reveal_strlit("rw2");
    reveal_strlit("pef");
    reveal_strlit("dng");
    reveal_strlit("x3f");
    reveal_strlit("raw");
    reveal_strlit("srw");
    let l = lower(ext);
    assert(ext.len() == l.len() && l.len() >= 3);
    if l.len() == 3 {
        assert(l[0] == 'j' || l[0] == 'h');
        assert("nef"@[0] != l[0]);
        assert("nrw"@[0] != l[0]);
        assert("cr2"@[0] != l[0]);
        assert("cr3"@[0] != l[0]);
        assert("arw"@[0] != l[0]);
        assert("sr2"@[0] != l[0]);
        assert("raf"@[0] != l[0]);
        assert("orf"@[0] != l[0]);
        assert("rw2"@[0] != l[0]);
        assert("pef"@[0] != l[0]);
        assert("dng"@[0] != l[0]);
        assert("x3f"@[0] != l[0]);
        assert("raw"@[0] != l[0]);
        assert("srw"@[0] != l[0]);
    }
    assert(!is_raw_extension(ext));
    assert forall|k: int| 0 <= k < ext.len() implies ext[k] != '/' && ext[k] != '.' by {
        assert(l[k] == lower_char(ext[k]));
        assert(l.len() == ext.len());
        if l == "jpg"@ {
            assert(l[k] != '/' && l[k] != '.');
        } else if l == "jpeg"@ {
            assert(l[k] != '/' && l[k] != '.');
        } else if l == "heif"@ {
            assert(l[k] != '/' && l[k] != '.');
        } else if l == "hif"@ {
            assert(l[k] != '/' && l[k] != '.');
        } else {
            assert(l[k] != '/' && l[k] != '.');
        }
    }
    lemma_extension_of_file_path(dir, stem, ext);
}

/// Whether a (lowercased) extension is one of the RAW extensions.
fn lower_ext_is_raw(l: &[char]) -> (r: bool)
    ensures
        r == (l@ == "nef"@ || l@ == "nrw"@ || l@ == "cr2"@ || l@ == "cr3"@ || l@ == "arw"@
            || l@ == "sr2"@ || l@ == "raf"@ || l@ == "orf"@ || l@ == "rw2"@ || l@ == "pef"@
            || l@ == "dng"@ || l@ == "x3f"@ || l@ == "raw"@ || l@ == "srw"@),
{
    chars_eq_str(l, "nef") || chars_eq_str(l, "nrw") || chars_eq_str(l, "cr2")
        || chars_eq_str(l, "cr3") || chars_eq_str(l, "arw") || chars_eq_str(l, "sr2")
        || chars_eq_str(l, "raf") || chars_eq_str(l, "orf") || chars_eq_str(l, "rw2")
        || chars_eq_str(l, "pef") || chars_eq_str(l, "dng") || chars_eq_str(l, "x3f")
        || chars_eq_str(l, "raw") || chars_eq_str(l, "srw")
}

/// Whether a (lowercased) extension is a JPEG or HEIF extension.
pub(crate) fn lower_ext_is_jpeg_or_heif(l: &[char]) -> (r: bool)
    ensures
        r == (l@ == "jpg"@ || l@ == "jpeg"@ || l@ == "heif"@ || l@ == "hif"@ || l@ == "heic"@),
{
    chars_eq_str(l, "jpg") || chars_eq_str(l, "jpeg") || chars_eq_str(l, "heif")
        || chars_eq_str(l, "hif") || chars_eq_str(l, "heic")
}

/// Whether an extension is a RAW extension (ASCII case ignored).
pub fn is_raw_ext(e: &[char]) -> (r: bool)
    ensures
        r == is_raw_extension(e@),
{
    let l = to_lower(e);
    lower_ext_is_raw(l.as_slice())
}

/// Check if a file path has a RAW image extension.
pub fn is_raw_file(path: &str) -> (r: bool)
    ensures
        r == is_raw_path(path@),
{
    let p = chars_of(path);
    match extension_of(p.as_slice()) {
        Some(e) => is_raw_ext(e.as_slice()),
        None => false,
    }
}

/// Check if a file path is a supported image format (JPEG/HEIF + all RAW).
pub fn is_supported_image(path: &str) -> (r: bool)
    ensures
        r == is_supported_image_path(path@),
{
    let p = chars_of(path);
    match extension_of(p.as_slice()) {
        Some(e) => {
            let l = to_lower(e.as_slice());
            lower_ext_is_raw(l.as_slice()) || lower_ext_is_jpeg_or_heif(l.as_slice())
        },
        None => false,
    }
}

/// The six bytes `"Exif\0\0"` that open an EXIF APP1 payload.
pub open spec fn exif_header() -> Seq<u8> {
    seq![0x45u8, 0x78u8, 0x69u8, 0x66u8, 0x00u8, 0x00u8]
}

/// The big-endian segment length stored after the marker at `i`.
pub open spec fn seg_len(j: Seq<u8>, i: int) -> int {
    (j[i + 2] as int) * 256 + (j[i + 3] as int)
}

/// Walks the JPEG markers from offset `i` looking for an APP1 segment that holds EXIF.
pub open spec fn exif_scan(j: Seq<u8>, i: int) -> bool
    decreases j.len() - i,
{
    if i < 0 || i + 3 >= j.len() {
        false
    } else if j[i] != 0xFFu8 {
        false
    } else {
        let m = j[i + 1];
        if m == 0xE1u8 {
            if i + 10 <= j.len() && j.subrange(i + 4, i + 10) == exif_header() {
                true
            } else {
                let n = i + 2 + seg_len(j, i);
                if n + 3 >= j.len() { false } else { exif_scan(j, n) }
            }
        } else if m == 0xDAu8 {
            false
        } else if m == 0x00u8 || (0xD0u8 <= m && m <= 0xD9u8) {
            exif_scan(j, i + 2)
        } else {
            let n = i + 2 + seg_len(j, i);
            if n + 3 >= j.len() { false } else { exif_scan(j, n) }
        }
    }
}

/// A JPEG (starting with SOI) that carries an APP1/EXIF segment before its scan data.
pub open spec fn spec_has_exif_app1(j: Seq<u8>) -> bool {
    j.len() >= 4 && j[0] == 0xFFu8 && j[1] == 0xD8u8 && exif_scan(j, 2)
}

/// Skipping a whole marker segment other than APP1 and SOS (APP0, DQT, SOF, ...) does not
/// change the answer: the search goes on at the marker that follows the segment.
pub proof fn lemma_exif_scan_skips_other_segments(j: Seq<u8>, i: int)
    requires
        0 <= i,
        i + 3 < j.len(),
        j[i] == 0xFFu8,
        j[i + 1] != 0xE1u8,
        j[i + 1] != 0xDAu8,
        j[i + 1] != 0x00u8,
        !(0xD0u8 <= j[i + 1] && j[i + 1] <= 0xD9u8),
        i + 2 + (j[i + 2] as int) * 256 + (j[i + 3] as int) + 3 < j.len(),
    ensures
        exif_scan(j, i) == exif_scan(j, i + 2 + (j[i + 2] as int) * 256 + (j[i + 3] as int)),
{
}

/// An APP1 segment whose payload opens with `"Exif\0\0"` is found where the search stands.
pub proof fn lemma_exif_scan_finds_exif_app1(j: Seq<u8>, i: int)
    requires
        0 <= i,
        i + 10 <= j.len(),
        j[i] == 0xFFu8,
        j[i + 1] == 0xE1u8,
        j[i + 4] == 0x45u8,
        j[i + 5] == 0x78u8,
        j[i + 6] == 0x69u8,
        j[i + 7] == 0x66u8,
        j[i + 8] == 0x00u8,
        j[i + 9] == 0x00u8,
    ensures
        exif_scan(j, i),
{
    assert(j.subrange(i + 4, i + 10) =~= exif_header());
}

/// A JPEG that opens with SOI, then one segment of any other kind (such as a JFIF APP0),
/// then an EXIF APP1 segment, has EXIF.
pub proof fn lemma_exif_after_first_segment(j: Seq<u8>)
    requires
        j.len() >= 4,
        j[0] == 0xFFu8,
        j[1] == 0xD8u8,
        j[2] == 0xFFu8,
        j[3] != 0xE1u8,
        j[3] != 0xDAu8,
        j[3] != 0x00u8,
        !(0xD0u8 <= j[3] && j[3] <= 0xD9u8),
        ({
            let n = 4 + (j[4] as int) * 256 + (j[5] as int);
            &&& n + 10 <= j.len()
            &&& j[n] == 0xFFu8
            &&& j[n + 1] == 0xE1u8
            &&& j[n + 4] == 0x45u8 && j[n + 5] == 0x78u8 && j[n + 6] == 0x69u8
            &&& j[n + 7] == 0x66u8 && j[n + 8] == 0x00u8 && j[n + 9] == 0x00u8
        }),
    ensures
        spec_has_exif_app1(j),
{
    let n = 4 + (j[4] as int) * 256 + (j[5] as int);
    lemma_exif_scan_skips_other_segments(j, 2);
    lemma_exif_scan_finds_exif_app1(j, n);
}

/// The other steps of the marker walk: an APP1 segment that does not hold EXIF is skipped
/// whole; a standalone marker (a stuffed `00`, RST0-7, SOI, EOI) is skipped by its two
/// bytes; the search ends without EXIF at the start of scan data (SOS) or at a byte that
/// opens no marker.
pub proof fn lemma_exif_scan_other_steps(j: Seq<u8>, i: int)
    requires
        0 <= i,
        i + 3 < j.len(),
    ensures
        j[i] != 0xFFu8 ==> !exif_scan(j, i),
        j[i] == 0xFFu8 && j[i + 1] == 0xDAu8 ==> !exif_scan(j, i),
        j[i] == 0xFFu8 && (j[i + 1] == 0x00u8 || (0xD0u8 <= j[i + 1] && j[i + 1] <= 0xD9u8))
            ==> exif_scan(j, i) == exif_scan(j, i + 2),
        ({
            let n = i + 2 + (j[i + 2] as int) * 256 + (j[i + 3] as int);
            j[i] == 0xFFu8 && j[i + 1] == 0xE1u8 && n + 3 < j.len()
                && !(i + 10 <= j.len() && j[i + 4] == 0x45u8 && j[i + 5] == 0x78u8 && j[i + 6] == 0x69u8
                    && j[i + 7] == 0x66u8 && j[i + 8] == 0x00u8 && j[i + 9] == 0x00u8)
                ==> exif_scan(j, i) == exif_scan(j, n)
        }),
{
    if i + 10 <= j.len() && j.subrange(i + 4, i + 10) == exif_header() {
        assert(j[i + 4] == j.subrange(i + 4, i + 10)[0]);
        assert(j[i + 5] == j.subrange(i + 4, i + 10)[1]);
        assert(j[i + 6] == j.subrange(i + 4, i + 10)[2]);
        assert(j[i + 7] == j.subrange(i + 4, i + 10)[3]);
        assert(j[i + 8] == j.subrange(i + 4, i + 10)[4]);
        assert(j[i + 9] == j.subrange(i + 4, i + 10)[5]);
    }
}

/// Check if a JPEG already has an APP1/EXIF marker.
pub fn has_exif_app1(jpeg: &[u8]) -> (r: bool)
    ensures
        r == spec_has_exif_app1(jpeg@),
{
    let len = jpeg.len();
    if len < 4 || jpeg[0] != 0xFF || jpeg[1] != 0xD8 {
        return false;
    }
    let mut i: usize = 2;
    while len - i > 3
        invariant
            len == jpeg@.len(),
            2 <= i,
            i < len,
            spec_has_exif_app1(jpeg@) == exif_scan(jpeg@, i as int),
        decreases len - i,
    {
        if jpeg[i] != 0xFF {
            return false;
        }
        let marker = jpeg[i + 1];
        if marker == 0xE1 {
            let seg: usize = (jpeg[i + 2] as usize) * 256 + (jpeg[i + 3] as usize);
            if len - i >= 10 && jpeg[i + 4] == 0x45 && jpeg[i + 5] == 0x78 && jpeg[i + 6] == 0x69
                && jpeg[i + 7] == 0x66 && jpeg[i + 8] == 0x00 && jpeg[i + 9] == 0x00 {
                assert(jpeg@.subrange(i + 4, i + 10) =~= exif_header());
                return true;
            }
            assert(!(i + 10 <= len && jpeg@.subrange(i + 4, i + 10) == exif_header())) by {
                if i + 10 <= len && jpeg@.subrange(i + 4, i + 10) == exif_header() {
                    assert(jpeg@.subrange(i + 4, i + 10)[0] == jpeg@[i + 4]);
                    assert(jpeg@.subrange(i + 4, i + 10)[1] == jpeg@[i + 5]);
                    assert(jpeg@.subrange(i + 4, i + 10)[2] == jpeg@[i + 6]);
                    assert(jpeg@.subrange(i + 4, i + 10)[3] == jpeg@[i + 7]);
                    assert(jpeg@.subrange(i + 4, i + 10)[4] == jpeg@[i + 8]);
                    assert(jpeg@.subrange(i + 4, i + 10)[5] == jpeg@[i + 9]);
                }
            }
            if seg + 2 + 3 >= len - i {
                return false;
            }
            i = i + 2 + seg;
            continue;
        }
        if marker == 0xDA {
            return false;
        }
        if marker == 0x00 || (0xD0 <= marker && marker <= 0xD9) {
            if len - i <= 5 {
                assert(!exif_scan(jpeg@, i as int + 2));
                return false;
            }
            i = i + 2;
            continue;
        }
        let seg: usize = (jpeg[i + 2] as usize) * 256 + (jpeg[i + 3] as usize);
        if seg + 2 + 3 >= len - i {
            return false;
        }
        i = i + 2 + seg;
    }
    false
}

/// The 36-byte APP1 segment that holds only an Orientation tag with the given value.
pub open spec fn orientation_app1(o: u8) -> Seq<u8> {
    seq![
        0xFFu8, 0xE1u8, 0x00u8, 0x22u8,
        0x45u8, 0x78u8, 0x69u8, 0x66u8, 0x00u8, 0x00u8,
        0x49u8, 0x49u8, 0x2Au8, 0x00u8, 0x08u8, 0x00u8, 0x00u8, 0x00u8,
        0x01u8, 0x00u8,
        0x12u8, 0x01u8, 0x03u8, 0x00u8, 0x01u8, 0x00u8, 0x00u8, 0x00u8,
        o, 0x00u8, 0x00u8, 0x00u8,
        0x00u8, 0x00u8, 0x00u8, 0x00u8
    ]
}

/// Build a minimal APP1/EXIF segment containing only the Orientation tag.
///
/// Structure:
///   FFE1              - APP1 marker
///   0022              - Length: 34 (2 + 32 payload)
///   "Exif\0\0"        - EXIF header (6 bytes)
///   II 2A00 08000000  - TIFF header: little-endian, magic 42, IFD0 at offset 8
///   0100              - 1 IFD entry
///   1201 0300 01000000 XX000000 - Orientation tag: SHORT, count=1, value=XX
///   00000000          - Next IFD: none
pub fn build_orientation_app1(orientation: u8) -> (r: Vec<u8>)
    ensures
        r@ == orientation_app1(orientation),
        r@.len() == 36,
{
    let r = vec![
        0xFF, 0xE1, 0x00, 0x22,
        0x45, 0x78, 0x69, 0x66, 0x00, 0x00,
        0x49, 0x49, 0x2A, 0x00, 0x08, 0x00, 0x00, 0x00,
        0x01, 0x00,
        0x12, 0x01, 0x03, 0x00, 0x01, 0x00, 0x00, 0x00,
        orientation, 0x00, 0x00, 0x00,
        0x00, 0x00, 0x00, 0x00,
    ];
    assert(r@ =~= orientation_app1(orientation));
    r
}

/// A JPEG with the orientation segment put after its SOI marker carries EXIF.
pub proof fn lemma_injected_has_exif(jpeg: Seq<u8>, orientation: u8)
    requires
        jpeg.len() >= 2,
        jpeg[0] == 0xFFu8,
        jpeg[1] == 0xD8u8,
    ensures
        spec_has_exif_app1(jpeg.take(2) + orientation_app1(orientation) + jpeg.skip(2)),
{
    let j = jpeg.take(2) + orientation_app1(orientation) + jpeg.skip(2);
    let a = orientation_app1(orientation);
    assert(j[0] == jpeg[0]);
    assert(j[1] == jpeg[1]);
    assert(j[2] == a[0]);
    assert(j[3] == a[1]);
    assert(j.subrange(6, 12) =~= exif_header()) by {
        assert forall|k: int| 0 <= k < 6 implies j.subrange(6, 12)[k] == exif_header()[k] by {
            assert(j[6 + k] == a[4 + k]);
        }
    }
}

/// Inject a minimal EXIF APP1 segment with an Orientation tag into a JPEG.
/// Inserted right after the SOI marker (FF D8).
pub fn inject_orientation_exif(jpeg: Vec<u8>, orientation: u8) -> (r: Vec<u8>)
    requires
        jpeg@.len() >= 2,
    ensures
        r@ == jpeg@.take(2) + orientation_app1(orientation) + jpeg@.skip(2),
{
    let app1 = build_orientation_app1(orientation);
    let mut result: Vec<u8> = Vec::new();
    result.push(jpeg[0]);
    result.push(jpeg[1]);
    let mut k: usize = 0;
    while k < app1.len()
        invariant
            app1@ == orientation_app1(orientation),
            k <= app1@.len(),
            result@ == jpeg@.take(2) + app1@.take(k as int),
        decreases app1.len() - k,
    {
        result.push(app1[k]);
        assert(app1@.take(k as int + 1) =~= app1@.take(k as int).push(app1@[k as int]));
        assert(jpeg@.take(2) + app1@.take(k as int + 1) =~= (jpeg@.take(2) + app1@.take(k as int)).push(app1@[k as int]));
        k = k + 1;
    }
    assert(app1@.take(app1@.len() as int) =~= app1@);
    let mut i: usize = 2;
    while i < jpeg.len()
        invariant
            app1@ == orientation_app1(orientation),
            2 <= i <= jpeg@.len(),
            result@ == jpeg@.take(2) + app1@ + jpeg@.subrange(2, i as int),
        decreases jpeg.len() - i,
    {
        result.push(jpeg[i]);
        assert(jpeg@.take(2) + app1@ + jpeg@.subrange(2, i as int + 1) =~= (jpeg@.take(2) + app1@ + jpeg@.subrange(2, i as int)).push(jpeg@[i as int]));
        i = i + 1;
    }
    assert(jpeg@.subrange(2, jpeg@.len() as int) =~= jpeg@.skip(2));
    result
}

} // verus!
