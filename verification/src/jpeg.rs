//! Locating the embedded JPEG preview inside RAW file data, and checking its marker layout.
use vstd::prelude::*;

verus! {

/// `memchr::memchr`: the index of the first occurrence of `needle` in `haystack`.
/// The contract states what the crate documents: the first match, or `None` when the
/// byte does not occur.
#[verifier::external_body]
fn first_byte(needle: u8, haystack: &[u8]) -> (r: Option<usize>)
    ensures
        match r {
            Some(p) => p < haystack@.len() && haystack@[p as int] == needle
                && forall|k: int| 0 <= k < p ==> haystack@[k] != needle,
            None => forall|k: int| 0 <= k < haystack@.len() ==> haystack@[k] != needle,
        },
{
    memchr::memchr(needle, haystack)
}

/// The big-endian 16-bit value stored at `p + 2`, `p + 3`.
pub open spec fn len_at(d: Seq<u8>, p: int) -> int {
    (d[p + 2] as int) * 256 + (d[p + 3] as int)
}

/// Walks the markers of candidate JPEG data from `pos` until EOI.
pub open spec fn jpeg_walk(d: Seq<u8>, pos: int) -> bool
    decreases d.len() - pos,
{
    if pos < 0 || pos + 1 >= d.len() {
        false
    } else if d[pos] != 0xFFu8 {
        false
    } else {
        let m = d[pos + 1];
        if m == 0xD9u8 {
            true
        } else if m == 0x00u8 || m == 0x01u8 || (0xD0u8 <= m && m <= 0xD7u8) {
            jpeg_walk(d, pos + 2)
        } else if pos + 3 >= d.len() {
            false
        } else if len_at(d, pos) < 2 || pos + 2 + len_at(d, pos) > d.len() {
            false
        } else {
            jpeg_walk(d, pos + 2 + len_at(d, pos))
        }
    }
}

/// Candidate data whose markers after SOI follow JPEG syntax up to an EOI.
pub open spec fn spec_is_valid_jpeg(d: Seq<u8>) -> bool {
    d.len() >= 6 && jpeg_walk(d, 2)
}

/// Validate that candidate data has a structurally valid JPEG segment layout.
/// Checks that markers after SOI follow JPEG syntax rules.
pub fn is_valid_jpeg(data: &[u8]) -> (r: bool)
    ensures
        r == spec_is_valid_jpeg(data@),
{
    let len = data.len();
    if len < 6 {
        return false;
    }
    let mut pos: usize = 2;
    while pos < len - 1
        invariant
            len == data@.len(),
            len >= 6,
            2 <= pos,
            spec_is_valid_jpeg(data@) == jpeg_walk(data@, pos as int),
        decreases len - pos,
    {
        if data[pos] != 0xFF {
            return false;
        }
        let marker = data[pos + 1];
        if marker == 0xD9 {
            return true;
        }
        if marker == 0x00 || marker == 0x01 || (0xD0 <= marker && marker <= 0xD7) {
            pos = pos + 2;
            continue;
        }
        if len - pos <= 3 {
            return false;
        }
        let seg_len: usize = (data[pos + 2] as usize) * 256 + (data[pos + 3] as usize);
        if seg_len < 2 || seg_len > len - pos - 2 {
            return false;
        }
        pos = pos + 2 + seg_len;
    }
    false
}

/// The first EOI marker (`FF D9`) at or after `j`.
pub open spec fn first_eoi(d: Seq<u8>, j: int) -> Option<int>
    decreases d.len() - j,
{
    if j < 0 || j + 1 >= d.len() {
        None
    } else if d[j] == 0xFFu8 && d[j + 1] == 0xD9u8 {
        Some(j)
    } else {
        first_eoi(d, j + 1)
    }
}

/// The size of the segment that starts with an SOI marker (`FF D8`) at `p` and ends with
/// the first EOI marker after it, when both are there.
pub open spec fn soi_size(d: Seq<u8>, p: int) -> Option<int> {
    if 0 <= p && p + 1 < d.len() && d[p] == 0xFFu8 && d[p + 1] == 0xD8u8 {
        match first_eoi(d, p + 2) {
            Some(e) => Some(e + 2 - p),
            None => None,
        }
    } else {
        None
    }
}

/// Among the SOI positions below `n`, the (start, size) of the largest complete segment;
/// on equal sizes the earliest start wins.
pub open spec fn best_upto(d: Seq<u8>, n: int) -> Option<(int, int)>
    decreases n,
{
    if n <= 0 {
        None
    } else {
        let prev = best_upto(d, n - 1);
        match soi_size(d, n - 1) {
            Some(sz) => match prev {
                Some(b) => if sz > b.1 { Some((n - 1, sz)) } else { prev },
                None => Some((n - 1, sz)),
            },
            None => prev,
        }
    }
}

/// The largest complete JPEG segment of `d`, kept only when it is at least 8 bytes long
/// and its marker layout is valid.
pub open spec fn largest_jpeg(d: Seq<u8>) -> Option<Seq<u8>> {
    if d.len() < 4 {
        None
    } else {
        match best_upto(d, d.len() - 1) {
            Some(b) => {
                let seg = d.subrange(b.0, b.0 + b.1);
                if b.1 >= 8 && spec_is_valid_jpeg(seg) { Some(seg) } else { None }
            },
            None => None,
        }
    }
}

proof fn lemma_first_eoi_skip(d: Seq<u8>, j: int, k: int)
    requires
        0 <= j <= k,
        forall|p: int| j <= p < k && p < d.len() ==> d[p] != 0xFFu8,
    ensures
        k + 1 < d.len() ==> first_eoi(d, j) == first_eoi(d, k),
        k + 1 >= d.len() ==> first_eoi(d, j) is None,
    decreases k - j,
{
    if j < k {
        lemma_first_eoi_skip(d, j + 1, k);
    }
}

proof fn lemma_best_skip(d: Seq<u8>, i: int, k: int)
    requires
        0 <= i <= k,
        forall|p: int| i <= p < k && p < d.len() ==> d[p] != 0xFFu8,
    ensures
        best_upto(d, k) == best_upto(d, i),
    decreases k - i,
{
    if i < k {
        lemma_best_skip(d, i, k - 1);
    }
}

proof fn lemma_best_bounds(d: Seq<u8>, n: int)
    ensures
        match best_upto(d, n) {
            Some(b) => 0 <= b.0 && 4 <= b.1 && b.0 + b.1 <= d.len() && b.0 < n,
            None => true,
        },
    decreases n,
{
    if n > 0 {
        lemma_best_bounds(d, n - 1);
        lemma_first_eoi_bound(d, n + 1);
    }
}

proof fn lemma_first_eoi_bound(d: Seq<u8>, j: int)
    ensures
        match first_eoi(d, j) {
            Some(e) => j <= e && e + 1 < d.len(),
            None => true,
        },
    decreases d.len() - j,
{
    if !(j < 0 || j + 1 >= d.len()) && !(d[j] == 0xFFu8 && d[j + 1] == 0xD9u8) {
        lemma_first_eoi_bound(d, j + 1);
    }
}

proof fn lemma_first_eoi_is_eoi(d: Seq<u8>, j: int)
    ensures
        match first_eoi(d, j) {
            Some(e) => j <= e && e + 1 < d.len() && d[e] == 0xFFu8 && d[e + 1] == 0xD9u8,
            None => true,
        },
    decreases d.len() - j,
{
    if !(j < 0 || j + 1 >= d.len()) && !(d[j] == 0xFFu8 && d[j + 1] == 0xD9u8) {
        lemma_first_eoi_is_eoi(d, j + 1);
    }
}

proof fn lemma_best_is_soi(d: Seq<u8>, n: int)
    ensures
        match best_upto(d, n) {
            Some(b) => soi_size(d, b.0) == Some(b.1),
            None => true,
        },
    decreases n,
{
    if n > 0 {
        lemma_best_is_soi(d, n - 1);
    }
}

/// The preview found in RAW data is a piece of it that starts with an SOI marker, ends with
/// an EOI marker, is at least 8 bytes long and has a valid marker layout.
pub proof fn lemma_largest_jpeg_is_marked_segment(d: Seq<u8>)
    ensures
        largest_jpeg(d) matches Some(seg) ==> {
            &&& seg.len() >= 8
            &&& spec_is_valid_jpeg(seg)
            &&& seg[0] == 0xFFu8 && seg[1] == 0xD8u8
            &&& seg[seg.len() - 2] == 0xFFu8 && seg[seg.len() - 1] == 0xD9u8
            &&& exists|p: int| 0 <= p && p + seg.len() <= d.len() && #[trigger] d.subrange(p, p + seg.len()) == seg
        },
{
    if d.len() >= 4 {
        let n = d.len() - 1;
        lemma_best_bounds(d, n);
        lemma_best_is_soi(d, n);
        match best_upto(d, n) {
            Some(b) => {
                let p = b.0;
                lemma_first_eoi_is_eoi(d, p + 2);
                let seg = d.subrange(p, p + b.1);
                if b.1 >= 8 && spec_is_valid_jpeg(seg) {
                    let e = first_eoi(d, p + 2)->0;
                    assert(e + 2 - p == b.1);
                    assert(seg[0] == d[p]);
                    assert(seg[1] == d[p + 1]);
                    assert(seg[seg.len() - 2] == d[e]);
                    assert(seg[seg.len() - 1] == d[e + 1]);
                    assert(d.subrange(p, p + seg.len()) == seg);
                }
            },
            None => {},
        }
    }
}

/// The first EOI marker at or after `from`, found by jumping between `0xFF` bytes.
fn find_eoi(data: &[u8], from: usize) -> (r: Option<usize>)
    requires
        data@.len() >= 4,
    ensures
        match r {
            Some(e) => first_eoi(data@, from as int) == Some(e as int),
            None => first_eoi(data@, from as int) is None,
        },
{
    let len = data.len();
    let mut j: usize = from;
    while j < len - 1
        invariant
            len == data@.len(),
            len >= 4,
            from <= j,
            first_eoi(data@, from as int) == first_eoi(data@, j as int),
        decreases len - j,
    {
        let hay = &data[j..len - 1];
        match first_byte(0xFF, hay) {
            Some(p) => {
                let rel = j + p;
                assert(data@[rel as int] == 0xFFu8) by {
                    assert(hay@[p as int] == data@[rel as int]);
                }
                proof {
                    assert forall|q: int| j <= q < rel && q < data@.len() implies data@[q] != 0xFFu8 by {
                        assert(hay@[q - j] == data@[q]);
                    }
                    lemma_first_eoi_skip(data@, j as int, rel as int);
                }
                if data[rel + 1] == 0xD9 {
                    return Some(rel);
                }
                j = rel + 1;
            },
            None => {
                proof {
                    assert forall|q: int| j <= q < len - 1 && q < data@.len() implies data@[q] != 0xFFu8 by {
                        assert(hay@[q - j] == data@[q]);
                    }
                    lemma_first_eoi_skip(data@, j as int, len - 1);
                }
                return None;
            },
        }
    }
    None
}

/// Scan binary data for the largest complete JPEG segment.
/// JPEG segments are delimited by SOI (0xFF 0xD8) and EOI (0xFF 0xD9) markers.
/// Uses memchr for SIMD-accelerated 0xFF byte scanning.
pub fn find_largest_jpeg(data: &[u8]) -> (r: Option<Vec<u8>>)
    ensures
        match r {
            Some(v) => largest_jpeg(data@) == Some(v@),
            None => largest_jpeg(data@) is None,
        },
{
    let len = data.len();
    if len < 4 {
        return None;
    }
    let mut best_start: usize = 0;
    let mut best_size: usize = 0;
    let mut i: usize = 0;
    while i < len - 1
        invariant
            len == data@.len(),
            len >= 4,
            i <= len,
            match best_upto(data@, i as int) {
                Some(b) => best_start == b.0 && best_size == b.1,
                None => best_size == 0,
            },
        ensures
            len - 1 <= i <= len,
            match best_upto(data@, i as int) {
                Some(b) => best_start == b.0 && best_size == b.1,
                None => best_size == 0,
            },
        decreases len - i,
    {
        let hay = &data[i..len - 1];
        let found = first_byte(0xFF, hay);
        if found.is_none() {
            proof {
                assert forall|q: int| i <= q < len - 1 && q < data@.len() implies data@[q] != 0xFFu8 by {
                    assert(hay@[q - i] == data@[q]);
                }
                lemma_best_skip(data@, i as int, len - 1);
            }
            i = len - 1;
            break;
        }
        let p = found.unwrap();
        let ff_pos = i + p;
        assert(data@[ff_pos as int] == 0xFFu8) by {
            assert(hay@[p as int] == data@[ff_pos as int]);
        }
        proof {
            assert forall|q: int| i <= q < ff_pos && q < data@.len() implies data@[q] != 0xFFu8 by {
                assert(hay@[q - i] == data@[q]);
            }
            lemma_best_skip(data@, i as int, ff_pos as int);
        }
        if data[ff_pos + 1] == 0xD8 {
            let start = ff_pos;
            let eoi = find_eoi(data, start + 2);
            proof {
                lemma_first_eoi_bound(data@, start + 2);
            }
            match eoi {
                Some(e) => {
                    let size = e + 2 - start;
                    if size > best_size {
                        best_start = start;
                        best_size = size;
                    }
                },
                None => {},
            }
            assert(best_upto(data@, ff_pos + 1) == best_upto(data@, ff_pos + 2));
            i = ff_pos + 2;
        } else {
            i = ff_pos + 1;
        }
    }
    proof {
        lemma_best_bounds(data@, len - 1);
        if i == len {
            assert(soi_size(data@, len - 1) is None);
            assert(best_upto(data@, len as int) == best_upto(data@, len - 1));
        }
        assert(best_upto(data@, len - 1) == best_upto(data@, i as int));
    }
    if best_size >= 8 {
        let candidate = &data[best_start..best_start + best_size];
        if is_valid_jpeg(candidate) {
            Some(vstd::slice::slice_to_vec(candidate))
        } else {
            None
        }
    } else {
        None
    }
}

} // verus!
