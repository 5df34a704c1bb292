//! Content types of preview images, the decisions around an embedded RAW preview,
//! and the bookkeeping of the bounded preview cache.
use vstd::prelude::*;
use crate::text::{lower, to_lower, chars_of, chars_eq_str};
use crate::paths::{extension, extension_of};
use crate::image_utils::{has_exif_app1, spec_has_exif_app1, inject_orientation_exif, orientation_app1};

verus! {

/// Most entries the preview cache keeps.
pub const MAX_CACHE_ENTRIES: usize = 50;

/// Largest RAW file (in bytes) whose embedded preview is extracted: 100 MiB.
pub const MAX_RAW_SIZE: u64 = 104857600;

/// The lowercased extension of a path, or the empty sequence when it has none.
pub open spec fn lower_extension_or_empty(p: Seq<char>) -> Seq<char> {
    match extension(p) {
        Some(e) => lower(e),
        None => Seq::empty(),
    }
}

/// The HTTP content type served for a preview path.
pub open spec fn content_type(p: Seq<char>) -> Seq<char> {
    let e = lower_extension_or_empty(p);
    if e == "jpg"@ || e == "jpeg"@ {
        "image/jpeg"@
    } else if e == "heif"@ || e == "hif"@ || e == "heic"@ {
        "image/heic"@
    } else {
        "application/octet-stream"@
    }
}

/// The content type of a preview image, by its extension.
pub fn content_type_for(path: &str) -> (r: &'static str)
    ensures
        r@ == content_type(path@),
{
    let p = chars_of(path);
    let e = match extension_of(p.as_slice()) {
        Some(e) => to_lower(e.as_slice()),
        None => Vec::new(),
    };
    assert(e@ == lower_extension_or_empty(path@)) by {
        if extension(path@) is None {
            assert(e@ =~= Seq::<char>::empty());
        }
    }
    if chars_eq_str(e.as_slice(), "jpg") || chars_eq_str(e.as_slice(), "jpeg") {
        "image/jpeg"
    } else if chars_eq_str(e.as_slice(), "heif") || chars_eq_str(e.as_slice(), "hif")
        || chars_eq_str(e.as_slice(), "heic") {
        "image/heic"
    } else {
        "application/octet-stream"
    }
}

/// Whether a RAW file of `size` bytes is small enough for preview extraction.
pub fn raw_size_allowed(size: u64) -> (r: bool)
    ensures
        r == (size <= MAX_RAW_SIZE),
{
    size <= MAX_RAW_SIZE
}

/// Whether the orientation of the RAW file has to be read for this preview: it has no EXIF.
pub fn needs_raw_orientation(jpeg: &[u8]) -> (r: bool)
    ensures
        r == !spec_has_exif_app1(jpeg@),
{
    !has_exif_app1(jpeg)
}

/// The preview as served: a preview without EXIF gets the RAW file's orientation
/// injected, unless that orientation is unknown or 1 (upright).
pub open spec fn oriented_preview(jpeg: Seq<u8>, orientation: Option<u8>) -> Seq<u8> {
    if spec_has_exif_app1(jpeg) {
        jpeg
    } else {
        match orientation {
            Some(o) => if o != 1 { jpeg.take(2) + orientation_app1(o) + jpeg.skip(2) } else { jpeg },
            None => jpeg,
        }
    }
}

/// Applies the RAW file's orientation to an extracted preview.
pub fn apply_raw_orientation(jpeg: Vec<u8>, orientation: Option<u8>) -> (r: Vec<u8>)
    requires
        jpeg@.len() >= 2,
    ensures
        r@ == oriented_preview(jpeg@, orientation),
{
    if has_exif_app1(jpeg.as_slice()) {
        return jpeg;
    }
    match orientation {
        Some(o) => {
            if o != 1 {
                inject_orientation_exif(jpeg, o)
            } else {
                jpeg
            }
        },
        None => jpeg,
    }
}

/// The keys of cache entries, oldest first.
pub open spec fn keys_of<V>(entries: Seq<(String, V)>) -> Seq<Seq<char>> {
    entries.map_values(|e: (String, V)| e.0@)
}

/// Bounded cache of preview bytes keyed by path; the oldest entry leaves first.
pub struct ImagePreviewCache<V> {
    entries: Vec<(String, V)>,
}

impl<V> ImagePreviewCache<V> {
    /// The entries, oldest first.
    pub closed spec fn view_entries(&self) -> Seq<(String, V)> {
        self.entries@
    }

    /// The cached keys, oldest first.
    pub open spec fn keys(&self) -> Seq<Seq<char>> {
        keys_of(self.view_entries())
    }

    /// No key twice, and at most `MAX_CACHE_ENTRIES` entries.
    pub open spec fn wf(&self) -> bool {
        &&& self.keys().no_duplicates()
        &&& self.view_entries().len() <= MAX_CACHE_ENTRIES
    }

    /// An empty cache.
    pub fn new() -> (c: Self)
        ensures
            c.view_entries() == Seq::<(String, V)>::empty(),
            c.wf(),
    {
        let c = ImagePreviewCache { entries: Vec::new() };
        assert(c.keys() =~= Seq::<Seq<char>>::empty());
        c
    }

    /// Number of cached entries.
    pub fn len(&self) -> (n: usize)
        ensures
            n == self.view_entries().len(),
    {
        self.entries.len()
    }

    /// Position of `key` among the entries.
    fn position(&self, key: &String) -> (r: Option<usize>)
        ensures
            match r {
                Some(i) => i < self.view_entries().len() && self.keys()[i as int] == key@,
                None => !self.keys().contains(key@),
            },
    {
        let mut i: usize = 0;
        while i < self.entries.len()
            invariant
                i <= self.entries@.len(),
                forall|j: int| 0 <= j < i ==> self.entries@[j].0@ != key@,
            decreases self.entries.len() - i,
        {
            if self.entries[i].0 == *key {
                return Some(i);
            }
            i = i + 1;
        }
        assert forall|j: int| 0 <= j < self.keys().len() implies self.keys()[j] != key@ by {
            assert(self.keys()[j] == self.entries@[j].0@);
        }
        None
    }

    /// The cached value for `key`, if any.
    pub fn lookup(&self, key: &String) -> (r: Option<&V>)
        requires
            self.wf(),
        ensures
            match r {
                Some(v) => exists|i: int| 0 <= i < self.view_entries().len()
                    && self.keys()[i] == key@ && self.view_entries()[i].1 == *v,
                None => !self.keys().contains(key@),
            },
    {
        match self.position(key) {
            Some(i) => Some(&self.entries[i].1),
            None => None,
        }
    }

    /// Stores `value` under `key` unless the key is already cached (then nothing changes
    /// and `false` is returned). When the cache is full the oldest entry leaves.
    pub fn store(&mut self, key: String, value: V) -> (inserted: bool)
        requires
            old(self).wf(),
        ensures
            final(self).wf(),
            inserted == !old(self).keys().contains(key@),
            !inserted ==> final(self).view_entries() == old(self).view_entries(),
            inserted && old(self).view_entries().len() < MAX_CACHE_ENTRIES ==>
                final(self).view_entries() == old(self).view_entries().push((key, value)),
            inserted && old(self).view_entries().len() == MAX_CACHE_ENTRIES ==>
                final(self).view_entries() == old(self).view_entries().skip(1).push((key, value)),
    {
        if self.position(&key).is_some() {
            return false;
        }
        let ghost old_entries = self.entries@;
        let ghost k = key@;
        if self.entries.len() == MAX_CACHE_ENTRIES {
            self.entries.remove(0);
            assert(self.entries@ =~= old_entries.skip(1));
        }
        let ghost mid = self.entries@;
        self.entries.push((key, value));
        proof {
            assert(keys_of(self.entries@) =~= keys_of(mid).push(k));
            assert(keys_of(mid).no_duplicates()) by {
                if old_entries.len() == MAX_CACHE_ENTRIES {
                    assert forall|a: int, b: int| 0 <= a < b < keys_of(mid).len()
                        implies keys_of(mid)[a] != keys_of(mid)[b] by {
                        assert(keys_of(mid)[a] == keys_of(old_entries)[a + 1]);
                        assert(keys_of(mid)[b] == keys_of(old_entries)[b + 1]);
                    }
                } else {
                    assert(mid =~= old_entries);
                }
            }
            assert forall|j: int| 0 <= j < keys_of(mid).len() implies keys_of(mid)[j] != k by {
                if old_entries.len() == MAX_CACHE_ENTRIES {
                    assert(keys_of(mid)[j] == keys_of(old_entries)[j + 1]);
                } else {
                    assert(mid =~= old_entries);
                }
            }
        }
        true
    }

    /// Drops the entry for `key`, if any; the other entries keep their values and their
    /// order of eviction.
    pub fn invalidate(&mut self, key: &String)
        requires
            old(self).wf(),
        ensures
            final(self).wf(),
            !final(self).keys().contains(key@),
            forall|k: Seq<char>| k != key@ ==> (final(self).keys().contains(k) <==> old(self).keys().contains(k)),
            !old(self).keys().contains(key@) ==> final(self).view_entries() == old(self).view_entries(),
            old(self).keys().contains(key@) ==> exists|i: int|
                0 <= i < old(self).view_entries().len() && #[trigger] old(self).keys()[i] == key@
                && final(self).view_entries() == old(self).view_entries().remove(i),
    {
        match self.position(key) {
            Some(i) => {
                let ghost old_entries = self.entries@;
                self.entries.remove(i);
                proof {
                    assert(old_entries == old(self).view_entries());
                    assert(keys_of(old_entries)[i as int] == key@);
                    assert(self.entries@ == old_entries.remove(i as int));
                    let ok = keys_of(old_entries);
                    let nk = keys_of(self.entries@);
                    assert(nk =~= ok.remove(i as int));
                    assert forall|a: int, b: int| 0 <= a < b < nk.len() implies nk[a] != nk[b] by {
                        let a2 = if a < i { a } else { a + 1 };
                        let b2 = if b < i { b } else { b + 1 };
                        assert(nk[a] == ok[a2]);
                        assert(nk[b] == ok[b2]);
                    }
                    assert forall|j: int| 0 <= j < nk.len() implies nk[j] != key@ by {
                        let j2 = if j < i { j } else { j + 1 };
                        assert(nk[j] == ok[j2]);
                    }
                    assert forall|k: Seq<char>| k != key@ implies (nk.contains(k) <==> ok.contains(k)) by {
                        if ok.contains(k) {
                            let j = choose|j: int| 0 <= j < ok.len() && ok[j] == k;
                            assert(j != i);
                            let j2 = if j < i { j } else { j - 1 };
                            assert(nk[j2] == k);
                        }
                        if nk.contains(k) {
                            let j = choose|j: int| 0 <= j < nk.len() && nk[j] == k;
                            let j2 = if j < i { j } else { j + 1 };
                            assert(ok[j2] == k);
                        }
                    }
                }
            },
            None => {},
        }
    }
}


/// After a store that inserted `value` under `key`, a lookup of `key` finds `value`: the
/// entry found for a key (see `ImagePreviewCache::lookup`) is the one just stored, since no
/// key is cached twice.
pub proof fn lemma_lookup_after_store<V>(before: Seq<(String, V)>, after: Seq<(String, V)>, key: String, value: V, i: int)
    requires
        after == before.push((key, value)) || after == before.skip(1).push((key, value)),
        keys_of(after).no_duplicates(),
        0 <= i < after.len(),
        keys_of(after)[i] == key@,
    ensures
        after[i].1 == value,
        keys_of(after).contains(key@),
{
    let last = after.len() - 1;
    assert(keys_of(after)[last] == key@);
    assert(i == last);
}

} // verus!
