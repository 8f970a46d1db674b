//! The image cache, and the record of which images have been asked for.

use vstd::prelude::*;
use vstd::string::*;

use crate::text::str_eq;

verus! {

/// An image with its content type.
#[derive(Debug, PartialEq, Eq)]
pub struct ImageData {
    pub content_type: String,
    pub data: Vec<u8>,
}

pub struct ImageDataView {
    pub content_type: Seq<char>,
    pub data: Seq<u8>,
}

impl View for ImageData {
    type V = ImageDataView;

    open spec fn view(&self) -> ImageDataView {
        ImageDataView { content_type: self.content_type@, data: self.data@ }
    }
}

impl DeepView for ImageData {
    type V = ImageDataView;

    open spec fn deep_view(&self) -> ImageDataView {
        self@
    }
}

impl Clone for ImageData {
    fn clone(&self) -> (copy: Self)
        ensures
            copy@ == self@,
    {
        let data = self.data.clone();
        assert(data@ =~= self.data@);
        ImageData { content_type: self.content_type.clone(), data }
    }
}

/// The encoding of an image that arrived from upstream.
#[derive(Clone, Copy, Debug, PartialEq, Eq, Structural)]
pub enum ImageFormat {
    Jpeg,
    Png,
}

/// The content type under which an image of the given format is served.
pub open spec fn content_type_of(format: ImageFormat) -> Seq<char> {
    match format {
        ImageFormat::Jpeg => "image/jpeg"@,
        ImageFormat::Png => "image/png"@,
    }
}

/// The content type under which an image of the given format is served.
pub fn content_type(format: ImageFormat) -> (name: String)
    ensures
        name@ == content_type_of(format),
{
    match format {
        ImageFormat::Jpeg => String::from_str("image/jpeg"),
        ImageFormat::Png => String::from_str("image/png"),
    }
}

/// A cached image under its key.
#[derive(Debug)]
pub struct CachedImage {
    pub key: String,
    pub image: ImageData,
}

pub struct CachedImageView {
    pub key: Seq<char>,
    pub image: ImageDataView,
}

impl View for CachedImage {
    type V = CachedImageView;

    open spec fn view(&self) -> CachedImageView {
        CachedImageView { key: self.key@, image: self.image@ }
    }
}

impl DeepView for CachedImage {
    type V = CachedImageView;

    open spec fn deep_view(&self) -> CachedImageView {
        self@
    }
}

/// Some cached image has the key `key`.
pub open spec fn has_image(entries: Seq<CachedImageView>, key: Seq<char>) -> bool {
    exists|i: int| 0 <= i < entries.len() && (#[trigger] entries[i]).key == key
}

/// The place of the image with key `key`, when there is one.
pub open spec fn image_position(entries: Seq<CachedImageView>, key: Seq<char>) -> int {
    choose|i: int| 0 <= i < entries.len() && (#[trigger] entries[i]).key == key
}

/// No two cached images share a key.
pub open spec fn distinct_keys(entries: Seq<CachedImageView>) -> bool {
    forall|i: int, j: int|
        0 <= i < j < entries.len() ==> (#[trigger] entries[i]).key != (#[trigger] entries[j]).key
}

/// The cache with `entry` in place of the image that had its key, or added.
pub open spec fn store_image(entries: Seq<CachedImageView>, entry: CachedImageView) -> Seq<
    CachedImageView,
> {
    if has_image(entries, entry.key) {
        entries.update(image_position(entries, entry.key), entry)
    } else {
        entries.push(entry)
    }
}

/// Must the image `key` be asked for? Only when it is neither cached nor
/// asked for already.
pub open spec fn wants_image(cache: ImageCacheView, key: Seq<char>) -> bool {
    !has_image(cache.entries, key) && !cache.requested.contains(key)
}

/// Storing an image keeps keys distinct and keeps every other key.
pub proof fn lemma_store_image(entries: Seq<CachedImageView>, entry: CachedImageView)
    requires
        distinct_keys(entries),
    ensures
        distinct_keys(store_image(entries, entry)),
        has_image(store_image(entries, entry), entry.key),
        forall|key: Seq<char>|
            has_image(entries, key) ==> #[trigger] has_image(store_image(entries, entry), key),
{
    let after = store_image(entries, entry);
    if has_image(entries, entry.key) {
        let at = image_position(entries, entry.key);
        assert forall|i: int, j: int| 0 <= i < j < after.len() implies (#[trigger] after[i]).key
            != (#[trigger] after[j]).key by {
            assert(entries[i].key != entries[j].key);
            assert(after[i].key == entries[i].key);
            assert(after[j].key == entries[j].key);
        }
        assert(after[at].key == entry.key);
        assert forall|key: Seq<char>| has_image(entries, key) implies #[trigger] has_image(
            after,
            key,
        ) by {
            let k = image_position(entries, key);
            assert(after[k].key == key);
        }
    } else {
        assert forall|i: int, j: int| 0 <= i < j < after.len() implies (#[trigger] after[i]).key
            != (#[trigger] after[j]).key by {
            if j < entries.len() {
                assert(entries[i].key != entries[j].key);
            } else {
                assert(entries[i].key != entry.key);
            }
        }
        assert(after[entries.len() as int].key == entry.key);
        assert forall|key: Seq<char>| has_image(entries, key) implies #[trigger] has_image(
            after,
            key,
        ) by {
            let k = image_position(entries, key);
            assert(after[k].key == key);
        }
    }
}

/// The image cache together with the keys that have been asked for.
#[derive(Debug)]
pub struct ImageCache {
    entries: Vec<CachedImage>,
    requested: Vec<String>,
}

pub struct ImageCacheView {
    pub entries: Seq<CachedImageView>,
    pub requested: Seq<Seq<char>>,
}

impl View for ImageCache {
    type V = ImageCacheView;

    closed spec fn view(&self) -> ImageCacheView {
        ImageCacheView {
            entries: self.entries.deep_view(),
            requested: self.requested.deep_view(),
        }
    }
}

/// The cache's invariant on its view: one image per key, and no key asked
/// for twice.
pub open spec fn cache_wf(cache: ImageCacheView) -> bool {
    distinct_keys(cache.entries) && cache.requested.no_duplicates()
}

impl ImageCache {
    /// The cache's invariant.
    pub open spec fn wf(&self) -> bool {
        cache_wf(self@)
    }

    /// An empty cache with nothing asked for.
    pub fn new() -> (cache: Self)
        ensures
            cache@.entries == Seq::<CachedImageView>::empty(),
            cache@.requested == Seq::<Seq<char>>::empty(),
            cache.wf(),
    {
        let cache = ImageCache { entries: Vec::new(), requested: Vec::new() };
        assert(cache@.entries =~= Seq::<CachedImageView>::empty());
        assert(cache@.requested =~= Seq::<Seq<char>>::empty());
        cache
    }

    fn position(&self, key: &str) -> (found: Option<usize>)
        requires
            self.wf(),
        ensures
            found is Some <==> has_image(self@.entries, key@),
            found is Some ==> found->0 == image_position(self@.entries, key@),
    {
        let mut i: usize = 0;
        while i < self.entries.len()
            invariant
                i <= self.entries.len(),
                self.wf(),
                forall|k: int| 0 <= k < i ==> (#[trigger] self@.entries[k]).key != key@,
            decreases self.entries.len() - i,
        {
            if str_eq(self.entries[i].key.as_str(), key) {
                proof {
                    let entries = self@.entries;
                    let found = image_position(entries, key@);
                    assert(entries[i as int].key == key@);
                    if found < i {
                        assert(entries[found].key != entries[i as int].key);
                    } else if i < found {
                        assert(entries[i as int].key != entries[found].key);
                    }
                }
                return Some(i);
            }
            i += 1;
        }
        None
    }

    /// The cached image with key `key`.
    pub fn get(&self, key: &str) -> (found: Option<&ImageData>)
        requires
            self.wf(),
        ensures
            found is Some <==> has_image(self@.entries, key@),
            found is Some ==> found->0@ == self@.entries[image_position(
                self@.entries,
                key@,
            )].image,
    {
        match self.position(key) {
            Some(at) => Some(&self.entries[at].image),
            None => None,
        }
    }

    /// Has the image `key` been asked for already?
    pub fn is_requested(&self, key: &str) -> (yes: bool)
        ensures
            yes == self@.requested.contains(key@),
    {
        let mut i: usize = 0;
        while i < self.requested.len()
            invariant
                i <= self.requested.len(),
                forall|k: int| 0 <= k < i ==> self@.requested[k] != key@,
            decreases self.requested.len() - i,
        {
            if str_eq(self.requested[i].as_str(), key) {
                assert(self@.requested[i as int] == key@);
                return true;
            }
            i += 1;
        }
        false
    }

    /// Must the image `key` be asked for?
    pub fn wants(&self, key: &str) -> (yes: bool)
        requires
            self.wf(),
        ensures
            yes == wants_image(self@, key@),
    {
        self.position(key).is_none() && !self.is_requested(key)
    }

    /// Records that the image `key` has been asked for; a key that is on
    /// record already is not recorded again.
    pub fn mark_requested(&mut self, key: String)
        requires
            old(self).wf(),
        ensures
            final(self).wf(),
            final(self)@.entries == old(self)@.entries,
            final(self)@.requested == (if old(self)@.requested.contains(key@) {
                old(self)@.requested
            } else {
                old(self)@.requested.push(key@)
            }),
    {
        if self.is_requested(key.as_str()) {
            return;
        }
        let ghost before = self@.requested;
        self.requested.push(key);
        assert(self@.requested =~= before.push(key@));
        assert(self@.entries =~= old(self)@.entries);
        assert forall|i: int, j: int|
            0 <= i < self@.requested.len() && 0 <= j < self@.requested.len() && i
                != j implies self@.requested[i] != self@.requested[j] by {
            if i < before.len() && j < before.len() {
                assert(before[i] != before[j]);
            } else if i < before.len() {
                assert(before.contains(before[i]));
            } else {
                assert(before.contains(before[j]));
            }
        }
    }

    /// Stores an image under its key, in place of any image that had it.
    pub fn insert(&mut self, key: String, image: ImageData)
        requires
            old(self).wf(),
        ensures
            final(self).wf(),
            final(self)@.requested == old(self)@.requested,
            final(self)@.entries == store_image(
                old(self)@.entries,
                CachedImageView { key: key@, image: image@ },
            ),
    {
        let ghost before = self@.entries;
        let ghost entry = CachedImageView { key: key@, image: image@ };
        proof {
            lemma_store_image(before, entry);
        }
        let found = self.position(key.as_str());
        match found {
            Some(at) => {
                self.entries[at] = CachedImage { key, image };
                assert(self@.entries =~= before.update(at as int, entry));
            },
            None => {
                self.entries.push(CachedImage { key, image });
                assert(self@.entries =~= before.push(entry));
            },
        }
        assert(self@.requested =~= old(self)@.requested);
    }
}

} // verus!
