//! Content fingerprints and the incremental cache keyed by them.

use vstd::prelude::*;
use vstd::hash_map::StringHashMap;
use vstd::string::*;
use sha2::Digest;
use crate::analyzer::metrics::{FileMetrics, MetricsView};

verus! {

/// The only cache format that is read. A document of any other version is
/// treated as an empty cache.
pub const CACHE_VERSION: u32 = 1;

/// What identifies the analysable state of a file: modification time in
/// whole seconds, size, and the hash of its content.
#[derive(Debug, PartialEq, Eq)]
pub struct FileFingerprint {
    pub mtime_unix_secs: u64,
    pub file_size_bytes: u64,
    pub content_sha256: String,
}

/// A fingerprint as plain values.
pub struct FingerprintView {
    pub mtime_unix_secs: u64,
    pub file_size_bytes: u64,
    pub content_sha256: Seq<char>,
}

impl View for FileFingerprint {
    type V = FingerprintView;

    open spec fn view(&self) -> FingerprintView {
        FingerprintView {
            mtime_unix_secs: self.mtime_unix_secs,
            file_size_bytes: self.file_size_bytes,
            content_sha256: self.content_sha256@,
        }
    }
}

impl Clone for FileFingerprint {
    fn clone(&self) -> (copy: Self)
        ensures
            copy@ == self@,
    {
        FileFingerprint {
            mtime_unix_secs: self.mtime_unix_secs,
            file_size_bytes: self.file_size_bytes,
            content_sha256: self.content_sha256.clone(),
        }
    }
}

impl FileFingerprint {
    /// Whether all three components agree.
    pub fn same_as(&self, other: &FileFingerprint) -> (same: bool)
        ensures
            same == (self@ == other@),
            same == (self.mtime_unix_secs == other.mtime_unix_secs && self.file_size_bytes
                == other.file_size_bytes && self.content_sha256@ == other.content_sha256@),
    {
        self.mtime_unix_secs == other.mtime_unix_secs && self.file_size_bytes
            == other.file_size_bytes && self.content_sha256 == other.content_sha256
    }
}

/// A streaming SHA-256 hasher: the file is fed to it chunk by chunk.
///
/// It holds a `sha2::Sha256`, a type built from type-level numbers that the
/// verifier cannot be given a declaration of, so the struct is opaque to it:
/// all that is known of a hasher is what [`hasher_input`] names and the
/// three functions below state.
#[verifier::external_body]
pub struct ContentHasher {
    inner: sha2::Sha256,
}

/// The bytes that a hasher has been fed so far, in order.
pub uninterp spec fn hasher_input(hasher: ContentHasher) -> Seq<u8>;

/// The SHA-256 digest of a byte string.
pub uninterp spec fn sha256_digest(data: Seq<u8>) -> Seq<u8>;

/// `sha2::Sha256::new` (the `Digest` trait): a hasher that has been fed
/// nothing yet.
#[verifier::external_body]
fn hasher_new() -> (hasher: ContentHasher)
    ensures
        hasher_input(hasher) == Seq::<u8>::empty(),
{
    ContentHasher { inner: sha2::Sha256::new() }
}

/// `Digest::update` on `sha2::Sha256`: feeding a chunk appends it to what
/// the hasher has been fed.
#[verifier::external_body]
fn hasher_update(hasher: &mut ContentHasher, chunk: &[u8])
    ensures
        hasher_input(*final(hasher)) == hasher_input(*old(hasher)) + chunk@,
{
    hasher.inner.update(chunk);
}

/// `Digest::finalize` on `sha2::Sha256`: the digest of everything fed, as
/// bytes.
#[verifier::external_body]
fn hasher_finalize(hasher: ContentHasher) -> (digest: Vec<u8>)
    ensures
        digest@ == sha256_digest(hasher_input(hasher)),
{
    hasher.inner.finalize().to_vec()
}

/// The character of one hexadecimal digit, lower case.
pub open spec fn hex_char(d: int) -> char {
    if d == 10 {
        'a'
    } else if d == 11 {
        'b'
    } else if d == 12 {
        'c'
    } else if d == 13 {
        'd'
    } else if d == 14 {
        'e'
    } else if d == 15 {
        'f'
    } else {
        crate::analyzer::decimal::digit_char(d)
    }
}

/// Two lower-case hexadecimal digits for each byte, high digit first.
pub open spec fn hex_lower(bytes: Seq<u8>) -> Seq<char>
    decreases bytes.len(),
{
    if bytes.len() == 0 {
        Seq::empty()
    } else {
        hex_lower(bytes.drop_last()) + seq![
            hex_char(bytes.last() as int / 16),
            hex_char(bytes.last() as int % 16),
        ]
    }
}

fn hex_text(d: u8) -> (text: &'static str)
    requires
        d < 16,
    ensures
        text@ == seq![hex_char(d as int)],
{
    proof {
        reveal_strlit("0");
        reveal_strlit("1");
        reveal_strlit("2");
        reveal_strlit("3");
        reveal_strlit("4");
        reveal_strlit("5");
        reveal_strlit("6");
        reveal_strlit("7");
        reveal_strlit("8");
        reveal_strlit("9");
        reveal_strlit("a");
        reveal_strlit("b");
        reveal_strlit("c");
        reveal_strlit("d");
        reveal_strlit("e");
        reveal_strlit("f");
    }
    let text = if d == 0 {
        "0"
    } else if d == 1 {
        "1"
    } else if d == 2 {
        "2"
    } else if d == 3 {
        "3"
    } else if d == 4 {
        "4"
    } else if d == 5 {
        "5"
    } else if d == 6 {
        "6"
    } else if d == 7 {
        "7"
    } else if d == 8 {
        "8"
    } else if d == 9 {
        "9"
    } else if d == 10 {
        "a"
    } else if d == 11 {
        "b"
    } else if d == 12 {
        "c"
    } else if d == 13 {
        "d"
    } else if d == 14 {
        "e"
    } else {
        "f"
    };
    assert(text@ =~= seq![hex_char(d as int)]);
    text
}

/// The bytes as lower-case hexadecimal text.
pub fn to_hex(bytes: &Vec<u8>) -> (text: String)
    ensures
        text@ == hex_lower(bytes@),
{
    let mut text = String::new();
    let mut i: usize = 0;
    while i < bytes.len()
        invariant
            i <= bytes.len(),
            text@ == hex_lower(bytes@.take(i as int)),
        decreases bytes.len() - i,
    {
        let byte: u8 = bytes[i];
        assert(bytes@.take(i + 1).drop_last() == bytes@.take(i as int));
        text.append(hex_text(byte / 16));
        text.append(hex_text(byte % 16));
        i = i + 1;
        assert(text@ =~= hex_lower(bytes@.take(i as int)));
    }
    assert(bytes@.take(bytes.len() as int) == bytes@);
    text
}

impl ContentHasher {
    /// The bytes fed so far.
    pub open spec fn input(self) -> Seq<u8> {
        hasher_input(self)
    }

    /// A hasher that has been fed nothing.
    pub fn new() -> (hasher: Self)
        ensures
            hasher.input() == Seq::<u8>::empty(),
    {
        hasher_new()
    }

    /// Feeds the next chunk of the content.
    pub fn update(&mut self, chunk: &[u8])
        ensures
            final(self).input() == old(self).input() + chunk@,
    {
        hasher_update(self, chunk)
    }

    /// The digest of all that was fed, as lower-case hexadecimal text.
    pub fn finish(self) -> (hash: String)
        ensures
            hash@ == hex_lower(sha256_digest(self.input())),
    {
        let digest = hasher_finalize(self);
        to_hex(&digest)
    }
}

/// The fingerprint of a file from its modification time in seconds since
/// the epoch (zero where the platform gives none), its size, and the hasher
/// that its content was fed to.
pub fn fingerprint_file(
    modified_unix_secs: Option<u64>,
    file_size_bytes: u64,
    content: ContentHasher,
) -> (fingerprint: FileFingerprint)
    ensures
        fingerprint.mtime_unix_secs == (match modified_unix_secs {
            Some(secs) => secs,
            None => 0,
        }),
        fingerprint.file_size_bytes == file_size_bytes,
        fingerprint.content_sha256@ == hex_lower(sha256_digest(content.input())),
{
    let mtime_unix_secs: u64 = match modified_unix_secs {
        Some(secs) => secs,
        None => 0,
    };
    FileFingerprint { mtime_unix_secs, file_size_bytes, content_sha256: content.finish() }
}

/// What the cache keeps for one path.
#[derive(Debug, PartialEq, Eq)]
pub struct CacheEntry {
    pub fingerprint: FileFingerprint,
    pub metrics: FileMetrics,
}

/// A cache entry as plain values.
pub struct EntryView {
    pub fingerprint: FingerprintView,
    pub metrics: MetricsView,
}

impl View for CacheEntry {
    type V = EntryView;

    open spec fn view(&self) -> EntryView {
        EntryView { fingerprint: self.fingerprint@, metrics: self.metrics@ }
    }
}

impl Clone for CacheEntry {
    fn clone(&self) -> (copy: Self)
        ensures
            copy@ == self@,
    {
        CacheEntry { fingerprint: self.fingerprint.clone(), metrics: self.metrics.clone() }
    }
}

/// A stored record as a cache hit hands it out: marked as a hit, and with
/// no processing time, since no work was done.
pub open spec fn as_hit(m: MetricsView) -> MetricsView {
    MetricsView { cache_hit: true, processing_time_ms: 0, ..m }
}

/// What a lookup gives: the stored record, as a hit, where the path is known
/// and the stored fingerprint equals the given one; else nothing.
pub open spec fn lookup_in(
    store: Map<Seq<char>, EntryView>,
    key: Seq<char>,
    fingerprint: FingerprintView,
) -> Option<MetricsView> {
    if store.contains_key(key) && store[key].fingerprint == fingerprint {
        Some(as_hit(store[key].metrics))
    } else {
        None
    }
}

/// The store that a list of entries describes; of two entries for one path
/// the later one stays.
pub open spec fn document_map(entries: Seq<(Seq<char>, EntryView)>) -> Map<Seq<char>, EntryView>
    decreases entries.len(),
{
    if entries.len() == 0 {
        Map::empty()
    } else {
        document_map(entries.drop_last()).insert(entries.last().0, entries.last().1)
    }
}

/// The store after the entries of a list were stored in it in order, but
/// for those that are cache hits themselves: a record that came out of the
/// cache is not stored again.
pub open spec fn with_fresh(
    store: Map<Seq<char>, EntryView>,
    entries: Seq<(Seq<char>, EntryView)>,
) -> Map<Seq<char>, EntryView>
    decreases entries.len(),
{
    if entries.len() == 0 {
        store
    } else if entries.last().1.metrics.cache_hit {
        with_fresh(store, entries.drop_last())
    } else {
        with_fresh(store, entries.drop_last()).insert(entries.last().0, entries.last().1)
    }
}

/// The paths of a store in the order in which they first came in, after the
/// entries of a list were stored in it in order.
pub open spec fn paths_after(
    paths: Seq<Seq<char>>,
    entries: Seq<(Seq<char>, EntryView)>,
    skip_hits: bool,
) -> Seq<Seq<char>>
    decreases entries.len(),
{
    if entries.len() == 0 {
        paths
    } else {
        let earlier = paths_after(paths, entries.drop_last(), skip_hits);
        if (skip_hits && entries.last().1.metrics.cache_hit) || earlier.contains(entries.last().0) {
            earlier
        } else {
            earlier.push(entries.last().0)
        }
    }
}

/// The views of a list of keyed entries.
pub open spec fn entry_views(entries: Seq<(String, CacheEntry)>) -> Seq<(Seq<char>, EntryView)> {
    Seq::new(entries.len(), |i: int| (entries[i].0@, entries[i].1@))
}

/// The store that a list describes holds exactly the paths of the list, and
/// for each path the last entry listed for it.
pub proof fn lemma_document_map(entries: Seq<(Seq<char>, EntryView)>)
    ensures
        forall|k: Seq<char>|
            document_map(entries).contains_key(k) <==> exists|i: int|
                0 <= i < entries.len() && (#[trigger] entries[i]).0 == k,
        forall|i: int|
            0 <= i < entries.len() && (forall|j: int|
                i < j < entries.len() ==> (#[trigger] entries[j]).0 != entries[i].0)
                ==> document_map(entries)[(#[trigger] entries[i]).0] == entries[i].1,
    decreases entries.len(),
{
    if entries.len() > 0 {
        let earlier = entries.drop_last();
        let last = entries.last();
        lemma_document_map(earlier);
        assert(document_map(entries) == document_map(earlier).insert(last.0, last.1));
        assert forall|k: Seq<char>|
            document_map(entries).contains_key(k) <==> exists|i: int|
                0 <= i < entries.len() && (#[trigger] entries[i]).0 == k by {
            if document_map(entries).contains_key(k) {
                if k == last.0 {
                    assert(entries[entries.len() - 1].0 == k);
                } else {
                    assert(document_map(earlier).contains_key(k));
                    let i = choose|i: int| 0 <= i < earlier.len() && (#[trigger] earlier[i]).0 == k;
                    assert(entries[i].0 == k);
                }
            }
            if exists|i: int| 0 <= i < entries.len() && (#[trigger] entries[i]).0 == k {
                let i = choose|i: int| 0 <= i < entries.len() && (#[trigger] entries[i]).0 == k;
                if i < earlier.len() {
                    assert(earlier[i].0 == k);
                    assert(document_map(earlier).contains_key(k));
                }
            }
        }
        assert forall|i: int|
            0 <= i < entries.len() && (forall|j: int|
                i < j < entries.len() ==> (#[trigger] entries[j]).0 != entries[i].0) implies document_map(
            entries,
        )[(#[trigger] entries[i]).0] == entries[i].1 by {
            if i < earlier.len() {
                assert(entries[entries.len() - 1].0 != entries[i].0);
                assert(earlier[i] == entries[i]);
                assert forall|j: int| i < j < earlier.len() implies (#[trigger] earlier[j]).0
                    != earlier[i].0 by {
                    assert(entries[j].0 != entries[i].0);
                }
            }
        }
    }
}

/// A lookup right after an upsert for the same path hits exactly when the
/// two fingerprints agree in all three components; one differing component
/// is a miss.
pub proof fn lemma_hit_iff_fingerprints_equal(
    store: Map<Seq<char>, EntryView>,
    key: Seq<char>,
    stored: FingerprintView,
    metrics: MetricsView,
    asked: FingerprintView,
)
    ensures
        lookup_in(store.insert(key, EntryView { fingerprint: stored, metrics }), key, asked)
            is Some <==> (stored.mtime_unix_secs == asked.mtime_unix_secs && stored.file_size_bytes
            == asked.file_size_bytes && stored.content_sha256 == asked.content_sha256),
        stored == asked ==> lookup_in(
            store.insert(key, EntryView { fingerprint: stored, metrics }),
            key,
            asked,
        ) == Some(as_hit(metrics)),
{
}

/// A lookup hits exactly when the path is stored with a fingerprint that
/// agrees with the given one in all three components.
pub proof fn lemma_lookup_hit(store: Map<Seq<char>, EntryView>, key: Seq<char>, asked: FingerprintView)
    ensures
        lookup_in(store, key, asked) is Some <==> (store.contains_key(key)
            && store[key].fingerprint.mtime_unix_secs == asked.mtime_unix_secs
            && store[key].fingerprint.file_size_bytes == asked.file_size_bytes
            && store[key].fingerprint.content_sha256 == asked.content_sha256),
{
}

/// An upsert for one path leaves the lookups of every other path as they were.
pub proof fn lemma_upsert_is_local(
    store: Map<Seq<char>, EntryView>,
    key: Seq<char>,
    entry: EntryView,
    other: Seq<char>,
    asked: FingerprintView,
)
    requires
        other != key,
    ensures
        lookup_in(store.insert(key, entry), other, asked) == lookup_in(store, other, asked),
{
}

/// The metrics cache: one entry per canonical path.
pub struct AnalysisCache {
    version: u32,
    keys: Vec<String>,
    entries: StringHashMap<CacheEntry>,
}

impl View for AnalysisCache {
    type V = Map<Seq<char>, EntryView>;

    closed spec fn view(&self) -> Map<Seq<char>, EntryView> {
        Map::new(|k: Seq<char>| self.entries@.contains_key(k), |k: Seq<char>| self.entries@[k]@)
    }
}

impl AnalysisCache {
    /// The stored paths, in the order in which they first came in.
    pub closed spec fn paths(&self) -> Seq<Seq<char>> {
        Seq::new(self.keys@.len(), |i: int| self.keys@[i]@)
    }

    /// The cache is of the current version, and its list of paths names
    /// each stored path once.
    pub closed spec fn wf(&self) -> bool {
        &&& self.version == CACHE_VERSION
        &&& forall|i: int| 0 <= i < self.keys.len() ==> self.entries@.contains_key(#[trigger] self.keys[i]@)
        &&& forall|i: int, j: int|
            0 <= i < self.keys.len() && 0 <= j < self.keys.len() && i != j ==> self.keys[i]@
                != self.keys[j]@
        &&& forall|k: Seq<char>| #[trigger]
            self.entries@.contains_key(k) ==> exists|i: int|
                0 <= i < self.keys.len() && self.keys[i]@ == k
    }

    /// An empty cache of the current version.
    pub fn new() -> (cache: Self)
        ensures
            cache.wf(),
            cache@ == Map::<Seq<char>, EntryView>::empty(),
            cache.paths() == Seq::<Seq<char>>::empty(),
    {
        let cache = AnalysisCache {
            version: CACHE_VERSION,
            keys: Vec::new(),
            entries: StringHashMap::new(),
        };
        assert(cache@ =~= Map::<Seq<char>, EntryView>::empty());
        assert(cache.paths() =~= Seq::<Seq<char>>::empty());
        cache
    }

    /// The list of paths names exactly the stored paths, each once.
    pub proof fn lemma_paths(&self)
        requires
            self.wf(),
        ensures
            self.paths().no_duplicates(),
            self.paths().len() == self@.len(),
            forall|k: Seq<char>| self.paths().contains(k) <==> self@.contains_key(k),
    {
        self.lemma_view_len();
        self.lemma_keys_count();
        assert forall|k: Seq<char>| self.paths().contains(k) <==> self@.contains_key(k) by {
            if self.paths().contains(k) {
                let i = choose|i: int| 0 <= i < self.paths().len() && self.paths()[i] == k;
                assert(self.entries@.contains_key(self.keys[i]@));
            }
            if self@.contains_key(k) {
                assert(self.entries@.contains_key(k));
                let i = choose|i: int| 0 <= i < self.keys.len() && self.keys[i]@ == k;
                assert(self.paths()[i] == k);
            }
        }
    }

    /// The format version, which is always the current one.
    pub fn version(&self) -> (version: u32)
        requires
            self.wf(),
        ensures
            version == CACHE_VERSION,
    {
        self.version
    }

    /// The stored metrics for `key`, as a hit, if the stored fingerprint
    /// agrees with `fingerprint` in all three components.
    pub fn lookup(&self, key: &str, fingerprint: &FileFingerprint) -> (found: Option<FileMetrics>)
        ensures
            match found {
                Some(metrics) => lookup_in(self@, key@, fingerprint@) == Some(metrics@),
                None => lookup_in(self@, key@, fingerprint@) is None,
            },
    {
        match self.entries.get(key) {
            Some(entry) => {
                if entry.fingerprint.same_as(fingerprint) {
                    let mut metrics = entry.metrics.clone();
                    metrics.cache_hit = true;
                    metrics.processing_time_ms = 0;
                    Some(metrics)
                } else {
                    None
                }
            },
            None => None,
        }
    }

    /// Stores `metrics` for `key`, replacing whatever was stored for it.
    pub fn upsert(&mut self, key: &str, fingerprint: FileFingerprint, metrics: FileMetrics)
        requires
            old(self).wf(),
        ensures
            final(self).wf(),
            final(self)@ == old(self)@.insert(
                key@,
                EntryView { fingerprint: fingerprint@, metrics: metrics@ },
            ),
            final(self).paths() == (if old(self)@.contains_key(key@) {
                old(self).paths()
            } else {
                old(self).paths().push(key@)
            }),
    {
        let entry = CacheEntry { fingerprint, metrics };
        if !self.entries.contains_key(key) {
            self.keys.push(key.to_owned());
        }
        self.entries.insert(key.to_owned(), entry);
        proof {
            let before = old(self);
            assert forall|k: Seq<char>| #[trigger]
                self.entries@.contains_key(k) implies exists|i: int|
                0 <= i < self.keys.len() && self.keys[i]@ == k by {
                if k == key@ {
                    if before.entries@.contains_key(key@) {
                        let i = choose|i: int| 0 <= i < before.keys.len() && before.keys[i]@ == k;
                        assert(self.keys[i]@ == k);
                    } else {
                        assert(self.keys[self.keys.len() - 1]@ == k);
                    }
                } else {
                    assert(before.entries@.contains_key(k));
                    let i = choose|i: int| 0 <= i < before.keys.len() && before.keys[i]@ == k;
                    assert(self.keys[i]@ == k);
                }
            }
            assert(self@ =~= old(self)@.insert(
                key@,
                EntryView { fingerprint: fingerprint@, metrics: metrics@ },
            ));
            if old(self)@.contains_key(key@) {
                assert(self.paths() =~= old(self).paths());
            } else {
                assert(self.paths() =~= old(self).paths().push(key@));
            }
        }
    }

    /// How many paths the cache holds.
    pub fn len(&self) -> (count: usize)
        ensures
            count == self@.len(),
    {
        proof {
            self.lemma_view_len();
        }
        self.entries.len()
    }

    proof fn lemma_view_len(&self)
        ensures
            self@.len() == self.entries@.len(),
            self@.dom() == self.entries@.dom(),
    {
        assert(self@.dom() =~= self.entries@.dom());
    }

    /// The cache that a stored document describes: empty unless the
    /// document is of the current version, whatever entries it lists.
    pub fn from_document(version: u32, entries: &Vec<(String, CacheEntry)>) -> (cache: Self)
        ensures
            cache.wf(),
            version != CACHE_VERSION ==> cache@ == Map::<Seq<char>, EntryView>::empty(),
            version != CACHE_VERSION ==> cache.paths() == Seq::<Seq<char>>::empty(),
            version == CACHE_VERSION ==> cache@ == document_map(entry_views(entries@)),
            version == CACHE_VERSION ==> cache.paths() == paths_after(
                Seq::empty(),
                entry_views(entries@),
                false,
            ),
    {
        let mut cache = Self::new();
        if version != CACHE_VERSION {
            return cache;
        }
        let mut i: usize = 0;
        while i < entries.len()
            invariant
                i <= entries.len(),
                cache.wf(),
                cache@ == document_map(entry_views(entries@).take(i as int)),
                cache.paths() == paths_after(
                    Seq::empty(),
                    entry_views(entries@).take(i as int),
                    false,
                ),
            decreases entries.len() - i,
        {
            let pair = &entries[i];
            proof {
                cache.lemma_paths();
            }
            cache.upsert(pair.0.as_str(), pair.1.fingerprint.clone(), pair.1.metrics.clone());
            proof {
                let views = entry_views(entries@);
                assert(views.take(i + 1).drop_last() == views.take(i as int));
                assert(views.take(i + 1).last() == views[i as int]);
            }
            i = i + 1;
        }
        assert(entry_views(entries@).take(entries.len() as int) == entry_views(entries@));
        cache
    }

    /// Stores the results of a run, in order: every record that was newly
    /// extracted. Records that were served from the cache are passed over.
    pub fn store_fresh(&mut self, results: &Vec<(String, CacheEntry)>)
        requires
            old(self).wf(),
        ensures
            final(self).wf(),
            final(self)@ == with_fresh(old(self)@, entry_views(results@)),
            final(self).paths() == paths_after(old(self).paths(), entry_views(results@), true),
    {
        let mut i: usize = 0;
        while i < results.len()
            invariant
                i <= results.len(),
                self.wf(),
                self@ == with_fresh(old(self)@, entry_views(results@).take(i as int)),
                self.paths() == paths_after(
                    old(self).paths(),
                    entry_views(results@).take(i as int),
                    true,
                ),
            decreases results.len() - i,
        {
            let pair = &results[i];
            proof {
                let views = entry_views(results@);
                assert(views.take(i + 1).drop_last() == views.take(i as int));
                assert(views.take(i + 1).last() == views[i as int]);
                self.lemma_paths();
            }
            if !pair.1.metrics.cache_hit {
                self.upsert(pair.0.as_str(), pair.1.fingerprint.clone(), pair.1.metrics.clone());
            }
            i = i + 1;
        }
        assert(entry_views(results@).take(results.len() as int) == entry_views(results@));
    }

    /// The entries to store: one for each stored path, in the order of
    /// [`Self::paths`].
    pub fn to_document(&self) -> (entries: Vec<(String, CacheEntry)>)
        requires
            self.wf(),
        ensures
            entries.len() == self.paths().len(),
            forall|i: int|
                0 <= i < entries.len() ==> (#[trigger] entries[i]).0@ == self.paths()[i]
                    && self@.contains_key(entries[i].0@) && self@[entries[i].0@] == entries[i].1@,
            document_map(entry_views(entries@)) == self@,
    {
        let mut entries: Vec<(String, CacheEntry)> = Vec::new();
        let mut i: usize = 0;
        while i < self.keys.len()
            invariant
                i <= self.keys.len(),
                self.wf(),
                entries.len() == i,
                forall|j: int|
                    0 <= j < i ==> (#[trigger] entries[j]).0@ == self.keys[j]@ && entries[j].1@
                        == self.entries@[self.keys[j]@]@,
            decreases self.keys.len() - i,
        {
            let key = &self.keys[i];
            assert(self.entries@.contains_key(self.keys[i as int]@));
            match self.entries.get(key.as_str()) {
                Some(entry) => {
                    entries.push((key.clone(), entry.clone()));
                },
                None => {},
            }
            i = i + 1;
        }
        proof {
            assert forall|i: int| 0 <= i < entries.len() implies (#[trigger] entries[i]).0@
                == self.paths()[i] && self@.contains_key(entries[i].0@) && self@[entries[i].0@]
                == entries[i].1@ by {
                assert(self.entries@.contains_key(self.keys[i]@));
            }
            let views = entry_views(entries@);
            lemma_document_map(views);
            self.lemma_paths();
            assert forall|k: Seq<char>| document_map(views).contains_key(k) == self@.contains_key(
                k,
            ) by {
                if document_map(views).contains_key(k) {
                    let i = choose|i: int| 0 <= i < views.len() && (#[trigger] views[i]).0 == k;
                    assert(entries[i].0@ == k);
                }
                if self@.contains_key(k) {
                    assert(self.paths().contains(k));
                    let i = choose|i: int| 0 <= i < self.paths().len() && self.paths()[i] == k;
                    assert(views[i].0 == k);
                }
            }
            assert forall|k: Seq<char>| self@.contains_key(k) implies document_map(views)[k]
                == self@[k] by {
                assert(self.paths().contains(k));
                let i = choose|i: int| 0 <= i < self.paths().len() && self.paths()[i] == k;
                assert(views[i].0 == k);
                assert forall|j: int| i < j < views.len() implies (#[trigger] views[j]).0
                    != views[i].0 by {
                    assert(self.paths()[j] != self.paths()[i]);
                }
                assert(entries[i].1@ == self@[k]);
            }
            assert(document_map(views) =~= self@);
        }
        entries
    }

    /// The list of paths is as long as the store is large.
    proof fn lemma_keys_count(&self)
        requires
            self.wf(),
        ensures
            self.keys.len() == self.entries@.len(),
            self.entries@.dom().finite(),
    {
        let names = Seq::new(self.keys.len() as nat, |i: int| self.keys[i]@);
        assert(names.no_duplicates());
        names.unique_seq_to_set();
        assert(names.to_set() =~= self.entries@.dom()) by {
            assert forall|k: Seq<char>| names.to_set().contains(k) implies self.entries@.dom().contains(
                k,
            ) by {
                let i = choose|i: int| 0 <= i < names.len() && names[i] == k;
                assert(self.entries@.contains_key(self.keys[i]@));
            }
            assert forall|k: Seq<char>| self.entries@.dom().contains(k) implies names.to_set().contains(
                k,
            ) by {
                assert(self.entries@.contains_key(k));
                let i = choose|i: int| 0 <= i < self.keys.len() && self.keys[i]@ == k;
                assert(names[i] == k);
            }
        }
    }
}

impl Default for AnalysisCache {
    fn default() -> (cache: Self)
        ensures
            cache.wf(),
            cache@ == Map::<Seq<char>, EntryView>::empty(),
    {
        Self::new()
    }
}

} // verus!
