//! The disk cache: where a key's files live, the counters, what a lookup
//! yields, how a directory listing becomes cache entries, and the single-pass
//! copy of an upstream body to the cache file and to the client.
//!
//! Nothing here touches the disk. The caller probes, reads and writes, and
//! reports what happened; every decision is taken here.

use crate::digest::{cache_file_name, file_name_of};
use crate::model::{CacheEntryInfo, CacheEntryView, Stats};
use crate::text::{from_chars, optional_text, push_char, text_or_empty, to_chars};
use vstd::prelude::*;
use vstd::string::StringExecFns;

verus! {

/// The suffix that marks a metadata file.
pub open spec fn meta_suffix() -> Seq<char> {
    seq!['.', 'm', 'e', 't', 'a']
}

/// A directory and a file name put together, with one separator between them
/// unless the directory is empty or already ends in one.
pub open spec fn joined(dir: Seq<char>, name: Seq<char>) -> Seq<char> {
    if dir.len() == 0 {
        name
    } else if dir.last() == '/' {
        dir + name
    } else {
        dir.push('/') + name
    }
}

/// Puts a directory and a file name together.
pub fn join_path(dir: &str, name: &str) -> (path: String)
    ensures
        path@ == joined(dir@, name@),
{
    let chars = to_chars(dir);
    if chars.len() == 0 {
        return name.to_owned();
    }
    let mut path = from_chars(&chars);
    if chars[chars.len() - 1] != '/' {
        push_char(&mut path, '/');
    }
    path.append(name);
    path
}

/// The path of the file that holds the body cached under `key`.
pub open spec fn body_path(dir: Seq<char>, key: Seq<char>) -> Seq<char> {
    joined(dir, file_name_of(key))
}

/// The path of the metadata file that goes with the body cached under `key`.
pub open spec fn sidecar_path(dir: Seq<char>, key: Seq<char>) -> Seq<char> {
    body_path(dir, key) + meta_suffix()
}

/// Whether a file name is that of a metadata file: it ends in `.meta` and has
/// something before that.
pub open spec fn is_sidecar_name(name: Seq<char>) -> bool {
    name.len() > 5 && name.subrange(name.len() - 5, name.len() as int) == meta_suffix()
}

/// Whether a file name is that of a metadata file.
pub fn is_meta_name(name: &str) -> (r: bool)
    ensures
        r == is_sidecar_name(name@),
{
    let chars = to_chars(name);
    let n = chars.len();
    if n <= 5 {
        return false;
    }
    let r = chars[n - 5] == '.' && chars[n - 4] == 'm' && chars[n - 3] == 'e' && chars[n - 2] == 't'
        && chars[n - 1] == 'a';
    proof {
        let tail = name@.subrange(n - 5, n as int);
        assert(tail.len() == 5);
        if r {
            assert(tail =~= meta_suffix());
        } else {
            assert(tail[0] == chars@[n - 5]);
            assert(tail[1] == chars@[n - 4]);
            assert(tail[2] == chars@[n - 3]);
            assert(tail[3] == chars@[n - 2]);
            assert(tail[4] == chars@[n - 1]);
        }
    }
    r
}

/// What is kept beside a cached body.
#[derive(Clone, Debug)]
pub struct CacheMetadata {
    pub key: String,
    pub content_encoding: Option<String>,
    pub content_type: Option<String>,
}

/// The view of a [`CacheMetadata`].
pub struct MetadataView {
    pub key: Seq<char>,
    pub content_encoding: Option<Seq<char>>,
    pub content_type: Option<Seq<char>>,
}

impl View for CacheMetadata {
    type V = MetadataView;

    open spec fn view(&self) -> MetadataView {
        MetadataView {
            key: self.key@,
            content_encoding: optional_text(self.content_encoding),
            content_type: optional_text(self.content_type),
        }
    }
}

/// The cache counters.
#[derive(Clone, Copy, Debug, PartialEq, Eq, Structural)]
pub struct CacheStatsInternal {
    pub hits: u64,
    pub misses: u64,
    pub disk_items: u64,
    pub total_disk_size_bytes: u64,
    pub bytes_saved: u64,
}

/// Counters that have counted nothing.
pub open spec fn zero_counters() -> CacheStatsInternal {
    CacheStatsInternal { hits: 0, misses: 0, disk_items: 0, total_disk_size_bytes: 0, bytes_saved: 0 }
}

impl Default for CacheStatsInternal {
    fn default() -> (r: CacheStatsInternal)
        ensures
            r == zero_counters(),
    {
        CacheStatsInternal { hits: 0, misses: 0, disk_items: 0, total_disk_size_bytes: 0, bytes_saved: 0 }
    }
}

/// What the caller found on disk for a key.
#[derive(Clone, Copy, Debug, PartialEq, Eq, Structural)]
pub struct FileProbe {
    /// The body file exists.
    pub exists: bool,
    /// Its size, where the file system told it.
    pub size: Option<u64>,
    /// It could be opened for reading.
    pub readable: bool,
}

/// The counters after a lookup that found `probe`: an existing file counts as
/// a hit and adds its size, where known, to the bytes served from the cache;
/// a missing one counts as a miss. Counters wrap around.
pub open spec fn after_lookup(stats: CacheStatsInternal, probe: FileProbe) -> CacheStatsInternal {
    if probe.exists {
        CacheStatsInternal {
            hits: stats.hits.wrapping_add(1),
            bytes_saved: match probe.size {
                Some(size) => stats.bytes_saved.wrapping_add(size),
                None => stats.bytes_saved,
            },
            ..stats
        }
    } else {
        CacheStatsInternal { misses: stats.misses.wrapping_add(1), ..stats }
    }
}

/// The counters after a body of `total_bytes` bytes was stored.
pub open spec fn after_store(stats: CacheStatsInternal, total_bytes: u64) -> CacheStatsInternal {
    CacheStatsInternal {
        disk_items: stats.disk_items.wrapping_add(1),
        total_disk_size_bytes: stats.total_disk_size_bytes.wrapping_add(total_bytes),
        ..stats
    }
}

/// The snapshot that shows `stats`: each counter, and hits plus misses as the
/// number of requests.
pub open spec fn snapshot_of(stats: CacheStatsInternal) -> Stats {
    Stats {
        hits: stats.hits,
        misses: stats.misses,
        total_requests: stats.hits.wrapping_add(stats.misses),
        disk_items: stats.disk_items,
        total_disk_size_bytes: stats.total_disk_size_bytes,
        bytes_saved: stats.bytes_saved,
    }
}

/// One entry of the cache directory, as the caller read it.
#[derive(Clone, Debug)]
pub struct DirectoryEntry {
    pub file_name: String,
    /// The entry is a regular file.
    pub is_file: bool,
    /// The file's size, where the file system told it.
    pub size_bytes: Option<u64>,
    /// The key recorded in the metadata file beside it, where that file
    /// exists and is well formed.
    pub recorded_key: Option<String>,
}

/// The view of a [`DirectoryEntry`].
pub struct DirectoryEntryView {
    pub file_name: Seq<char>,
    pub is_file: bool,
    pub size_bytes: Option<u64>,
    pub recorded_key: Option<Seq<char>>,
}

impl View for DirectoryEntry {
    type V = DirectoryEntryView;

    open spec fn view(&self) -> DirectoryEntryView {
        DirectoryEntryView {
            file_name: self.file_name@,
            is_file: self.is_file,
            size_bytes: self.size_bytes,
            recorded_key: optional_text(self.recorded_key),
        }
    }
}

/// Whether a directory entry is shown as a cached body: a regular file that
/// is no metadata file and whose size could be read. An entry that the file
/// system would not describe is passed over.
pub open spec fn is_body(entry: DirectoryEntryView) -> bool {
    entry.is_file && !is_sidecar_name(entry.file_name) && entry.size_bytes is Some
}

/// How a cached body is shown: under the key recorded beside it, or under its
/// file name where none is recorded.
pub open spec fn shown_as(entry: DirectoryEntryView) -> CacheEntryView {
    CacheEntryView {
        key: match entry.recorded_key {
            Some(k) => k,
            None => entry.file_name,
        },
        size_bytes: match entry.size_bytes {
            Some(size) => size,
            None => 0,
        },
    }
}

/// The cached bodies among the entries of a directory, in the directory's order.
pub open spec fn listing(entries: Seq<DirectoryEntryView>) -> Seq<CacheEntryView>
    decreases entries.len(),
{
    if entries.len() == 0 {
        Seq::empty()
    } else if is_body(entries.last()) {
        listing(entries.drop_last()).push(shown_as(entries.last()))
    } else {
        listing(entries.drop_last())
    }
}

/// The names of the regular files among the entries of a directory, in order.
pub open spec fn regular_files(entries: Seq<DirectoryEntryView>) -> Seq<Seq<char>>
    decreases entries.len(),
{
    if entries.len() == 0 {
        Seq::empty()
    } else if entries.last().is_file {
        regular_files(entries.drop_last()).push(entries.last().file_name)
    } else {
        regular_files(entries.drop_last())
    }
}

/// The views of directory entries, in order.
pub open spec fn directory_views(entries: Seq<DirectoryEntry>) -> Seq<DirectoryEntryView> {
    Seq::new(entries.len(), |i: int| entries[i]@)
}

/// The views of cache entries, in order.
pub open spec fn entry_views(entries: Seq<CacheEntryInfo>) -> Seq<CacheEntryView> {
    Seq::new(entries.len(), |i: int| entries[i]@)
}

/// The views of texts, in order.
pub open spec fn text_views(texts: Seq<String>) -> Seq<Seq<char>> {
    Seq::new(texts.len(), |i: int| texts[i]@)
}

/// What a store is to write and where.
#[derive(Debug)]
pub struct StorePlan {
    pub body_path: String,
    pub meta_path: String,
    pub metadata: CacheMetadata,
}

/// The cache directory and its counters.
pub struct CacheManager {
    disk_path: String,
    pub stats: CacheStatsInternal,
}

impl CacheManager {
    /// The directory that the cache keeps its files in.
    pub closed spec fn directory(&self) -> Seq<char> {
        self.disk_path@
    }

    /// The counters as they stand.
    pub closed spec fn counters(&self) -> CacheStatsInternal {
        self.stats
    }

    /// A cache in directory `path`, with all counters at zero.
    pub fn new(path: &str) -> (cache: CacheManager)
        ensures
            cache.directory() == path@,
            cache.counters() == zero_counters(),
    {
        CacheManager { disk_path: path.to_owned(), stats: CacheStatsInternal::default() }
    }

    /// The directory that the cache keeps its files in.
    pub fn disk_path(&self) -> (path: &str)
        ensures
            path@ == self.directory(),
    {
        self.disk_path.as_str()
    }

    /// A snapshot of the counters.
    pub fn get_stats(&self) -> (stats: Stats)
        ensures
            stats == snapshot_of(self.counters()),
    {
        Stats {
            hits: self.stats.hits,
            misses: self.stats.misses,
            total_requests: self.stats.hits.wrapping_add(self.stats.misses),
            disk_items: self.stats.disk_items,
            total_disk_size_bytes: self.stats.total_disk_size_bytes,
            bytes_saved: self.stats.bytes_saved,
        }
    }

    /// The path of the file that holds the body cached under `key`.
    pub fn key_to_path(&self, key: &str) -> (path: String)
        ensures
            path@ == body_path(self.directory(), key@),
    {
        let name = cache_file_name(key);
        join_path(self.disk_path.as_str(), name.as_str())
    }

    /// The path of the metadata file that goes with the body cached under `key`.
    pub fn meta_path(&self, key: &str) -> (path: String)
        ensures
            path@ == sidecar_path(self.directory(), key@),
    {
        let mut path = self.key_to_path(key);
        proof {
            reveal_strlit(".meta");
            assert(".meta"@ =~= meta_suffix());
        }
        path.append(".meta");
        path
    }

    /// Looks `key` up, given what the caller found on disk. The counters move
    /// as [`after_lookup`] says. The result is the path to stream the body
    /// from, and is there exactly if the file exists and could be opened.
    pub fn get(&mut self, key: &str, probe: FileProbe) -> (found: Option<String>)
        ensures
            final(self).counters() == after_lookup(old(self).counters(), probe),
            final(self).directory() == old(self).directory(),
            found is Some <==> probe.exists && probe.readable,
            found matches Some(path) ==> path@ == body_path(old(self).directory(), key@),
    {
        if probe.exists {
            self.stats.hits = self.stats.hits.wrapping_add(1);
            match probe.size {
                Some(size) => {
                    self.stats.bytes_saved = self.stats.bytes_saved.wrapping_add(size);
                },
                None => {},
            }
            if probe.readable {
                Some(self.key_to_path(key))
            } else {
                None
            }
        } else {
            self.stats.misses = self.stats.misses.wrapping_add(1);
            None
        }
    }

    /// The content encoding and content type to replay with a cached body,
    /// given the metadata that was read from beside it: each as recorded, or
    /// empty where none was recorded. Nothing where there is no metadata.
    pub fn get_headers(&self, metadata: Option<CacheMetadata>) -> (headers: Option<(String, String)>)
        ensures
            headers is Some == metadata is Some,
            headers matches Some(pair) ==> {
                &&& pair.0@ == text_or_empty(metadata.unwrap()@.content_encoding)
                &&& pair.1@ == text_or_empty(metadata.unwrap()@.content_type)
            },
    {
        match metadata {
            None => None,
            Some(m) => {
                let encoding = match m.content_encoding {
                    Some(e) => e,
                    None => String::new(),
                };
                let kind = match m.content_type {
                    Some(t) => t,
                    None => String::new(),
                };
                Some((encoding, kind))
            },
        }
    }

    /// Plans the store of a body under `key`: the two paths and the metadata
    /// to write beside the body.
    pub fn put_stream(
        &self,
        key: String,
        content_encoding: Option<String>,
        content_type: Option<String>,
    ) -> (plan: StorePlan)
        ensures
            plan.body_path@ == body_path(self.directory(), key@),
            plan.meta_path@ == sidecar_path(self.directory(), key@),
            plan.metadata@ == (MetadataView {
                key: key@,
                content_encoding: optional_text(content_encoding),
                content_type: optional_text(content_type),
            }),
    {
        let body_path = self.key_to_path(key.as_str());
        let meta_path = self.meta_path(key.as_str());
        StorePlan { body_path, meta_path, metadata: CacheMetadata { key, content_encoding, content_type } }
    }

    /// The cached bodies among the entries of the cache directory.
    pub fn list_entries(&self, entries: &Vec<DirectoryEntry>) -> (infos: Vec<CacheEntryInfo>)
        ensures
            entry_views(infos@) == listing(directory_views(entries@)),
    {
        let mut infos: Vec<CacheEntryInfo> = Vec::new();
        let ghost all = directory_views(entries@);
        let mut i: usize = 0;
        while i < entries.len()
            invariant
                i <= entries.len(),
                all == directory_views(entries@),
                entry_views(infos@) == listing(all.take(i as int)),
            decreases entries.len() - i,
        {
            let entry = &entries[i];
            proof {
                assert(all.take(i + 1).drop_last() == all.take(i as int));
                assert(all.take(i + 1).last() == entry@);
            }
            if entry.is_file && !is_meta_name(entry.file_name.as_str()) {
                match entry.size_bytes {
                    Some(size_bytes) => {
                        let key = match &entry.recorded_key {
                            Some(k) => k.clone(),
                            None => entry.file_name.clone(),
                        };
                        let ghost before = infos@;
                        infos.push(CacheEntryInfo { key, size_bytes });
                        assert(entry_views(infos@) == entry_views(before).push(shown_as(entry@)));
                    },
                    None => {},
                }
            }
            i += 1;
        }
        assert(all.take(i as int) == all);
        infos
    }

    /// The names of the files that clearing the cache removes: every regular
    /// file of the cache directory.
    pub fn files_to_remove(&self, entries: &Vec<DirectoryEntry>) -> (names: Vec<String>)
        ensures
            text_views(names@) == regular_files(directory_views(entries@)),
    {
        let mut names: Vec<String> = Vec::new();
        let ghost all = directory_views(entries@);
        let mut i: usize = 0;
        while i < entries.len()
            invariant
                i <= entries.len(),
                all == directory_views(entries@),
                text_views(names@) == regular_files(all.take(i as int)),
            decreases entries.len() - i,
        {
            let entry = &entries[i];
            proof {
                assert(all.take(i + 1).drop_last() == all.take(i as int));
                assert(all.take(i + 1).last() == entry@);
            }
            if entry.is_file {
                let ghost before = names@;
                names.push(entry.file_name.clone());
                assert(text_views(names@) == text_views(before).push(entry@.file_name));
            }
            i += 1;
        }
        assert(all.take(i as int) == all);
        names
    }

    /// Sets every counter to zero, once the files are gone.
    pub fn clear_cache(&mut self)
        ensures
            final(self).counters() == zero_counters(),
            final(self).directory() == old(self).directory(),
    {
        self.stats = CacheStatsInternal::default();
    }
}

/// A cleared cache shows zero everywhere, and clearing it again changes
/// nothing: the snapshot of counters at zero is all zero, the number of
/// requests included.
pub proof fn lemma_cleared_cache_shows_zero()
    ensures
        snapshot_of(zero_counters()) == (Stats {
            hits: 0,
            misses: 0,
            total_requests: 0,
            disk_items: 0,
            total_disk_size_bytes: 0,
            bytes_saved: 0,
        }),
{
}

} // verus!
