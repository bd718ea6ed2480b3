use sentiric_traffic_cache::cache::{
    is_meta_name, CacheManager, CacheMetadata, CacheStatsInternal, DirectoryEntry, FileProbe,
};
use sentiric_traffic_cache::digest::{cache_file_name, to_hex};
use sentiric_traffic_cache::model::Stats;

fn entry(name: &str, is_file: bool, size: u64, key: Option<&str>) -> DirectoryEntry {
    DirectoryEntry {
        file_name: name.to_string(),
        is_file,
        size_bytes: Some(size),
        recorded_key: key.map(|k| k.to_string()),
    }
}

#[test]
fn file_name_is_md5_in_lower_hex() {
    assert_eq!(cache_file_name("http://example.com/a.txt"), "c5eb1fcbe1a90c69c4aa74b059a77c9f");
    assert_eq!(cache_file_name(""), "d41d8cd98f00b204e9800998ecf8427e");
    assert_eq!(cache_file_name("https://secure.example.com/"), "e5081556d98420038ca233a70892966b");
}

#[test]
fn file_name_hashes_the_utf8_bytes_of_the_key() {
    assert_eq!(cache_file_name("héllo"), "be50e8478cf24ff3595bc7307fb91b50");
}

#[test]
fn hex_writes_two_lower_case_digits_per_byte() {
    assert_eq!(to_hex(&[]), "");
    assert_eq!(to_hex(&[0x00, 0x0f, 0xa0, 0xff, 0x19]), "000fa0ff19");
}

#[test]
fn new_cache_counts_nothing() {
    let cache = CacheManager::new("/var/cache/proxy");
    assert_eq!(cache.disk_path(), "/var/cache/proxy");
    assert_eq!(cache.stats, CacheStatsInternal::default());
    assert_eq!(cache.get_stats(), Stats::default());
}

#[test]
fn paths_join_directory_and_file_name() {
    let cache = CacheManager::new("/var/cache/proxy");
    assert_eq!(
        cache.key_to_path("http://example.com/a.txt"),
        "/var/cache/proxy/c5eb1fcbe1a90c69c4aa74b059a77c9f"
    );
    assert_eq!(
        cache.meta_path("http://example.com/a.txt"),
        "/var/cache/proxy/c5eb1fcbe1a90c69c4aa74b059a77c9f.meta"
    );
}

#[test]
fn paths_need_no_second_separator() {
    let cache = CacheManager::new("cache/");
    assert_eq!(cache.key_to_path(""), "cache/d41d8cd98f00b204e9800998ecf8427e");
    let here = CacheManager::new("");
    assert_eq!(here.key_to_path(""), "d41d8cd98f00b204e9800998ecf8427e");
    assert_eq!(here.meta_path(""), "d41d8cd98f00b204e9800998ecf8427e.meta");
}

#[test]
fn miss_then_hit_counts_one_of_each() {
    let mut cache = CacheManager::new("/c");
    let key = "http://example.com/a.txt";
    let first = cache.get(key, FileProbe { exists: false, size: None, readable: false });
    assert_eq!(first, None);
    let second = cache.get(key, FileProbe { exists: true, size: Some(11), readable: true });
    assert_eq!(second, Some("/c/c5eb1fcbe1a90c69c4aa74b059a77c9f".to_string()));
    let stats = cache.get_stats();
    assert_eq!(stats.hits, 1);
    assert_eq!(stats.misses, 1);
    assert_eq!(stats.total_requests, 2);
    assert_eq!(stats.bytes_saved, 11);
    assert_eq!(stats.disk_items, 0);
}

#[test]
fn unreadable_file_counts_as_hit_but_yields_nothing() {
    let mut cache = CacheManager::new("/c");
    let found = cache.get("k", FileProbe { exists: true, size: Some(5), readable: false });
    assert_eq!(found, None);
    assert_eq!(cache.stats.hits, 1);
    assert_eq!(cache.stats.misses, 0);
    assert_eq!(cache.stats.bytes_saved, 5);
}

#[test]
fn hit_without_known_size_saves_no_bytes() {
    let mut cache = CacheManager::new("/c");
    let found = cache.get("k", FileProbe { exists: true, size: None, readable: true });
    assert!(found.is_some());
    assert_eq!(cache.stats.hits, 1);
    assert_eq!(cache.stats.bytes_saved, 0);
}

#[test]
fn counters_wrap_around() {
    let mut cache = CacheManager::new("/c");
    cache.stats.hits = u64::MAX;
    cache.stats.bytes_saved = u64::MAX - 1;
    cache.stats.misses = 3;
    cache.get("k", FileProbe { exists: true, size: Some(4), readable: true });
    assert_eq!(cache.stats.hits, 0);
    assert_eq!(cache.stats.bytes_saved, 2);
    cache.stats.hits = u64::MAX;
    assert_eq!(cache.get_stats().total_requests, 2);
}

#[test]
fn headers_default_to_empty_text() {
    let cache = CacheManager::new("/c");
    assert_eq!(cache.get_headers(None), None);
    let bare = CacheMetadata { key: "k".to_string(), content_encoding: None, content_type: None };
    assert_eq!(cache.get_headers(Some(bare)), Some((String::new(), String::new())));
    let full = CacheMetadata {
        key: "k".to_string(),
        content_encoding: Some("gzip".to_string()),
        content_type: Some("text/html".to_string()),
    };
    assert_eq!(cache.get_headers(Some(full)), Some(("gzip".to_string(), "text/html".to_string())));
}

#[test]
fn store_plan_names_both_files_and_the_metadata() {
    let cache = CacheManager::new("/c");
    let plan = cache.put_stream(
        "http://example.com/a.txt".to_string(),
        Some("br".to_string()),
        None,
    );
    assert_eq!(plan.body_path, "/c/c5eb1fcbe1a90c69c4aa74b059a77c9f");
    assert_eq!(plan.meta_path, "/c/c5eb1fcbe1a90c69c4aa74b059a77c9f.meta");
    assert_eq!(plan.metadata.key, "http://example.com/a.txt");
    assert_eq!(plan.metadata.content_encoding, Some("br".to_string()));
    assert_eq!(plan.metadata.content_type, None);
}

#[test]
fn store_and_lookup_agree_on_the_file() {
    let mut cache = CacheManager::new("/c");
    let key = "https://secure.example.com/";
    let plan = cache.put_stream(key.to_string(), None, None);
    let found = cache.get(key, FileProbe { exists: true, size: Some(0), readable: true });
    assert_eq!(found, Some(plan.body_path));
}

#[test]
fn meta_names_end_in_meta_after_a_stem() {
    assert!(is_meta_name("c5eb1fcbe1a90c69c4aa74b059a77c9f.meta"));
    assert!(is_meta_name("a.meta"));
    assert!(is_meta_name("..meta"));
    assert!(!is_meta_name(".meta"));
    assert!(!is_meta_name("meta"));
    assert!(!is_meta_name(""));
    assert!(!is_meta_name("a.metadata"));
    assert!(!is_meta_name("a.META"));
    assert!(!is_meta_name("c5eb1fcbe1a90c69c4aa74b059a77c9f"));
}

#[test]
fn listing_shows_bodies_only() {
    let cache = CacheManager::new("/c");
    let entries = vec![
        entry("c5eb1fcbe1a90c69c4aa74b059a77c9f", true, 11, Some("http://example.com/a.txt")),
        entry("c5eb1fcbe1a90c69c4aa74b059a77c9f.meta", true, 70, None),
        entry("sub", false, 4096, None),
        entry("d41d8cd98f00b204e9800998ecf8427e", true, 0, None),
    ];
    let infos = cache.list_entries(&entries);
    assert_eq!(infos.len(), 2);
    assert_eq!(infos[0].key, "http://example.com/a.txt");
    assert_eq!(infos[0].size_bytes, 11);
    assert_eq!(infos[1].key, "d41d8cd98f00b204e9800998ecf8427e");
    assert_eq!(infos[1].size_bytes, 0);
}

#[test]
fn listing_of_an_empty_directory_is_empty() {
    let cache = CacheManager::new("/c");
    assert!(cache.list_entries(&Vec::new()).is_empty());
}

#[test]
fn clearing_removes_every_regular_file() {
    let cache = CacheManager::new("/c");
    let entries = vec![
        entry("a", true, 1, None),
        entry("a.meta", true, 2, None),
        entry("dir", false, 0, None),
        entry("b", true, 3, None),
    ];
    assert_eq!(cache.files_to_remove(&entries), vec!["a", "a.meta", "b"]);
}

#[test]
fn clear_sets_all_counters_to_zero() {
    let mut cache = CacheManager::new("/c");
    cache.get("a", FileProbe { exists: true, size: Some(7), readable: true });
    cache.get("b", FileProbe { exists: false, size: None, readable: false });
    cache.stats.disk_items = 4;
    cache.stats.total_disk_size_bytes = 400;
    cache.clear_cache();
    assert_eq!(cache.get_stats(), Stats::default());
    assert_eq!(cache.disk_path(), "/c");
}

#[test]
fn clear_on_an_empty_cache_leaves_zero() {
    let mut cache = CacheManager::new("/c");
    cache.clear_cache();
    assert_eq!(cache.stats, CacheStatsInternal::default());
    cache.clear_cache();
    assert_eq!(cache.stats, CacheStatsInternal::default());
    assert_eq!(cache.get_stats().total_requests, 0);
}

#[test]
fn listing_passes_over_an_entry_without_size() {
    let cache = CacheManager::new("/c");
    let mut unreadable = entry("d41d8cd98f00b204e9800998ecf8427e", true, 0, Some("http://gone.example/"));
    unreadable.size_bytes = None;
    let entries = vec![
        entry("c5eb1fcbe1a90c69c4aa74b059a77c9f", true, 11, None),
        unreadable,
        entry("e5081556d98420038ca233a70892966b", true, 3, Some("https://secure.example.com/")),
    ];
    let infos = cache.list_entries(&entries);
    assert_eq!(infos.len(), 2);
    assert_eq!(infos[0].key, "c5eb1fcbe1a90c69c4aa74b059a77c9f");
    assert_eq!(infos[1].key, "https://secure.example.com/");
    assert_eq!(infos[1].size_bytes, 3);
    // Clearing still removes it: it is a regular file.
    assert_eq!(cache.files_to_remove(&entries).len(), 3);
}
