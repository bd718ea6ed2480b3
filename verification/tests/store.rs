use sentiric_traffic_cache::cache::CacheStatsInternal;
use sentiric_traffic_cache::store::{StoreAction, StoreEvent, StorePhase, StoreSession};

/// Feeds chunks through a session as a caller would, collecting what the
/// file and the client get.
fn feed(
    session: &mut StoreSession,
    stats: &mut CacheStatsInternal,
    chunks: &[Vec<u8>],
    file: &mut Vec<u8>,
    client: &mut Vec<u8>,
) {
    for chunk in chunks {
        let action = session.advance(StoreEvent::Chunk(chunk.clone()), stats);
        assert!(matches!(action, StoreAction::Write));
        file.extend_from_slice(session.pending());
        match session.advance(StoreEvent::Written, stats) {
            StoreAction::Forward(bytes) => client.extend_from_slice(&bytes),
            other => panic!("expected the chunk to be forwarded, got {:?}", other),
        }
    }
}

#[test]
fn new_session_is_streaming_and_empty() {
    let session = StoreSession::new();
    assert_eq!(session.phase(), StorePhase::Streaming);
    assert_eq!(session.total_bytes(), 0);
    assert!(session.pending().is_empty());
}

#[test]
fn whole_body_reaches_file_and_client_unchanged() {
    let mut session = StoreSession::new();
    let mut stats = CacheStatsInternal::default();
    let chunks = vec![b"hello ".to_vec(), Vec::new(), b"world".to_vec()];
    let (mut file, mut client) = (Vec::new(), Vec::new());
    feed(&mut session, &mut stats, &chunks, &mut file, &mut client);
    assert_eq!(file, b"hello world");
    assert_eq!(client, b"hello world");
    assert_eq!(session.total_bytes(), 11);
    assert_eq!(stats, CacheStatsInternal::default());
    let end = session.advance(StoreEvent::SourceEnded, &mut stats);
    assert!(matches!(end, StoreAction::Finish));
    assert_eq!(session.phase(), StorePhase::Complete);
    assert_eq!(stats.disk_items, 1);
    assert_eq!(stats.total_disk_size_bytes, 11);
    assert_eq!(stats.hits, 0);
    assert_eq!(stats.misses, 0);
}

#[test]
fn empty_body_is_stored_as_an_empty_item() {
    let mut session = StoreSession::new();
    let mut stats = CacheStatsInternal::default();
    let end = session.advance(StoreEvent::SourceEnded, &mut stats);
    assert!(matches!(end, StoreAction::Finish));
    assert_eq!(stats.disk_items, 1);
    assert_eq!(stats.total_disk_size_bytes, 0);
}

#[test]
fn large_body_is_counted_exactly() {
    let mut session = StoreSession::new();
    let mut stats = CacheStatsInternal::default();
    let chunk = vec![0xabu8; 64 * 1024];
    let chunks: Vec<Vec<u8>> = (0..48).map(|_| chunk.clone()).collect();
    let (mut file, mut client) = (Vec::new(), Vec::new());
    feed(&mut session, &mut stats, &chunks, &mut file, &mut client);
    assert_eq!(file.len(), 3 * 1024 * 1024);
    assert_eq!(file, client);
    session.advance(StoreEvent::SourceEnded, &mut stats);
    assert_eq!(stats.total_disk_size_bytes, 3 * 1024 * 1024);
}

#[test]
fn source_closing_after_three_of_ten_chunks_aborts() {
    let mut session = StoreSession::new();
    let mut stats = CacheStatsInternal::default();
    let chunks: Vec<Vec<u8>> = (0..3u8).map(|i| vec![i; 4]).collect();
    let (mut file, mut client) = (Vec::new(), Vec::new());
    feed(&mut session, &mut stats, &chunks, &mut file, &mut client);
    let action = session.advance(StoreEvent::SourceFailed, &mut stats);
    assert!(matches!(action, StoreAction::Abort));
    assert_eq!(session.phase(), StorePhase::Abandoned);
    assert_eq!(stats, CacheStatsInternal::default());
    assert_eq!(client, file);
    assert_eq!(client.len(), 12);
    assert_eq!(session.total_bytes(), 12);
    // Whatever is reported afterwards changes nothing.
    let late = session.advance(StoreEvent::SourceEnded, &mut stats);
    assert!(matches!(late, StoreAction::Nothing));
    assert_eq!(stats, CacheStatsInternal::default());
}

#[test]
fn failed_write_aborts_before_the_client_gets_the_chunk() {
    let mut session = StoreSession::new();
    let mut stats = CacheStatsInternal::default();
    let first = session.advance(StoreEvent::Chunk(b"abc".to_vec()), &mut stats);
    assert!(matches!(first, StoreAction::Write));
    assert_eq!(session.phase(), StorePhase::Writing);
    assert_eq!(session.pending(), b"abc");
    let action = session.advance(StoreEvent::WriteFailed, &mut stats);
    assert!(matches!(action, StoreAction::Abort));
    assert_eq!(session.total_bytes(), 0);
    assert_eq!(stats, CacheStatsInternal::default());
}

#[test]
fn file_that_cannot_be_created_aborts() {
    let mut session = StoreSession::new();
    let mut stats = CacheStatsInternal::default();
    let action = session.advance(StoreEvent::WriteFailed, &mut stats);
    assert!(matches!(action, StoreAction::Abort));
    assert_eq!(session.phase(), StorePhase::Abandoned);
}

#[test]
fn out_of_turn_events_give_an_open_store_up() {
    let mut stats = CacheStatsInternal::default();
    let mut session = StoreSession::new();
    assert!(matches!(session.advance(StoreEvent::Written, &mut stats), StoreAction::Abort));
    let mut session = StoreSession::new();
    session.advance(StoreEvent::Chunk(vec![1]), &mut stats);
    assert!(matches!(session.advance(StoreEvent::Chunk(vec![2]), &mut stats), StoreAction::Abort));
    let mut session = StoreSession::new();
    session.advance(StoreEvent::Chunk(vec![1]), &mut stats);
    assert!(matches!(session.advance(StoreEvent::SourceEnded, &mut stats), StoreAction::Abort));
    assert_eq!(stats, CacheStatsInternal::default());
}

#[test]
fn finished_store_ignores_further_events() {
    let mut session = StoreSession::new();
    let mut stats = CacheStatsInternal::default();
    session.advance(StoreEvent::SourceEnded, &mut stats);
    let again = session.advance(StoreEvent::SourceEnded, &mut stats);
    assert!(matches!(again, StoreAction::Nothing));
    let chunk = session.advance(StoreEvent::Chunk(vec![1, 2, 3]), &mut stats);
    assert!(matches!(chunk, StoreAction::Nothing));
    assert_eq!(stats.disk_items, 1);
    assert_eq!(session.phase(), StorePhase::Complete);
}

#[test]
fn store_counters_wrap_around() {
    let mut session = StoreSession::new();
    let mut stats = CacheStatsInternal::default();
    stats.disk_items = u64::MAX;
    stats.total_disk_size_bytes = u64::MAX;
    let (mut file, mut client) = (Vec::new(), Vec::new());
    feed(&mut session, &mut stats, &[vec![9u8; 5]], &mut file, &mut client);
    session.advance(StoreEvent::SourceEnded, &mut stats);
    assert_eq!(stats.disk_items, 0);
    assert_eq!(stats.total_disk_size_bytes, 4);
}
