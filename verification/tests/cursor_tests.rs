use afk_resume::cursor::{QueueError, Track, TrackQueueCursor};

fn tracks(ids: &[&str]) -> Vec<Track> {
    ids.iter().map(|id| Track { id: id.to_string() }).collect()
}

#[test]
fn next_on_empty_cursor_is_exhausted() {
    let mut cursor = TrackQueueCursor::new();
    assert_eq!(cursor.next(), Err(QueueError::Exhausted));
    assert!(cursor.is_empty());
}

#[test]
fn consumption_is_back_to_front() {
    let mut cursor = TrackQueueCursor::new();
    cursor.refill(tracks(&["a", "b", "c"]));
    assert_eq!(cursor.len(), 3);
    assert_eq!(cursor.next().unwrap().id, "c");
    assert_eq!(cursor.next().unwrap().id, "b");
    assert_eq!(cursor.next().unwrap().id, "a");
    assert_eq!(cursor.next(), Err(QueueError::Exhausted));
}

#[test]
fn refill_replaces_the_whole_buffer() {
    let mut cursor = TrackQueueCursor::new();
    cursor.refill(tracks(&["a", "b"]));
    assert_eq!(cursor.next().unwrap().id, "b");
    cursor.refill(tracks(&["c"]));
    assert_eq!(cursor.len(), 1);
    assert_eq!(cursor.next().unwrap().id, "c");
    assert_eq!(cursor.next(), Err(QueueError::Exhausted));
}

#[test]
fn refill_repeats_are_acceptable() {
    // Each refill is an independent full replay: no deduplication
    // against previously played tracks.
    let mut cursor = TrackQueueCursor::new();
    cursor.refill(tracks(&["a"]));
    assert_eq!(cursor.next().unwrap().id, "a");
    cursor.refill(tracks(&["a"]));
    assert_eq!(cursor.next().unwrap().id, "a");
}
