use veil::stream::{chunk_message, stream_events, CHUNK_BYTES};
use veil::types::StreamEvent;

fn chunks_of(events: &[StreamEvent]) -> Vec<String> {
    events
        .iter()
        .filter_map(|event| match event {
            StreamEvent::Chunk { chunk } => Some(chunk.clone()),
            _ => None,
        })
        .collect()
}

#[test]
fn chunk_size_is_28_bytes() {
    assert_eq!(CHUNK_BYTES, 28);
}

#[test]
fn streaming_completeness() {
    let message = "Today opens with a calm current that invites gentler choices. Let that be enough.";
    let events = stream_events(message);
    let windows = (message.len() + 27) / 28;
    assert_eq!(events.len(), windows + 2);
    assert_eq!(events.first(), Some(&StreamEvent::Start));
    assert_eq!(events.last(), Some(&StreamEvent::End));
    let chunks = chunks_of(&events);
    assert_eq!(chunks.len(), windows);
    assert_eq!(chunks.concat(), message);
    for event in &events[1..events.len() - 1] {
        assert!(matches!(event, StreamEvent::Chunk { .. }));
    }
}

#[test]
fn chunks_are_windows_of_28_bytes() {
    let message = "abcdefghijklmnopqrstuvwxyz0123456789ABCDEFGHIJKLMNOPQRSTUVWXYZ";
    assert_eq!(
        chunk_message(message),
        vec!["abcdefghijklmnopqrstuvwxyz01", "23456789ABCDEFGHIJKLMNOPQRST", "UVWXYZ"]
    );
}

#[test]
fn message_lengths_around_a_window() {
    for length in [0usize, 1, 27, 28, 29, 55, 56, 57, 280] {
        let message = "x".repeat(length);
        let chunks = chunk_message(&message);
        assert_eq!(chunks.len(), (length + 27) / 28);
        assert_eq!(chunks.concat(), message);
        assert!(chunks.iter().all(|chunk| !chunk.is_empty() && chunk.len() <= 28));
    }
}

#[test]
fn empty_message_streams_start_and_end() {
    assert_eq!(stream_events(""), vec![StreamEvent::Start, StreamEvent::End]);
    assert!(chunk_message("").is_empty());
}

#[test]
fn characters_inside_a_window_are_kept_whole() {
    // 26 bytes of ASCII, then "é" in bytes 26 and 27: the first window ends
    // with the whole character.
    let message = format!("{}é and more text after it", "a".repeat(26));
    let chunks = chunk_message(&message);
    assert_eq!(chunks[0], format!("{}é", "a".repeat(26)));
    assert_eq!(chunks.concat(), message);
}

#[test]
fn window_that_splits_a_character_is_left_out() {
    // 27 bytes of ASCII, then "é": its two bytes fall into two windows, and
    // neither window is text by itself.
    let message = format!("{}é{}", "a".repeat(27), "b".repeat(40));
    assert_eq!(message.len(), 69);
    let events = stream_events(&message);
    assert_eq!(
        events,
        vec![StreamEvent::Start, StreamEvent::Chunk { chunk: "b".repeat(13) }, StreamEvent::End]
    );
}

#[test]
fn only_the_broken_windows_are_left_out() {
    // The three bytes of the character lie across the border of the second
    // and third window; the first and the fourth window are whole.
    let message = format!("{}{}☾{}", "a".repeat(28), "b".repeat(27), "c".repeat(30));
    assert_eq!(message.len(), 88);
    let chunks = chunk_message(&message);
    assert_eq!(chunks, vec!["a".repeat(28), "c".repeat(4)]);
}

#[test]
fn stream_events_wrap_the_chunks() {
    let message = "short";
    assert_eq!(
        stream_events(message),
        vec![StreamEvent::Start, StreamEvent::Chunk { chunk: "short".to_string() }, StreamEvent::End]
    );
}
