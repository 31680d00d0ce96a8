//! Streaming a finished message: the message is cut into windows of 28
//! bytes, and every window that is text by itself goes out as one chunk,
//! between a start and an end event.
//!
//! A window that begins or ends inside a character of several bytes is no
//! text by itself and is left out; no chunk ever holds part of a character.

use vstd::prelude::*;
use vstd::slice::slice_subrange;
use vstd::string::*;
use vstd::utf8::{
    decode_utf8, encode_utf8, encode_utf8_decode_utf8, pop_first_scalar, valid_first_scalar,
    valid_utf8, valid_utf8_concat,
};

use crate::text::strings_of;
use crate::types::{StreamEvent, StreamEventView};

verus! {

/// Bytes in a window.
pub const CHUNK_BYTES: usize = 28;

/// Number of windows that `len` bytes fall into: `len / 28`, rounded up.
pub open spec fn window_count(len: nat) -> nat {
    ((len + CHUNK_BYTES - 1) / (CHUNK_BYTES as int)) as nat
}

/// Where window `k` ends: 28 bytes after its start, or at the end of the
/// bytes if that comes first.
pub open spec fn window_end(len: nat, k: int) -> int {
    if CHUNK_BYTES * (k + 1) <= len {
        CHUNK_BYTES * (k + 1)
    } else {
        len as int
    }
}

/// The bytes of window `k`.
pub open spec fn window(bytes: Seq<u8>, k: int) -> Seq<u8> {
    bytes.subrange(CHUNK_BYTES * k, window_end(bytes.len(), k))
}

/// The chunks of the first `count` windows, in order: the text of every
/// window that is valid UTF-8.
pub open spec fn chunks_of_windows(bytes: Seq<u8>, count: nat) -> Seq<Seq<char>>
    decreases count,
{
    if count == 0 {
        Seq::empty()
    } else {
        let earlier = chunks_of_windows(bytes, (count - 1) as nat);
        let last = window(bytes, count - 1);
        if valid_utf8(last) {
            earlier.push(decode_utf8(last))
        } else {
            earlier
        }
    }
}

/// The chunks of a message.
pub open spec fn chunk_texts(message: Seq<char>) -> Seq<Seq<char>> {
    let bytes = encode_utf8(message);
    chunks_of_windows(bytes, window_count(bytes.len()))
}

/// The events of a streamed message: start, one event for each chunk, end.
pub open spec fn events_of(message: Seq<char>) -> Seq<StreamEventView> {
    let chunks = chunk_texts(message);
    seq![StreamEventView::Start] + Seq::new(
        chunks.len(),
        |i: int| StreamEventView::Chunk { chunk: chunks[i] },
    ) + seq![StreamEventView::End]
}

/// The views of a list of events.
pub open spec fn event_views(events: Seq<StreamEvent>) -> Seq<StreamEventView> {
    Seq::new(events.len(), |i: int| events[i]@)
}

/// The texts of `parts`, one after the other.
pub open spec fn joined(parts: Seq<Seq<char>>) -> Seq<char>
    decreases parts.len(),
{
    if parts.len() == 0 {
        Seq::empty()
    } else {
        joined(parts.drop_last()) + parts.last()
    }
}

/// True where every window of `bytes` is valid UTF-8 by itself: no
/// character lies across the border of two windows.
pub open spec fn windows_whole(bytes: Seq<u8>) -> bool {
    forall|k: int| 0 <= k < window_count(bytes.len()) ==> valid_utf8(#[trigger] window(bytes, k))
}

/// Calls `std::str::from_utf8` and copies the text it accepts. As std
/// documents it, the call succeeds exactly on valid UTF-8, and the text has
/// the bytes that were given.
#[verifier::external_body]
pub(crate) fn text_of_bytes(bytes: &[u8]) -> (text: Option<String>)
    ensures
        text is Some <==> valid_utf8(bytes@),
        text matches Some(t) ==> encode_utf8(t@) == bytes@,
{
    match std::str::from_utf8(bytes) {
        Ok(text) => Some(text.to_string()),
        Err(_) => None,
    }
}

proof fn lemma_decode_concat(first: Seq<u8>, second: Seq<u8>)
    requires
        valid_utf8(first),
        valid_utf8(second),
    ensures
        valid_utf8(first + second),
        decode_utf8(first + second) == decode_utf8(first) + decode_utf8(second),
    decreases first.len(),
{
    valid_utf8_concat(first, second);
    if first.len() == 0 {
        assert(first + second =~= second);
        assert(decode_utf8(first) + decode_utf8(second) =~= decode_utf8(second));
    } else {
        let rest = pop_first_scalar(first);
        assert(valid_first_scalar(first));
        assert(rest.len() < first.len());
        assert(pop_first_scalar(first + second) =~= rest + second);
        lemma_decode_concat(rest, second);
        assert(decode_utf8(first + second) =~= decode_utf8(first) + decode_utf8(second));
    }
}

proof fn lemma_windows_rebuild(bytes: Seq<u8>, count: nat)
    requires
        windows_whole(bytes),
        count <= window_count(bytes.len()),
    ensures
        chunks_of_windows(bytes, count).len() == count,
        valid_utf8(bytes.subrange(0, window_end(bytes.len(), count - 1))),
        joined(chunks_of_windows(bytes, count)) == decode_utf8(
            bytes.subrange(0, window_end(bytes.len(), count - 1)),
        ),
    decreases count,
{
    if count == 0 {
        assert(bytes.subrange(0, 0) =~= Seq::<u8>::empty());
    } else {
        lemma_windows_rebuild(bytes, (count - 1) as nat);
        let before = bytes.subrange(0, window_end(bytes.len(), count - 2));
        let last = window(bytes, count - 1);
        assert(valid_utf8(last));
        assert(window_end(bytes.len(), count - 2) == CHUNK_BYTES * (count - 1));
        assert(before + last =~= bytes.subrange(0, window_end(bytes.len(), count - 1)));
        lemma_decode_concat(before, last);
        let chunks = chunks_of_windows(bytes, count);
        assert(chunks.drop_last() =~= chunks_of_windows(bytes, (count - 1) as nat));
    }
}

/// Completeness: where no character lies across the border of two windows,
/// a message of `L` bytes is streamed as one start, `L / 28` rounded up
/// chunks and one end, and the chunks in their order make up the message.
pub proof fn lemma_stream_complete(message: Seq<char>)
    requires
        windows_whole(encode_utf8(message)),
    ensures
        chunk_texts(message).len() == window_count(encode_utf8(message).len()),
        joined(chunk_texts(message)) == message,
        events_of(message).len() == window_count(encode_utf8(message).len()) + 2,
        events_of(message).first() == StreamEventView::Start,
        events_of(message).last() == StreamEventView::End,
        forall|i: int|
            0 <= i < chunk_texts(message).len() ==> #[trigger] events_of(message)[i + 1] == (
            StreamEventView::Chunk { chunk: chunk_texts(message)[i] }),
{
    let bytes = encode_utf8(message);
    let count = window_count(bytes.len());
    lemma_windows_rebuild(bytes, count);
    assert(window_end(bytes.len(), count - 1) == bytes.len());
    assert(bytes.subrange(0, bytes.len() as int) =~= bytes);
    encode_utf8_decode_utf8(message);
}

/// Cuts a message into its chunks.
pub fn chunk_message(message: &str) -> (chunks: Vec<String>)
    ensures
        strings_of(chunks@) == chunk_texts(message@),
{
    let bytes = message.as_bytes();
    let len: usize = bytes.len();
    let mut chunks: Vec<String> = Vec::new();
    let mut start: usize = 0;
    let ghost mut done: nat = 0;
    while start < len
        invariant
            len == bytes@.len(),
            done <= window_count(bytes@.len()),
            start == window_end(bytes@.len(), done - 1),
            start < len ==> start == CHUNK_BYTES * done,
            start >= len ==> done == window_count(bytes@.len()),
            strings_of(chunks@) == chunks_of_windows(bytes@, done),
        decreases len - start,
    {
        let end: usize = if len - start > CHUNK_BYTES {
            start + CHUNK_BYTES
        } else {
            len
        };
        let ghost earlier = strings_of(chunks@);
        let piece = slice_subrange(bytes, start, end);
        assert(piece@ == window(bytes@, done as int));
        match text_of_bytes(piece) {
            Some(text) => {
                proof {
                    encode_utf8_decode_utf8(text@);
                }
                chunks.push(text);
                assert(strings_of(chunks@) =~= earlier.push(decode_utf8(piece@)));
            },
            None => {},
        }
        proof {
            done = done + 1;
        }
        start = end;
    }
    chunks
}

/// The events of a streamed message, in the order in which they go out.
pub fn stream_events(message: &str) -> (events: Vec<StreamEvent>)
    ensures
        event_views(events@) == events_of(message@),
{
    let chunks = chunk_message(message);
    let mut events: Vec<StreamEvent> = Vec::new();
    events.push(StreamEvent::Start);
    let mut i: usize = 0;
    while i < chunks.len()
        invariant
            i <= chunks@.len(),
            events@.len() == i + 1,
            events@[0]@ == StreamEventView::Start,
            forall|k: int|
                0 <= k < i ==> #[trigger] events@[k + 1]@ == (StreamEventView::Chunk {
                    chunk: chunks@[k]@,
                }),
        decreases chunks@.len() - i,
    {
        events.push(StreamEvent::Chunk { chunk: chunks[i].clone() });
        i += 1;
    }
    events.push(StreamEvent::End);
    proof {
        let texts = chunk_texts(message@);
        let wanted = events_of(message@);
        assert(texts.len() == chunks@.len());
        assert(wanted.len() == events@.len());
        assert forall|k: int| 0 <= k < events@.len() implies event_views(events@)[k]
            == wanted[k] by {
            if 0 < k <= chunks@.len() {
                assert(events@[(k - 1) + 1]@ == (StreamEventView::Chunk {
                    chunk: chunks@[k - 1]@,
                }));
                assert(strings_of(chunks@)[k - 1] == texts[k - 1]);
            }
        }
        assert(event_views(events@) =~= wanted);
    }
    events
}

} // verus!
