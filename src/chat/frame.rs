//! How one line of a chat completion stream is read, and what a whole byte
//! stream decodes to.
use crate::buffer::{after_first_line, first_line, has_line, is_line_end, lemma_line_end_unique, NEWLINE};
use crate::chat::error::ChatChunkError;
use vstd::prelude::*;
use vstd::utf8::{decode_utf8, pop_first_scalar, valid_utf8, valid_utf8_concat};

verus! {

/// The bytes of `data: `, which start every event line.
pub open spec fn data_prefix() -> Seq<u8> {
    seq![100u8, 97u8, 116u8, 97u8, 58u8, 32u8]
}

/// The bytes of `[DONE]`, the payload that ends a stream.
pub open spec fn done_payload() -> Seq<u8> {
    seq![91u8, 68u8, 79u8, 78u8, 69u8, 93u8]
}

/// The line `data: [DONE]`.
pub open spec fn done_line() -> Seq<u8> {
    data_prefix() + done_payload()
}

/// `line` starts with the bytes of `p`.
pub open spec fn starts_with(line: Seq<u8>, p: Seq<u8>) -> bool {
    p.len() <= line.len() && line.take(p.len() as int) == p
}

/// What one line means.
pub enum Frame {
    /// An empty line, padding between events.
    Blank,
    /// The end marker.
    Done,
    /// Bytes that are not UTF-8.
    Undecodable,
    /// Text without the `data: ` prefix.
    Unprefixed(Seq<char>),
    /// The text after the `data: ` prefix.
    Data(Seq<char>),
}

/// The meaning of one line (without its terminator).
pub open spec fn frame_of(line: Seq<u8>) -> Frame {
    if !valid_utf8(line) {
        Frame::Undecodable
    } else if line.len() == 0 {
        Frame::Blank
    } else if line == done_line() {
        Frame::Done
    } else if !starts_with(line, data_prefix()) {
        Frame::Unprefixed(decode_utf8(line))
    } else {
        Frame::Data(decode_utf8(line.skip(6)))
    }
}

/// One item that a stream decodes to, before any payload is parsed.
pub enum Event {
    /// The JSON text of one event.
    Payload(Seq<char>),
    /// A line that is not UTF-8; it ends the stream.
    BadText,
    /// A line without the prefix; it ends the stream.
    MissingPrefix(Seq<char>),
}

/// The items of one line, and whether the stream goes on after it.
pub open spec fn events_of_line(line: Seq<u8>) -> (Seq<Event>, bool) {
    match frame_of(line) {
        Frame::Blank => (seq![], true),
        Frame::Done => (seq![], false),
        Frame::Undecodable => (seq![Event::BadText], false),
        Frame::Unprefixed(t) => (seq![Event::MissingPrefix(t)], false),
        Frame::Data(p) => (seq![Event::Payload(p)], true),
    }
}

/// The items that a whole byte stream decodes to: its lines in order, a
/// final unterminated line included, up to the end marker or the first
/// faulty line.
pub open spec fn events_of(b: Seq<u8>) -> Seq<Event>
    decreases b.len(),
{
    if has_line(b) {
        let (items, more) = events_of_line(first_line(b));
        if more {
            items + events_of(after_first_line(b))
        } else {
            items
        }
    } else if b.len() == 0 {
        seq![]
    } else {
        events_of_line(b).0
    }
}

/// Dropping leading ASCII bytes keeps UTF-8 valid.
pub proof fn lemma_valid_utf8_skip_ascii(b: Seq<u8>, n: int)
    requires
        valid_utf8(b),
        0 <= n <= b.len(),
        forall|i: int| 0 <= i < n ==> b[i] <= 0x7f,
    ensures
        valid_utf8(b.skip(n)),
    decreases n,
{
    if n > 0 {
        assert(pop_first_scalar(b) =~= b.skip(1));
        lemma_valid_utf8_skip_ascii(b.skip(1), n - 1);
        assert(b.skip(1).skip(n - 1) =~= b.skip(n));
    } else {
        assert(b.skip(0) =~= b);
    }
}

/// A line read from the stream, as the decoder acts on it.
pub enum LineOutcome {
    /// Padding: nothing to emit.
    Blank,
    /// The end marker.
    Done,
    /// The JSON text of one event.
    Payload(String),
    /// A fault that ends the stream.
    Failed(ChatChunkError),
}

/// `r` is how the decoder acts on a line that means `f`.
pub open spec fn outcome_agrees(r: LineOutcome, f: Frame) -> bool {
    match r {
        LineOutcome::Blank => f == Frame::Blank,
        LineOutcome::Done => f == Frame::Done,
        LineOutcome::Payload(p) => f == Frame::Data(p@),
        LineOutcome::Failed(ChatChunkError::StringDecodingError(_)) => f == Frame::Undecodable,
        LineOutcome::Failed(ChatChunkError::DataPrefixMissing(t)) => f == Frame::Unprefixed(t@),
        LineOutcome::Failed(_) => false,
    }
}

fn data_prefix_bytes() -> (r: Vec<u8>)
    ensures
        r@ == data_prefix(),
{
    let r = vec![100u8, 97u8, 116u8, 97u8, 58u8, 32u8];
    assert(r@ =~= data_prefix());
    r
}

fn done_line_bytes() -> (r: Vec<u8>)
    ensures
        r@ == done_line(),
{
    let r = vec![100u8, 97u8, 116u8, 97u8, 58u8, 32u8, 91u8, 68u8, 79u8, 78u8, 69u8, 93u8];
    assert(r@ =~= done_line());
    r
}

/// Whether `line` starts with the bytes of `p`.
pub fn begins_with(line: &Vec<u8>, p: &Vec<u8>) -> (r: bool)
    ensures
        r == starts_with(line@, p@),
{
    if p.len() > line.len() {
        return false;
    }
    let mut i: usize = 0;
    while i < p.len()
        invariant
            p@.len() <= line@.len(),
            i <= p@.len(),
            forall|j: int| 0 <= j < i ==> line@[j] == p@[j],
        decreases p@.len() - i,
    {
        if line[i] != p[i] {
            assert(line@.take(p@.len() as int)[i as int] != p@[i as int]);
            return false;
        }
        i = i + 1;
    }
    assert(line@.take(p@.len() as int) =~= p@);
    true
}

/// Reads one line (without its terminator): decodes it as UTF-8, skips
/// padding, recognises the end marker and strips the `data: ` prefix.
pub fn interpret_line(line: Vec<u8>) -> (r: LineOutcome)
    ensures
        outcome_agrees(r, frame_of(line@)),
{
    let blank = line.len() == 0;
    let done = line.len() == 12 && begins_with(&line, &done_line_bytes());
    let prefixed = begins_with(&line, &data_prefix_bytes());
    proof {
        if done {
            assert(line@ =~= line@.take(12));
        }
        if line@ == done_line() {
            assert(line@.take(12) =~= line@);
        }
    }
    match String::from_utf8(line.clone()) {
        Err(e) => LineOutcome::Failed(ChatChunkError::StringDecodingError(e)),
        Ok(text) => {
            if blank {
                LineOutcome::Blank
            } else if done {
                LineOutcome::Done
            } else if !prefixed {
                LineOutcome::Failed(ChatChunkError::DataPrefixMissing(text))
            } else {
                let mut head = line;
                let payload = head.split_off(6);
                proof {
                    assert forall|i: int| 0 <= i < 6 implies line@[i] <= 0x7f by {
                        assert(line@.take(6)[i] == data_prefix()[i]);
                    }
                    lemma_valid_utf8_skip_ascii(line@, 6);
                    assert(payload@ =~= line@.skip(6));
                }
                // The payload of a valid line after an ASCII prefix is valid
                // too, so the second arm is never taken.
                match String::from_utf8(payload) {
                    Ok(p) => LineOutcome::Payload(p),
                    Err(e) => LineOutcome::Failed(ChatChunkError::StringDecodingError(e)),
                }
            }
        },
    }
}

/// ASCII bytes are valid UTF-8.
pub proof fn lemma_ascii_valid_utf8(b: Seq<u8>)
    requires
        forall|i: int| 0 <= i < b.len() ==> b[i] <= 0x7f,
    ensures
        valid_utf8(b),
    decreases b.len(),
{
    if b.len() > 0 {
        assert(pop_first_scalar(b) =~= b.skip(1));
        lemma_ascii_valid_utf8(b.skip(1));
    }
}

/// `b` holds no newline byte.
pub open spec fn no_newline(b: Seq<u8>) -> bool {
    forall|i: int| 0 <= i < b.len() ==> b[i] != NEWLINE
}

/// The bytes of one well-formed event frame: `data: `, the payload, and a
/// blank line.
pub open spec fn frame_bytes(payload: Seq<u8>) -> Seq<u8> {
    data_prefix() + payload + seq![NEWLINE, NEWLINE]
}

/// The frames of several payloads, one after another.
pub open spec fn frames_bytes(payloads: Seq<Seq<u8>>) -> Seq<u8>
    decreases payloads.len(),
{
    if payloads.len() == 0 {
        seq![]
    } else {
        frame_bytes(payloads[0]) + frames_bytes(payloads.drop_first())
    }
}

/// A payload that a frame can carry: UTF-8 text on one line, other than the
/// end marker.
pub open spec fn is_frame_payload(p: Seq<u8>) -> bool {
    valid_utf8(p) && no_newline(p) && p != done_payload()
}

/// The bytes before a newline form the front line.
proof fn lemma_front_line(line: Seq<u8>, rest: Seq<u8>)
    requires
        no_newline(line),
    ensures
        has_line(line + seq![NEWLINE] + rest),
        first_line(line + seq![NEWLINE] + rest) == line,
        after_first_line(line + seq![NEWLINE] + rest) == rest,
{
    let b = line + seq![NEWLINE] + rest;
    assert(is_line_end(b, line.len() as int));
    lemma_line_end_unique(b, line.len() as int);
    assert(b.take(line.len() as int) =~= line);
    assert(b.skip(line.len() as int + 1) =~= rest);
}

/// A blank line produces no item: the stream decodes as if it were absent.
pub proof fn lemma_blank_line_skipped(rest: Seq<u8>)
    ensures
        events_of(seq![NEWLINE] + rest) == events_of(rest),
{
    lemma_front_line(seq![], rest);
    assert(Seq::<u8>::empty() + seq![NEWLINE] + rest =~= seq![NEWLINE] + rest);
    assert(valid_utf8(Seq::<u8>::empty()));
    assert(Seq::<Event>::empty() + events_of(rest) =~= events_of(rest));
}

/// The end marker ends the stream: nothing after it, buffered or still to
/// come, is decoded. This holds of a terminated and of a final marker line.
pub proof fn lemma_done_line_ends(rest: Seq<u8>)
    ensures
        events_of(done_line() + seq![NEWLINE] + rest) == Seq::<Event>::empty(),
        events_of(done_line()) == Seq::<Event>::empty(),
{
    let d = done_line();
    assert(d =~= seq![100u8, 97u8, 116u8, 97u8, 58u8, 32u8, 91u8, 68u8, 79u8, 78u8, 69u8, 93u8]);
    lemma_ascii_valid_utf8(d);
    lemma_front_line(d, rest);
    assert(!has_line(d)) by {
        if has_line(d) {
            let k = crate::buffer::line_end(d);
            assert(is_line_end(d, k));
        }
    }
}

/// A well-formed frame yields its payload, and the blank line after it
/// yields nothing.
pub proof fn lemma_frame_yields_payload(p: Seq<u8>, rest: Seq<u8>)
    requires
        is_frame_payload(p),
    ensures
        events_of(frame_bytes(p) + rest) == seq![Event::Payload(decode_utf8(p))] + events_of(rest),
{
    let line = data_prefix() + p;
    lemma_ascii_valid_utf8(data_prefix());
    valid_utf8_concat(data_prefix(), p);
    assert(no_newline(line)) by {
        assert forall|i: int| 0 <= i < line.len() implies line[i] != NEWLINE by {
            if i >= 6 {
                assert(line[i] == p[i - 6]);
            }
        }
    }
    assert(line.take(6) =~= data_prefix());
    assert(line.skip(6) =~= p);
    if line == done_line() {
        assert(line.skip(6) =~= done_payload());
    }
    let tail = seq![NEWLINE] + rest;
    assert(frame_bytes(p) + rest =~= line + seq![NEWLINE] + tail);
    lemma_front_line(line, tail);
    lemma_blank_line_skipped(rest);
}

/// A stream of well-formed frames followed by the end marker decodes to the
/// frames' payloads, in order, and nothing else, whatever follows the
/// marker.
pub proof fn lemma_frames_then_done(payloads: Seq<Seq<u8>>, rest: Seq<u8>)
    requires
        forall|i: int| 0 <= i < payloads.len() ==> is_frame_payload(#[trigger] payloads[i]),
    ensures
        events_of(frames_bytes(payloads) + done_line() + seq![NEWLINE] + rest) == payloads.map_values(
            |p: Seq<u8>| Event::Payload(decode_utf8(p)),
        ),
    decreases payloads.len(),
{
    let tail = done_line() + seq![NEWLINE] + rest;
    if payloads.len() == 0 {
        assert(frames_bytes(payloads) + done_line() + seq![NEWLINE] + rest =~= done_line() + seq![
            NEWLINE,
        ] + rest);
        lemma_done_line_ends(rest);
        assert(payloads.map_values(|p: Seq<u8>| Event::Payload(decode_utf8(p))) =~= Seq::<
            Event,
        >::empty());
    } else {
        let first = payloads[0];
        let others = payloads.drop_first();
        assert forall|i: int| 0 <= i < others.len() implies is_frame_payload(
            #[trigger] others[i],
        ) by {
            assert(others[i] == payloads[i + 1]);
        }
        lemma_frames_then_done(others, rest);
        assert(frames_bytes(payloads) + done_line() + seq![NEWLINE] + rest =~= frame_bytes(first)
            + (frames_bytes(others) + done_line() + seq![NEWLINE] + rest));
        lemma_frame_yields_payload(first, frames_bytes(others) + done_line() + seq![NEWLINE] + rest);
        assert(payloads.map_values(|p: Seq<u8>| Event::Payload(decode_utf8(p))) =~= seq![
            Event::Payload(decode_utf8(first)),
        ] + others.map_values(|p: Seq<u8>| Event::Payload(decode_utf8(p))));
    }
}

/// A final line without a terminator is still decoded.
pub proof fn lemma_trailing_line_decoded(p: Seq<u8>)
    requires
        is_frame_payload(p),
    ensures
        events_of(data_prefix() + p) == seq![Event::Payload(decode_utf8(p))],
{
    let line = data_prefix() + p;
    lemma_ascii_valid_utf8(data_prefix());
    valid_utf8_concat(data_prefix(), p);
    assert(no_newline(line)) by {
        assert forall|i: int| 0 <= i < line.len() implies line[i] != NEWLINE by {
            if i >= 6 {
                assert(line[i] == p[i - 6]);
            }
        }
    }
    assert(!has_line(line)) by {
        if has_line(line) {
            let k = crate::buffer::line_end(line);
            assert(is_line_end(line, k));
        }
    }
    assert(line.take(6) =~= data_prefix());
    assert(line.skip(6) =~= p);
    if line == done_line() {
        assert(line.skip(6) =~= done_payload());
    }
}

/// A non-empty text line without the `data: ` prefix yields one error, which
/// carries the line, and ends the stream whatever follows.
pub proof fn lemma_unprefixed_line_ends(line: Seq<u8>, rest: Seq<u8>)
    requires
        valid_utf8(line),
        no_newline(line),
        line.len() > 0,
        !starts_with(line, data_prefix()),
    ensures
        events_of(line + seq![NEWLINE] + rest) == seq![Event::MissingPrefix(decode_utf8(line))],
{
    lemma_front_line(line, rest);
    if line == done_line() {
        assert(line.take(6) =~= data_prefix());
    }
}

} // verus!
