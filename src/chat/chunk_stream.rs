//! The decoder of a streamed chat completion: it turns a byte stream that
//! arrives in arbitrary chunks into the JSON payloads of its events.
//!
//! The decoder performs no I/O. Its owner asks it for the next step; when it
//! answers `Step::NeedChunk`, the owner polls the byte source and hands over
//! what came: a chunk (`push_chunk`), the end of the source
//! (`close_upstream`) or an error (`fail_transport`). Each payload is parsed
//! by the owner, which hands the outcome back (`payload_parsed`).
use crate::buffer::{after_first_line, first_line, has_line, LineBuffer, NEWLINE};
use crate::chat::error::ChatChunkError;
use crate::chat::frame::{
    done_line, events_of, events_of_line, frame_of, frames_bytes, interpret_line,
    is_frame_payload, lemma_frames_then_done, Event, Frame, LineOutcome,
};
use vstd::utf8::decode_utf8;
use vstd::prelude::*;

verus! {

/// Where a decoder stands.
#[derive(PartialEq, Eq, Structural, Clone, Copy)]
pub enum DecoderState {
    /// The byte source may deliver more.
    Reading,
    /// The byte source has ended; buffered lines remain to be read.
    Draining,
    /// The stream has been decoded to its end: the end marker, a faulty line,
    /// or the end of the bytes.
    Ended,
    /// The stream was cut short from outside: a transport error or a payload
    /// that did not parse.
    Aborted,
}

/// What the owner of a decoder is to do next.
pub enum Step {
    /// Poll the byte source and hand over what it yields.
    NeedChunk,
    /// Parse this JSON text as the next event and hand the outcome back.
    Payload(String),
    /// Emit this error: the stream is over.
    Failed(ChatChunkError),
    /// The stream is over, with no further item.
    End,
}

/// The item that a line error stands for.
pub open spec fn error_event(e: ChatChunkError) -> Event {
    match e {
        ChatChunkError::DataPrefixMissing(t) => Event::MissingPrefix(t@),
        _ => Event::BadText,
    }
}

/// What one step of a decoder comes to, before the owner's part.
pub enum StepKind {
    /// No complete line is buffered and more bytes may come.
    Wait,
    /// The JSON text of the next event.
    Emit(Seq<char>),
    /// A faulty line, which ends the stream.
    Fail(Event),
    /// The end of the stream.
    Stop,
}

/// One step on the buffered bytes `pending`: blank lines are skipped, and
/// the first other line decides. When no complete line is left, a draining
/// decoder reads what remains as a final line, and a reading one waits.
/// Also gives what stays buffered.
pub open spec fn step_of(pending: Seq<u8>, draining: bool) -> (StepKind, Seq<u8>)
    decreases pending.len(),
{
    if has_line(pending) {
        let rest = after_first_line(pending);
        match frame_of(first_line(pending)) {
            Frame::Blank => step_of(rest, draining),
            Frame::Done => (StepKind::Stop, rest),
            Frame::Undecodable => (StepKind::Fail(Event::BadText), rest),
            Frame::Unprefixed(t) => (StepKind::Fail(Event::MissingPrefix(t)), rest),
            Frame::Data(p) => (StepKind::Emit(p), rest),
        }
    } else if !draining {
        (StepKind::Wait, pending)
    } else {
        match frame_of(pending) {
            Frame::Data(p) => (StepKind::Emit(p), seq![]),
            Frame::Undecodable => (StepKind::Fail(Event::BadText), seq![]),
            Frame::Unprefixed(t) => (StepKind::Fail(Event::MissingPrefix(t)), seq![]),
            _ => (StepKind::Stop, seq![]),
        }
    }
}

/// `r` is what the owner is told for a step that comes to `k`.
pub open spec fn step_agrees(r: Step, k: StepKind) -> bool {
    match r {
        Step::NeedChunk => k == StepKind::Wait,
        Step::Payload(p) => k == StepKind::Emit(p@),
        Step::Failed(e) => {
            &&& (e is StringDecodingError || e is DataPrefixMissing)
            &&& k == StepKind::Fail(error_event(e))
        },
        Step::End => k == StepKind::Stop,
    }
}

/// A decoder of `data: {json}` lines.
pub struct ChunkStream {
    lines: LineBuffer,
    state: DecoderState,
    received: Ghost<Seq<u8>>,
    events: Ghost<Seq<Event>>,
}

/// What two chunkings of the same bytes have in common: from a state that has
/// taken `received` and still holds `pending`, whatever bytes follow, the
/// items to come complete `events` to what the whole stream decodes to.
pub open spec fn reading_agrees(received: Seq<u8>, pending: Seq<u8>, events: Seq<Event>) -> bool {
    forall|rest: Seq<u8>|
        #[trigger] events_of(received + rest) == events + events_of(pending + rest)
}

/// A line at the front of a buffer stays the front line whatever follows.
pub proof fn lemma_line_prefix(b: Seq<u8>, rest: Seq<u8>)
    requires
        has_line(b),
    ensures
        has_line(b + rest),
        first_line(b + rest) == first_line(b),
        after_first_line(b + rest) == after_first_line(b) + rest,
{
    let i = crate::buffer::line_end(b);
    assert(crate::buffer::is_line_end(b, i));
    assert(crate::buffer::is_line_end(b + rest, i));
    crate::buffer::lemma_line_end_unique(b + rest, i);
    assert(first_line(b + rest) =~= first_line(b));
    assert(after_first_line(b + rest) =~= after_first_line(b) + rest);
}

/// Decoding a buffer that starts with a line: that line's items, then, if
/// the stream goes on, the decoding of what follows it.
pub proof fn lemma_events_of_front_line(b: Seq<u8>, rest: Seq<u8>)
    requires
        has_line(b),
    ensures
        events_of(b + rest) == (if events_of_line(first_line(b)).1 {
            events_of_line(first_line(b)).0 + events_of(after_first_line(b) + rest)
        } else {
            events_of_line(first_line(b)).0
        }),
{
    lemma_line_prefix(b, rest);
}

impl ChunkStream {
    /// The bytes taken so far, all chunks in order.
    pub closed spec fn received(&self) -> Seq<u8> {
        self.received@
    }

    /// The bytes taken and not yet read as lines.
    pub closed spec fn pending(&self) -> Seq<u8> {
        self.lines@
    }

    /// The items handed out so far: payloads and line errors.
    pub closed spec fn events(&self) -> Seq<Event> {
        self.events@
    }

    /// Where the decoder stands.
    pub closed spec fn state(&self) -> DecoderState {
        self.state
    }

    /// The decoder's invariant: what it has handed out, followed by what its
    /// buffer decodes to, is what all the bytes it has taken decode to.
    pub open spec fn wf(&self) -> bool {
        match self.state() {
            DecoderState::Reading => reading_agrees(self.received(), self.pending(), self.events()),
            DecoderState::Draining => events_of(self.received()) == self.events() + events_of(
                self.pending(),
            ),
            DecoderState::Ended => events_of(self.received()) == self.events(),
            DecoderState::Aborted => true,
        }
    }

    /// A decoder that has taken nothing.
    pub fn new() -> (r: Self)
        ensures
            r.wf(),
            r.state() == DecoderState::Reading,
            r.received() == Seq::<u8>::empty(),
            r.pending() == Seq::<u8>::empty(),
            r.events() == Seq::<Event>::empty(),
    {
        let r = ChunkStream {
            lines: LineBuffer::new(),
            state: DecoderState::Reading,
            received: Ghost(Seq::empty()),
            events: Ghost(Seq::empty()),
        };
        assert forall|rest: Seq<u8>| #[trigger]
            events_of(r.received@ + rest) == r.events@ + events_of(r.lines@ + rest) by {
            assert(r.received@ + rest =~= rest);
            assert(r.lines@ + rest =~= rest);
            assert(r.events@ + events_of(rest) =~= events_of(rest));
        }
        r
    }

    /// Hands over a chunk from the byte source. While the decoder is reading
    /// it is appended to the buffer; in any other state it is ignored.
    pub fn push_chunk(&mut self, chunk: &[u8])
        requires
            old(self).wf(),
        ensures
            final(self).wf(),
            old(self).state() == DecoderState::Reading ==> {
                &&& final(self).received() == old(self).received() + chunk@
                &&& final(self).pending() == old(self).pending() + chunk@
            },
            old(self).state() != DecoderState::Reading ==> {
                &&& final(self).received() == old(self).received()
                &&& final(self).pending() == old(self).pending()
            },
            final(self).state() == old(self).state(),
            final(self).events() == old(self).events(),
    {
        if self.state == DecoderState::Reading {
            let ghost received = self.received@;
            let ghost pending = self.lines@;
            self.lines.append(chunk);
            self.received = Ghost(self.received@ + chunk@);
            assert forall|rest: Seq<u8>| #[trigger]
                events_of(self.received@ + rest) == self.events@ + events_of(self.lines@ + rest) by {
                assert(self.received@ + rest =~= received + (chunk@ + rest));
                assert(self.lines@ + rest =~= pending + (chunk@ + rest));
                assert(events_of(received + (chunk@ + rest)) == self.events@ + events_of(
                    pending + (chunk@ + rest),
                ));
            }
        }
    }

    /// The byte source has ended. A reading decoder goes on to drain its
    /// buffer; in any other state nothing changes.
    pub fn close_upstream(&mut self)
        requires
            old(self).wf(),
        ensures
            final(self).wf(),
            final(self).state() == (if old(self).state() == DecoderState::Reading {
                DecoderState::Draining
            } else {
                old(self).state()
            }),
            final(self).received() == old(self).received(),
            final(self).pending() == old(self).pending(),
            final(self).events() == old(self).events(),
    {
        if self.state == DecoderState::Reading {
            assert(self.received@ + Seq::<u8>::empty() =~= self.received@);
            assert(self.lines@ + Seq::<u8>::empty() =~= self.lines@);
            self.state = DecoderState::Draining;
        }
    }

    /// The byte source failed: the error is the last item, and the decoder
    /// hands out nothing more.
    pub fn fail_transport(&mut self, error: reqwest::Error) -> (r: ChatChunkError)
        requires
            old(self).wf(),
        ensures
            final(self).wf(),
            r == ChatChunkError::StreamError(error),
            final(self).state() == DecoderState::Aborted,
            final(self).received() == old(self).received(),
            final(self).events() == old(self).events(),
    {
        self.state = DecoderState::Aborted;
        ChatChunkError::StreamError(error)
    }

    /// Hands back the outcome of parsing a payload. A value is the next
    /// item; a parse error becomes the last item, which carries the payload.
    pub fn payload_parsed<T>(
        &mut self,
        payload: String,
        parsed: Result<T, serde_json::Error>,
    ) -> (r: Result<T, ChatChunkError>)
        requires
            old(self).wf(),
        ensures
            final(self).wf(),
            match parsed {
                Ok(v) => r == Ok::<T, ChatChunkError>(v) && *final(self) == *old(self),
                Err(e) => {
                    &&& r == Err::<T, ChatChunkError>(ChatChunkError::DeserializeFailed(e, payload))
                    &&& final(self).state() == DecoderState::Aborted
                    &&& final(self).received() == old(self).received()
                    &&& final(self).events() == old(self).events()
                },
            },
    {
        match parsed {
            Ok(v) => Ok(v),
            Err(e) => {
                self.state = DecoderState::Aborted;
                Err(ChatChunkError::DeserializeFailed(e, payload))
            },
        }
    }

    /// Advances to the next item: reads buffered lines, skipping padding,
    /// until one yields a payload, ends the stream or fails; asks for a chunk
    /// when no complete line is buffered and the source may deliver more.
    pub fn next_step(&mut self) -> (r: Step)
        requires
            old(self).wf(),
        ensures
            final(self).wf(),
            final(self).received() == old(self).received(),
            match r {
                Step::NeedChunk => {
                    &&& old(self).state() == DecoderState::Reading
                    &&& final(self).state() == DecoderState::Reading
                    &&& !has_line(final(self).pending())
                    &&& final(self).events() == old(self).events()
                },
                Step::Payload(p) => {
                    &&& final(self).state() == old(self).state()
                    &&& final(self).events() == old(self).events().push(Event::Payload(p@))
                },
                Step::Failed(e) => {
                    &&& old(self).state() == DecoderState::Reading || old(self).state()
                        == DecoderState::Draining
                    &&& final(self).state() == DecoderState::Ended
                    &&& final(self).events() == old(self).events().push(error_event(e))
                },
                Step::End => {
                    &&& final(self).state() == DecoderState::Ended || final(self).state()
                        == DecoderState::Aborted
                    &&& final(self).events() == old(self).events()
                },
            },
            old(self).state() == DecoderState::Ended || old(self).state() == DecoderState::Aborted
                ==> r is End && *final(self) == *old(self),
            old(self).state() == DecoderState::Reading || old(self).state()
                == DecoderState::Draining ==> {
                let (k, rest) = step_of(
                    old(self).pending(),
                    old(self).state() == DecoderState::Draining,
                );
                step_agrees(r, k) && final(self).pending() == rest
            },
            old(self).state() == DecoderState::Reading && (r is End || r is Failed) ==> forall|
                rest: Seq<u8>,
            | #[trigger] events_of(final(self).received() + rest) == final(self).events(),
    {
        if self.state != DecoderState::Reading && self.state != DecoderState::Draining {
            return Step::End;
        }
        let ghost recv = self.received@;
        let ghost ev0 = self.events@;
        loop
            invariant
                self.wf(),
                self.received@ == recv,
                self.events@ == ev0,
                recv == old(self).received@,
                ev0 == old(self).events@,
                step_of(self.lines@, self.state == DecoderState::Draining) == step_of(
                    old(self).lines@,
                    old(self).state == DecoderState::Draining,
                ),
                self.state == old(self).state,
                self.state == DecoderState::Reading || self.state == DecoderState::Draining,
            decreases self.lines@.len(),
        {
            let ghost pend = self.lines@;
            let reading = self.state == DecoderState::Reading;
            let line = match self.lines.try_take_line() {
                Some(line) => line,
                None => {
                    if reading {
                        return Step::NeedChunk;
                    }
                    match self.lines.take_remainder_if_nonempty() {
                        Some(last) => last,
                        None => {
                            assert(events_of(pend) == Seq::<Event>::empty());
                            assert(ev0 + Seq::<Event>::empty() =~= ev0);
                            self.state = DecoderState::Ended;
                            return Step::End;
                        },
                    }
                },
            };
            let ghost newpend = self.lines@;
            let ghost items = events_of_line(line@).0;
            let ghost more = events_of_line(line@).1;
            proof {
                if reading {
                    assert forall|rest: Seq<u8>| #[trigger]
                        events_of(pend + rest) == (if more {
                            items + events_of(newpend + rest)
                        } else {
                            items
                        }) by {
                        lemma_events_of_front_line(pend, rest);
                    }
                } else if has_line(pend) {
                    lemma_events_of_front_line(pend, Seq::<u8>::empty());
                    assert(pend + Seq::<u8>::empty() =~= pend);
                    assert(newpend + Seq::<u8>::empty() =~= newpend);
                } else {
                    assert(events_of(newpend) == Seq::<Event>::empty());
                    assert(items + Seq::<Event>::empty() =~= items);
                }
                // For the draining case both branches give the same shape.
                if !reading {
                    assert(events_of(pend) == (if more {
                        items + events_of(newpend)
                    } else {
                        items
                    }));
                }
            }
            let outcome = interpret_line(line);
            match outcome {
                LineOutcome::Blank => {
                    proof {
                        assert(items =~= Seq::<Event>::empty());
                        if reading {
                            assert forall|rest: Seq<u8>| #[trigger]
                                events_of(recv + rest) == ev0 + events_of(newpend + rest) by {
                                assert(events_of(pend + rest) == items + events_of(newpend + rest));
                                assert(items + events_of(newpend + rest) =~= events_of(newpend + rest));
                            }
                        } else {
                            assert(items + events_of(newpend) =~= events_of(newpend));
                        }
                    }
                },
                LineOutcome::Done => {
                    proof {
                        assert(items =~= Seq::<Event>::empty());
                        assert(ev0 + items =~= ev0);
                        if reading {
                            assert(recv + Seq::<u8>::empty() =~= recv);
                            assert(events_of(recv + Seq::<u8>::empty()) == ev0 + events_of(
                                pend + Seq::<u8>::empty(),
                            ));
                            assert(pend + Seq::<u8>::empty() =~= pend);
                            assert forall|rest: Seq<u8>| #[trigger]
                                events_of(recv + rest) == ev0 by {
                                assert(events_of(pend + rest) == items);
                            }
                        }
                    }
                    self.state = DecoderState::Ended;
                    return Step::End;
                },
                LineOutcome::Payload(p) => {
                    let ghost item = Event::Payload(p@);
                    proof {
                        assert(items =~= seq![item]);
                        if reading {
                            assert forall|rest: Seq<u8>| #[trigger]
                                events_of(recv + rest) == ev0.push(item) + events_of(newpend + rest) by {
                                assert(events_of(pend + rest) == items + events_of(newpend + rest));
                                assert(ev0 + (items + events_of(newpend + rest)) =~= ev0.push(item)
                                    + events_of(newpend + rest));
                            }
                        } else {
                            assert(ev0 + (items + events_of(newpend)) =~= ev0.push(item)
                                + events_of(newpend));
                        }
                    }
                    self.events = Ghost(self.events@.push(item));
                    return Step::Payload(p);
                },
                LineOutcome::Failed(e) => {
                    let ghost item = error_event(e);
                    proof {
                        assert(items =~= seq![item]);
                        assert(ev0 + items =~= ev0.push(item));
                        if reading {
                            assert(recv + Seq::<u8>::empty() =~= recv);
                            assert(events_of(recv + Seq::<u8>::empty()) == ev0 + events_of(
                                pend + Seq::<u8>::empty(),
                            ));
                            assert(pend + Seq::<u8>::empty() =~= pend);
                            assert forall|rest: Seq<u8>| #[trigger]
                                events_of(recv + rest) == ev0.push(item) by {
                                assert(events_of(pend + rest) == items);
                            }
                        }
                    }
                    self.events = Ghost(self.events@.push(item));
                    self.state = DecoderState::Ended;
                    return Step::Failed(e);
                },
            }
        }
    }
}

/// However the same bytes were split into chunks, two decoders that decoded
/// them to the end handed out the same items: those that the bytes decode to.
pub proof fn lemma_chunking_irrelevant(a: ChunkStream, b: ChunkStream)
    requires
        a.wf(),
        b.wf(),
        a.state() == DecoderState::Ended,
        b.state() == DecoderState::Ended,
        a.received() == b.received(),
    ensures
        a.events() == b.events(),
        a.events() == events_of(a.received()),
{
}

/// A decoder that decoded to the end a stream of well-formed frames followed
/// by the end marker, however it was split into chunks, handed out the
/// frames' payloads in order and nothing else.
pub proof fn lemma_decoder_emits_frames(d: ChunkStream, payloads: Seq<Seq<u8>>, rest: Seq<u8>)
    requires
        d.wf(),
        d.state() == DecoderState::Ended,
        d.received() == frames_bytes(payloads) + done_line() + seq![NEWLINE] + rest,
        forall|i: int| 0 <= i < payloads.len() ==> is_frame_payload(#[trigger] payloads[i]),
    ensures
        d.events() == payloads.map_values(|p: Seq<u8>| Event::Payload(decode_utf8(p))),
{
    lemma_frames_then_done(payloads, rest);
}

} // verus!
