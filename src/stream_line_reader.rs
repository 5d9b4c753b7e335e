//! A reader of text lines from a byte stream that arrives in arbitrary
//! chunks.
//!
//! Like the chat decoder it performs no I/O: its owner asks for the next
//! line and, on `LineStep::NeedChunk`, polls the byte source and hands over
//! what came.
use crate::buffer::{after_first_line, first_line, has_line, LineBuffer};
use crate::chat::error::StreamLineError;
use vstd::prelude::*;
use vstd::utf8::{decode_utf8, valid_utf8};

verus! {

/// What the owner of a line reader is to do next.
pub enum LineStep {
    /// Poll the byte source and hand over what it yields.
    NeedChunk,
    /// The next line, or the error of decoding it as UTF-8.
    Line(Result<String, StreamLineError>),
    /// The byte source has ended and every line has been read.
    End,
}

/// `r` is the reading of the line bytes `line`.
pub open spec fn line_read(r: Result<String, StreamLineError>, line: Seq<u8>) -> bool {
    match r {
        Ok(s) => valid_utf8(line) && s@ == decode_utf8(line),
        Err(StreamLineError::StringDeserializationError(_)) => !valid_utf8(line),
        Err(_) => false,
    }
}

/// A reader of `\n`-terminated lines.
pub struct StreamLineReader {
    lines: LineBuffer,
    closed: bool,
}

impl StreamLineReader {
    /// The bytes taken and not yet read as lines.
    pub closed spec fn pending(&self) -> Seq<u8> {
        self.lines@
    }

    /// Whether the byte source has ended.
    pub closed spec fn is_closed(&self) -> bool {
        self.closed
    }

    /// A reader that has taken nothing.
    pub fn new() -> (r: Self)
        ensures
            r.pending() == Seq::<u8>::empty(),
            !r.is_closed(),
    {
        StreamLineReader { lines: LineBuffer::new(), closed: false }
    }

    /// Hands over a chunk from the byte source.
    pub fn push_chunk(&mut self, chunk: &[u8])
        ensures
            final(self).pending() == old(self).pending() + chunk@,
            final(self).is_closed() == old(self).is_closed(),
    {
        self.lines.append(chunk);
    }

    /// The byte source has ended.
    pub fn close_upstream(&mut self)
        ensures
            final(self).pending() == old(self).pending(),
            final(self).is_closed(),
    {
        self.closed = true;
    }

    /// The byte source failed: the error is handed out as an item.
    pub fn transport_error(&self, error: reqwest::Error) -> (r: StreamLineError)
        ensures
            r == StreamLineError::ReqwestError(error),
    {
        StreamLineError::ReqwestError(error)
    }

    /// The next line: the first complete line buffered, without its newline,
    /// or, once the source has ended, what remains of the buffer.
    pub fn next_line(&mut self) -> (r: LineStep)
        ensures
            final(self).is_closed() == old(self).is_closed(),
            match r {
                LineStep::NeedChunk => {
                    &&& !old(self).is_closed()
                    &&& !has_line(old(self).pending())
                    &&& final(self).pending() == old(self).pending()
                },
                LineStep::Line(l) => if has_line(old(self).pending()) {
                    &&& line_read(l, first_line(old(self).pending()))
                    &&& final(self).pending() == after_first_line(old(self).pending())
                } else {
                    &&& old(self).is_closed()
                    &&& old(self).pending().len() > 0
                    &&& line_read(l, old(self).pending())
                    &&& final(self).pending().len() == 0
                },
                LineStep::End => {
                    &&& old(self).is_closed()
                    &&& old(self).pending().len() == 0
                    &&& final(self).pending() == old(self).pending()
                },
            },
    {
        let line = match self.lines.try_take_line() {
            Some(line) => line,
            None => {
                if !self.closed {
                    return LineStep::NeedChunk;
                }
                match self.lines.take_remainder_if_nonempty() {
                    Some(last) => last,
                    None => {
                        return LineStep::End;
                    },
                }
            },
        };
        match String::from_utf8(line) {
            Ok(s) => LineStep::Line(Ok(s)),
            Err(e) => LineStep::Line(Err(StreamLineError::StringDeserializationError(e))),
        }
    }
}

} // verus!
