//! The stream option of a chat completion.
use crate::text::owned;
use vstd::prelude::*;

verus! {

/// Whether a chat completion comes at once or as a stream.
#[derive(Debug, Clone, Copy, PartialEq, Eq, Structural, Hash)]
pub enum StreamOption {
    /// Return once, not as a stream: `false`
    ReturnOnce,
    /// Return a stream: `true`
    ReturnStream,
}

impl StreamOption {
    /// The text that stands for this value on the wire.
    pub open spec fn text(self) -> Seq<char> {
        match self {
            StreamOption::ReturnOnce => "false"@,
            StreamOption::ReturnStream => "true"@,
        }
    }

    /// The text that stands for this value on the wire.
    pub fn to_string(&self) -> (r: String)
        ensures
            r@ == self.text(),
    {
        match self {
            StreamOption::ReturnOnce => owned("false"),
            StreamOption::ReturnStream => owned("true"),
        }
    }
}

impl Default for StreamOption {
    fn default() -> (r: Self)
        ensures
            r == StreamOption::ReturnOnce,
    {
        StreamOption::ReturnOnce
    }
}

/// Whether a request with this stream option may be answered at once: the
/// option is absent or asks for a single response.
pub fn allows_single_response(stream: Option<StreamOption>) -> (r: bool)
    ensures
        r == (stream is None || stream == Some(StreamOption::ReturnOnce)),
{
    match stream {
        None => true,
        Some(StreamOption::ReturnOnce) => true,
        Some(StreamOption::ReturnStream) => false,
    }
}

/// Whether a request with this stream option may be answered as a stream:
/// the option is present and asks for a stream.
pub fn allows_streamed_response(stream: Option<StreamOption>) -> (r: bool)
    ensures
        r == (stream == Some(StreamOption::ReturnStream)),
{
    match stream {
        Some(StreamOption::ReturnStream) => true,
        _ => false,
    }
}

} // verus!
