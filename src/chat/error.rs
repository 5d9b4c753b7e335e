//! Errors of the chat stream decoder.
use vstd::prelude::*;

verus! {

/// The error of one item of a streamed chat completion. Each kind ends the
/// stream.
pub enum ChatChunkError {
    /// The byte source failed.
    StreamError(reqwest::Error),
    /// A line was not valid UTF-8.
    StringDecodingError(std::string::FromUtf8Error),
    /// A non-empty line did not start with `data: `; it carries the line.
    DataPrefixMissing(String),
    /// The payload of a line was not the expected JSON; it carries the
    /// parser's error and the payload.
    DeserializeFailed(serde_json::Error, String),
}

/// The error of one line of a line reader.
pub enum StreamLineError {
    /// The byte source failed.
    ReqwestError(reqwest::Error),
    /// A line was not valid UTF-8.
    StringDeserializationError(std::string::FromUtf8Error),
}

} // verus!
