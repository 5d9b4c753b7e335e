//! Formats of audio API responses.
use crate::error::{ValidationError, ValidationResult};
use crate::text::{joined, owned, same_text};
use vstd::prelude::*;

verus! {

/// `subtp::srt::SubRip`, subtitles in the SubRip format.
#[verifier::external_type_specification]
#[verifier::external_body]
pub struct ExSubRip(subtp::srt::SubRip);

/// `subtp::vtt::WebVtt`, subtitles in the WebVTT format.
#[verifier::external_type_specification]
#[verifier::external_body]
pub struct ExWebVtt(subtp::vtt::WebVtt);

/// A text format in which a transcription or translation can be returned.
pub trait TextResponseFormat {
    /// The name of the format as a request parameter.
    fn format() -> &'static str;
}

/// The JSON response: the text alone.
#[derive(Debug, Clone)]
pub struct JsonResponse {
    /// The text of the transcription or translation.
    pub text: String,
}

impl JsonResponse {
    /// The text of the response.
    pub fn to_string(&self) -> (r: String)
        ensures
            r@ == self.text@,
    {
        self.text.clone()
    }
}

impl TextResponseFormat for JsonResponse {
    fn format() -> &'static str {
        "json"
    }
}

impl TextResponseFormat for String {
    fn format() -> &'static str {
        "text"
    }
}

impl TextResponseFormat for subtp::srt::SubRip {
    fn format() -> &'static str {
        "srt"
    }
}

impl TextResponseFormat for subtp::vtt::WebVtt {
    fn format() -> &'static str {
        "vtt"
    }
}

/// Formats a response text as JSON.
pub struct JsonResponseFormatter {}

/// Keeps a response text as it is.
pub struct PlainTextResponseFormatter;

/// Formats a response text as verbose JSON.
pub struct VerboseJsonResponseFormatter;

/// Formats a response text as SubRip subtitles.
pub struct SrtResponseFormatter;

/// Formats a response text as WebVTT.
pub struct VttResponseFormatter;

/// The audio format of generated speech.
#[derive(Debug, Clone, Copy, PartialEq, Eq, Structural, Hash)]
pub enum SpeechResponseFormat {
    /// `mp3`
    Mp3,
    /// `opus`
    Opus,
    /// `aac`
    Aac,
    /// `flac`
    Flac,
}

impl SpeechResponseFormat {
    /// The text that stands for this value on the wire.
    pub open spec fn text(self) -> Seq<char> {
        match self {
            SpeechResponseFormat::Mp3 => "mp3"@,
            SpeechResponseFormat::Opus => "opus"@,
            SpeechResponseFormat::Aac => "aac"@,
            SpeechResponseFormat::Flac => "flac"@,
        }
    }

    /// The text that stands for this value on the wire.
    pub fn to_string(&self) -> (r: String)
        ensures
            r@ == self.text(),
    {
        match self {
            SpeechResponseFormat::Mp3 => owned("mp3"),
            SpeechResponseFormat::Opus => owned("opus"),
            SpeechResponseFormat::Aac => owned("aac"),
            SpeechResponseFormat::Flac => owned("flac"),
        }
    }

    /// The value that the text stands for.
    pub fn parse(s: &str) -> (r: ValidationResult<Self, String>)
        ensures
            match r {
                Ok(v) => v.text() == s@,
                Err(e) => {
                    &&& forall|v: SpeechResponseFormat| #[trigger] v.text() != s@
                    &&& e.type_label@ == "SpeechResponseFormat"@
                    &&& e.reason@ == "Unknown speech response format: "@ + s@
                    &&& e.value@ == s@
                },
            },
    {
        if same_text(s, "mp3") {
            Ok(SpeechResponseFormat::Mp3)
        } else if same_text(s, "opus") {
            Ok(SpeechResponseFormat::Opus)
        } else if same_text(s, "aac") {
            Ok(SpeechResponseFormat::Aac)
        } else if same_text(s, "flac") {
            Ok(SpeechResponseFormat::Flac)
        } else {
            assert forall|v: SpeechResponseFormat| #[trigger] v.text() != s@ by {
                match v {
                    SpeechResponseFormat::Mp3 => {},
                    SpeechResponseFormat::Opus => {},
                    SpeechResponseFormat::Aac => {},
                    SpeechResponseFormat::Flac => {},
                }
            }
            Err(
                ValidationError {
                    type_label: owned("SpeechResponseFormat"),
                    reason: joined("Unknown speech response format: ", s),
                    value: owned(s),
                },
            )
        }
    }
}

impl Default for SpeechResponseFormat {
    fn default() -> (r: Self)
        ensures
            r == SpeechResponseFormat::Mp3,
    {
        SpeechResponseFormat::Mp3
    }
}

} // verus!
