//! The audio models.
use crate::text::owned;
use vstd::prelude::*;

verus! {

/// Models for transcription and translation.
#[derive(Debug, Clone, Copy, PartialEq, Eq, Structural, Hash)]
pub enum AudioModel {
    /// `whisper-1`
    Whisper1,
}

impl AudioModel {
    /// The text that stands for this value on the wire.
    pub open spec fn text(self) -> Seq<char> {
        match self {
            AudioModel::Whisper1 => "whisper-1"@,
        }
    }

    /// The text that stands for this value on the wire.
    pub fn to_string(&self) -> (r: String)
        ensures
            r@ == self.text(),
    {
        match self {
            AudioModel::Whisper1 => owned("whisper-1"),
        }
    }
}

impl Default for AudioModel {
    fn default() -> (r: Self)
        ensures
            r == AudioModel::Whisper1,
    {
        AudioModel::Whisper1
    }
}

/// Text-to-speech models.
#[derive(Debug, Clone, Copy, PartialEq, Eq, Structural, Hash)]
pub enum SpeechModel {
    /// `tts-1`
    Tts1,
    /// `tts-1-hd`
    Tts1Hd,
}

impl SpeechModel {
    /// The text that stands for this value on the wire.
    pub open spec fn text(self) -> Seq<char> {
        match self {
            SpeechModel::Tts1 => "tts-1"@,
            SpeechModel::Tts1Hd => "tts-1-hd"@,
        }
    }

    /// The text that stands for this value on the wire.
    pub fn to_string(&self) -> (r: String)
        ensures
            r@ == self.text(),
    {
        match self {
            SpeechModel::Tts1 => owned("tts-1"),
            SpeechModel::Tts1Hd => owned("tts-1-hd"),
        }
    }
}

impl Default for SpeechModel {
    fn default() -> (r: Self)
        ensures
            r == SpeechModel::Tts1,
    {
        SpeechModel::Tts1
    }
}

} // verus!
