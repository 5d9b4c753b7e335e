//! The text to turn into speech.
use crate::error::{ValidationError, ValidationResult};
use crate::text::owned;
use vstd::prelude::*;

verus! {

/// The longest input, in bytes.
pub const MAX_SPEECH_INPUT_LEN: usize = 4096;

/// The input text of a text-to-speech, at most 4096 bytes long.
#[derive(Debug, Clone, PartialEq, Eq, Hash)]
pub struct SpeechInput {
    value: String,
}

impl View for SpeechInput {
    type V = Seq<char>;

    closed spec fn view(&self) -> Seq<char> {
        self.value@
    }
}

impl SpeechInput {
    /// The input, or an error that carries its length when it is longer
    /// than 4096 bytes.
    pub fn new(value: &str) -> (r: ValidationResult<Self, usize>)
        ensures
            match r {
                Ok(input) => value.len() <= MAX_SPEECH_INPUT_LEN && input@ == value@,
                Err(e) => {
                    &&& value.len() > MAX_SPEECH_INPUT_LEN
                    &&& e.type_label@ == "SpeechInput"@
                    &&& e.reason@ == "Speech input must be at most 4096 characters"@
                    &&& e.value == value.len()
                },
            },
    {
        let n = value.len();
        if n > MAX_SPEECH_INPUT_LEN {
            return Err(
                ValidationError {
                    type_label: owned("SpeechInput"),
                    reason: owned("Speech input must be at most 4096 characters"),
                    value: n,
                },
            );
        }
        Ok(SpeechInput { value: owned(value) })
    }

    /// The input text.
    pub fn to_string(&self) -> (r: String)
        ensures
            r@ == self@,
    {
        self.value.clone()
    }
}

impl Default for SpeechInput {
    fn default() -> (r: Self)
        ensures
            r@ == Seq::<char>::empty(),
    {
        SpeechInput { value: String::new() }
    }
}

} // verus!
