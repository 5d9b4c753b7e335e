//! The voices of text-to-speech.
use crate::error::{ValidationError, ValidationResult};
use crate::text::{owned, same_text};
use vstd::prelude::*;

verus! {

/// The voice of a text-to-speech.
#[derive(Debug, Clone, Copy, PartialEq, Eq, Structural, Hash)]
pub enum Voice {
    /// `alloy`
    Alloy,
    /// `echo`
    Echo,
    /// `fable`
    Fable,
    /// `onyx`
    Onyx,
    /// `nova`
    Nova,
    /// `shimmer`
    Shimmer,
}

impl Voice {
    /// The text that stands for this value on the wire.
    pub open spec fn text(self) -> Seq<char> {
        match self {
            Voice::Alloy => "alloy"@,
            Voice::Echo => "echo"@,
            Voice::Fable => "fable"@,
            Voice::Onyx => "onyx"@,
            Voice::Nova => "nova"@,
            Voice::Shimmer => "shimmer"@,
        }
    }

    /// The text that stands for this value on the wire.
    pub fn to_string(&self) -> (r: String)
        ensures
            r@ == self.text(),
    {
        match self {
            Voice::Alloy => owned("alloy"),
            Voice::Echo => owned("echo"),
            Voice::Fable => owned("fable"),
            Voice::Onyx => owned("onyx"),
            Voice::Nova => owned("nova"),
            Voice::Shimmer => owned("shimmer"),
        }
    }

    /// The value that the text stands for.
    pub fn parse(s: &str) -> (r: ValidationResult<Self, String>)
        ensures
            match r {
                Ok(v) => v.text() == s@,
                Err(e) => {
                    &&& forall|v: Voice| #[trigger] v.text() != s@
                    &&& e.type_label@ == "Voice"@
                    &&& e.reason@ == "Unknown voice"@
                    &&& e.value@ == s@
                },
            },
    {
        if same_text(s, "alloy") {
            Ok(Voice::Alloy)
        } else if same_text(s, "echo") {
            Ok(Voice::Echo)
        } else if same_text(s, "fable") {
            Ok(Voice::Fable)
        } else if same_text(s, "onyx") {
            Ok(Voice::Onyx)
        } else if same_text(s, "nova") {
            Ok(Voice::Nova)
        } else if same_text(s, "shimmer") {
            Ok(Voice::Shimmer)
        } else {
            assert forall|v: Voice| #[trigger] v.text() != s@ by {
                match v {
                    Voice::Alloy => {},
                    Voice::Echo => {},
                    Voice::Fable => {},
                    Voice::Onyx => {},
                    Voice::Nova => {},
                    Voice::Shimmer => {},
                }
            }
            Err(
                ValidationError {
                    type_label: owned("Voice"),
                    reason: owned("Unknown voice"),
                    value: owned(s),
                },
            )
        }
    }
}

impl Default for Voice {
    fn default() -> (r: Self)
        ensures
            r == Voice::Alloy,
    {
        Voice::Alloy
    }
}

} // verus!
