//! Timestamp granularities of transcriptions.
use crate::error::{ValidationError, ValidationResult};
use crate::text::{owned, same_text};
use vstd::prelude::*;

verus! {

/// Timestamp granularity of a transcription.
#[derive(Debug, Clone, Copy, PartialEq, Eq, Structural, Hash)]
pub enum TimestampGranularity {
    /// Segment-level timestamps: `segment`
    Segment,
    /// Word-level timestamps: `word`
    Word,
}

impl TimestampGranularity {
    /// The text that stands for this value on the wire.
    pub open spec fn text(self) -> Seq<char> {
        match self {
            TimestampGranularity::Segment => "segment"@,
            TimestampGranularity::Word => "word"@,
        }
    }

    /// The text that stands for this value on the wire.
    pub fn to_string(&self) -> (r: String)
        ensures
            r@ == self.text(),
    {
        match self {
            TimestampGranularity::Segment => owned("segment"),
            TimestampGranularity::Word => owned("word"),
        }
    }

    /// The value that the text stands for.
    pub fn parse(s: &str) -> (r: ValidationResult<Self, String>)
        ensures
            match r {
                Ok(v) => v.text() == s@,
                Err(e) => {
                    &&& forall|v: TimestampGranularity| #[trigger] v.text() != s@
                    &&& e.type_label@ == "TimestampGranularity"@
                    &&& e.reason@ == "Unknown timestamp granularity"@
                    &&& e.value@ == s@
                },
            },
    {
        if same_text(s, "segment") {
            Ok(TimestampGranularity::Segment)
        } else if same_text(s, "word") {
            Ok(TimestampGranularity::Word)
        } else {
            assert forall|v: TimestampGranularity| #[trigger] v.text() != s@ by {
                match v {
                    TimestampGranularity::Segment => {},
                    TimestampGranularity::Word => {},
                }
            }
            Err(
                ValidationError {
                    type_label: owned("TimestampGranularity"),
                    reason: owned("Unknown timestamp granularity"),
                    value: owned(s),
                },
            )
        }
    }
}

impl Default for TimestampGranularity {
    fn default() -> (r: Self)
        ensures
            r == TimestampGranularity::Segment,
    {
        TimestampGranularity::Segment
    }
}

} // verus!
