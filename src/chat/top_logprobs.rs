//! How many of the likeliest tokens to return at each position.
use crate::error::{ValidationError, ValidationResult};
use crate::text::owned;
use vstd::prelude::*;

verus! {

/// The largest count.
pub const MAX_TOP_LOGPROBS: u32 = 5;

/// A count between 0 and 5.
#[derive(Debug, Clone, Copy, PartialEq, Eq, Structural)]
pub struct TopLogprobs {
    value: u32,
}

impl TopLogprobs {
    /// The count.
    pub closed spec fn count(self) -> u32 {
        self.value
    }

    /// The count, or an error when it exceeds 5.
    pub fn new(value: u32) -> (r: ValidationResult<Self, u32>)
        ensures
            match r {
                Ok(t) => value <= MAX_TOP_LOGPROBS && t.count() == value,
                Err(e) => {
                    &&& value > MAX_TOP_LOGPROBS
                    &&& e.type_label@ == "TopLogprobs"@
                    &&& e.reason@ == "The top logprobs must be between 0 and 5."@
                    &&& e.value == value
                },
            },
    {
        if value > MAX_TOP_LOGPROBS {
            Err(
                ValidationError {
                    type_label: owned("TopLogprobs"),
                    reason: owned("The top logprobs must be between 0 and 5."),
                    value,
                },
            )
        } else {
            Ok(TopLogprobs { value })
        }
    }

    /// The count.
    pub fn value(&self) -> (r: u32)
        ensures
            r == self.count(),
    {
        self.value
    }
}

impl Default for TopLogprobs {
    fn default() -> (r: Self)
        ensures
            r.count() == 0,
    {
        TopLogprobs { value: 0 }
    }
}

} // verus!
