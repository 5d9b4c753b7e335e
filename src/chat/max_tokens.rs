//! The largest number of tokens that a completion may generate.
use crate::chat::model::ChatModel;
use crate::error::{ValidationError, ValidationResult};
use crate::text::{decimal, decimal_text, joined, owned};
use vstd::prelude::*;

verus! {

/// A token count between 1 and the context window of a model.
#[derive(Debug, Clone, Copy, PartialEq, Eq, Structural)]
pub struct MaxTokens {
    value: u32,
}

impl MaxTokens {
    /// The token count.
    pub closed spec fn count(self) -> u32 {
        self.value
    }

    /// The count, or an error when it is 0 or exceeds the context window of
    /// `model`.
    pub fn new(value: u32, model: ChatModel) -> (r: ValidationResult<Self, u32>)
        ensures
            match r {
                Ok(m) => 1 <= value <= model.window() && m.count() == value,
                Err(e) => {
                    &&& (value == 0 || value > model.window())
                    &&& e.type_label@ == "MaxTokens"@
                    &&& e.reason@ == "The max tokens count must be between 1 and "@ + decimal(
                        model.window() as nat,
                    )
                    &&& e.value == value
                },
            },
    {
        let context_window = model.context_window();
        if value == 0 || value > context_window {
            let limit = decimal_text(context_window as usize);
            Err(
                ValidationError {
                    type_label: owned("MaxTokens"),
                    reason: joined("The max tokens count must be between 1 and ", limit.as_str()),
                    value,
                },
            )
        } else {
            Ok(MaxTokens { value })
        }
    }

    /// The token count.
    pub fn value(&self) -> (r: u32)
        ensures
            r == self.count(),
    {
        self.value
    }
}

impl Default for MaxTokens {
    fn default() -> (r: Self)
        ensures
            r.count() == 1024,
    {
        MaxTokens { value: 1024 }
    }
}

} // verus!
