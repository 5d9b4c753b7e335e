//! The log probability option of a chat completion.
use crate::text::owned;
use vstd::prelude::*;

verus! {

/// Whether log probabilities are returned.
#[derive(Debug, Clone, Copy, PartialEq, Eq, Structural, Hash)]
pub enum LogprobsOption {
    /// Do not return log probabilities: `false`
    NotReturnLogprobs,
    /// Return log probabilities: `true`
    ReturnLogprobs,
}

impl LogprobsOption {
    /// The text that stands for this value on the wire.
    pub open spec fn text(self) -> Seq<char> {
        match self {
            LogprobsOption::NotReturnLogprobs => "false"@,
            LogprobsOption::ReturnLogprobs => "true"@,
        }
    }

    /// The text that stands for this value on the wire.
    pub fn to_string(&self) -> (r: String)
        ensures
            r@ == self.text(),
    {
        match self {
            LogprobsOption::NotReturnLogprobs => owned("false"),
            LogprobsOption::ReturnLogprobs => owned("true"),
        }
    }
}

impl Default for LogprobsOption {
    fn default() -> (r: Self)
        ensures
            r == LogprobsOption::NotReturnLogprobs,
    {
        LogprobsOption::NotReturnLogprobs
    }
}

} // verus!
