//! Prompts for generations.
use crate::text::owned;
use vstd::prelude::*;

verus! {

/// A prompt for generations.
#[derive(Debug, Clone, PartialEq, Eq, Hash)]
pub struct Prompt {
    value: String,
}

impl View for Prompt {
    type V = Seq<char>;

    closed spec fn view(&self) -> Seq<char> {
        self.value@
    }
}

impl Prompt {
    /// A prompt with the given text.
    pub fn new(value: &str) -> (r: Self)
        ensures
            r@ == value@,
    {
        Prompt { value: owned(value) }
    }

    /// The text of the prompt.
    pub fn format(self) -> (r: String)
        ensures
            r@ == self@,
    {
        self.value
    }

    /// The text of the prompt.
    pub fn to_string(&self) -> (r: String)
        ensures
            r@ == self@,
    {
        self.value.clone()
    }
}

impl Default for Prompt {
    fn default() -> (r: Self)
        ensures
            r@ == Seq::<char>::empty(),
    {
        Prompt { value: String::new() }
    }
}

impl From<String> for Prompt {
    fn from(value: String) -> (r: Self) {
        Prompt { value }
    }
}

impl vstd::std_specs::convert::FromSpecImpl<String> for Prompt {
    open spec fn obeys_from_spec() -> bool {
        true
    }

    closed spec fn from_spec(v: String) -> Self {
        Prompt { value: v }
    }
}

impl std::str::FromStr for Prompt {
    type Err = ();

    fn from_str(s: &str) -> Result<Self, ()> {
        Ok(Prompt::new(s))
    }
}

} // verus!
