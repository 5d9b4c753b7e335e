//! The API key.
use crate::text::{joined, owned};
use vstd::prelude::*;

verus! {

/// The key that authenticates API calls.
#[derive(Clone, PartialEq, Eq)]
pub struct ApiKey {
    value: String,
}

impl View for ApiKey {
    type V = Seq<char>;

    closed spec fn view(&self) -> Seq<char> {
        self.value@
    }
}

impl ApiKey {
    /// A key with the given text.
    pub fn new(value: &str) -> (r: Self)
        ensures
            r@ == value@,
    {
        ApiKey { value: owned(value) }
    }

    /// The value of the HTTP `Authorization` header: `Bearer ` and the key.
    pub fn authorization_header(&self) -> (r: String)
        ensures
            r@ == "Bearer "@ + self@,
    {
        joined("Bearer ", self.value.as_str())
    }
}

} // verus!
