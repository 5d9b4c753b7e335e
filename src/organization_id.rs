//! The organization ID.
use crate::text::owned;
use vstd::prelude::*;

verus! {

/// The organization on whose behalf API calls are made.
#[derive(Clone, PartialEq, Eq)]
pub struct OrganizationId {
    value: String,
}

impl View for OrganizationId {
    type V = Seq<char>;

    closed spec fn view(&self) -> Seq<char> {
        self.value@
    }
}

impl OrganizationId {
    /// An organization ID with the given text.
    pub fn new(value: &str) -> (r: Self)
        ensures
            r@ == value@,
    {
        OrganizationId { value: owned(value) }
    }

    /// The value of the HTTP organization header: the ID itself.
    pub fn organization_header(&self) -> (r: String)
        ensures
            r@ == self@,
    {
        self.value.clone()
    }
}

} // verus!
