//! Response formats of chat completions.
use crate::text::owned;
use vstd::prelude::*;

verus! {

/// The type of a response format.
#[derive(Debug, Clone, Copy, PartialEq, Eq, Structural, Hash)]
pub enum ResponseFormatType {
    /// `text`
    Text,
    /// `json_object`
    Json,
}

impl ResponseFormatType {
    /// The text that stands for this value on the wire.
    pub open spec fn text(self) -> Seq<char> {
        match self {
            ResponseFormatType::Text => "text"@,
            ResponseFormatType::Json => "json_object"@,
        }
    }

    /// The text that stands for this value on the wire.
    pub fn to_string(&self) -> (r: String)
        ensures
            r@ == self.text(),
    {
        match self {
            ResponseFormatType::Text => owned("text"),
            ResponseFormatType::Json => owned("json_object"),
        }
    }
}

impl Default for ResponseFormatType {
    fn default() -> (r: Self)
        ensures
            r == ResponseFormatType::Text,
    {
        ResponseFormatType::Text
    }
}

/// The format in which a chat model answers.
#[derive(Debug, Clone, Copy, PartialEq, Eq, Structural)]
pub struct ResponseFormat {
    /// The type of the format.
    pub _type: ResponseFormatType,
}

impl Default for ResponseFormat {
    fn default() -> (r: Self)
        ensures
            r._type == ResponseFormatType::Text,
    {
        ResponseFormat { _type: ResponseFormatType::Text }
    }
}

impl From<ResponseFormatType> for ResponseFormat {
    fn from(_type: ResponseFormatType) -> (r: Self) {
        ResponseFormat { _type }
    }
}

impl vstd::std_specs::convert::FromSpecImpl<ResponseFormatType> for ResponseFormat {
    open spec fn obeys_from_spec() -> bool {
        true
    }

    open spec fn from_spec(v: ResponseFormatType) -> Self {
        ResponseFormat { _type: v }
    }
}

} // verus!
