//! Tools that a model may call.
use crate::text::owned;
use vstd::prelude::*;

verus! {

/// The type of a tool.
#[derive(Debug, Clone, Copy, PartialEq, Eq, Structural, Hash)]
pub enum ToolType {
    /// `function`
    Function,
}

impl ToolType {
    /// The text that stands for this value on the wire.
    pub open spec fn text(self) -> Seq<char> {
        match self {
            ToolType::Function => "function"@,
        }
    }

    /// The text that stands for this value on the wire.
    pub fn to_string(&self) -> (r: String)
        ensures
            r@ == self.text(),
    {
        match self {
            ToolType::Function => owned("function"),
        }
    }
}

impl Default for ToolType {
    fn default() -> (r: Self)
        ensures
            r == ToolType::Function,
    {
        ToolType::Function
    }
}

/// `serde_json::Map`, the JSON Schema object of a function's parameters.
#[verifier::external_type_specification]
#[verifier::external_body]
#[verifier::reject_recursive_types(K)]
#[verifier::reject_recursive_types(V)]
pub struct ExJsonMap<K, V>(serde_json::Map<K, V>);

/// `serde_json::Value`, a value of that JSON Schema object.
#[verifier::external_type_specification]
#[verifier::external_body]
pub struct ExJsonValue(serde_json::Value);

/// A tool that the model may call.
#[derive(Debug, Clone, PartialEq, Eq)]
pub struct Tool {
    /// The type of the tool.
    pub _type: ToolType,
    /// The function.
    pub function: Function,
}

impl Tool {
    /// A function tool.
    pub fn new(function: Function) -> (r: Self)
        ensures
            r._type == ToolType::Function,
            r.function == function,
    {
        Tool { _type: ToolType::Function, function }
    }
}

impl From<Function> for Tool {
    fn from(value: Function) -> (r: Self) {
        Tool::new(value)
    }
}

impl vstd::std_specs::convert::FromSpecImpl<Function> for Tool {
    open spec fn obeys_from_spec() -> bool {
        true
    }

    open spec fn from_spec(v: Function) -> Self {
        Tool { _type: ToolType::Function, function: v }
    }
}

/// A function that the model may call.
#[derive(Debug, Clone, PartialEq, Eq)]
pub struct Function {
    /// What the function does, to help the model choose it.
    pub description: Option<String>,
    /// The name of the function.
    pub name: String,
    /// The parameters, as a JSON Schema object.
    pub parameters: Option<serde_json::Map<String, serde_json::Value>>,
}

} // verus!
