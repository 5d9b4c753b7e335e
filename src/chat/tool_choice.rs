//! The tool choice of a chat completion.
use crate::chat::tool::ToolType;
use crate::text::owned;
use vstd::prelude::*;

verus! {

/// Whether the model may call a tool.
#[derive(Debug, Clone, Copy, PartialEq, Eq, Structural, Hash)]
pub enum TooChoiceOption {
    /// The model generates a message and calls no tool: `none`
    NoTool,
    /// The model picks between a message and a tool call: `auto`
    Auto,
}

impl TooChoiceOption {
    /// The text that stands for this value on the wire.
    pub open spec fn text(self) -> Seq<char> {
        match self {
            TooChoiceOption::NoTool => "none"@,
            TooChoiceOption::Auto => "auto"@,
        }
    }

    /// The text that stands for this value on the wire.
    pub fn to_string(&self) -> (r: String)
        ensures
            r@ == self.text(),
    {
        match self {
            TooChoiceOption::NoTool => owned("none"),
            TooChoiceOption::Auto => owned("auto"),
        }
    }
}

impl Default for TooChoiceOption {
    fn default() -> (r: Self)
        ensures
            r == TooChoiceOption::Auto,
    {
        TooChoiceOption::Auto
    }
}

/// Which tool, if any, the model calls.
#[derive(Debug, Clone, PartialEq, Eq)]
pub enum ToolChoice {
    /// Left to an option.
    Option(TooChoiceOption),
    /// A tool named by the caller.
    Specified(SpecifiedTool),
}

impl Default for ToolChoice {
    fn default() -> (r: Self)
        ensures
            r == ToolChoice::Option(TooChoiceOption::Auto),
    {
        ToolChoice::Option(TooChoiceOption::Auto)
    }
}

/// A tool named by the caller.
#[derive(Debug, Clone, PartialEq, Eq)]
pub struct SpecifiedTool {
    /// The type of the tool.
    pub _type: ToolType,
    /// The function to call.
    pub function: SpecifiedFunction,
}

impl Default for SpecifiedTool {
    fn default() -> (r: Self)
        ensures
            r._type == ToolType::Function,
            r.function.name@ == Seq::<char>::empty(),
    {
        SpecifiedTool { _type: ToolType::Function, function: SpecifiedFunction { name: String::new() } }
    }
}

/// A function named by the caller.
#[derive(Debug, Clone, PartialEq, Eq)]
pub struct SpecifiedFunction {
    /// The name of the function.
    pub name: String,
}

impl Default for SpecifiedFunction {
    fn default() -> (r: Self)
        ensures
            r.name@ == Seq::<char>::empty(),
    {
        SpecifiedFunction { name: String::new() }
    }
}

impl From<TooChoiceOption> for ToolChoice {
    fn from(value: TooChoiceOption) -> (r: Self) {
        ToolChoice::Option(value)
    }
}

impl vstd::std_specs::convert::FromSpecImpl<TooChoiceOption> for ToolChoice {
    open spec fn obeys_from_spec() -> bool {
        true
    }

    open spec fn from_spec(v: TooChoiceOption) -> Self {
        ToolChoice::Option(v)
    }
}

impl From<SpecifiedTool> for ToolChoice {
    fn from(value: SpecifiedTool) -> (r: Self) {
        ToolChoice::Specified(value)
    }
}

impl vstd::std_specs::convert::FromSpecImpl<SpecifiedTool> for ToolChoice {
    open spec fn obeys_from_spec() -> bool {
        true
    }

    open spec fn from_spec(v: SpecifiedTool) -> Self {
        ToolChoice::Specified(v)
    }
}

} // verus!
