//! The chat models.
use crate::text::owned;
use vstd::prelude::*;

verus! {

/// The model to chat with.
#[derive(Debug, Clone, Copy, PartialEq, Eq, Structural, Hash)]
pub enum ChatModel {
    /// `gpt-3.5-turbo-1106`
    Gpt35Turbo1106,
    /// `gpt-3.5-turbo-0613`
    Gpt35Turbo0613,
    /// `gpt-3.5-turbo`
    Gpt35Turbo,
    /// `gpt-3.5-turbo-16k`
    Gpt35Turbo16k,
    /// `gpt-3.5-turbo-instruct`
    Gpt35TurboInstruct,
    /// `gpt-4-0125-preview`
    Gpt40125Preview,
    /// `gpt-4-1106-vision-preview`
    Gpt41106VisionPreview,
    /// `gpt-4-1106-preview`
    Gpt41106Preview,
    /// `gpt-4-vision-preview`
    Gpt4VisionPreview,
    /// `gpt-4`
    Gpt4,
    /// `gpt-4-32k`
    Gpt432k,
    /// `gpt-4-0613`
    Gpt40613,
    /// `gpt-4-32k-0613`
    Gpt432k0613,
}

impl ChatModel {
    /// The text that stands for this value on the wire.
    pub open spec fn text(self) -> Seq<char> {
        match self {
            ChatModel::Gpt35Turbo1106 => "gpt-3.5-turbo-1106"@,
            ChatModel::Gpt35Turbo0613 => "gpt-3.5-turbo-0613"@,
            ChatModel::Gpt35Turbo => "gpt-3.5-turbo"@,
            ChatModel::Gpt35Turbo16k => "gpt-3.5-turbo-16k"@,
            ChatModel::Gpt35TurboInstruct => "gpt-3.5-turbo-instruct"@,
            ChatModel::Gpt40125Preview => "gpt-4-0125-preview"@,
            ChatModel::Gpt41106VisionPreview => "gpt-4-1106-vision-preview"@,
            ChatModel::Gpt41106Preview => "gpt-4-1106-preview"@,
            ChatModel::Gpt4VisionPreview => "gpt-4-vision-preview"@,
            ChatModel::Gpt4 => "gpt-4"@,
            ChatModel::Gpt432k => "gpt-4-32k"@,
            ChatModel::Gpt40613 => "gpt-4-0613"@,
            ChatModel::Gpt432k0613 => "gpt-4-32k-0613"@,
        }
    }

    /// The text that stands for this value on the wire.
    pub fn to_string(&self) -> (r: String)
        ensures
            r@ == self.text(),
    {
        match self {
            ChatModel::Gpt35Turbo1106 => owned("gpt-3.5-turbo-1106"),
            ChatModel::Gpt35Turbo0613 => owned("gpt-3.5-turbo-0613"),
            ChatModel::Gpt35Turbo => owned("gpt-3.5-turbo"),
            ChatModel::Gpt35Turbo16k => owned("gpt-3.5-turbo-16k"),
            ChatModel::Gpt35TurboInstruct => owned("gpt-3.5-turbo-instruct"),
            ChatModel::Gpt40125Preview => owned("gpt-4-0125-preview"),
            ChatModel::Gpt41106VisionPreview => owned("gpt-4-1106-vision-preview"),
            ChatModel::Gpt41106Preview => owned("gpt-4-1106-preview"),
            ChatModel::Gpt4VisionPreview => owned("gpt-4-vision-preview"),
            ChatModel::Gpt4 => owned("gpt-4"),
            ChatModel::Gpt432k => owned("gpt-4-32k"),
            ChatModel::Gpt40613 => owned("gpt-4-0613"),
            ChatModel::Gpt432k0613 => owned("gpt-4-32k-0613"),
        }
    }

    /// The context window of the model, in tokens.
    pub open spec fn window(self) -> u32 {
        match self {
            ChatModel::Gpt35Turbo1106 => 16358,
            ChatModel::Gpt35Turbo0613 => 4096,
            ChatModel::Gpt35Turbo => 4096,
            ChatModel::Gpt35Turbo16k => 16358,
            ChatModel::Gpt35TurboInstruct => 4096,
            ChatModel::Gpt40125Preview => 8192,
            ChatModel::Gpt41106VisionPreview => 128000,
            ChatModel::Gpt41106Preview => 128000,
            ChatModel::Gpt4VisionPreview => 128000,
            ChatModel::Gpt4 => 8192,
            ChatModel::Gpt432k => 32768,
            ChatModel::Gpt40613 => 8192,
            ChatModel::Gpt432k0613 => 32768,
        }
    }

    /// The context window of the model, in tokens.
    pub fn context_window(&self) -> (r: u32)
        ensures
            r == self.window(),
    {
        match self {
            ChatModel::Gpt35Turbo1106 => 16358,
            ChatModel::Gpt35Turbo0613 => 4096,
            ChatModel::Gpt35Turbo => 4096,
            ChatModel::Gpt35Turbo16k => 16358,
            ChatModel::Gpt35TurboInstruct => 4096,
            ChatModel::Gpt40125Preview => 8192,
            ChatModel::Gpt41106VisionPreview => 128000,
            ChatModel::Gpt41106Preview => 128000,
            ChatModel::Gpt4VisionPreview => 128000,
            ChatModel::Gpt4 => 8192,
            ChatModel::Gpt432k => 32768,
            ChatModel::Gpt40613 => 8192,
            ChatModel::Gpt432k0613 => 32768,
        }
    }
}

} // verus!
