//! The chat part of the API.
pub mod chunk_stream;
pub mod error;
pub mod frame;
pub mod logprobs_option;
pub mod max_tokens;
pub mod message;
pub mod model;
pub mod response_format;
pub mod role;
pub mod stop_option;
pub mod stream_option;
pub mod system_message;
pub mod tool;
pub mod tool_choice;
pub mod tool_message;
pub mod top_logprobs;
pub mod user_message;

pub use chunk_stream::ChunkStream;
pub use error::ChatChunkError;
pub use error::StreamLineError;
pub use logprobs_option::LogprobsOption;
pub use max_tokens::MaxTokens;
pub use message::AssistantMessage;
pub use message::CalledFunction;
pub use message::Message;
pub use message::ToolCall;
pub use model::ChatModel;
pub use response_format::ResponseFormat;
pub use response_format::ResponseFormatType;
pub use role::Role;
pub use stop_option::StopOption;
pub use stream_option::StreamOption;
pub use system_message::SystemMessage;
pub use tool::Function;
pub use tool::Tool;
pub use tool::ToolType;
pub use tool_choice::SpecifiedFunction;
pub use tool_choice::SpecifiedTool;
pub use tool_choice::TooChoiceOption;
pub use tool_choice::ToolChoice;
pub use tool_message::ToolMessage;
pub use top_logprobs::TopLogprobs;
pub use user_message::ImageContentPart;
pub use user_message::ImageDetail;
pub use user_message::ImageFormat;
pub use user_message::ImageUrl;
pub use user_message::MessageContent;
pub use user_message::MessageContentPart;
pub use user_message::TextContentPart;
pub use user_message::UserMessage;
