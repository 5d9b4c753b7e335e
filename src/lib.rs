//! A typed client library for a chat and audio HTTP API, built around a
//! verified decoder for line-delimited streaming responses.
pub mod api_key;
pub mod audio;
pub mod buffer;
pub mod chat;
pub mod error;
pub mod foreign;
pub mod organization_id;
pub mod prompt;
pub mod stream_line_reader;
pub mod text;

pub use api_key::ApiKey;
pub use error::ValidationError;
pub use error::ValidationResult;
pub use organization_id::OrganizationId;
pub use prompt::Prompt;
