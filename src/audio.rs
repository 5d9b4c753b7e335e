//! The audio part of the API: speech, transcriptions and translations.
pub mod file;
pub mod form;
pub mod language;
pub mod model;
pub mod response_format;
pub mod speech_input;
pub mod timestamp_granularity;
pub mod voice;

pub use file::supported_file_format_list;
pub use language::Iso639_1;
pub use model::AudioModel;
pub use model::SpeechModel;
pub use response_format::JsonResponse;
pub use response_format::JsonResponseFormatter;
pub use response_format::PlainTextResponseFormatter;
pub use response_format::SpeechResponseFormat;
pub use response_format::SrtResponseFormatter;
pub use response_format::TextResponseFormat;
pub use response_format::VerboseJsonResponseFormatter;
pub use response_format::VttResponseFormatter;
pub use speech_input::SpeechInput;
pub use timestamp_granularity::TimestampGranularity;
pub use voice::Voice;
