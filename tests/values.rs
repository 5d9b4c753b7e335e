use oaapi::audio::file::{check_file_name, is_supported_file_name};
use oaapi::audio::form::{
    granularity_fields, timestamps_allowed, transcription_fields, translation_fields,
};
use oaapi::chat::stream_option::{allows_single_response, allows_streamed_response};
use oaapi::audio::{
    supported_file_format_list, AudioModel, Iso639_1, JsonResponse, SpeechInput, SpeechModel,
    SpeechResponseFormat, TextResponseFormat, TimestampGranularity, Voice,
};
use oaapi::chat::{
    ChatModel, ImageContentPart, ImageDetail, ImageFormat, ImageUrl, LogprobsOption, MaxTokens,
    Message, MessageContent, ResponseFormat, ResponseFormatType, Role, StopOption,
    StreamOption, SystemMessage, TextContentPart, TooChoiceOption, ToolChoice, ToolMessage,
    ToolType, TopLogprobs, UserMessage,
};
use oaapi::{ApiKey, OrganizationId, Prompt};

#[test]
fn prompt_test_new() {
    assert_eq!(Prompt::new("Hello, world!").format(), "Hello, world!");
}

#[test]
fn prompt_text_and_default() {
    assert_eq!(Prompt::new("abc").to_string(), "abc");
    assert_eq!(Prompt::default().format(), "");
}

#[test]
fn api_key_authorization_header() {
    assert_eq!(ApiKey::new("sk-123").authorization_header(), "Bearer sk-123");
    assert_eq!(ApiKey::new("").authorization_header(), "Bearer ");
}

#[test]
fn organization_header_is_the_id() {
    assert_eq!(OrganizationId::new("org-1").organization_header(), "org-1");
}

#[test]
fn context_windows() {
    assert_eq!(ChatModel::Gpt35Turbo.context_window(), 4096);
    assert_eq!(ChatModel::Gpt35Turbo1106.context_window(), 16358);
    assert_eq!(ChatModel::Gpt41106Preview.context_window(), 128000);
    assert_eq!(ChatModel::Gpt432k0613.context_window(), 32768);
    assert_eq!(ChatModel::Gpt4.context_window(), 8192);
    assert_eq!(ChatModel::Gpt432k.to_string(), "gpt-4-32k");
}

#[test]
fn max_tokens_bounds() {
    assert_eq!(MaxTokens::new(1, ChatModel::Gpt4).unwrap().value(), 1);
    assert_eq!(MaxTokens::new(8192, ChatModel::Gpt4).unwrap().value(), 8192);
    let e = MaxTokens::new(8193, ChatModel::Gpt4).unwrap_err();
    assert_eq!(e.type_label, "MaxTokens");
    assert_eq!(e.reason, "The max tokens count must be between 1 and 8192");
    assert_eq!(e.value, 8193);
    let e = MaxTokens::new(0, ChatModel::Gpt35Turbo).unwrap_err();
    assert_eq!(e.reason, "The max tokens count must be between 1 and 4096");
    assert_eq!(MaxTokens::default().value(), 1024);
}

#[test]
fn top_logprobs_bounds() {
    assert_eq!(TopLogprobs::new(0).unwrap().value(), 0);
    assert_eq!(TopLogprobs::new(5).unwrap().value(), 5);
    let e = TopLogprobs::new(6).unwrap_err();
    assert_eq!(e.type_label, "TopLogprobs");
    assert_eq!(e.reason, "The top logprobs must be between 0 and 5.");
    assert_eq!(e.value, 6);
}

#[test]
fn stop_option_sequences() {
    assert_eq!(StopOption::new_single("end").to_string(), "end");
    let four: Vec<String> = ["a", "b", "c", "d"].iter().map(|s| s.to_string()).collect();
    let s = StopOption::new_up_to_4(four.clone()).unwrap();
    assert_eq!(s, StopOption::UpTo4Sequences(four.clone()));
    assert_eq!(s.to_string(), "[a, b, c, d]");
    assert_eq!(StopOption::new_up_to_4(vec![]).unwrap().to_string(), "[]");
    let mut five = four;
    five.push("e".to_string());
    let e = StopOption::new_up_to_4(five).unwrap_err();
    assert_eq!(e.type_label, "StopOption");
    assert_eq!(
        e.reason,
        "The number of sequences must be less than or equal to 4, but got 5."
    );
    assert_eq!(e.value, 5);
    assert_eq!(StopOption::default(), StopOption::SingleSequence(String::new()));
}

#[test]
fn speech_input_length_limit() {
    let ok = "x".repeat(4096);
    assert_eq!(SpeechInput::new(&ok).unwrap().to_string(), ok);
    let long = "x".repeat(4097);
    let e = SpeechInput::new(&long).unwrap_err();
    assert_eq!(e.type_label, "SpeechInput");
    assert_eq!(e.value, 4097);
    assert_eq!(SpeechInput::default().to_string(), "");
}

#[test]
fn enum_texts() {
    assert_eq!(Role::Assistant.to_string(), "assistant");
    assert_eq!(Role::default(), Role::User);
    assert_eq!(StreamOption::ReturnStream.to_string(), "true");
    assert_eq!(StreamOption::default(), StreamOption::ReturnOnce);
    assert_eq!(LogprobsOption::NotReturnLogprobs.to_string(), "false");
    assert_eq!(ResponseFormatType::Json.to_string(), "json_object");
    assert_eq!(ToolType::Function.to_string(), "function");
    assert_eq!(TooChoiceOption::NoTool.to_string(), "none");
    assert_eq!(TooChoiceOption::default(), TooChoiceOption::Auto);
    assert_eq!(ImageDetail::High.to_string(), "high");
    assert_eq!(AudioModel::Whisper1.to_string(), "whisper-1");
    assert_eq!(SpeechModel::Tts1Hd.to_string(), "tts-1-hd");
    assert_eq!(Iso639_1::Ja.to_string(), "ja");
    assert_eq!(Iso639_1::default(), Iso639_1::En);
    assert_eq!(Voice::Shimmer.to_string(), "shimmer");
    assert_eq!(TimestampGranularity::Word.to_string(), "word");
    assert_eq!(SpeechResponseFormat::Flac.to_string(), "flac");
}

#[test]
fn parse_names() {
    assert_eq!(Voice::parse("nova").unwrap(), Voice::Nova);
    let e = Voice::parse("Nova").unwrap_err();
    assert_eq!(e.type_label, "Voice");
    assert_eq!(e.reason, "Unknown voice");
    assert_eq!(e.value, "Nova");
    assert_eq!(TimestampGranularity::parse("segment").unwrap(), TimestampGranularity::Segment);
    assert_eq!(
        TimestampGranularity::parse("line").unwrap_err().reason,
        "Unknown timestamp granularity"
    );
    assert_eq!(SpeechResponseFormat::parse("opus").unwrap(), SpeechResponseFormat::Opus);
    assert_eq!(
        SpeechResponseFormat::parse("wav").unwrap_err().reason,
        "Unknown speech response format: wav"
    );
}

#[test]
fn text_formats() {
    assert_eq!(<JsonResponse as TextResponseFormat>::format(), "json");
    assert_eq!(<String as TextResponseFormat>::format(), "text");
    assert_eq!(<subtp::srt::SubRip as TextResponseFormat>::format(), "srt");
    assert_eq!(<subtp::vtt::WebVtt as TextResponseFormat>::format(), "vtt");
    let r = JsonResponse { text: "hi".to_string() };
    assert_eq!(r.to_string(), "hi");
}

#[test]
fn audio_file_names() {
    assert!(is_supported_file_name("path/to/audio.mp3"));
    assert!(is_supported_file_name("a.b.webm"));
    assert!(is_supported_file_name("mp3"));
    assert!(!is_supported_file_name("audio.txt"));
    assert!(!is_supported_file_name("audio.mp3.txt"));
    assert!(!is_supported_file_name("audiomp3"));
    assert!(!is_supported_file_name(""));
    assert_eq!(check_file_name("x.ogg".to_string()).unwrap(), "x.ogg");
    let e = check_file_name("x.aiff".to_string()).unwrap_err();
    assert_eq!(e.type_label, "File");
    assert_eq!(e.value, "x.aiff");
    assert_eq!(
        e.reason,
        "The file format is not found or not supported.\nSupported file formats are [flac, mp3, mp4, mpeg, mpga, m4a, ogg, wav, webm]"
    );
    assert_eq!(
        supported_file_format_list(),
        "[flac, mp3, mp4, mpeg, mpga, m4a, ogg, wav, webm]"
    );
}

#[test]
fn image_urls() {
    let u = ImageUrl::upload_base64("AAAA".to_string(), ImageFormat::Jpeg, Some(ImageDetail::Low));
    assert_eq!(u.url, "data:image/jpeg;base64,AAAA");
    assert_eq!(u.detail, Some(ImageDetail::Low));
    let u = ImageUrl::url("https://example.com/a.png".to_string(), None);
    assert_eq!(u.url, "https://example.com/a.png");
    let part = ImageContentPart::new(u.clone());
    assert_eq!(part._type, "image_url");
    assert_eq!(part.image_url, u);
    let text = TextContentPart::new("hello");
    assert_eq!(text._type, "text");
    assert_eq!(text.text, "hello");
}

#[test]
fn image_formats_by_extension() {
    assert_eq!(ImageFormat::from_extension("jpg").unwrap(), ImageFormat::Jpeg);
    assert_eq!(ImageFormat::from_extension("jpeg").unwrap(), ImageFormat::Jpeg);
    assert_eq!(ImageFormat::from_extension("gif").unwrap(), ImageFormat::Gif);
    let e = ImageFormat::from_extension("bmp").unwrap_err();
    assert_eq!(e.reason, "Not supported extension");
    assert_eq!(e.value, "bmp");
    let p = std::path::PathBuf::from("dir/picture.webp");
    assert_eq!(ImageFormat::from_path(p).unwrap(), ImageFormat::Webp);
    let e = ImageFormat::from_path(std::path::PathBuf::from("dir/picture")).unwrap_err();
    assert_eq!(e.reason, "Extension is not found");
    assert_eq!(e.value, "dir/picture");
    let e = ImageFormat::from_path(std::path::PathBuf::from("a.tiff")).unwrap_err();
    assert_eq!(e.reason, "Not supported extension");
    assert_eq!(e.value, "tiff");
}

#[test]
fn messages() {
    let s = SystemMessage::new("Prompt.", Some("System".to_string()));
    assert_eq!(s.content(), "Prompt.");
    assert_eq!(s.role(), Role::System);
    assert_eq!(s.name(), &Some("System".to_string()));
    let p = SystemMessage::from_prompt(Prompt::new("From prompt"), None);
    assert_eq!(p.content(), "From prompt");
    assert_eq!(p.name(), &None);
    let t = ToolMessage::new("Tool message".to_string(), "tool-call-id".to_string());
    assert_eq!(t.role, Role::Tool);
    assert_eq!(t.tool_call_id, "tool-call-id");
    let u = UserMessage::new(MessageContent::Text("Hi".to_string()), Some("John".to_string()));
    assert_eq!(u.role, Role::User);
    assert_eq!(u.content, MessageContent::Text("Hi".to_string()));
    assert_eq!(Message::default(), Message::User(UserMessage::default()));
}

#[test]
fn conversions() {
    let f: ResponseFormat = ResponseFormatType::Json.into();
    assert_eq!(f._type, ResponseFormatType::Json);
    assert_eq!(ResponseFormat::default()._type, ResponseFormatType::Text);
    let c: ToolChoice = TooChoiceOption::NoTool.into();
    assert_eq!(c, ToolChoice::Option(TooChoiceOption::NoTool));
    assert_eq!(ToolChoice::default(), ToolChoice::Option(TooChoiceOption::Auto));
}

#[test]
fn message_conversions() {
    let m: Message = SystemMessage::new("Prompt.", None).into();
    assert!(matches!(m, Message::System(_)));
    let m: Message = UserMessage::new(MessageContent::Text("Hi".to_string()), None).into();
    assert!(matches!(m, Message::User(_)));
    let m: Message = ToolMessage::default().into();
    assert!(matches!(m, Message::Tool(_)));
}

#[test]
fn tools() {
    let f = oaapi::chat::Function {
        description: None,
        name: "my_function".to_string(),
        parameters: Some(serde_json::Map::new()),
    };
    let t = oaapi::chat::Tool::new(f.clone());
    assert_eq!(t._type, ToolType::Function);
    assert_eq!(t.function, f);
    let u: oaapi::chat::Tool = f.into();
    assert_eq!(u, t);
}

#[test]
fn stream_option_checks() {
    assert!(allows_single_response(None));
    assert!(allows_single_response(Some(StreamOption::ReturnOnce)));
    assert!(!allows_single_response(Some(StreamOption::ReturnStream)));
    assert!(!allows_streamed_response(None));
    assert!(!allows_streamed_response(Some(StreamOption::ReturnOnce)));
    assert!(allows_streamed_response(Some(StreamOption::ReturnStream)));
}

#[test]
fn audio_form_fields() {
    let pair = |a: &str, b: &str| (a.to_string(), b.to_string());
    assert_eq!(
        transcription_fields(AudioModel::Whisper1, "srt", Some(Iso639_1::De), &Some(Prompt::new("p"))),
        vec![
            pair("model", "whisper-1"),
            pair("response_format", "srt"),
            pair("language", "de"),
            pair("prompt", "p"),
        ]
    );
    assert_eq!(
        transcription_fields(AudioModel::Whisper1, "json", None, &None),
        vec![pair("model", "whisper-1"), pair("response_format", "json")]
    );
    assert_eq!(
        translation_fields(AudioModel::Whisper1, "text", &Some(Prompt::new("q"))),
        vec![pair("model", "whisper-1"), pair("response_format", "text"), pair("prompt", "q")]
    );
    assert_eq!(
        granularity_fields(&vec![TimestampGranularity::Word, TimestampGranularity::Segment]),
        vec![
            pair("timestamp_granularities[]", "word"),
            pair("timestamp_granularities[]", "segment"),
        ]
    );
    assert!(timestamps_allowed(false, "srt"));
    assert!(timestamps_allowed(true, "verbose_json"));
    assert!(!timestamps_allowed(true, "json"));
}

#[test]
fn prompt_conversions() {
    let p: Prompt = "from string".to_string().into();
    assert_eq!(p, Prompt::new("from string"));
    let q: Prompt = "parsed".parse().unwrap();
    assert_eq!(q.format(), "parsed");
}
