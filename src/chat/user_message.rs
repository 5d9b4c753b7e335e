//! User messages and their contents.
use crate::chat::role::Role;
use crate::error::{ValidationError, ValidationResult};
use crate::text::{joined, owned, same_text};
use vstd::prelude::*;

verus! {

/// A message from the user.
#[derive(Debug, Clone, PartialEq, Eq)]
pub struct UserMessage {
    /// The contents of the message.
    pub content: MessageContent,
    /// The role of the author, here `user`.
    pub role: Role,
    /// The name of the participant, if given.
    pub name: Option<String>,
}

impl UserMessage {
    /// A user message with the given contents and participant name.
    pub fn new(content: MessageContent, name: Option<String>) -> (r: Self)
        ensures
            r.content == content,
            r.role == Role::User,
            r.name == name,
    {
        UserMessage { content, role: Role::User, name }
    }
}

impl Default for UserMessage {
    fn default() -> (r: Self)
        ensures
            r.content matches MessageContent::Text(t) && t@ == Seq::<char>::empty(),
            r.role == Role::User,
            r.name is None,
    {
        UserMessage { content: MessageContent::Text(String::new()), role: Role::User, name: None }
    }
}

/// The contents of a user message.
#[derive(Debug, Clone, PartialEq, Eq)]
pub enum MessageContent {
    /// Text.
    Text(String),
    /// Parts, each text or an image.
    Array(Vec<MessageContentPart>),
}

impl Default for MessageContent {
    fn default() -> (r: Self)
        ensures
            r matches MessageContent::Text(t) && t@ == Seq::<char>::empty(),
    {
        MessageContent::Text(String::new())
    }
}

/// One part of the contents of a user message.
#[derive(Debug, Clone, PartialEq, Eq)]
pub enum MessageContentPart {
    /// A text part.
    Text(TextContentPart),
    /// An image part.
    Image(ImageContentPart),
}

impl Default for MessageContentPart {
    fn default() -> (r: Self)
        ensures
            r matches MessageContentPart::Text(p) && p._type@ == "text"@ && p.text@ == Seq::<
                char,
            >::empty(),
    {
        MessageContentPart::Text(TextContentPart::default())
    }
}

/// A text part of a message.
#[derive(Debug, Clone, PartialEq, Eq)]
pub struct TextContentPart {
    /// The type of the part, here `text`.
    pub _type: String,
    /// The text.
    pub text: String,
}

impl TextContentPart {
    /// A text part with the given text.
    pub fn new(text: &str) -> (r: Self)
        ensures
            r._type@ == "text"@,
            r.text@ == text@,
    {
        TextContentPart { _type: owned("text"), text: owned(text) }
    }
}

impl Default for TextContentPart {
    fn default() -> (r: Self)
        ensures
            r._type@ == "text"@,
            r.text@ == Seq::<char>::empty(),
    {
        TextContentPart { _type: owned("text"), text: String::new() }
    }
}

/// An image part of a message.
#[derive(Debug, Clone, PartialEq, Eq)]
pub struct ImageContentPart {
    /// The type of the part, here `image_url`.
    pub _type: String,
    /// Where the image is.
    pub image_url: ImageUrl,
}

impl ImageContentPart {
    /// An image part for the given image.
    pub fn new(image_url: ImageUrl) -> (r: Self)
        ensures
            r._type@ == "image_url"@,
            r.image_url == image_url,
    {
        ImageContentPart { _type: owned("image_url"), image_url }
    }
}

impl Default for ImageContentPart {
    fn default() -> (r: Self)
        ensures
            r._type@ == "image_url"@,
            r.image_url.url@ == Seq::<char>::empty(),
            r.image_url.detail is None,
    {
        ImageContentPart::new(ImageUrl { url: String::new(), detail: None })
    }
}

/// The URL of an image, with the detail at which to process it.
#[derive(Debug, Clone, PartialEq, Eq)]
pub struct ImageUrl {
    /// A URL, or the image itself as a data URL.
    pub url: String,
    /// The detail, if given.
    pub detail: Option<ImageDetail>,
}

impl ImageUrl {
    /// An image at the given URL.
    pub fn url(url: String, detail: Option<ImageDetail>) -> (r: Self)
        ensures
            r.url == url,
            r.detail == detail,
    {
        ImageUrl { url, detail }
    }

    /// An image uploaded in Base64: the data URL
    /// `data:image/{format};base64,{base64}`.
    pub fn upload_base64(base64: String, format: ImageFormat, detail: Option<ImageDetail>) -> (r:
        Self)
        ensures
            r.url@ == "data:image/"@ + format.text() + ";base64,"@ + base64@,
            r.detail == detail,
    {
        let name = format.to_string();
        let head = joined("data:image/", name.as_str());
        let head = joined(head.as_str(), ";base64,");
        let url = joined(head.as_str(), base64.as_str());
        ImageUrl { url, detail }
    }
}

impl Default for ImageUrl {
    fn default() -> (r: Self)
        ensures
            r.url@ == Seq::<char>::empty(),
            r.detail is None,
    {
        ImageUrl { url: String::new(), detail: None }
    }
}

/// `std::path::PathBuf`, the path of an image file.
#[verifier::external_type_specification]
#[verifier::external_body]
pub struct ExPathBuf(std::path::PathBuf);

/// Relies on `Path::extension`, read as UTF-8 text: the extension of the
/// path, if it has one that is valid UTF-8.
#[verifier::external_body]
fn path_extension(path: &std::path::PathBuf) -> (r: Option<String>) {
    path.extension().and_then(|e| e.to_str()).map(|e| e.to_string())
}

/// Relies on `Path::to_string_lossy`: the path as text.
#[verifier::external_body]
fn path_text(path: &std::path::PathBuf) -> (r: String) {
    path.to_string_lossy().to_string()
}

/// The image format that a file extension stands for.
pub open spec fn format_of_extension(ext: Seq<char>) -> Option<ImageFormat> {
    if ext == "png"@ {
        Some(ImageFormat::Png)
    } else if ext == "jpg"@ || ext == "jpeg"@ {
        Some(ImageFormat::Jpeg)
    } else if ext == "webp"@ {
        Some(ImageFormat::Webp)
    } else if ext == "gif"@ {
        Some(ImageFormat::Gif)
    } else {
        None
    }
}

impl ImageFormat {
    /// The format that a file extension stands for: `png`, `jpg` or `jpeg`,
    /// `webp`, `gif`; any other is refused.
    pub fn from_extension(ext: &str) -> (r: ValidationResult<Self, String>)
        ensures
            match r {
                Ok(f) => format_of_extension(ext@) == Some(f),
                Err(e) => {
                    &&& format_of_extension(ext@) is None
                    &&& e.type_label@ == "ImageFormat"@
                    &&& e.reason@ == "Not supported extension"@
                    &&& e.value@ == ext@
                },
            },
    {
        if same_text(ext, "png") {
            Ok(ImageFormat::Png)
        } else if same_text(ext, "jpg") || same_text(ext, "jpeg") {
            Ok(ImageFormat::Jpeg)
        } else if same_text(ext, "webp") {
            Ok(ImageFormat::Webp)
        } else if same_text(ext, "gif") {
            Ok(ImageFormat::Gif)
        } else {
            Err(
                ValidationError {
                    type_label: owned("ImageFormat"),
                    reason: owned("Not supported extension"),
                    value: owned(ext),
                },
            )
        }
    }

    /// The format of an image file, by the extension of its path. A path
    /// without an extension is refused, and so is an unknown extension (see
    /// `from_extension`).
    pub fn from_path(path: std::path::PathBuf) -> (r: ValidationResult<Self, String>)
        ensures
            r matches Err(e) ==> e.type_label@ == "ImageFormat"@ && (e.reason@
                == "Extension is not found"@ || e.reason@ == "Not supported extension"@),
    {
        match path_extension(&path) {
            Some(ext) => ImageFormat::from_extension(ext.as_str()),
            None => Err(
                ValidationError {
                    type_label: owned("ImageFormat"),
                    reason: owned("Extension is not found"),
                    value: path_text(&path),
                },
            ),
        }
    }
}

/// The format of an image.
#[derive(Debug, Clone, Copy, PartialEq, Eq, Structural, Hash)]
pub enum ImageFormat {
    /// `png`
    Png,
    /// `jpeg`
    Jpeg,
    /// `webp`
    Webp,
    /// `gif`
    Gif,
}

impl ImageFormat {
    /// The text that stands for this value on the wire.
    pub open spec fn text(self) -> Seq<char> {
        match self {
            ImageFormat::Png => "png"@,
            ImageFormat::Jpeg => "jpeg"@,
            ImageFormat::Webp => "webp"@,
            ImageFormat::Gif => "gif"@,
        }
    }

    /// The text that stands for this value on the wire.
    pub fn to_string(&self) -> (r: String)
        ensures
            r@ == self.text(),
    {
        match self {
            ImageFormat::Png => owned("png"),
            ImageFormat::Jpeg => owned("jpeg"),
            ImageFormat::Webp => owned("webp"),
            ImageFormat::Gif => owned("gif"),
        }
    }
}

impl Default for ImageFormat {
    fn default() -> (r: Self)
        ensures
            r == ImageFormat::Png,
    {
        ImageFormat::Png
    }
}

/// The detail at which the model looks at an image.
#[derive(Debug, Clone, Copy, PartialEq, Eq, Structural, Hash)]
pub enum ImageDetail {
    /// `auto`
    Auto,
    /// `low`: without the high-resolution mode
    Low,
    /// `high`: with the high-resolution mode
    High,
}

impl ImageDetail {
    /// The text that stands for this value on the wire.
    pub open spec fn text(self) -> Seq<char> {
        match self {
            ImageDetail::Auto => "auto"@,
            ImageDetail::Low => "low"@,
            ImageDetail::High => "high"@,
        }
    }

    /// The text that stands for this value on the wire.
    pub fn to_string(&self) -> (r: String)
        ensures
            r@ == self.text(),
    {
        match self {
            ImageDetail::Auto => owned("auto"),
            ImageDetail::Low => owned("low"),
            ImageDetail::High => owned("high"),
        }
    }
}

impl Default for ImageDetail {
    fn default() -> (r: Self)
        ensures
            r == ImageDetail::Auto,
    {
        ImageDetail::Auto
    }
}

} // verus!
