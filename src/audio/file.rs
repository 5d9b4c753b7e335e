//! Which audio files the API accepts.
use crate::error::{ValidationError, ValidationResult};
use crate::text::{joined, owned, same_text};
use vstd::prelude::*;

verus! {

/// The file extensions of the supported audio formats.
pub open spec fn supported_formats() -> Seq<Seq<char>> {
    seq!["flac"@, "mp3"@, "mp4"@, "mpeg"@, "mpga"@, "m4a"@, "ogg"@, "wav"@, "webm"@]
}

/// The last `.`-separated part of a file name is `ext`, a text without `.`.
pub open spec fn has_extension(name: Seq<char>, ext: Seq<char>) -> bool {
    name == ext || (name.len() > ext.len() && name.skip(name.len() - ext.len() - 1) == seq!['.']
        + ext)
}

/// The file name ends in one of the supported formats.
pub open spec fn is_supported(name: Seq<char>) -> bool {
    exists|i: int| 0 <= i < supported_formats().len() && has_extension(name, supported_formats()[i])
}

/// The supported formats as a bracketed, comma-separated list.
pub fn supported_file_format_list() -> (r: String)
    ensures
        r@ == "[flac, mp3, mp4, mpeg, mpga, m4a, ogg, wav, webm]"@,
{
    owned("[flac, mp3, mp4, mpeg, mpga, m4a, ogg, wav, webm]")
}

/// Whether the last `.`-separated part of `name` is `ext`.
fn ends_with_extension(name: &str, ext: &str) -> (r: bool)
    ensures
        r == has_extension(name@, ext@),
{
    if same_text(name, ext) {
        return true;
    }
    let n = name.unicode_len();
    let k = ext.unicode_len();
    if n <= k {
        return false;
    }
    let tail = name.substring_char(n - k - 1, n);
    let dotted = joined(".", ext);
    proof {
        reveal_strlit(".");
        assert("."@ =~= seq!['.']);
        assert(tail@ =~= name@.skip(n - k - 1));
        assert(dotted@ =~= seq!['.'] + ext@);
    }
    same_text(tail, dotted.as_str())
}

/// Whether the file name ends in a supported format: its last
/// `.`-separated part is one of `flac`, `mp3`, `mp4`, `mpeg`, `mpga`, `m4a`,
/// `ogg`, `wav` or `webm`.
pub fn is_supported_file_name(name: &str) -> (r: bool)
    ensures
        r == is_supported(name@),
{
    let formats = vec!["flac", "mp3", "mp4", "mpeg", "mpga", "m4a", "ogg", "wav", "webm"];
    proof {
        assert(formats@.len() == 9);
    }
    let mut i: usize = 0;
    while i < formats.len()
        invariant
            formats@.len() == 9,
            forall|j: int| 0 <= j < 9 ==> #[trigger] formats@[j]@ == supported_formats()[j],
            i <= 9,
            forall|j: int| 0 <= j < i ==> !has_extension(name@, #[trigger] supported_formats()[j]),
        decreases 9 - i,
    {
        if ends_with_extension(name, formats[i]) {
            return true;
        }
        i = i + 1;
    }
    false
}

/// The file name, or the error that the API's file type gives for a name
/// that does not end in a supported format.
pub fn check_file_name(name: String) -> (r: ValidationResult<String, String>)
    ensures
        match r {
            Ok(n) => is_supported(name@) && n@ == name@,
            Err(e) => {
                &&& !is_supported(name@)
                &&& e.type_label@ == "File"@
                &&& e.reason@
                    == "The file format is not found or not supported.\nSupported file formats are [flac, mp3, mp4, mpeg, mpga, m4a, ogg, wav, webm]"@
                &&& e.value@ == name@
            },
        },
{
    if is_supported_file_name(name.as_str()) {
        Ok(name)
    } else {
        let list = supported_file_format_list();
        let reason = joined(
            "The file format is not found or not supported.\nSupported file formats are ",
            list.as_str(),
        );
        proof {
            reveal_strlit("The file format is not found or not supported.\nSupported file formats are ");
            reveal_strlit("[flac, mp3, mp4, mpeg, mpga, m4a, ogg, wav, webm]");
            reveal_strlit("The file format is not found or not supported.\nSupported file formats are [flac, mp3, mp4, mpeg, mpga, m4a, ogg, wav, webm]");
            assert(reason@ =~= "The file format is not found or not supported.\nSupported file formats are [flac, mp3, mp4, mpeg, mpga, m4a, ogg, wav, webm]"@);
        }
        Err(ValidationError { type_label: owned("File"), reason, value: name })
    }
}

} // verus!
