//! The text fields of the multipart forms of transcription and translation
//! requests. The audio file and the temperature are added by the caller.
use crate::audio::language::Iso639_1;
use crate::audio::model::AudioModel;
use crate::audio::timestamp_granularity::TimestampGranularity;
use crate::prompt::Prompt;
use crate::text::{owned, same_text};
use vstd::prelude::*;

verus! {

/// The name and value of each field, as text.
pub open spec fn fields_text(fields: Seq<(String, String)>) -> Seq<(Seq<char>, Seq<char>)> {
    fields.map_values(|f: (String, String)| (f.0@, f.1@))
}

/// A field for an optional value: one field when it is present, none when
/// it is absent.
pub open spec fn optional_field(name: Seq<char>, value: Option<Seq<char>>) -> Seq<
    (Seq<char>, Seq<char>),
> {
    match value {
        Some(v) => seq![(name, v)],
        None => seq![],
    }
}

/// The fields of a transcription request: the model, the response format,
/// then the language and the prompt when given.
pub open spec fn transcription_fields_of(
    model: AudioModel,
    response_format: Seq<char>,
    language: Option<Iso639_1>,
    prompt: Option<Prompt>,
) -> Seq<(Seq<char>, Seq<char>)> {
    seq![("model"@, model.text()), ("response_format"@, response_format)] + optional_field(
        "language"@,
        match language {
            Some(l) => Some(l.text()),
            None => None,
        },
    ) + optional_field(
        "prompt"@,
        match prompt {
            Some(p) => Some(p@),
            None => None,
        },
    )
}

/// The fields of a translation request: the model, the response format,
/// then the prompt when given.
pub open spec fn translation_fields_of(
    model: AudioModel,
    response_format: Seq<char>,
    prompt: Option<Prompt>,
) -> Seq<(Seq<char>, Seq<char>)> {
    seq![("model"@, model.text()), ("response_format"@, response_format)] + optional_field(
        "prompt"@,
        match prompt {
            Some(p) => Some(p@),
            None => None,
        },
    )
}

fn push_field(fields: &mut Vec<(String, String)>, name: &str, value: String)
    ensures
        fields_text(final(fields)@) == fields_text(old(fields)@).push((name@, value@)),
{
    fields.push((owned(name), value));
    assert(fields_text(fields@) =~= fields_text(old(fields)@).push((name@, value@)));
}

/// The text fields of a transcription request.
pub fn transcription_fields(
    model: AudioModel,
    response_format: &str,
    language: Option<Iso639_1>,
    prompt: &Option<Prompt>,
) -> (r: Vec<(String, String)>)
    ensures
        fields_text(r@) == transcription_fields_of(model, response_format@, language, *prompt),
{
    let mut fields: Vec<(String, String)> = Vec::new();
    push_field(&mut fields, "model", model.to_string());
    push_field(&mut fields, "response_format", owned(response_format));
    let ghost head = fields_text(fields@);
    assert(head =~= seq![("model"@, model.text()), ("response_format"@, response_format@)]);
    if let Some(l) = language {
        push_field(&mut fields, "language", l.to_string());
    }
    if let Some(p) = prompt {
        push_field(&mut fields, "prompt", p.to_string());
    }
    assert(fields_text(fields@) =~= transcription_fields_of(
        model,
        response_format@,
        language,
        *prompt,
    ));
    fields
}

/// The text fields of a translation request.
pub fn translation_fields(model: AudioModel, response_format: &str, prompt: &Option<Prompt>) -> (r:
    Vec<(String, String)>)
    ensures
        fields_text(r@) == translation_fields_of(model, response_format@, *prompt),
{
    let mut fields: Vec<(String, String)> = Vec::new();
    push_field(&mut fields, "model", model.to_string());
    push_field(&mut fields, "response_format", owned(response_format));
    if let Some(p) = prompt {
        push_field(&mut fields, "prompt", p.to_string());
    }
    assert(fields_text(fields@) =~= translation_fields_of(model, response_format@, *prompt));
    fields
}

/// One `timestamp_granularities[]` field for each granularity, in order.
pub fn granularity_fields(granularities: &Vec<TimestampGranularity>) -> (r: Vec<(String, String)>)
    ensures
        fields_text(r@) == granularities@.map_values(
            |g: TimestampGranularity| ("timestamp_granularities[]"@, g.text()),
        ),
{
    let mut fields: Vec<(String, String)> = Vec::new();
    let mut i: usize = 0;
    while i < granularities.len()
        invariant
            i <= granularities@.len(),
            fields_text(fields@) == granularities@.take(i as int).map_values(
                |g: TimestampGranularity| ("timestamp_granularities[]"@, g.text()),
            ),
        decreases granularities@.len() - i,
    {
        push_field(&mut fields, "timestamp_granularities[]", granularities[i].to_string());
        assert(granularities@.take(i + 1) =~= granularities@.take(i as int).push(granularities@[i as int]));
        i = i + 1;
    }
    assert(granularities@.take(granularities@.len() as int) =~= granularities@);
    fields
}

/// Whether timestamp granularities may be asked for in this response
/// format: only the verbose JSON format carries timestamps.
pub fn timestamps_allowed(has_granularities: bool, response_format: &str) -> (r: bool)
    ensures
        r == (!has_granularities || response_format@ == "verbose_json"@),
{
    !has_granularities || same_text(response_format, "verbose_json")
}

} // verus!
