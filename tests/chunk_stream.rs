use oaapi::chat::chunk_stream::Step;
use oaapi::chat::{ChatChunkError, ChunkStream};

/// One item as a consumer sees it: a parsed event or the kind of error.
#[derive(Debug, Clone, PartialEq)]
enum Item {
    Event(serde_json::Value),
    Transport,
    Utf8,
    MissingPrefix(String),
    Parse(String),
}

fn item_of(r: Result<serde_json::Value, ChatChunkError>) -> Item {
    match r {
        Ok(v) => Item::Event(v),
        Err(ChatChunkError::StreamError(_)) => Item::Transport,
        Err(ChatChunkError::StringDecodingError(_)) => Item::Utf8,
        Err(ChatChunkError::DataPrefixMissing(line)) => Item::MissingPrefix(line),
        Err(ChatChunkError::DeserializeFailed(_, payload)) => Item::Parse(payload),
    }
}

/// Pulls one item, feeding chunks from `source` whenever the decoder asks.
fn pull(decoder: &mut ChunkStream, source: &mut std::vec::IntoIter<Vec<u8>>) -> Option<Item> {
    loop {
        match decoder.next_step() {
            Step::NeedChunk => match source.next() {
                Some(chunk) => decoder.push_chunk(&chunk),
                None => decoder.close_upstream(),
            },
            Step::Payload(payload) => {
                let parsed = serde_json::from_str::<serde_json::Value>(&payload);
                return Some(item_of(decoder.payload_parsed(payload, parsed)));
            },
            Step::Failed(e) => return Some(item_of(Err(e))),
            Step::End => return None,
        }
    }
}

/// Every item of a stream made of the given chunks.
fn decode(chunks: Vec<Vec<u8>>) -> Vec<Item> {
    let mut decoder = ChunkStream::new();
    let mut source = chunks.into_iter();
    let mut items = Vec::new();
    while let Some(item) = pull(&mut decoder, &mut source) {
        items.push(item);
    }
    // Once over, the stream stays over.
    assert!(pull(&mut decoder, &mut source).is_none());
    items
}

fn one_chunk(s: &str) -> Vec<Vec<u8>> {
    vec![s.as_bytes().to_vec()]
}

fn event(json: &str) -> Item {
    Item::Event(serde_json::from_str(json).unwrap())
}

const SCENARIO: &str = "data: {\"id\":\"x\",\"object\":\"o\",\"created\":1,\"model\":\"m\",\"choices\":[{\"index\":0,\"delta\":{\"role\":\"assistant\",\"content\":\"\"},\"finish_reason\":null}]}\n\ndata: {\"id\":\"x\",\"object\":\"o\",\"created\":1,\"model\":\"m\",\"choices\":[{\"index\":0,\"delta\":{\"content\":\"Hi\"},\"finish_reason\":null}]}\n\ndata: [DONE]\n\n";

#[test]
fn chunk_stream_test_stream_line_reader() {
    let source = r#"data: {"id":"chatcmpl-123","object":"chat.completion.chunk","created":1694268190,"model":"gpt-3.5-turbo-0125", "system_fingerprint": "fp_44709d6fcb", "choices":[{"index":0,"delta":{"role":"assistant","content":""},"logprobs":null,"finish_reason":null}]}

data: {"id":"chatcmpl-123","object":"chat.completion.chunk","created":1694268190,"model":"gpt-3.5-turbo-0125", "system_fingerprint": "fp_44709d6fcb", "choices":[{"index":0,"delta":{"content":"Hello"},"logprobs":null,"finish_reason":null}]}

data: {"id":"chatcmpl-123","object":"chat.completion.chunk","created":1694268190,"model":"gpt-3.5-turbo-0125", "system_fingerprint": "fp_44709d6fcb", "choices":[{"index":0,"delta":{"content":"!"},"logprobs":null,"finish_reason":null}]}

data: {"id":"chatcmpl-123","object":"chat.completion.chunk","created":1694268190,"model":"gpt-3.5-turbo-0125", "system_fingerprint": "fp_44709d6fcb", "choices":[{"index":0,"delta":{},"logprobs":null,"finish_reason":"stop"}]}

"#;
    let items = decode(one_chunk(source));
    assert_eq!(items.len(), 4);
    let contents = [Some("".to_string()), Some("Hello".to_string()), Some("!".to_string()), None];
    for (item, content) in items.iter().zip(contents.iter()) {
        match item {
            Item::Event(v) => {
                assert_eq!(v["id"], "chatcmpl-123");
                assert_eq!(v["object"], "chat.completion.chunk");
                assert_eq!(v["created"], 1694268190);
                assert_eq!(v["model"], "gpt-3.5-turbo-0125");
                assert_eq!(v["system_fingerprint"], "fp_44709d6fcb");
                assert_eq!(v["choices"][0]["index"], 0);
                assert_eq!(
                    v["choices"][0]["delta"]["content"].as_str().map(|s| s.to_string()),
                    *content
                );
            },
            other => panic!("unexpected item {:?}", other),
        }
    }
    match &items[0] {
        Item::Event(v) => assert_eq!(v["choices"][0]["delta"]["role"], "assistant"),
        _ => unreachable!(),
    }
    match &items[3] {
        Item::Event(v) => assert_eq!(v["choices"][0]["finish_reason"], "stop"),
        _ => unreachable!(),
    }
}

#[test]
fn single_chunk_scenario_gives_two_events() {
    let items = decode(one_chunk(SCENARIO));
    assert_eq!(items.len(), 2);
    match (&items[0], &items[1]) {
        (Item::Event(a), Item::Event(b)) => {
            assert_eq!(a["choices"][0]["delta"]["role"], "assistant");
            assert_eq!(a["choices"][0]["delta"]["content"], "");
            assert_eq!(b["choices"][0]["delta"]["content"], "Hi");
            assert!(b["choices"][0]["delta"].get("role").is_none());
        },
        other => panic!("unexpected items {:?}", other),
    }
}

#[test]
fn every_split_point_gives_the_same_items() {
    let bytes = SCENARIO.as_bytes();
    let whole = decode(vec![bytes.to_vec()]);
    for at in 0..=bytes.len() {
        let split = decode(vec![bytes[..at].to_vec(), bytes[at..].to_vec()]);
        assert_eq!(split, whole, "split at {}", at);
    }
}

#[test]
fn byte_by_byte_chunks_give_the_same_items() {
    let bytes = SCENARIO.as_bytes();
    let whole = decode(vec![bytes.to_vec()]);
    let singles: Vec<Vec<u8>> = bytes.iter().map(|b| vec![*b]).collect();
    assert_eq!(decode(singles), whole);
    let threes: Vec<Vec<u8>> = bytes.chunks(3).map(|c| c.to_vec()).collect();
    assert_eq!(decode(threes), whole);
}

#[test]
fn well_formed_frames_give_their_events_in_order() {
    let mut text = String::new();
    let mut expected = Vec::new();
    for i in 0..5 {
        let json = format!("{{\"n\":{}}}", i);
        text.push_str(&format!("data: {}\n\n", json));
        expected.push(event(&json));
    }
    text.push_str("data: [DONE]\n\n");
    assert_eq!(decode(one_chunk(&text)), expected);
}

#[test]
fn blank_lines_between_frames_emit_nothing() {
    let items = decode(one_chunk("data: {\"a\":1}\n\n\n\n\ndata: {\"b\":2}\n\ndata: [DONE]\n\n"));
    assert_eq!(items, vec![event("{\"a\":1}"), event("{\"b\":2}")]);
}

#[test]
fn done_marker_stops_even_with_more_frames_buffered() {
    let items = decode(one_chunk("data: {\"a\":1}\n\ndata: [DONE]\n\ndata: {\"b\":2}\n\n"));
    assert_eq!(items, vec![event("{\"a\":1}")]);
}

#[test]
fn done_marker_stops_even_with_more_chunks_to_come() {
    let items = decode(vec![
        b"data: {\"a\":1}\n\ndata: [DONE]\n".to_vec(),
        b"data: {\"b\":2}\n\n".to_vec(),
        b"garbage\n".to_vec(),
    ]);
    assert_eq!(items, vec![event("{\"a\":1}")]);
}

#[test]
fn done_marker_as_final_unterminated_line_ends_cleanly() {
    let items = decode(one_chunk("data: {\"a\":1}\n\ndata: [DONE]"));
    assert_eq!(items, vec![event("{\"a\":1}")]);
}

#[test]
fn trailing_unterminated_line_is_decoded() {
    let items = decode(vec![b"data: {\"a\":1}\n\ndata: {\"b\"".to_vec(), b":2}".to_vec()]);
    assert_eq!(items, vec![event("{\"a\":1}"), event("{\"b\":2}")]);
}

#[test]
fn source_ending_without_marker_ends_cleanly() {
    assert_eq!(decode(one_chunk("data: {\"a\":1}\n\n")), vec![event("{\"a\":1}")]);
    assert_eq!(decode(vec![]), vec![]);
    assert_eq!(decode(one_chunk("")), vec![]);
}

#[test]
fn missing_prefix_is_one_terminal_error() {
    let items = decode(one_chunk("not-data-prefixed text\ndata: {\"a\":1}\n\ndata: [DONE]\n\n"));
    assert_eq!(items, vec![Item::MissingPrefix("not-data-prefixed text".to_string())]);
}

#[test]
fn missing_prefix_after_events() {
    let items = decode(one_chunk("data: {\"a\":1}\n\ndata:{\"b\":2}\n\ndata: {\"c\":3}\n\n"));
    assert_eq!(
        items,
        vec![event("{\"a\":1}"), Item::MissingPrefix("data:{\"b\":2}".to_string())]
    );
}

#[test]
fn malformed_json_is_one_terminal_parse_error() {
    let items = decode(one_chunk("data: {not valid json\ndata: {\"a\":1}\n\n"));
    assert_eq!(items, vec![Item::Parse("{not valid json".to_string())]);
}

#[test]
fn invalid_utf8_is_one_terminal_error() {
    let items = decode(vec![b"data: {\"a\":1}\n\ndata: \xff\xfe\n\ndata: {\"b\":2}\n\n".to_vec()]);
    assert_eq!(items, vec![event("{\"a\":1}"), Item::Utf8]);
}

#[test]
fn carriage_return_stays_in_the_line() {
    let items = decode(one_chunk("data: {\"a\":1}\r\n\r\n"));
    assert_eq!(items, vec![event("{\"a\":1}"), Item::MissingPrefix("\r".to_string())]);
}

#[test]
fn transport_error_is_the_last_item() {
    let mut decoder = ChunkStream::new();
    decoder.push_chunk(b"data: {\"a\":1}\n\ndata: {\"b\"");
    match decoder.next_step() {
        Step::Payload(p) => assert_eq!(p, "{\"a\":1}"),
        _ => panic!("expected a payload"),
    }
    assert!(matches!(decoder.next_step(), Step::NeedChunk));
    let error = reqwest::Client::new().get("not a url").build().unwrap_err();
    let failure = decoder.fail_transport(error);
    assert!(matches!(failure, ChatChunkError::StreamError(_)));
    decoder.push_chunk(b":2}\n\n");
    assert!(matches!(decoder.next_step(), Step::End));
}

#[test]
fn payload_text_excludes_the_prefix() {
    let mut decoder = ChunkStream::new();
    decoder.push_chunk(b"data: [1, 2]\n");
    match decoder.next_step() {
        Step::Payload(p) => assert_eq!(p, "[1, 2]"),
        _ => panic!("expected a payload"),
    }
    assert!(matches!(decoder.next_step(), Step::NeedChunk));
}
