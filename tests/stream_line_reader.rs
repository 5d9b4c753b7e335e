use oaapi::chat::StreamLineError;
use oaapi::stream_line_reader::{LineStep, StreamLineReader};

/// Every line of a stream made of the given chunks.
fn read_lines(chunks: Vec<Vec<u8>>) -> Vec<Result<String, String>> {
    let mut reader = StreamLineReader::new();
    let mut source = chunks.into_iter();
    let mut lines = Vec::new();
    loop {
        match reader.next_line() {
            LineStep::NeedChunk => match source.next() {
                Some(chunk) => reader.push_chunk(&chunk),
                None => reader.close_upstream(),
            },
            LineStep::Line(Ok(line)) => lines.push(Ok(line)),
            LineStep::Line(Err(StreamLineError::StringDeserializationError(_))) => {
                lines.push(Err("utf8".to_string()))
            },
            LineStep::Line(Err(StreamLineError::ReqwestError(_))) => {
                lines.push(Err("transport".to_string()))
            },
            LineStep::End => return lines,
        }
    }
}

#[test]
fn stream_line_reader_test_stream_line_reader() {
    let lines = read_lines(vec![
        b"Hello\nWorld\n".to_vec(),
        b"This is a test\nof the StreamLineReader".to_vec(),
    ]);
    assert_eq!(
        lines,
        vec![
            Ok("Hello".to_string()),
            Ok("World".to_string()),
            Ok("This is a test".to_string()),
            Ok("of the StreamLineReader".to_string()),
        ]
    );
}

#[test]
fn line_reader_keeps_empty_lines_and_carriage_returns() {
    let lines = read_lines(vec![b"a\r\n\nb".to_vec()]);
    assert_eq!(
        lines,
        vec![Ok("a\r".to_string()), Ok("".to_string()), Ok("b".to_string())]
    );
}

#[test]
fn line_reader_reports_invalid_utf8_and_goes_on() {
    let lines = read_lines(vec![b"ok\n\xff\nnext\n".to_vec()]);
    assert_eq!(
        lines,
        vec![Ok("ok".to_string()), Err("utf8".to_string()), Ok("next".to_string())]
    );
}

#[test]
fn line_reader_transport_error() {
    let reader = StreamLineReader::new();
    let error = reqwest::Client::new().get("not a url").build().unwrap_err();
    assert!(matches!(reader.transport_error(error), StreamLineError::ReqwestError(_)));
}
