use characterai_client::error::ClientError;
use characterai_client::stream::{candidate_text, keep_latest, record_text, reduce_stream};

fn chunk(content: &str) -> String {
    format!("data: {{\"turn\":{{\"candidates\":[{{\"raw_content\":\"{}\"}}]}}}}\n", content)
}

fn value(text: &str) -> serde_json::Value {
    serde_json::from_str(text).unwrap()
}

#[test]
fn last_non_empty_chunk_wins() {
    let body = format!("{}{}{}{}", chunk(""), chunk("Hi"), chunk(""), chunk("Hi there"));
    assert_eq!(reduce_stream(body.as_bytes()), Ok("Hi there".to_string()));
}

#[test]
fn later_empty_chunk_does_not_erase() {
    let body = format!("{}{}", chunk("Hi"), chunk(""));
    assert_eq!(reduce_stream(body.as_bytes()), Ok("Hi".to_string()));
}

#[test]
fn keep_latest_folds_the_chunks_in_order() {
    let mut best = None;
    for content in ["", "Hi", "", "Hi there"] {
        best = keep_latest(best, Some(content.to_string()));
    }
    assert_eq!(best, Some("Hi there".to_string()));
}

#[test]
fn keep_latest_cases() {
    assert_eq!(keep_latest(None, None), None);
    assert_eq!(keep_latest(None, Some(String::new())), None);
    assert_eq!(keep_latest(Some("a".to_string()), None), Some("a".to_string()));
    assert_eq!(keep_latest(Some("a".to_string()), Some(String::new())), Some("a".to_string()));
    assert_eq!(keep_latest(Some("a".to_string()), Some("b".to_string())), Some("b".to_string()));
    assert_eq!(keep_latest(None, Some("b".to_string())), Some("b".to_string()));
}

#[test]
fn stream_without_text_is_an_empty_answer() {
    let body = format!("{}{}data: {{}}\n", chunk(""), chunk(""));
    assert_eq!(reduce_stream(body.as_bytes()), Err(ClientError::EmptyAnswer));
}

#[test]
fn empty_body_is_an_empty_answer() {
    assert_eq!(reduce_stream(b""), Err(ClientError::EmptyAnswer));
    assert_eq!(reduce_stream(b"\n\n"), Err(ClientError::EmptyAnswer));
}

#[test]
fn unreadable_chunks_are_passed_over() {
    let body = format!("data: not json\n{}data: {{\"turn\": 5}}\ndata: [1,2]\n", chunk("kept"));
    assert_eq!(reduce_stream(body.as_bytes()), Ok("kept".to_string()));
}

#[test]
fn lines_without_the_prefix_are_passed_over() {
    let plain = "{\"turn\":{\"candidates\":[{\"raw_content\":\"no\"}]}}\n";
    let tight = "data:{\"turn\":{\"candidates\":[{\"raw_content\":\"no\"}]}}\n";
    let event = "event: message\n: heartbeat\n";
    let body = format!("{}{}{}{}", chunk("yes"), plain, tight, event);
    assert_eq!(reduce_stream(body.as_bytes()), Ok("yes".to_string()));
    let none = format!("{}{}{}", plain, tight, event);
    assert_eq!(reduce_stream(none.as_bytes()), Err(ClientError::EmptyAnswer));
}

#[test]
fn last_line_may_lack_a_line_feed() {
    let body = format!("{}{}", chunk("one"), chunk("two").trim_end());
    assert_eq!(reduce_stream(body.as_bytes()), Ok("two".to_string()));
}

#[test]
fn carriage_returns_before_line_feeds_are_dropped() {
    let body = format!("{}\r\n\r\n{}\r\n", chunk("one").trim_end(), chunk("two").trim_end());
    assert_eq!(reduce_stream(body.as_bytes()), Ok("two".to_string()));
}

#[test]
fn only_the_first_candidate_counts() {
    let body = "data: {\"turn\":{\"candidates\":[{\"raw_content\":\"first\"},{\"raw_content\":\"second\"}]}}\n";
    assert_eq!(reduce_stream(body.as_bytes()), Ok("first".to_string()));
    let blank_first = "data: {\"turn\":{\"candidates\":[{\"raw_content\":\"\"},{\"raw_content\":\"second\"}]}}\n";
    assert_eq!(reduce_stream(blank_first.as_bytes()), Err(ClientError::EmptyAnswer));
}

#[test]
fn text_is_unescaped_and_kept_whole() {
    let body = "data: {\"turn\":{\"candidates\":[{\"raw_content\":\"a \\\"b\\\"\\n\u{e9}\"}]}}\n";
    assert_eq!(reduce_stream(body.as_bytes()), Ok("a \"b\"\n\u{e9}".to_string()));
}

#[test]
fn candidate_text_reads_the_first_candidate() {
    let v = value("{\"turn\":{\"candidates\":[{\"raw_content\":\"Hi\"}]},\"other\":1}");
    assert_eq!(candidate_text(&v), Some("Hi".to_string()));
    let empty = value("{\"turn\":{\"candidates\":[{\"raw_content\":\"\"}]}}");
    assert_eq!(candidate_text(&empty), Some(String::new()));
}

#[test]
fn candidate_text_is_absent_without_the_fields() {
    assert_eq!(candidate_text(&value("{}")), None);
    assert_eq!(candidate_text(&value("null")), None);
    assert_eq!(candidate_text(&value("\"turn\"")), None);
    assert_eq!(candidate_text(&value("{\"turn\":null}")), None);
    assert_eq!(candidate_text(&value("{\"turn\":{}}")), None);
    assert_eq!(candidate_text(&value("{\"turn\":{\"candidates\":null}}")), None);
    assert_eq!(candidate_text(&value("{\"turn\":{\"candidates\":[]}}")), None);
    assert_eq!(candidate_text(&value("{\"turn\":{\"candidates\":{\"raw_content\":\"x\"}}}")), None);
    assert_eq!(candidate_text(&value("{\"turn\":{\"candidates\":[{}]}}")), None);
    assert_eq!(candidate_text(&value("{\"turn\":{\"candidates\":[{\"raw_content\":null}]}}")), None);
    assert_eq!(candidate_text(&value("{\"turn\":{\"candidates\":[{\"raw_content\":7}]}}")), None);
    assert_eq!(candidate_text(&value("{\"candidates\":[{\"raw_content\":\"x\"}]}")), None);
}

#[test]
fn record_text_needs_the_prefix() {
    assert_eq!(
        record_text(b"data: {\"turn\":{\"candidates\":[{\"raw_content\":\"Hi\"}]}}"),
        Some("Hi".to_string())
    );
    assert_eq!(record_text(b"{\"turn\":{\"candidates\":[{\"raw_content\":\"Hi\"}]}}"), None);
    assert_eq!(record_text(b"data: "), None);
    assert_eq!(record_text(b"data"), None);
    assert_eq!(record_text(b""), None);
    assert_eq!(record_text(b"Data: {\"turn\":{\"candidates\":[{\"raw_content\":\"Hi\"}]}}"), None);
}
