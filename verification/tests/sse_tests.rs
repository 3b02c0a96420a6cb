use audioscribe::sse::StreamReader;

#[test]
fn streamed_chunks_yield_deltas_in_order() {
    let mut r = StreamReader::new();
    let d1 = r.feed("data: {\"choices\":[{\"delta\":{\"content\":\"Hel\"}}]}\n");
    assert_eq!(d1, vec!["Hel".to_string()]);
    let d2 = r.feed("data: {\"choices\":[{\"delta\":{\"content\":\"lo\"}}]}\n");
    assert_eq!(d2, vec!["lo".to_string()]);
    let d3 = r.feed("data: [DONE]\n");
    assert!(d3.is_empty());
    let (text, last) = r.finish();
    assert!(last.is_empty());
    assert_eq!(text, "Hello");
}

#[test]
fn accumulator_grows_with_each_delta() {
    let mut r = StreamReader::new();
    assert_eq!(r.accumulated(), "");
    r.feed("data: {\"choices\":[{\"delta\":{\"content\":\"one\"}}]}\n");
    assert_eq!(r.accumulated(), "one");
    r.feed("data: {\"choices\":[{\"delta\":{\"content\":\" two\"}}]}\n");
    assert_eq!(r.accumulated(), "one two");
}

#[test]
fn malformed_line_is_skipped() {
    let mut r = StreamReader::new();
    let d1 = r.feed("data: {\"choices\":[{\"delta\":{\"content\":\"a\"}}]}\n");
    let d2 = r.feed("data: not-json\n");
    let d3 = r.feed("data: {\"choices\":[{\"delta\":{\"content\":\"b\"}}]}\n");
    assert_eq!(d1, vec!["a".to_string()]);
    assert!(d2.is_empty());
    assert_eq!(d3, vec!["b".to_string()]);
    let (text, _) = r.finish();
    assert_eq!(text, "ab");
}

#[test]
fn payload_without_delta_is_skipped() {
    let mut r = StreamReader::new();
    let d = r.feed("data: {\"choices\":[{\"delta\":{}}]}\n");
    assert!(d.is_empty());
    let d = r.feed("data: {\"choices\":[]}\n");
    assert!(d.is_empty());
    let (text, _) = r.finish();
    assert_eq!(text, "");
}

#[test]
fn done_sentinel_stops_all_later_lines() {
    let mut r = StreamReader::new();
    let d = r.feed(
        "data: {\"choices\":[{\"delta\":{\"content\":\"x\"}}]}\ndata: [DONE]\ndata: {\"choices\":[{\"delta\":{\"content\":\"y\"}}]}\n",
    );
    assert_eq!(d, vec!["x".to_string()]);
    let d2 = r.feed("data: {\"choices\":[{\"delta\":{\"content\":\"z\"}}]}\n");
    assert!(d2.is_empty());
    let (text, _) = r.finish();
    assert_eq!(text, "x");
}

#[test]
fn line_split_across_chunks_is_read_whole() {
    let mut r = StreamReader::new();
    let d1 = r.feed("data: {\"choices\":[{\"del");
    assert!(d1.is_empty());
    let d2 = r.feed("ta\":{\"content\":\"Xy\"}}]}\n");
    assert_eq!(d2, vec!["Xy".to_string()]);
    let (text, _) = r.finish();
    assert_eq!(text, "Xy");
}

#[test]
fn carriage_return_line_endings_are_accepted() {
    let mut r = StreamReader::new();
    let d = r.feed("data: {\"choices\":[{\"delta\":{\"content\":\"ok\"}}]}\r\n");
    assert_eq!(d, vec!["ok".to_string()]);
}

#[test]
fn unterminated_final_line_is_processed_at_finish() {
    let mut r = StreamReader::new();
    let d = r.feed("data: {\"choices\":[{\"delta\":{\"content\":\"tail\"}}]}");
    assert!(d.is_empty());
    let (text, last) = r.finish();
    assert_eq!(last, vec!["tail".to_string()]);
    assert_eq!(text, "tail");
}

#[test]
fn lines_without_the_data_prefix_are_ignored() {
    let mut r = StreamReader::new();
    let d = r.feed("\n: keep-alive\nevent: ping\ndata: {\"choices\":[{\"delta\":{\"content\":\"q\"}}]}\n");
    assert_eq!(d, vec!["q".to_string()]);
    let (text, _) = r.finish();
    assert_eq!(text, "q");
}
