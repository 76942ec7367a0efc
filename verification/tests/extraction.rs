use sitegen::errors::{ExtractError, GenError};
use sitegen::response::{extract_json_triple, process_response, status_is_success};

#[test]
fn extracts_triple_from_chatty_reply() {
    let text = "Sure! {\"html\":\"<h1>Hi</h1>\",\"css\":\"h1{color:red}\",\"js\":\"\"} Hope that helps!";
    let t = extract_json_triple(text).unwrap();
    assert_eq!(t.html, "<h1>Hi</h1>");
    assert_eq!(t.css, "h1{color:red}");
    assert_eq!(t.js, "");
}

#[test]
fn extracts_triple_from_bare_object() {
    let text = "{\"html\":\"<p>x</p>\",\"css\":\"p{}\",\"js\":\"console.log(1)\"}";
    let t = extract_json_triple(text).unwrap();
    assert_eq!(t.html, "<p>x</p>");
    assert_eq!(t.css, "p{}");
    assert_eq!(t.js, "console.log(1)");
}

#[test]
fn no_braces_at_all_fails_with_no_start() {
    let r = extract_json_triple("the model returned prose only");
    assert_eq!(r, Err(ExtractError::NoStart));
    assert_eq!(ExtractError::NoStart.message(), "No JSON start");
}

#[test]
fn open_brace_without_close_fails_with_no_end() {
    let r = extract_json_triple("here it comes: {\"html\":\"x\"");
    assert_eq!(r, Err(ExtractError::NoEnd));
    assert_eq!(ExtractError::NoEnd.message(), "No JSON end");
}

#[test]
fn close_brace_only_fails_with_no_start() {
    let r = extract_json_triple("all done}");
    assert_eq!(r, Err(ExtractError::NoStart));
}

#[test]
fn close_before_open_fails_without_panicking() {
    assert_eq!(extract_json_triple("}{"), Err(ExtractError::NotJson));
    assert_eq!(extract_json_triple("} some text {"), Err(ExtractError::NotJson));
}

#[test]
fn garbage_between_braces_fails_as_not_json() {
    let r = extract_json_triple("{this is not json}");
    assert_eq!(r, Err(ExtractError::NotJson));
}

#[test]
fn stray_trailing_brace_spoils_the_slice() {
    let r = extract_json_triple("{\"html\":\"a\",\"css\":\"b\",\"js\":\"c\"} }");
    assert_eq!(r, Err(ExtractError::NotJson));
}

#[test]
fn missing_key_is_named_not_a_parse_error() {
    let r = extract_json_triple("{\"html\":\"a\",\"js\":\"b\"}");
    assert_eq!(r, Err(ExtractError::MissingCss));
    assert_ne!(r, Err(ExtractError::NotJson));
    assert_eq!(ExtractError::MissingCss.message(), "missing css");
}

#[test]
fn missing_js_is_named() {
    let r = extract_json_triple("{\"html\":\"a\",\"css\":\"b\"}");
    assert_eq!(r, Err(ExtractError::MissingJs));
    assert_eq!(ExtractError::MissingJs.message(), "missing js");
}

#[test]
fn non_string_field_counts_as_missing() {
    let r = extract_json_triple("{\"html\":1,\"css\":\"x\",\"js\":\"y\"}");
    assert_eq!(r, Err(ExtractError::MissingHtml));
    assert_eq!(ExtractError::MissingHtml.message(), "missing html");
}

#[test]
fn valid_json_that_is_no_object_misses_html() {
    let r = extract_json_triple("x{}y");
    assert_eq!(r, Err(ExtractError::MissingHtml));
}

#[test]
fn multibyte_text_around_the_object_is_no_obstacle() {
    let text =
        "h\u{e9}llo \u{1F600} {\"html\":\"\u{e1}\",\"css\":\"\",\"js\":\"\u{65e5}\u{672c}\"} \u{2713}";
    let t = extract_json_triple(text).unwrap();
    assert_eq!(t.html, "\u{e1}");
    assert_eq!(t.css, "");
    assert_eq!(t.js, "\u{65e5}\u{672c}");
}

#[test]
fn duplicate_key_keeps_the_last_value() {
    let t = extract_json_triple("{\"html\":\"a\",\"html\":\"b\",\"css\":\"c\",\"js\":\"d\"}")
        .unwrap();
    assert_eq!(t.html, "b");
}

#[test]
fn success_range_is_two_hundreds() {
    assert!(!status_is_success(199));
    assert!(status_is_success(200));
    assert!(status_is_success(299));
    assert!(!status_is_success(300));
    assert!(!status_is_success(404));
}

#[test]
fn bad_status_fails_before_body_decode() {
    let good_body = "{\"response\":\"{\\\"html\\\":\\\"a\\\",\\\"css\\\":\\\"b\\\",\\\"js\\\":\\\"c\\\"}\"}";
    let r = process_response(500, good_body);
    assert_eq!(r, Err(GenError::BadStatus(500)));
    let r2 = process_response(404, "not even json");
    assert_eq!(r2, Err(GenError::BadStatus(404)));
    assert_eq!(GenError::BadStatus(404).message(), "Ollama error status: 404");
}

#[test]
fn non_json_body_fails_decode() {
    let r = process_response(200, "plain text");
    assert_eq!(r, Err(GenError::BodyNotJson));
}

#[test]
fn body_without_response_field_fails() {
    let r = process_response(200, "{}");
    assert_eq!(r, Err(GenError::MissingResponse));
    let r2 = process_response(200, "{\"response\":17}");
    assert_eq!(r2, Err(GenError::MissingResponse));
}

#[test]
fn successful_reply_yields_the_triple() {
    let reply = "Sure! {\"html\":\"<h1>Hi</h1>\",\"css\":\"h1{color:red}\",\"js\":\"\"} Hope that helps!";
    let body = format!("{{\"response\":{}}}", serde_json::to_string(reply).unwrap());
    let t = process_response(200, &body).unwrap();
    assert_eq!(t.html, "<h1>Hi</h1>");
    assert_eq!(t.css, "h1{color:red}");
    assert_eq!(t.js, "");
}

#[test]
fn extraction_failure_is_wrapped_and_worded() {
    let body = "{\"response\":\"no object here\"}";
    let r = process_response(200, body);
    assert_eq!(r, Err(GenError::Extract(ExtractError::NoStart)));
    assert_eq!(
        GenError::Extract(ExtractError::NoStart).message(),
        "Parse error: No JSON start"
    );
}
