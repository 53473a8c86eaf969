use xai_client::extract_responses;
use xai_client::JsonValue;

fn member(k: &str, v: JsonValue) -> (String, JsonValue) {
    (k.to_string(), v)
}

fn text(s: &str) -> JsonValue {
    JsonValue::Text(s.to_string())
}

fn output_text_entry(s: &str) -> JsonValue {
    JsonValue::Object(vec![
        member("annotations", JsonValue::Array(vec![])),
        member("logprobs", JsonValue::Null),
        member("text", text(s)),
        member("type", text("output_text")),
    ])
}

fn message_chunk(role: &str, entries: Vec<JsonValue>) -> JsonValue {
    JsonValue::Object(vec![
        member("content", JsonValue::Array(entries)),
        member("id", text("msg_1")),
        member("role", text(role)),
        member("status", text("completed")),
        member("type", text("message")),
    ])
}

fn assistant_message(texts: &[&str]) -> JsonValue {
    message_chunk(
        "assistant",
        texts.iter().map(|t| output_text_entry(t)).collect(),
    )
}

fn reasoning_chunk() -> JsonValue {
    JsonValue::Object(vec![
        member("id", text("rs_1")),
        member("status", text("completed")),
        member(
            "summary",
            JsonValue::Array(vec![JsonValue::Object(vec![
                member("text", text("the model thinking aloud")),
                member("type", text("summary_text")),
            ])]),
        ),
        member("type", text("reasoning")),
    ])
}

fn body_with_output(chunks: Vec<JsonValue>) -> JsonValue {
    JsonValue::Object(vec![
        member("model", text("grok-3-mini")),
        member("object", text("response")),
        member("output", JsonValue::Array(chunks)),
    ])
}

#[test]
fn documented_example_extracts_hello() {
    let body = body_with_output(vec![reasoning_chunk(), assistant_message(&["Hello!"])]);
    assert_eq!(extract_responses(&body), vec!["Hello!".to_string()]);
}

#[test]
fn extraction_keeps_document_order() {
    let body = body_with_output(vec![
        assistant_message(&["first", "second"]),
        reasoning_chunk(),
        assistant_message(&["third"]),
    ]);
    assert_eq!(
        extract_responses(&body),
        vec![
            "first".to_string(),
            "second".to_string(),
            "third".to_string()
        ]
    );
}

#[test]
fn extraction_is_idempotent_on_a_fixed_body() {
    let body = body_with_output(vec![reasoning_chunk(), assistant_message(&["Hello!"])]);
    let first = extract_responses(&body);
    let second = extract_responses(&body);
    assert_eq!(first, second);
}

#[test]
fn missing_output_yields_empty_list() {
    let body = JsonValue::Object(vec![member("status", text("completed"))]);
    assert_eq!(extract_responses(&body), Vec::<String>::new());
}

#[test]
fn null_output_yields_empty_list() {
    let body = JsonValue::Object(vec![member("output", JsonValue::Null)]);
    assert_eq!(extract_responses(&body), Vec::<String>::new());
}

#[test]
fn non_list_output_yields_empty_list() {
    let body = JsonValue::Object(vec![member("output", text("not a list"))]);
    assert_eq!(extract_responses(&body), Vec::<String>::new());
}

#[test]
fn non_object_body_yields_empty_list() {
    assert_eq!(extract_responses(&JsonValue::Null), Vec::<String>::new());
    assert_eq!(
        extract_responses(&text("just a string")),
        Vec::<String>::new()
    );
}

#[test]
fn reasoning_chunk_contributes_nothing() {
    let with = body_with_output(vec![reasoning_chunk(), assistant_message(&["Hello!"])]);
    let without = body_with_output(vec![assistant_message(&["Hello!"])]);
    assert_eq!(extract_responses(&with), extract_responses(&without));
    let only = body_with_output(vec![reasoning_chunk()]);
    assert_eq!(extract_responses(&only), Vec::<String>::new());
}

#[test]
fn non_assistant_message_contributes_nothing() {
    let user = body_with_output(vec![message_chunk(
        "user",
        vec![output_text_entry("from the user")],
    )]);
    assert_eq!(extract_responses(&user), Vec::<String>::new());
    let system = body_with_output(vec![message_chunk(
        "system",
        vec![output_text_entry("from the system")],
    )]);
    assert_eq!(extract_responses(&system), Vec::<String>::new());
}

#[test]
fn chunk_without_role_contributes_nothing() {
    let chunk = JsonValue::Object(vec![
        member(
            "content",
            JsonValue::Array(vec![output_text_entry("orphan")]),
        ),
        member("type", text("message")),
    ]);
    let body = body_with_output(vec![chunk]);
    assert_eq!(extract_responses(&body), Vec::<String>::new());
}

#[test]
fn non_output_text_entry_is_skipped() {
    let entry = JsonValue::Object(vec![
        member("text", text("a refusal")),
        member("type", text("refusal")),
    ]);
    let body = body_with_output(vec![message_chunk(
        "assistant",
        vec![entry, output_text_entry("kept")],
    )]);
    assert_eq!(extract_responses(&body), vec!["kept".to_string()]);
}

#[test]
fn entry_without_string_text_is_skipped() {
    let no_text = JsonValue::Object(vec![member("type", text("output_text"))]);
    let number_text = JsonValue::Object(vec![
        member("text", JsonValue::Number("7".to_string())),
        member("type", text("output_text")),
    ]);
    let body = body_with_output(vec![message_chunk(
        "assistant",
        vec![no_text, number_text, output_text_entry("kept")],
    )]);
    assert_eq!(extract_responses(&body), vec!["kept".to_string()]);
}

#[test]
fn non_list_content_contributes_nothing() {
    let chunk = JsonValue::Object(vec![
        member("content", text("not a list")),
        member("role", text("assistant")),
        member("type", text("message")),
    ]);
    let body = body_with_output(vec![chunk]);
    assert_eq!(extract_responses(&body), Vec::<String>::new());
}

#[test]
fn empty_text_is_kept_as_its_own_element() {
    let body = body_with_output(vec![assistant_message(&["", "after"])]);
    assert_eq!(
        extract_responses(&body),
        vec!["".to_string(), "after".to_string()]
    );
}
