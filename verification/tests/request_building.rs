use xai_client::{authorization_value, build_request, request_url, ApiKey, JsonValue, Options};

fn options() -> Options {
    Options::new(ApiKey::new("sk-test-123".to_string()))
}

#[test]
fn options_default_to_the_known_origin_and_model() {
    let o = options();
    assert_eq!(o.endpoint, "https://api.x.ai");
    assert_eq!(o.model, "grok-3-mini");
    assert_eq!(o.max_tokens, None);
}

#[test]
fn options_can_be_overridden_one_by_one() {
    let o = options()
        .with_endpoint("https://example.test".to_string())
        .with_model("grok-4".to_string())
        .with_max_tokens(256);
    assert_eq!(o.endpoint, "https://example.test");
    assert_eq!(o.model, "grok-4");
    assert_eq!(o.max_tokens, Some(256));
}

#[test]
fn request_url_appends_the_fixed_path() {
    assert_eq!(request_url(&options()), "https://api.x.ai/v1/responses");
    let other = options().with_endpoint("https://example.test".to_string());
    assert_eq!(request_url(&other), "https://example.test/v1/responses");
}

#[test]
fn authorization_value_is_a_bearer_token() {
    assert_eq!(authorization_value(&options()), "Bearer sk-test-123");
}

#[test]
fn api_key_exposes_exactly_what_it_was_given() {
    let key = ApiKey::new("sk-abc".to_string());
    assert_eq!(key.expose(), "sk-abc");
}

#[test]
fn request_body_without_max_tokens_omits_the_member_entirely() {
    let body = build_request(&options(), "Say hello");
    match body {
        JsonValue::Object(pairs) => {
            assert_eq!(pairs.len(), 2);
            assert!(pairs.iter().all(|p| p.0 != "max_output_tokens"));
            assert_eq!(
                pairs[0],
                (
                    "model".to_string(),
                    JsonValue::Text("grok-3-mini".to_string())
                )
            );
            assert_eq!(
                pairs[1],
                (
                    "input".to_string(),
                    JsonValue::Text("Say hello".to_string())
                )
            );
        }
        other => panic!("request body is not an object: {:?}", other),
    }
}

#[test]
fn request_body_with_max_tokens_carries_its_decimal_value() {
    let body = build_request(&options().with_max_tokens(1000), "Say hello");
    match body {
        JsonValue::Object(pairs) => {
            assert_eq!(pairs.len(), 3);
            assert_eq!(
                pairs[2],
                (
                    "max_output_tokens".to_string(),
                    JsonValue::Number("1000".to_string())
                )
            );
        }
        other => panic!("request body is not an object: {:?}", other),
    }
}

#[test]
fn request_body_keeps_the_input_verbatim() {
    let input = "line one\nline two \"quoted\" and a backslash \\";
    let body = build_request(&options(), input);
    match body {
        JsonValue::Object(pairs) => {
            assert_eq!(
                pairs[1],
                ("input".to_string(), JsonValue::Text(input.to_string()))
            );
        }
        other => panic!("request body is not an object: {:?}", other),
    }
}
