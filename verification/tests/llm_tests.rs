use dayrecord::llm::{
    build_backend, completion_result, DeepSeekClient, LlmBackend, MockLlm, API_KEY_MISSING,
    DEEPSEEK_MODEL, DEEPSEEK_URL,
};

#[test]
fn empty_api_key_blocks_network() {
    let client = DeepSeekClient::new(String::new());
    assert!(!client.has_api_key());
    let result = client.precheck();
    assert!(result.is_err());
    let err_msg = result.unwrap_err();
    assert!(err_msg.contains("API key not configured"), "unexpected error: {err_msg}");
}

#[test]
fn whitespace_only_api_key_blocks_network() {
    let client = DeepSeekClient::new("   ".to_string());
    assert!(!client.has_api_key());
    assert!(client.precheck().is_err());
}

#[test]
fn has_api_key_true_when_set() {
    let client = DeepSeekClient::new("sk-test-key-123".to_string());
    assert!(client.has_api_key());
    assert!(client.precheck().is_ok());
}

#[test]
fn mock_when_no_api_key() {
    let backend = build_backend(None, None, None);
    let out = match backend {
        LlmBackend::Mock(m) => m.complete("sys", "user").expect("complete"),
        LlmBackend::Client(_) => panic!("expected the mock backend"),
    };
    assert!(out.contains("今日概览"));
}

#[test]
fn empty_key_also_selects_mock() {
    assert!(matches!(build_backend(Some(String::new()), None, None), LlmBackend::Mock(_)));
}

#[test]
fn client_defaults_and_overrides() {
    let c = DeepSeekClient::new("k".to_string());
    assert_eq!(c.base_url, DEEPSEEK_URL);
    assert_eq!(c.model, DEEPSEEK_MODEL);
    match build_backend(Some("k".into()), Some("http://localhost:1/x".into()), Some(String::new())) {
        LlmBackend::Client(c) => {
            assert_eq!(c.api_key, "k");
            assert_eq!(c.base_url, "http://localhost:1/x");
            assert_eq!(c.model, DEEPSEEK_MODEL);
        }
        LlmBackend::Mock(_) => panic!("expected a client"),
    }
    let m = DeepSeekClient::new("k".into()).with_model("other".into());
    assert_eq!(m.model, "other");
    assert_eq!(m.base_url, DEEPSEEK_URL);
}

#[test]
fn completion_picks_first_choice() {
    let r = completion_result(true, "200 OK", "", vec!["## 今日概览\nok".to_string(), "second".to_string()]);
    assert_eq!(r, Ok("## 今日概览\nok".to_string()));
}

#[test]
fn completion_errors() {
    assert_eq!(
        completion_result(false, "401 Unauthorized", "bad key", vec![]),
        Err("deepseek error 401 Unauthorized: bad key".to_string())
    );
    assert_eq!(completion_result(true, "200 OK", "", vec![]), Err("empty choices".to_string()));
}

#[test]
fn missing_key_message_is_exact() {
    assert_eq!(DeepSeekClient::new(String::new()).precheck(), Err(API_KEY_MISSING.to_string()));
    assert!(MockLlm.complete("a", "b").unwrap().starts_with("## 今日概览"));
}
