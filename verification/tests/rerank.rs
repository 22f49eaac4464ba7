use agent_session_search::anthropic::{api_base, is_valid_header_value, Config};
use agent_session_search::rerank::{is_configured_key, CosineReranker, TaskDedupReranker};

#[test]
fn provider_keys_select_the_cross_encoder() {
    assert!(is_configured_key("co-1234567890"));
    assert!(is_configured_key("  LIVE_KEY  "));
    match TaskDedupReranker::from_cohere_api_key("co-1234567890".to_string()) {
        TaskDedupReranker::Cohere(c) => assert_eq!(c.api_key(), "co-1234567890"),
        other => panic!("unexpected reranker {other:?}"),
    }
}

#[test]
fn missing_or_placeholder_keys_fall_back_to_similarity() {
    for key in [
        "",
        "   ",
        "local-dev",
        "  LOCAL-abc",
        "placeholder",
        "my-ChangeMe-key",
        "replace-me",
        "an-EXAMPLE",
    ] {
        assert!(!is_configured_key(key), "{key:?}");
        assert!(matches!(
            TaskDedupReranker::from_cohere_api_key(key.to_string()),
            TaskDedupReranker::Cosine(_)
        ));
    }
}

fn bits(score: f32) -> Option<u32> {
    Some(score.to_bits())
}

#[test]
fn similarity_order_is_descending_and_stable() {
    let scores = vec![bits(0.5), bits(0.9), None, bits(0.5), bits(-0.25), bits(0.0), bits(1.0)];
    let order = CosineReranker.rank_order(&scores);
    assert_eq!(order, vec![6, 1, 0, 3, 2, 5, 4]);
}

#[test]
fn similarity_order_matches_total_cmp() {
    let values = [0.3f32, -0.0, 0.0, f32::NAN, -1.5, f32::INFINITY, 0.3, f32::NEG_INFINITY, 2.0];
    let scores: Vec<Option<u32>> = values.iter().map(|v| Some(v.to_bits())).collect();
    let order = CosineReranker.rank_order(&scores);
    let mut expected: Vec<usize> = (0..values.len()).collect();
    expected.sort_by(|l, r| values[*r].total_cmp(&values[*l]));
    assert_eq!(order, expected);
    assert!(CosineReranker.rank_order(&Vec::new()).is_empty());
}

#[test]
fn api_base_defaults_and_drops_trailing_slashes() {
    assert_eq!(api_base(None), "https://api.anthropic.com");
    assert_eq!(api_base(Some("   ")), "https://api.anthropic.com");
    assert_eq!(api_base(Some("")), "https://api.anthropic.com");
    assert_eq!(api_base(Some("http://router.local//")), "http://router.local");
    assert_eq!(api_base(Some("http://router.local/ ")), "http://router.local/ ");
}

#[test]
fn config_carries_key_version_and_base() {
    assert!(is_valid_header_value("sk-ant-123"));
    assert!(!is_valid_header_value("bad\nkey"));
    let config = Config::from_settings("sk-ant-123", Some("https://router.example/"));
    assert_eq!(config.api_base, "https://router.example");
    assert_eq!(config.headers.len(), 2);
    assert_eq!(config.headers.get("x-api-key").unwrap(), "sk-ant-123");
    assert_eq!(config.headers.get("anthropic-version").unwrap(), "2023-06-01");
    let config = Config::from_settings("k", None);
    assert_eq!(config.api_base, "https://api.anthropic.com");
}

#[test]
fn key_choice_ignores_case_and_surrounding_spaces() {
    for key in ["co-1234567890", "local-dev", "PlaceHolder", "", "sk-Live", "an-example"] {
        let padded = format!("  {}  ", key.to_ascii_uppercase());
        assert_eq!(is_configured_key(key), is_configured_key(&padded), "{key:?}");
    }
}

#[test]
fn default_config_is_empty_and_clones_keep_headers() {
    let config = Config::default();
    assert_eq!(config.api_base, "");
    assert!(config.headers.is_empty());
    let copy = Config::from_settings("k", None).clone();
    assert_eq!(copy.headers.get("x-api-key").unwrap(), "k");
    assert_eq!(copy.api_base, "https://api.anthropic.com");
}
