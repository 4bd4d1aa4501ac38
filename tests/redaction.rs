use worker_bridge::redact::{
    contains_sensitive_data, find_bytes, find_config_field, loggable, sensitive_in, REDACTED,
};

#[test]
fn openai_key_prefix_is_sensitive() {
    assert!(contains_sensitive_data("{\"api_key\": \"sk-abc123\"}"));
}

#[test]
fn google_key_prefix_is_sensitive() {
    assert!(contains_sensitive_data("key=AIzaSyD-example"));
}

#[test]
fn config_message_spaced_is_sensitive() {
    assert!(contains_sensitive_data("{\"type\": \"config\", \"value\": 1}\n"));
}

#[test]
fn config_message_compact_is_sensitive() {
    assert!(contains_sensitive_data("{\"type\":\"config\"}"));
}

#[test]
fn change_config_message_is_sensitive() {
    assert!(contains_sensitive_data("{\"type\": \"change_config\", \"x\": 2}"));
    assert!(contains_sensitive_data("{\"type\":\"change_config\"}"));
}

#[test]
fn config_message_in_upper_case_is_sensitive() {
    assert!(contains_sensitive_data("{\"TYPE\": \"CONFIG\"}"));
    assert!(contains_sensitive_data("{\"Type\":\"Change_Config\"}"));
}

#[test]
fn key_prefix_is_case_sensitive() {
    assert!(!contains_sensitive_data("SK-abc and aiza"));
}

#[test]
fn plain_status_message_is_not_sensitive() {
    assert!(!contains_sensitive_data("{\"type\": \"status\", \"message\": \"ready\"}\n"));
}

#[test]
fn empty_text_is_not_sensitive() {
    assert!(!contains_sensitive_data(""));
}

#[test]
fn non_ascii_text_is_classified() {
    assert!(!contains_sensitive_data("Grüße, Ünïcode ✓"));
    assert!(contains_sensitive_data("ключ sk-тест"));
}

#[test]
fn loggable_redacts_sensitive_text() {
    assert_eq!(loggable("token sk-123"), REDACTED.to_string());
    assert_eq!(loggable("{\"type\":\"config\"}"), "[REDACTED SENSITIVE DATA]".to_string());
}

#[test]
fn loggable_keeps_plain_text() {
    assert_eq!(loggable("hello world\n"), "hello world\n".to_string());
}

#[test]
fn find_bytes_edge_cases() {
    assert!(find_bytes(b"abc", b""));
    assert!(find_bytes(b"", b""));
    assert!(!find_bytes(b"ab", b"abc"));
    assert!(find_bytes(b"xxabc", b"abc"));
    assert!(find_bytes(b"abcxx", b"abc"));
    assert!(!find_bytes(b"abxc", b"abc"));
}

#[test]
fn config_message_with_space_before_colon_is_sensitive() {
    assert!(contains_sensitive_data("{\"type\" : \"config\"}"));
    assert!(sensitive_in("{\"type\" : \"config\"}", "{\"type\" : \"config\"}"));
}

#[test]
fn change_config_with_space_before_colon_only_is_sensitive() {
    assert!(contains_sensitive_data("{\"type\" :\"change_config\"}"));
}

#[test]
fn config_message_with_tabs_and_newlines_is_sensitive() {
    assert!(contains_sensitive_data("{\"type\"\t:\n  \"CONFIG\"}"));
}

#[test]
fn api_key_mention_is_sensitive() {
    assert!(contains_sensitive_data("api_key=abc123"));
    assert!(contains_sensitive_data("{\"API_KEY\": \"x\"}"));
    assert!(sensitive_in("api_key", "api_key"));
}

#[test]
fn other_type_values_are_not_sensitive() {
    assert!(!contains_sensitive_data("{\"type\" : \"configure\"}"));
    assert!(!contains_sensitive_data("{\"type\" : \"chat\", \"text\": \"config\"}"));
    assert!(!contains_sensitive_data("{\"type\" x: \"config\"}"));
    assert!(!contains_sensitive_data("{\"type\" : \"config"));
}

#[test]
fn config_field_search_edge_cases() {
    assert!(find_config_field(b"\"type\":\"config\""));
    assert!(find_config_field(b"x \"type\"  :  \"change_config\" y"));
    assert!(!find_config_field(b""));
    assert!(!find_config_field(b"\"type\""));
    assert!(!find_config_field(b"\"type\" :"));
}
