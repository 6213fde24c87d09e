use desktop_calendar::deep_link::{extract_query_param, oauth_event_for_url};

#[test]
fn extracts_code_from_typical_redirect() {
    let url = "myapp://callback?code=abc123&state=xyz";
    assert_eq!(extract_query_param(url, "code"), Some("abc123".to_string()));
    assert_eq!(extract_query_param(url, "state"), Some("xyz".to_string()));
}

#[test]
fn extracts_later_segment() {
    let url = "myapp://callback?state=1&code=zz9";
    assert_eq!(extract_query_param(url, "code"), Some("zz9".to_string()));
}

#[test]
fn no_question_mark_means_no_query() {
    assert_eq!(extract_query_param("myapp://callback", "code"), None);
    assert_eq!(extract_query_param("code=abc", "code"), None);
}

#[test]
fn missing_parameter_yields_none() {
    assert_eq!(extract_query_param("a://b?x=1&y=2", "code"), None);
}

#[test]
fn empty_value_is_extracted() {
    assert_eq!(extract_query_param("a://b?code=&x=1", "code"), Some(String::new()));
    assert_eq!(extract_query_param("a://b?code=", "code"), Some(String::new()));
}

#[test]
fn value_stops_at_second_equals_sign() {
    assert_eq!(extract_query_param("a://b?code=ab=cd", "code"), Some("ab".to_string()));
}

#[test]
fn query_ends_at_second_question_mark() {
    assert_eq!(extract_query_param("a?code=x?y", "code"), Some("x".to_string()));
    assert_eq!(extract_query_param("a?b?code=y", "code"), None);
}

#[test]
fn parameter_name_must_start_its_segment() {
    assert_eq!(extract_query_param("a://b?xcode=5", "code"), None);
    assert_eq!(extract_query_param("a://b?code2=5", "code"), None);
    assert_eq!(extract_query_param("a://b?co=5", "code"), None);
}

#[test]
fn empty_query_and_empty_segments() {
    assert_eq!(extract_query_param("a://b?", "code"), None);
    assert_eq!(extract_query_param("a://b?&&code=7&&", "code"), Some("7".to_string()));
}

#[test]
fn non_ascii_values_round_trip() {
    let url = "a://b?code=h\u{e9}llo\u{2192}&x=1";
    assert_eq!(
        extract_query_param(url, "code"),
        Some("h\u{e9}llo\u{2192}".to_string())
    );
}

#[test]
fn oauth_event_carries_code() {
    let payload = oauth_event_for_url("myapp://cb?code=tok123&state=s").unwrap();
    assert_eq!(payload.code, "tok123");
    assert!(payload.error.is_none());
}

#[test]
fn oauth_event_carries_error() {
    let payload = oauth_event_for_url("myapp://cb?error=access_denied").unwrap();
    assert_eq!(payload.code, "");
    assert_eq!(payload.error.as_deref(), Some("access_denied"));
}

#[test]
fn oauth_event_prefers_code_over_error() {
    let payload = oauth_event_for_url("myapp://cb?code=ok&error=denied").unwrap();
    assert_eq!(payload.code, "ok");
    assert!(payload.error.is_none());
}

#[test]
fn oauth_event_absent_for_plain_url() {
    assert!(oauth_event_for_url("myapp://cb").is_none());
    assert!(oauth_event_for_url("myapp://cb?state=1").is_none());
}

#[test]
fn oauth_event_absent_when_mention_cannot_be_extracted() {
    // The URL mentions `code=` but carries no query string, so there is
    // nothing to forward.
    assert!(oauth_event_for_url("myapp://code=abc").is_none());
}
