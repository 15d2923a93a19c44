use gmail_tray_notifier::error::OAuthError;
use gmail_tray_notifier::redirect::{
    http_response, judge_callback, parse_callback, query_param, redirect_uri, wait_for_code,
    CallbackParams, OAUTH_REDIRECT_PORT, REDIRECT_TIMEOUT_SECS,
};

const OK_PAGE: &str = "<html><body><h1>You may close this window.</h1></body></html>";
const BAD_PAGE: &str = "<html><body><h1>Invalid OAuth state.</h1></body></html>";

fn other_text(outcome: &Result<String, OAuthError>) -> Option<String> {
    match outcome {
        Err(OAuthError::Other(text)) => Some(text.clone()),
        _ => None,
    }
}

#[test]
fn redirect_constants() {
    assert_eq!(OAUTH_REDIRECT_PORT, 42813);
    assert_eq!(REDIRECT_TIMEOUT_SECS, 180);
    assert_eq!(redirect_uri(), "http://localhost:42813/oauth2callback");
}

#[test]
fn callback_with_matching_state_gives_the_code() {
    let request = "GET /oauth2callback?code=4%2FabcDEF&state=xyz HTTP/1.1\r\nHost: localhost:42813\r\n\r\n";
    let reply = wait_for_code(request, "xyz");
    assert_eq!(reply.outcome.as_ref().ok().map(|c| c.as_str()), Some("4/abcDEF"));
    assert_eq!(
        reply.response,
        format!(
            "HTTP/1.1 200 OK\r\ncontent-type: text/html; charset=utf-8\r\ncontent-length: 61\r\n\r\n{}",
            OK_PAGE
        )
    );
}

#[test]
fn callback_with_foreign_state_is_rejected() {
    let request = "GET /oauth2callback?code=valid-code&state=forged HTTP/1.1\r\n\r\n";
    let reply = wait_for_code(request, "expected");
    assert_eq!(other_text(&reply.outcome).as_deref(), Some("OAuth state mismatch"));
    assert_eq!(
        reply.response,
        format!(
            "HTTP/1.1 400 Bad Request\r\ncontent-type: text/html; charset=utf-8\r\ncontent-length: 55\r\n\r\n{}",
            BAD_PAGE
        )
    );
}

#[test]
fn callback_without_state_is_rejected() {
    let reply = wait_for_code("GET /oauth2callback?code=valid-code HTTP/1.1\r\n", "expected");
    assert_eq!(other_text(&reply.outcome).as_deref(), Some("OAuth state mismatch"));
    assert!(reply.response.starts_with("HTTP/1.1 400 Bad Request\r\n"));
}

#[test]
fn callback_without_code_fails_with_the_friendly_page() {
    let reply = wait_for_code("GET /oauth2callback?state=s1&error=access_denied HTTP/1.1\r\n", "s1");
    assert_eq!(other_text(&reply.outcome).as_deref(), Some("Missing authorisation code"));
    assert!(reply.response.starts_with("HTTP/1.1 400 Bad Request\r\n"));
    assert!(reply.response.ends_with(OK_PAGE));
}

#[test]
fn only_the_request_line_is_read() {
    let request = "GET /oauth2callback HTTP/1.1\r\nReferer: /x?code=c&state=s\r\n\r\n";
    let params = parse_callback(request);
    assert_eq!(params.code, None);
    assert_eq!(params.state, None);
    let empty = parse_callback("");
    assert_eq!(empty.code, None);
    assert_eq!(empty.state, None);
    let one_word = parse_callback("GET\r\n/x?code=c");
    assert_eq!(one_word.code, None);
}

#[test]
fn target_is_the_second_word_whatever_the_spacing() {
    let params = parse_callback("  GET\t\t/cb?state=a%20b&code=c%3D1   HTTP/1.1");
    assert_eq!(params.code.as_deref(), Some("c=1"));
    assert_eq!(params.state.as_deref(), Some("a b"));
}

#[test]
fn query_parameters_are_decoded() {
    assert_eq!(query_param("code=a%2Fb%20c&state=x", "code").as_deref(), Some("a/b c"));
    assert_eq!(query_param("code=a+b", "code").as_deref(), Some("a+b"));
    assert_eq!(query_param("code=%E2%9C%93", "code").as_deref(), Some("\u{2713}"));
    assert_eq!(query_param("code=100%", "code").as_deref(), Some("100%"));
    assert_eq!(query_param("code=%zz1", "code").as_deref(), Some("%zz1"));
}

#[test]
fn value_that_decodes_to_no_text_is_kept_as_it_stands() {
    assert_eq!(query_param("code=%FF%FE", "code").as_deref(), Some("%FF%FE"));
}

#[test]
fn last_of_repeated_parameters_counts() {
    assert_eq!(query_param("code=first&x=1&code=second", "code").as_deref(), Some("second"));
    assert_eq!(query_param("code=first&code", "code").as_deref(), Some(""));
}

#[test]
fn parameters_without_value_and_absent_parameters() {
    assert_eq!(query_param("code&state=s", "code").as_deref(), Some(""));
    assert_eq!(query_param("code=&state=s", "code").as_deref(), Some(""));
    assert_eq!(query_param("code=a=b", "code").as_deref(), Some("a=b"));
    assert_eq!(query_param("xcode=1&codex=2", "code"), None);
    assert_eq!(query_param("", "code"), None);
    assert_eq!(query_param("&&", "code"), None);
    assert_eq!(query_param("=v", "").as_deref(), Some("v"));
}

#[test]
fn judging_parameters_directly() {
    let ok = judge_callback(
        CallbackParams { code: Some("c".to_string()), state: Some("s".to_string()) },
        "s",
    );
    assert_eq!(ok.outcome.ok().as_deref(), Some("c"));
    let wrong = judge_callback(
        CallbackParams { code: Some("c".to_string()), state: Some("S".to_string()) },
        "s",
    );
    assert_eq!(other_text(&wrong.outcome).as_deref(), Some("OAuth state mismatch"));
    assert!(wrong.response.ends_with(BAD_PAGE));
}

#[test]
fn response_states_the_length_of_its_body_in_bytes() {
    assert_eq!(
        http_response("HTTP/1.1 200 OK", "héllo"),
        "HTTP/1.1 200 OK\r\ncontent-type: text/html; charset=utf-8\r\ncontent-length: 6\r\n\r\nhéllo"
    );
    assert_eq!(
        http_response("HTTP/1.1 200 OK", ""),
        "HTTP/1.1 200 OK\r\ncontent-type: text/html; charset=utf-8\r\ncontent-length: 0\r\n\r\n"
    );
}
