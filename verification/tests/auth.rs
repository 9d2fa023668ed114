use antigravity_quota::auth::{
    accept_refresh_document, find_access_token, find_named_string,
    find_named_token, find_project_id, find_refresh_token, read_token_json, redact_secrets,
    refresh_access_token, refresh_body, resolve_access_token, AuthError, RefreshCredentials,
    RefreshError, TokenSource,
};
use antigravity_quota::http::{Delivery, HttpReply};
use antigravity_quota::json::{parse_json, JsonNumber, JsonValue};

fn json(text: &str) -> JsonValue {
    parse_json(text).unwrap()
}

fn reply(status: u16, status_line: &str, body: &str) -> Delivery {
    Delivery::Reply(HttpReply {
        status,
        status_line: status_line.to_string(),
        body: body.to_string(),
    })
}

fn credentials(client_secret: Option<&str>) -> RefreshCredentials {
    RefreshCredentials {
        token_uri: "https://tokens.test/".to_string(),
        refresh_token: "refresh-token-0123456789".to_string(),
        client_id: Some("me".to_string()),
        client_secret: client_secret.map(|secret| secret.to_string()),
    }
}

#[test]
fn extracts_nested_access_token() {
    let value = json(
        r#"{
            "token": "unrelated-token-abcdefghijklmnopqrstuvwxyz",
            "oauth": {
                "credentials": {
                    "access_token": "abcdefghijklmnopqrstuvwxyz0123456789"
                }
            }
        }"#,
    );
    assert_eq!(find_access_token(&value), Some("abcdefghijklmnopqrstuvwxyz0123456789"));
}

#[test]
fn extracts_refresh_token_and_named_strings() {
    let value = json(
        r#"{
            "client_id": "test-client-id-1234567890",
            "client_secret": "test-secret",
            "refresh_token": "1//test-refresh-token-abcdefghijklmnopqrstuvwxyz",
            "token_uri": "https://oauth2.googleapis.com/token",
            "project_id": "aicode-consumers"
        }"#,
    );
    assert_eq!(
        find_refresh_token(&value),
        Some("1//test-refresh-token-abcdefghijklmnopqrstuvwxyz")
    );
    assert_eq!(find_named_string(&value, "client_id"), Some("test-client-id-1234567890"));
    assert_eq!(find_named_string(&value, "project_id"), Some("aicode-consumers"));
    assert_eq!(find_project_id(&value), Some("aicode-consumers"));
}

#[test]
fn resolves_direct_access_token_without_refresh() {
    let value = json(r#"{"access_token": "direct-access-token-0123456789abcdef"}"#);
    let result = resolve_access_token(&value, "/dummy/token.json").unwrap();
    assert_eq!(result, TokenSource::Access("direct-access-token-0123456789abcdef".to_string()));
}

#[test]
fn errors_when_neither_access_nor_refresh_token_found() {
    let value = json(r#"{"unrelated": "data"}"#);
    let err = resolve_access_token(&value, "/dummy/token.json").unwrap_err();
    assert!(err.message().contains("No OAuth access token or refresh token found"));
    assert_eq!(err, AuthError::NoToken { path: "/dummy/token.json".to_string() });
}

#[test]
fn resolves_refresh_credentials() {
    let value = json(
        r#"{"refreshToken": " refresh-token-0123456789 ", "clientId": "me", "client_secret": "  "}"#,
    );
    assert_eq!(
        resolve_access_token(&value, "t").unwrap(),
        TokenSource::Refresh(RefreshCredentials {
            token_uri: "https://oauth2.googleapis.com/token".to_string(),
            refresh_token: "refresh-token-0123456789".to_string(),
            client_id: Some("me".to_string()),
            client_secret: None,
        })
    );
}

#[test]
fn tokens_are_longer_than_twenty_characters() {
    assert_eq!(find_named_token(&json(r#"{"k": " 01234567890123456789 "}"#), "k"), None);
    assert_eq!(
        find_named_token(&json(r#"{"k": " 012345678901234567890 "}"#), "k"),
        Some("012345678901234567890")
    );
    let accented = |count: usize| json(&format!(r#"{{"k": "{}"}}"#, "\u{e9}".repeat(count)));
    assert_eq!(find_named_token(&accented(11), "k"), None);
    assert_eq!(find_named_token(&accented(20), "k"), None);
    assert_eq!(find_named_token(&accented(21), "k"), Some("\u{e9}".repeat(21).as_str()));
    assert_eq!(
        find_named_token(&json("{\"k\": \"\u{20ac}\u{20ac}\u{20ac}\u{20ac}\u{20ac}\u{20ac}\u{20ac}\"}"), "k"),
        None
    );
}

#[test]
fn search_goes_from_the_outside_in_and_from_front_to_back() {
    let value = json(r#"{"a": {"k": "inner"}, "k": "outer"}"#);
    assert_eq!(find_named_string(&value, "k"), Some("outer"));
    let value = json(r#"[{"k": 1}, {"k": "  "}, {"x": [{"k": "first"}]}, {"k": "second"}]"#);
    assert_eq!(find_named_string(&value, "k"), Some("first"));
    assert_eq!(find_named_string(&value, "missing"), None);
    assert_eq!(find_named_string(&json(r#""k""#), "k"), None);
    let value = json(r#"{"b": {"k": "later"}, "a": {"k": "earlier"}}"#);
    assert_eq!(find_named_string(&value, "k"), Some("earlier"));
}

#[test]
fn earlier_keys_are_preferred_wherever_they_stand() {
    let document = json(
        r#"{"token": "first-in-the-document-0123", "deep": [{"accessToken": "second-key-0123456789"}, {"access": "third-key-01234567890"}]}"#,
    );
    assert_eq!(find_access_token(&document), Some("second-key-0123456789"));
}

#[test]
fn documents_keep_what_the_text_holds() {
    let value = json(r#"{"b": [null, true, 7, -7, 0.5, "s"], "a": {}, "b2": 18446744073709551615}"#);
    let expected = JsonValue::Object(vec![
        ("a".to_string(), JsonValue::Object(vec![])),
        (
            "b".to_string(),
            JsonValue::Array(vec![
                JsonValue::Null,
                JsonValue::Bool(true),
                JsonValue::Number(JsonNumber::Unsigned(7)),
                JsonValue::Number(JsonNumber::Signed(-7)),
                JsonValue::Number(JsonNumber::Float(0.5f64.to_bits())),
                JsonValue::String("s".to_string()),
            ]),
        ),
        ("b2".to_string(), JsonValue::Number(JsonNumber::Unsigned(u64::MAX))),
    ]);
    assert_eq!(value, expected);
    assert_eq!(value.get("b2"), Some(&JsonValue::Number(JsonNumber::Unsigned(u64::MAX))));
    assert_eq!(value.get("c"), None);
    assert_eq!(json("[1]").get("0"), None);
    assert_eq!(json(r#"{"a": 1, "a": 2}"#), json(r#"{"a": 2}"#));
    let message = parse_json("{").unwrap_err();
    assert_eq!(
        message,
        serde_json::from_str::<serde_json::Value>("{").unwrap_err().to_string()
    );
}

#[test]
fn redacts_every_secret() {
    assert_eq!(redact_secrets("a SECRET b OTHER", &["SECRET", "", "OTHER"]), "a [redacted] b [redacted]");
    assert_eq!(redact_secrets("nothing", &[]), "nothing");
    let clean = redact_secrets("token=abcabc, token=abc", &["abc"]);
    assert!(!clean.contains("abc"));
    assert_eq!(clean, "token=[redacted][redacted], token=[redacted]");
}

#[test]
fn refresh_body_holds_the_credentials_that_are_known() {
    assert_eq!(
        refresh_body(&credentials(Some("hush"))),
        json(
            r#"{"grant_type": "refresh_token", "refresh_token": "refresh-token-0123456789",
                "client_id": "me", "client_secret": "hush"}"#
        )
    );
    assert_eq!(
        refresh_body(&credentials(None)),
        json(
            r#"{"grant_type": "refresh_token", "refresh_token": "refresh-token-0123456789",
                "client_id": "me"}"#
        )
    );
}

#[test]
fn refresh_yields_the_new_token_or_says_why_not() {
    let known = credentials(Some("hush"));
    assert_eq!(
        refresh_access_token(
            &known,
            &reply(200, "200 OK", r#"{"access_token": "new-access-token-0123456789"}"#)
        ),
        Ok("new-access-token-0123456789".to_string())
    );
    let refused = refresh_access_token(
        &known,
        &reply(400, "400 Bad Request", "bad refresh-token-0123456789 and hush"),
    )
    .unwrap_err();
    assert_eq!(
        refused.message(),
        "OAuth refresh failed (HTTP 400 Bad Request): bad [redacted] and [redacted]"
    );
    let absent = refresh_access_token(&known, &reply(200, "200 OK", "{}")).unwrap_err();
    assert_eq!(absent, RefreshError::NoAccessToken);
    assert_eq!(
        absent.message(),
        "OAuth token endpoint response did not contain an access_token"
    );
    let garbled = refresh_access_token(&known, &reply(200, "200 OK", "<html>")).unwrap_err();
    assert!(garbled.message().starts_with("non-JSON response from OAuth token endpoint: expected value"));
    assert_eq!(
        refresh_access_token(&known, &Delivery::SendFailed("down".to_string())).unwrap_err().message(),
        "request failed to token endpoint: https://tokens.test/: down"
    );
    assert_eq!(
        refresh_access_token(&known, &Delivery::ReadFailed("cut".to_string())).unwrap_err().message(),
        "failed reading response from https://tokens.test/: cut"
    );
    assert_eq!(
        accept_refresh_document(Err("no".to_string())),
        Err(RefreshError::NotJson { cause: "no".to_string() })
    );
}

#[test]
fn token_file_problems_are_worded_for_the_user() {
    let large = AuthError::TooLarge { path: "t".to_string() };
    assert_eq!(large.message(), "Refusing to read unexpectedly large token file: t");
    let broken = read_token_json("t", "{]").unwrap_err();
    assert!(broken.message().starts_with("failed to parse t: "));
    assert_eq!(read_token_json("t", "{}"), Ok(JsonValue::Object(vec![])));
    let missing = AuthError::NotFound { path: "t".to_string(), cause: "gone".to_string() };
    assert_eq!(
        missing.message(),
        "ACP OAuth token file not found: t. Authenticate the Antigravity ACP agent in Zed first.: gone"
    );
    let unreadable = AuthError::Unreadable { path: "t".to_string(), cause: "no".to_string() };
    assert_eq!(unreadable.message(), "failed to read t: no");
    let stale = AuthError::RefreshFailed { path: "t".to_string(), error: RefreshError::NoAccessToken };
    assert_eq!(
        stale.message(),
        "failed to refresh access token using credentials from t: OAuth token endpoint response did not contain an access_token"
    );
}
