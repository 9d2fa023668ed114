use antigravity_quota::client::{
    accept_document, accept_reply, authorization, load_request, post_json, quota_request,
    response_excerpt, settle_project, try_endpoints, user_agent, PostError, DEFAULT_BASE_URLS,
};
use antigravity_quota::http::{Delivery, HttpReply};
use antigravity_quota::json::{parse_json, JsonValue};
use antigravity_quota::LoadCodeAssistResponse;

const TOKEN: &str = "abcdefghijklmnopqrstuvwxyz";

fn reply(status: u16, status_line: &str, body: &str) -> Delivery {
    Delivery::Reply(HttpReply {
        status,
        status_line: status_line.to_string(),
        body: body.to_string(),
    })
}

fn load(project: Option<&str>) -> LoadCodeAssistResponse {
    LoadCodeAssistResponse {
        cloudaicompanion_project: project.map(|name| name.to_string()),
        current_tier: None,
        paid_tier: None,
    }
}

#[test]
fn falls_back_when_quota_request_fails() {
    let mut attempted = Vec::new();
    let result = try_endpoints(&["first", "second"], |base_url: &str| {
        attempted.push(base_url.to_owned());
        if base_url == "first" {
            return Err("retrieveUserQuotaSummary failed".to_string());
        }
        Ok("second quota")
    });
    assert_eq!(result.unwrap(), "second quota");
    assert_eq!(attempted, ["first", "second"]);
}

#[test]
fn stops_at_the_first_endpoint_that_succeeds() {
    let mut calls = 0;
    let result = try_endpoints(&["first", "second"], |_: &str| {
        calls += 1;
        Ok::<i32, String>(calls)
    });
    assert_eq!(result, Ok(1));
    assert_eq!(calls, 1);
}

#[test]
fn reports_every_endpoint_that_failed() {
    let result = try_endpoints(&["first", "second"], |base_url: &str| {
        Err::<(), String>(format!("no {}", base_url))
    });
    assert_eq!(
        result,
        Err("quota lookup failed on every endpoint:\n  first: no first\n  second: no second".to_string())
    );
    let result = try_endpoints(&[], |_: &str| Ok::<(), String>(()));
    assert_eq!(result, Err("quota lookup failed on every endpoint:\n  ".to_string()));
}

#[test]
fn removes_access_token_from_error_excerpt() {
    assert_eq!(
        response_excerpt("error abcdefghijklmnopqrstuvwxyz", "abcdefghijklmnopqrstuvwxyz", 400),
        "error [redacted]"
    );
}

#[test]
fn shortens_excerpts_after_redaction() {
    assert_eq!(response_excerpt(&format!("{}{}", TOKEN, TOKEN), TOKEN, 12), "[redacted][r");
    assert_eq!(response_excerpt("\u{e9}\u{e9}\u{e9}", TOKEN, 2), "\u{e9}\u{e9}");
    assert_eq!(response_excerpt("ab", "", 400), "[redacted]a[redacted]b[redacted]");
}

#[test]
fn formats_antigravity_user_agent() {
    let ua = user_agent("linux", "x86_64");
    assert!(ua.starts_with("antigravity/acp/"));
    assert!(ua.contains("aidev_client"));
    assert!(ua.contains("proxy_client=antigravity/sdk"));
}

#[test]
fn user_agent_names_the_system() {
    assert_eq!(
        user_agent("linux", "x86_64"),
        "antigravity/acp/1.2.1 (aidev_client; os_type=linux; arch=x86_64; host_path=zed/unknown; proxy_client=antigravity/sdk)"
    );
    assert_eq!(
        user_agent("macos", "aarch64"),
        "antigravity/acp/1.2.1 (aidev_client; os_type=darwin; arch=arm64; host_path=zed/unknown; proxy_client=antigravity/sdk)"
    );
}

#[test]
fn successful_json_is_accepted() {
    assert_eq!(
        post_json("u", &reply(200, "200 OK", r#"{"a": 1}"#), TOKEN),
        Ok(parse_json(r#"{"a": 1}"#).unwrap())
    );
    assert_eq!(post_json("u", &reply(299, "299", "null"), TOKEN), Ok(JsonValue::Null));
    assert_eq!(accept_reply("u", &reply(204, "204 No Content", ""), TOKEN), Ok(""));
}

#[test]
fn failed_requests_are_worded_for_the_user() {
    let words = |delivery: Delivery| post_json("u", &delivery, TOKEN).unwrap_err().message();
    assert_eq!(words(Delivery::SendFailed("down".to_string())), "request failed: u: down");
    assert_eq!(
        words(Delivery::ReadFailed("cut".to_string())),
        "failed reading response from u: cut"
    );
    let rejected = "Google rejected the ACP OAuth access token (HTTP 401 Unauthorized). Open/use the official Antigravity ACP agent in Zed so it can refresh or re-authenticate, then run the task again. Response: bad [redacted]";
    assert_eq!(words(reply(401, "401 Unauthorized", &format!("bad {}", TOKEN))), rejected);
    assert!(words(reply(403, "403 Forbidden", "")).starts_with("Google rejected the ACP OAuth"));
    assert_eq!(
        words(reply(500, "500 Internal Server Error", &format!("bad {}", TOKEN))),
        "Google returned HTTP 500 Internal Server Error from u: bad [redacted]"
    );
    assert!(words(reply(199, "199", "")).starts_with("Google returned HTTP 199 from u: "));
    assert!(words(reply(300, "300", "")).starts_with("Google returned HTTP 300 from u: "));
    assert!(words(reply(200, "200 OK", TOKEN))
        .starts_with("non-JSON response from u: [redacted]: expected value at line 1 column 1"));
    let long = "x".repeat(500);
    match post_json("u", &reply(404, "404", &long), TOKEN) {
        Err(PostError::Refused { answer, .. }) => assert_eq!(answer, "x".repeat(400)),
        other => panic!("{:?}", other),
    }
    match accept_document("u", &long, TOKEN, Err("no".to_string())) {
        Err(PostError::NotJson { answer, cause, .. }) => {
            assert_eq!(answer, "x".repeat(200));
            assert_eq!(cause, "no");
        }
        other => panic!("{:?}", other),
    }
}

#[test]
fn requests_follow_the_api() {
    let request = load_request(DEFAULT_BASE_URLS[0], TOKEN);
    assert_eq!(
        request.url,
        "https://daily-cloudcode-pa.googleapis.com/v1internal:loadCodeAssist"
    );
    assert_eq!(request.bearer.as_deref(), Some(TOKEN));
    assert_eq!(request.body, parse_json(r#"{"metadata": {"ideType": "ANTIGRAVITY"}}"#).unwrap());
    let request = quota_request(DEFAULT_BASE_URLS[1], TOKEN, "p");
    assert_eq!(
        request.url,
        "https://cloudcode-pa.googleapis.com/v1internal:retrieveUserQuotaSummary"
    );
    assert_eq!(request.body, parse_json(r#"{"project": "p"}"#).unwrap());
    assert_eq!(authorization(TOKEN), "Bearer abcdefghijklmnopqrstuvwxyz");
}

#[test]
fn a_blank_project_is_none() {
    let fallback = Some("spare".to_string());
    assert_eq!(settle_project(&load(Some("named")), &fallback).as_deref(), Some("named"));
    assert_eq!(settle_project(&load(Some(" \n")), &fallback).as_deref(), Some("spare"));
    assert_eq!(settle_project(&load(None), &fallback).as_deref(), Some("spare"));
    assert_eq!(settle_project(&load(Some("")), &Some(" ".to_string())), None);
    assert_eq!(settle_project(&load(None), &None), None);
    assert_eq!(settle_project(&load(Some(" padded ")), &None).as_deref(), Some(" padded "));
}
