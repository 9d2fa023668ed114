use antigravity_quota::auth::MAX_TOKEN_FILE_SIZE_BYTES;
use antigravity_quota::client::DEFAULT_BASE_URLS;
use antigravity_quota::http::{Delivery, HttpReply, PostRequest};
use antigravity_quota::json::parse_json;
use antigravity_quota::output::Rendered;
use antigravity_quota::workflow::{CheckAction, CheckEvent, CheckRun, TokenFile};
use antigravity_quota::{LoadCodeAssistResponse, Options, QuotaGroup, QuotaSummaryResponse, Tier};

const TOKEN_FILE: &str =
    r#"{"access_token": "access-token-0123456789", "project_id": "spare-project"}"#;

fn start(options: Options) -> CheckRun {
    CheckRun::new(options, DEFAULT_BASE_URLS.iter().map(|url| url.to_string()).collect())
}

fn read(check: CheckRun, contents: &str) -> CheckRun {
    assert_eq!(check.action(), CheckAction::ReadTokenFile);
    check.advance(CheckEvent::TokenRead(
        "t".to_string(),
        TokenFile::Contents(contents.to_string()),
    ))
}

fn ok(body: &str) -> CheckEvent {
    reply(200, body)
}

fn reply(status: u16, body: &str) -> CheckEvent {
    CheckEvent::Delivered(Delivery::Reply(HttpReply {
        status,
        status_line: format!("{} Status", status),
        body: body.to_string(),
    }))
}

fn load(project: Option<&str>) -> CheckEvent {
    CheckEvent::LoadDecoded(Ok(LoadCodeAssistResponse {
        cloudaicompanion_project: project.map(|name| name.to_string()),
        current_tier: Some(Tier { id: None, name: Some("Free".to_string()), display_name: None }),
        paid_tier: None,
    }))
}

fn request(check: &CheckRun) -> PostRequest {
    match check.action() {
        CheckAction::Post(request) => request,
        other => panic!("{:?}", other),
    }
}

fn failure(check: &CheckRun) -> String {
    match check.action() {
        CheckAction::Fail(message) => message,
        other => panic!("{:?}", other),
    }
}

fn quota(groups: Vec<QuotaGroup>) -> CheckEvent {
    CheckEvent::QuotaDecoded(Ok(QuotaSummaryResponse { groups }))
}

#[test]
fn a_check_runs_from_token_to_report() {
    let check = read(start(Options::default()), TOKEN_FILE);
    let first = request(&check);
    assert_eq!(
        first.url,
        "https://daily-cloudcode-pa.googleapis.com/v1internal:loadCodeAssist"
    );
    assert_eq!(first.bearer.as_deref(), Some("access-token-0123456789"));
    let check = check.advance(ok(r#"{"cloudaicompanionProject": "p"}"#));
    assert_eq!(
        check.action(),
        CheckAction::DecodeLoad(&parse_json(r#"{"cloudaicompanionProject": "p"}"#).unwrap())
    );
    let check = check.advance(load(Some("p")));
    let second = request(&check);
    assert_eq!(
        second.url,
        "https://daily-cloudcode-pa.googleapis.com/v1internal:retrieveUserQuotaSummary"
    );
    assert_eq!(second.body, parse_json(r#"{"project": "p"}"#).unwrap());
    let check = check.advance(ok(r#"{"groups": []}"#));
    assert_eq!(
        check.action(),
        CheckAction::DecodeQuota(&parse_json(r#"{"groups": []}"#).unwrap())
    );
    let group = QuotaGroup { display_name: Some("G".to_string()), description: None, buckets: vec![] };
    let check = check.advance(quota(vec![group]));
    match check.action() {
        CheckAction::Report(report) => {
            assert_eq!(report.project, "p");
            assert_eq!(report.tier.as_deref(), Some("Free"));
            assert!(report.rows.is_empty());
            match &report.output {
                Rendered::Human(text) => assert!(text.contains("Plan: Free\nProject: p\n\nG\n-\n")),
                other => panic!("{:?}", other),
            }
        }
        other => panic!("{:?}", other),
    }
    let check = check.advance(reply(500, ""));
    assert!(matches!(check.action(), CheckAction::Report(_)));
}

#[test]
fn either_failing_call_moves_the_lookup_to_the_next_host() {
    let check = read(start(Options::default()), TOKEN_FILE);
    let check = check.advance(ok("{}")).advance(load(Some("p"))).advance(reply(500, "broken"));
    let retried = request(&check);
    assert_eq!(retried.url, "https://cloudcode-pa.googleapis.com/v1internal:loadCodeAssist");
    assert_eq!(retried.bearer.as_deref(), Some("access-token-0123456789"));
    let check = check.advance(reply(401, "access-token-0123456789"));
    let message = failure(&check);
    assert_eq!(
        message,
        "quota lookup failed on every endpoint:\n  https://daily-cloudcode-pa.googleapis.com: retrieveUserQuotaSummary failed: Google returned HTTP 500 Status from https://daily-cloudcode-pa.googleapis.com/v1internal:retrieveUserQuotaSummary: broken\n  https://cloudcode-pa.googleapis.com: loadCodeAssist failed: Google rejected the ACP OAuth access token (HTTP 401 Status). Open/use the official Antigravity ACP agent in Zed so it can refresh or re-authenticate, then run the task again. Response: [redacted]"
    );
    let check = check.advance(ok("{}"));
    assert_eq!(failure(&check), message);
}

#[test]
fn undecodable_answers_and_missing_projects_give_the_host_up() {
    let no_spare = r#"{"access_token": "access-token-0123456789"}"#;
    let check = read(start(Options::default()), no_spare);
    let check = check.advance(ok("{}")).advance(load(Some(" "))).advance(ok("[]"));
    assert_eq!(check.action(), CheckAction::DecodeLoad(&parse_json("[]").unwrap()));
    let check = check.advance(CheckEvent::LoadDecoded(Err("odd".to_string())));
    assert_eq!(
        failure(&check),
        "quota lookup failed on every endpoint:\n  https://daily-cloudcode-pa.googleapis.com: Google loadCodeAssist did not return cloudaicompanionProject. The account may not expose Antigravity quota or the internal API changed.\n  https://cloudcode-pa.googleapis.com: unexpected loadCodeAssist response: odd"
    );
}

#[test]
fn the_token_files_project_stands_in() {
    let check = read(start(Options::default()), TOKEN_FILE);
    let check = check.advance(ok("{}")).advance(load(None));
    assert_eq!(request(&check).body, parse_json(r#"{"project": "spare-project"}"#).unwrap());
}

#[test]
fn a_refresh_token_is_exchanged_first() {
    let file = r#"{"refresh_token": "refresh-token-0123456789", "token_uri": "https://tokens.test/"}"#;
    let check = read(start(Options::default()), file);
    let exchange = request(&check);
    assert_eq!(exchange.url, "https://tokens.test/");
    assert_eq!(exchange.bearer, None);
    let check = check.advance(ok(r#"{"access_token": "new-access-token-0123456789"}"#));
    assert_eq!(request(&check).bearer.as_deref(), Some("new-access-token-0123456789"));
    let check = read(start(Options::default()), file).advance(reply(400, "refresh-token-0123456789"));
    assert_eq!(
        failure(&check),
        "failed to refresh access token using credentials from t: OAuth refresh failed (HTTP 400 Status): [redacted]"
    );
}

#[test]
fn a_quota_without_groups_is_an_error_and_no_empty_quota() {
    let check = read(start(Options::default()), TOKEN_FILE);
    let check = check.advance(ok("{}")).advance(load(Some("p"))).advance(ok(r#"{"message": "changed API"}"#));
    assert_eq!(
        failure(&check),
        "Google returned an unexpected quota response shape: missing field `groups`"
    );
    let check = read(start(Options::default()), TOKEN_FILE);
    let check = check.advance(ok("{}")).advance(load(Some("p"))).advance(ok(r#"{"groups": 7}"#));
    let check = check.advance(CheckEvent::QuotaDecoded(Err("odd".to_string())));
    assert_eq!(failure(&check), "Google returned an unexpected quota response shape: odd");
}

#[test]
fn an_answer_that_is_no_object_is_never_reported() {
    for text in ["[[]]", "null", "[]"] {
        let looked_up = || {
            let check = read(start(Options::default()), TOKEN_FILE);
            check.advance(ok("{}")).advance(load(Some("p"))).advance(ok(text))
        };
        assert_eq!(looked_up().action(), CheckAction::DecodeQuota(&parse_json(text).unwrap()));
        assert_eq!(
            failure(&looked_up().advance(quota(vec![]))),
            "Google returned an unexpected quota response shape: missing field `groups`"
        );
        assert_eq!(
            failure(&looked_up().advance(CheckEvent::QuotaDecoded(Err("odd".to_string())))),
            "Google returned an unexpected quota response shape: odd"
        );
    }
}

#[test]
fn an_empty_list_of_groups_is_reported() {
    let check = read(start(Options::default()), TOKEN_FILE);
    let check = check.advance(ok("{}")).advance(load(Some("p"))).advance(ok(r#"{"groups": []}"#));
    let check = check.advance(quota(vec![]));
    assert!(matches!(check.action(), CheckAction::Report(report) if report.rows.is_empty()));
}

#[test]
fn decoders_do_not_give_the_access_token_away() {
    let token = "access-token-0123456789";
    let cause = format!("invalid type: string \"{token}\", expected a sequence");
    let clean = "invalid type: string \"[redacted]\", expected a sequence";
    let check = read(start(Options::default()), TOKEN_FILE);
    let check = check.advance(ok("{}")).advance(CheckEvent::LoadDecoded(Err(cause.clone())));
    let check = check.advance(ok("{}")).advance(CheckEvent::LoadDecoded(Err(cause.clone())));
    assert_eq!(
        failure(&check),
        format!(
            "quota lookup failed on every endpoint:\n  {}: unexpected loadCodeAssist response: {clean}\n  {}: unexpected loadCodeAssist response: {clean}",
            DEFAULT_BASE_URLS[0], DEFAULT_BASE_URLS[1]
        )
    );
    let check = read(start(Options::default()), TOKEN_FILE);
    let check = check.advance(ok("{}")).advance(load(Some("p"))).advance(ok(r#"{"groups": 7}"#));
    let check = check.advance(CheckEvent::QuotaDecoded(Err(cause)));
    assert_eq!(
        failure(&check),
        format!("Google returned an unexpected quota response shape: {clean}")
    );
}

#[test]
fn token_files_are_refused_by_size() {
    assert_eq!(MAX_TOKEN_FILE_SIZE_BYTES, 2_097_152);
    assert_eq!(TokenFile::refused_by_size(MAX_TOKEN_FILE_SIZE_BYTES), None);
    assert_eq!(TokenFile::refused_by_size(MAX_TOKEN_FILE_SIZE_BYTES + 1), Some(TokenFile::TooLarge));
}

#[test]
fn raw_output_needs_no_decoding() {
    let options = Options { raw_output: true, ..Default::default() };
    let check = read(start(options), TOKEN_FILE);
    let check = check.advance(ok("{}")).advance(load(Some("p"))).advance(ok(r#"{"any": 1}"#));
    match check.action() {
        CheckAction::Report(report) => {
            assert_eq!(report.output, Rendered::Raw("{\n  \"any\": 1\n}".to_string()));
            assert!(report.rows.is_empty());
        }
        other => panic!("{:?}", other),
    }
}

#[test]
fn token_file_problems_end_the_check() {
    let outcome = |file: TokenFile| {
        failure(&start(Options::default()).advance(CheckEvent::TokenRead("t".to_string(), file)))
    };
    assert_eq!(
        outcome(TokenFile::Missing("gone".to_string())),
        "ACP OAuth token file not found: t. Authenticate the Antigravity ACP agent in Zed first.: gone"
    );
    assert_eq!(
        outcome(TokenFile::TooLarge),
        "Refusing to read unexpectedly large token file: t"
    );
    assert_eq!(outcome(TokenFile::Unreadable("no".to_string())), "failed to read t: no");
    assert!(outcome(TokenFile::Contents("{".to_string())).starts_with("failed to parse t: "));
    assert_eq!(
        outcome(TokenFile::Contents("{}".to_string())),
        "No OAuth access token or refresh token found in t. The ACP token schema may have changed."
    );
}

#[test]
fn events_that_answer_nothing_change_nothing() {
    let check = start(Options::default()).advance(ok("{}")).advance(quota(vec![]));
    assert_eq!(check.action(), CheckAction::ReadTokenFile);
    let check = read(check, TOKEN_FILE).advance(load(Some("p"))).advance(quota(vec![]));
    assert!(request(&check).url.ends_with("/v1internal:loadCodeAssist"));
}

#[test]
fn without_hosts_the_check_fails() {
    let check = CheckRun::new(Options::default(), vec![]);
    let check = read(check, TOKEN_FILE);
    assert_eq!(failure(&check), "quota lookup failed on every endpoint:\n  ");
}

#[test]
fn failures_never_show_the_access_token() {
    let token = "access-token-0123456789";
    let check = read(start(Options::default()), TOKEN_FILE);
    let check = check.advance(reply(403, &format!("{token} is not welcome: {token}{token}")));
    let check = check.advance(ok("{}")).advance(load(Some("p"))).advance(ok(token));
    let message = failure(&check);
    assert!(!message.contains(token));
    assert_eq!(message.matches("[redacted]").count(), 4);
}

#[test]
fn failures_show_neither_refresh_token_nor_client_secret() {
    let token = "refresh-token-0123456789";
    let file = format!(r#"{{"refresh_token": "{token}", "client_secret": "hush"}}"#);
    let check = read(start(Options::default()), &file);
    let check = check.advance(reply(401, &format!("no {token} with hush")));
    assert_eq!(
        failure(&check),
        "failed to refresh access token using credentials from t: OAuth refresh failed (HTTP 401 Status): no [redacted] with [redacted]"
    );
}

#[test]
fn secrets_with_punctuation_are_hidden_as_well() {
    let token = "refresh:token (0123) 456789";
    let secret = "hush: quiet";
    let file = format!(r#"{{"refresh_token": "{token}", "client_secret": "{secret}"}}"#);
    let check = read(start(Options::default()), &file);
    let check = check.advance(reply(401, &format!("no {token}: {secret}:{token}")));
    assert_eq!(
        failure(&check),
        "failed to refresh access token using credentials from t: OAuth refresh failed (HTTP 401 Status): no [redacted]: [redacted]:[redacted]"
    );
    let token = "access:token (0123) 456789";
    let check = read(start(Options::default()), &format!(r#"{{"access_token": "{token}"}}"#));
    let check = check.advance(reply(500, token)).advance(reply(403, token));
    assert!(!failure(&check).contains(token));
    assert_eq!(failure(&check).matches("[redacted]").count(), 2);
}

#[test]
fn only_the_refresh_request_carries_no_access_token() {
    let check = read(start(Options::default()), r#"{"refreshToken": "refresh-token-0123456789"}"#);
    assert_eq!(request(&check).url, "https://oauth2.googleapis.com/token");
    assert_eq!(request(&check).bearer, None);
    let check = check.advance(ok(r#"{"access_token": "new-access-token-0123456789"}"#));
    assert!(request(&check).bearer.is_some());
    let check = check.advance(ok("{}")).advance(load(Some("p")));
    assert!(request(&check).bearer.is_some());
}
