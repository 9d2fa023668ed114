//! The Code Assist API: which requests are made of it, what its answers mean,
//! and how one host stands in for another.
use crate::auth::redaction;
use crate::http::is_success;
use crate::http::Delivery;
use crate::http::DeliveryView;
use crate::http::PostRequest;
use crate::http::PostRequestView;
use crate::json::json_string;
use crate::json::parse_json;
use crate::json::parsed_json;
use crate::json::JsonTree;
use crate::json::JsonValue;
use crate::models::LoadCodeAssistResponse;
use crate::text::begins_with;
use crate::text::blank;
use crate::text::clear_of;
use crate::text::contains_text;
use crate::text::is_blank;
use crate::text::join_texts;
use crate::text::joined;
use crate::text::law_joining_keeps_order;
use crate::text::law_replacing_nothing_changes_nothing;
use crate::text::law_the_first_match_is_replaced;
use crate::text::lemma_contains_behind;
use crate::text::lemma_contains_take;
use crate::text::lemma_replaced_removes;
use crate::text::optional_text;
use crate::text::replace_all;
use crate::text::replaced;
use crate::text::same_text;
use crate::text::slice_texts;
use crate::text::take_characters;
use crate::text::texts;
use vstd::prelude::*;
use vstd::string::StringExecFns;

verus! {

/// The hosts that are asked, in order.
pub const DEFAULT_BASE_URLS: [&'static str; 2] = [
    "https://daily-cloudcode-pa.googleapis.com",
    "https://cloudcode-pa.googleapis.com",
];

/// The name that the API has for an operating system.
pub open spec fn os_name(os: Seq<char>) -> Seq<char> {
    if os == "macos"@ {
        "darwin"@
    } else {
        os
    }
}

/// The name that the API has for an architecture.
pub open spec fn arch_name(arch: Seq<char>) -> Seq<char> {
    if arch == "aarch64"@ {
        "arm64"@
    } else {
        arch
    }
}

/// Generates the User-Agent header matching Antigravity ACP client
/// conventions, from Rust's names for the system it runs on.
pub fn user_agent(os: &str, arch: &str) -> (agent: String)
    ensures
        agent@ == "antigravity/acp/1.2.1 (aidev_client; os_type="@ + os_name(os@) + "; arch="@
            + arch_name(arch@) + "; host_path=zed/unknown; proxy_client=antigravity/sdk)"@,
{
    let system = if same_text(os, "macos") {
        "darwin"
    } else {
        os
    };
    let machine = if same_text(arch, "aarch64") {
        "arm64"
    } else {
        arch
    };
    "antigravity/acp/1.2.1 (aidev_client; os_type=".to_owned().concat(system).concat(
        "; arch=",
    ).concat(machine).concat("; host_path=zed/unknown; proxy_client=antigravity/sdk)")
}

/// The value of the `Authorization` header for an access token.
pub fn authorization(access_token: &str) -> (header: String)
    ensures
        header@ == "Bearer "@ + access_token@,
{
    "Bearer ".to_owned().concat(access_token)
}

/// The beginning of an answer, without the access token.
pub open spec fn excerpt(value: Seq<char>, access_token: Seq<char>, max_chars: nat) -> Seq<char> {
    let clean = replaced(value, access_token, redaction());
    if clean.len() <= max_chars {
        clean
    } else {
        clean.take(max_chars as int)
    }
}

/// Helper that redacts the access token from an API error response and
/// truncates it.
pub fn response_excerpt(value: &str, access_token: &str, max_chars: usize) -> (result: String)
    ensures
        result@ == excerpt(value@, access_token@, max_chars as nat),
{
    let clean = replace_all(value, access_token, "[redacted]");
    take_characters(clean.as_str(), max_chars)
}

/// An excerpt never shows an access token that shares nothing with the
/// placeholder.
pub proof fn law_excerpt_hides_access_token(
    value: Seq<char>,
    access_token: Seq<char>,
    max_chars: nat,
)
    requires
        access_token.len() > 0,
        clear_of(access_token, redaction()),
    ensures
        !contains_text(excerpt(value, access_token, max_chars), access_token),
{
    let clean = replaced(value, access_token, redaction());
    lemma_replaced_removes(value, access_token, redaction());
    if contains_text(excerpt(value, access_token, max_chars), access_token) {
        if clean.len() > max_chars {
            lemma_contains_take(clean, max_chars as int, access_token);
        }
    }
}

/// How a failure on one host is reported.
pub open spec fn endpoint_report(base_url: Seq<char>, error: Seq<char>) -> Seq<char> {
    base_url + ": "@ + error
}

/// What is said where no host is left.
pub open spec fn exhausted_text(reports: Seq<Seq<char>>) -> Seq<char> {
    "quota lookup failed on every endpoint:\n  "@ + joined(reports, "\n  "@)
}

/// The reports on the first hosts.
pub open spec fn reports_of(base_urls: Seq<Seq<char>>, errors: Seq<Seq<char>>) -> Seq<Seq<char>> {
    Seq::new(errors.len(), |i: int| endpoint_report(base_urls[i], errors[i]))
}

/// Words the report on a host.
pub fn report_endpoint(base_url: &str, error: &str) -> (report: String)
    ensures
        report@ == endpoint_report(base_url@, error@),
{
    base_url.to_owned().concat(": ").concat(error)
}

/// Words the failure of all hosts.
pub fn report_exhausted(reports: &Vec<String>) -> (message: String)
    ensures
        message@ == exhausted_text(texts(reports@)),
{
    let list = join_texts(reports, "\n  ");
    "quota lookup failed on every endpoint:\n  ".to_owned().concat(list.as_str())
}

/// Whether a request can have failed with these errors on the first hosts.
pub open spec fn failed_with<T, F: FnMut(&str) -> Result<T, String>>(
    request: F,
    base_urls: Seq<&str>,
    errors: Seq<String>,
) -> bool {
    errors.len() <= base_urls.len() && forall|j: int|
        0 <= j < errors.len() ==> call_ensures(request, (base_urls[j],), Err(#[trigger] errors[j]))
}

/// Tries each base URL sequentially until one succeeds, collecting errors if
/// all fail.
///
/// The contract says what the calls returned, not that there is none after the
/// first success: a closure keeps no record of its calls that a contract could
/// speak of. [`crate::fetch`] says it of the lookup.
///
/// # Errors
///
/// The reports on all base URLs, where the request failed on each.
pub fn try_endpoints<T, F: FnMut(&str) -> Result<T, String>>(
    base_urls: &[&str],
    request: F,
) -> (result: Result<T, String>)
    requires
        forall|base_url: &str| call_requires(request, (base_url,)),
    ensures
        match result {
            Ok(value) => exists|errors: Seq<String>| #[trigger]
                failed_with(request, base_urls@, errors) && errors.len() < base_urls@.len()
                    && call_ensures(
                    request,
                    (base_urls@[errors.len() as int],),
                    Ok::<T, String>(value),
                ),
            Err(message) => exists|errors: Seq<String>| #[trigger]
                failed_with(request, base_urls@, errors) && errors.len() == base_urls@.len()
                    && message@ == exhausted_text(
                    reports_of(slice_texts(base_urls@), texts(errors)),
                ),
        },
{
    let mut attempt = request;
    let mut reports: Vec<String> = Vec::new();
    let ghost mut errors: Seq<String> = Seq::empty();
    for i in 0..base_urls.len()
        invariant
            attempt == request,
            forall|base_url: &str| call_requires(request, (base_url,)),
            errors.len() == i,
            reports@.len() == i,
            failed_with(request, base_urls@, errors),
            forall|j: int|
                0 <= j < i ==> (#[trigger] reports@[j])@ == endpoint_report(
                    base_urls@[j]@,
                    errors[j]@,
                ),
    {
        let base_url = base_urls[i];
        match attempt(base_url) {
            Ok(value) => {
                return Ok(value);
            },
            Err(error) => {
                reports.push(report_endpoint(base_url, error.as_str()));
                proof {
                    errors = errors.push(error);
                }
            },
        }
    }
    assert(texts(reports@) =~= reports_of(slice_texts(base_urls@), texts(errors)));
    Err(report_exhausted(&reports))
}

/// Why a request to the API came to nothing.
#[derive(Debug, PartialEq, Eq)]
pub enum PostError {
    SendFailed { url: String, cause: String },
    ReadFailed { url: String, cause: String },
    /// The access token was refused; the answer, shortened and without the
    /// token.
    TokenRejected { status_line: String, answer: String },
    /// Any other status that reports no success; the answer, shortened and
    /// without the token.
    Refused { status_line: String, url: String, answer: String },
    /// The answer, shortened and without the token, is no JSON document.
    NotJson { url: String, answer: String, cause: String },
}

/// The message where a request could not be sent.
pub open spec fn post_send_failed(url: Seq<char>, cause: Seq<char>) -> Seq<char> {
    "request failed: "@ + url + ": "@ + cause
}

/// The message where an answer could not be read.
pub open spec fn post_read_failed(url: Seq<char>, cause: Seq<char>) -> Seq<char> {
    "failed reading response from "@ + url + ": "@ + cause
}

/// The message where the access token was refused.
pub open spec fn post_token_rejected(status_line: Seq<char>, answer: Seq<char>) -> Seq<char> {
    "Google rejected the ACP OAuth access token (HTTP "@ + status_line
        + "). Open/use the official Antigravity ACP agent in Zed so it can refresh or re-authenticate, then run the task again. Response: "@
        + answer
}

/// The message where the API refused otherwise.
pub open spec fn post_refused(
    status_line: Seq<char>,
    url: Seq<char>,
    answer: Seq<char>,
) -> Seq<char> {
    "Google returned HTTP "@ + status_line + " from "@ + url + ": "@ + answer
}

/// The message where an answer is no JSON document.
pub open spec fn post_not_json(url: Seq<char>, answer: Seq<char>, cause: Seq<char>) -> Seq<char> {
    "non-JSON response from "@ + url + ": "@ + answer + ": "@ + cause
}

impl PostError {
    /// The message for the user.
    pub open spec fn text(self) -> Seq<char> {
        match self {
            PostError::SendFailed { url, cause } => post_send_failed(url@, cause@),
            PostError::ReadFailed { url, cause } => post_read_failed(url@, cause@),
            PostError::TokenRejected { status_line, answer } => post_token_rejected(
                status_line@,
                answer@,
            ),
            PostError::Refused { status_line, url, answer } => post_refused(
                status_line@,
                url@,
                answer@,
            ),
            PostError::NotJson { url, answer, cause } => post_not_json(url@, answer@, cause@),
        }
    }

    /// Words the error for the user.
    pub fn message(&self) -> (message: String)
        ensures
            message@ == self.text(),
    {
        match self {
            PostError::SendFailed { url, cause } => {
                "request failed: ".to_owned().concat(url.as_str()).concat(": ").concat(
                    cause.as_str(),
                )
            },
            PostError::ReadFailed { url, cause } => {
                "failed reading response from ".to_owned().concat(url.as_str()).concat(
                    ": ",
                ).concat(cause.as_str())
            },
            PostError::TokenRejected { status_line, answer } => {
                "Google rejected the ACP OAuth access token (HTTP ".to_owned().concat(
                    status_line.as_str(),
                ).concat(
                    "). Open/use the official Antigravity ACP agent in Zed so it can refresh or re-authenticate, then run the task again. Response: ",
                ).concat(answer.as_str())
            },
            PostError::Refused { status_line, url, answer } => {
                "Google returned HTTP ".to_owned().concat(status_line.as_str()).concat(
                    " from ",
                ).concat(url.as_str()).concat(": ").concat(answer.as_str())
            },
            PostError::NotJson { url, answer, cause } => {
                "non-JSON response from ".to_owned().concat(url.as_str()).concat(": ").concat(
                    answer.as_str(),
                ).concat(": ").concat(cause.as_str())
            },
        }
    }
}

/// The body of an answer, where it reports success.
///
/// # Errors
///
/// Says what went wrong; an answer that reports no success is shown in part,
/// without the access token.
pub fn accept_reply<'a>(url: &str, delivery: &'a Delivery, access_token: &str) -> (result: Result<
    &'a str,
    PostError,
>)
    ensures
        match delivery@ {
            DeliveryView::SendFailed(why) => result matches Err(
                PostError::SendFailed { url: u, cause },
            ) && u@ == url@ && cause@ == why,
            DeliveryView::ReadFailed(why) => result matches Err(
                PostError::ReadFailed { url: u, cause },
            ) && u@ == url@ && cause@ == why,
            DeliveryView::Reply { status, status_line, body } => if is_success(status) {
                result matches Ok(text) && text@ == body
            } else if status == 401 || status == 403 {
                result matches Err(PostError::TokenRejected { status_line: line, answer })
                    && line@ == status_line && answer@ == excerpt(body, access_token@, 400)
            } else {
                result matches Err(PostError::Refused { status_line: line, url: u, answer })
                    && line@ == status_line && u@ == url@ && answer@ == excerpt(
                    body,
                    access_token@,
                    400,
                )
            },
        },
{
    match delivery {
        Delivery::SendFailed(cause) => Err(
            PostError::SendFailed { url: url.to_owned(), cause: cause.clone() },
        ),
        Delivery::ReadFailed(cause) => Err(
            PostError::ReadFailed { url: url.to_owned(), cause: cause.clone() },
        ),
        Delivery::Reply(reply) => {
            if 200 <= reply.status && reply.status < 300 {
                return Ok(reply.body.as_str());
            }
            let answer = response_excerpt(reply.body.as_str(), access_token, 400);
            let status_line = reply.status_line.clone();
            if reply.status == 401 || reply.status == 403 {
                Err(PostError::TokenRejected { status_line, answer })
            } else {
                Err(PostError::Refused { status_line, url: url.to_owned(), answer })
            }
        },
    }
}

/// The document that an answer consists of.
///
/// # Errors
///
/// [`PostError::NotJson`] where the answer's body is no JSON document; the
/// body is shown in part, without the access token.
pub fn accept_document(
    url: &str,
    body: &str,
    access_token: &str,
    document: Result<JsonValue, String>,
) -> (result: Result<JsonValue, PostError>)
    ensures
        match document {
            Ok(value) => result == Ok::<JsonValue, PostError>(value),
            Err(message) => result matches Err(PostError::NotJson { url: u, answer, cause }) && u@
                == url@ && answer@ == excerpt(body@, access_token@, 200) && cause@ == message@,
        },
{
    match document {
        Ok(value) => Ok(value),
        Err(cause) => Err(
            PostError::NotJson {
                url: url.to_owned(),
                answer: response_excerpt(body, access_token, 200),
                cause,
            },
        ),
    }
}

/// What comes of a request: a document or a message.
pub open spec fn post_outcome(
    url: Seq<char>,
    delivery: DeliveryView,
    access_token: Seq<char>,
) -> Result<JsonTree, Seq<char>> {
    match delivery {
        DeliveryView::SendFailed(cause) => Err(post_send_failed(url, cause)),
        DeliveryView::ReadFailed(cause) => Err(post_read_failed(url, cause)),
        DeliveryView::Reply { status, status_line, body } => if is_success(status) {
            match parsed_json(body) {
                Ok(tree) => Ok(tree),
                Err(cause) => Err(post_not_json(url, excerpt(body, access_token, 200), cause)),
            }
        } else if status == 401 || status == 403 {
            Err(post_token_rejected(status_line, excerpt(body, access_token, 400)))
        } else {
            Err(post_refused(status_line, url, excerpt(body, access_token, 400)))
        },
    }
}

/// Takes the JSON document from what came of an authenticated request,
/// handling standard Google errors.
///
/// # Errors
///
/// Says why there is none.
pub fn post_json(url: &str, delivery: &Delivery, access_token: &str) -> (result: Result<
    JsonValue,
    PostError,
>)
    ensures
        match result {
            Ok(value) => post_outcome(url@, delivery@, access_token@) == Ok::<JsonTree, Seq<char>>(
                value@,
            ),
            Err(error) => post_outcome(url@, delivery@, access_token@) == Err::<
                JsonTree,
                Seq<char>,
            >(error.text()),
        },
{
    match accept_reply(url, delivery, access_token) {
        Ok(body) => accept_document(url, body, access_token, parse_json(body)),
        Err(error) => Err(error),
    }
}

/// The address of the call that names the project.
pub open spec fn load_url(base_url: Seq<char>) -> Seq<char> {
    base_url + "/v1internal:loadCodeAssist"@
}

/// The address of the call that reports quota.
pub open spec fn quota_url(base_url: Seq<char>) -> Seq<char> {
    base_url + "/v1internal:retrieveUserQuotaSummary"@
}

/// The request for the project.
pub open spec fn load_request_of(base_url: Seq<char>, access_token: Seq<char>) -> PostRequestView {
    PostRequestView {
        url: load_url(base_url),
        bearer: Some(access_token),
        body: JsonTree::Object(
            seq![
                (
                    "metadata"@,
                    JsonTree::Object(seq![("ideType"@, JsonTree::String("ANTIGRAVITY"@))]),
                ),
            ],
        ),
    }
}

/// The request for the quota of a project.
pub open spec fn quota_request_of(
    base_url: Seq<char>,
    access_token: Seq<char>,
    project: Seq<char>,
) -> PostRequestView {
    PostRequestView {
        url: quota_url(base_url),
        bearer: Some(access_token),
        body: JsonTree::Object(seq![("project"@, JsonTree::String(project))]),
    }
}

/// A document that is an object with one entry.
fn json_entry(key: &str, value: JsonValue) -> (object: JsonValue)
    ensures
        object@ == JsonTree::Object(seq![(key@, value@)]),
{
    let mut entries: Vec<(String, JsonValue)> = Vec::new();
    entries.push((key.to_owned(), value));
    let object = JsonValue::Object(entries);
    assert(object.tree()->Object_0 =~= seq![(key@, value@)]);
    object
}

/// Builds the request for the project.
pub fn load_request(base_url: &str, access_token: &str) -> (request: PostRequest)
    ensures
        request@ == load_request_of(base_url@, access_token@),
{
    PostRequest {
        url: base_url.to_owned().concat("/v1internal:loadCodeAssist"),
        bearer: Some(access_token.to_owned()),
        body: json_entry("metadata", json_entry("ideType", json_string("ANTIGRAVITY"))),
    }
}

/// Builds the request for the quota of a project.
pub fn quota_request(base_url: &str, access_token: &str, project: &str) -> (request: PostRequest)
    ensures
        request@ == quota_request_of(base_url@, access_token@, project@),
{
    PostRequest {
        url: base_url.to_owned().concat("/v1internal:retrieveUserQuotaSummary"),
        bearer: Some(access_token.to_owned()),
        body: json_entry("project", json_string(project)),
    }
}

/// Whether an optional text is there and not blank.
pub open spec fn is_given(text: Option<Seq<char>>) -> bool {
    text matches Some(t) && !is_blank(t)
}

/// The project that counts: the one the API names, else the one to fall back
/// on. A blank one is none.
pub open spec fn settled_project(
    named: Option<Seq<char>>,
    fallback: Option<Seq<char>>,
) -> Option<Seq<char>> {
    if is_given(named) {
        named
    } else if is_given(fallback) {
        fallback
    } else {
        None
    }
}

/// Settles which project counts.
pub fn settle_project(load: &LoadCodeAssistResponse, fallback: &Option<String>) -> (project: Option<
    String,
>)
    ensures
        optional_text(project) == settled_project(
            load@.cloudaicompanion_project,
            optional_text(*fallback),
        ),
{
    if let Some(project) = &load.cloudaicompanion_project {
        if !blank(project.as_str()) {
            return Some(project.clone());
        }
    }
    if let Some(project) = fallback {
        if !blank(project.as_str()) {
            return Some(project.clone());
        }
    }
    None
}

/// A call whose answer has a status below 200 or from 300 on has failed,
/// whatever the answer holds. A refused access token is called that; any other
/// failure names the status and the address. Up to 400 characters of the
/// answer are shown, without the access token.
pub proof fn law_unsuccessful_answers_are_failures(
    url: Seq<char>,
    status: u16,
    status_line: Seq<char>,
    body: Seq<char>,
    access_token: Seq<char>,
)
    requires
        status < 200 || status >= 300,
    ensures
        post_outcome(url, DeliveryView::Reply { status, status_line, body }, access_token) is Err,
        status != 401 && status != 403 ==> post_outcome(
            url,
            DeliveryView::Reply { status, status_line, body },
            access_token,
        ) == Err::<JsonTree, Seq<char>>(
            "Google returned HTTP "@ + status_line + " from "@ + url + ": "@ + excerpt(
                body,
                access_token,
                400,
            ),
        ),
        status == 401 || status == 403 ==> post_outcome(
            url,
            DeliveryView::Reply { status, status_line, body },
            access_token,
        ) == Err::<JsonTree, Seq<char>>(
            "Google rejected the ACP OAuth access token (HTTP "@ + status_line
                + "). Open/use the official Antigravity ACP agent in Zed so it can refresh or re-authenticate, then run the task again. Response: "@
                + excerpt(body, access_token, 400),
        ),
{
}

/// A call whose answer has a status from 200 up to 299 yields the document in
/// the answer, and fails where the answer is no document.
pub proof fn law_successful_answers_are_documents(
    url: Seq<char>,
    status: u16,
    status_line: Seq<char>,
    body: Seq<char>,
    access_token: Seq<char>,
)
    requires
        200 <= status && status < 300,
    ensures
        parsed_json(body) matches Ok(tree) ==> post_outcome(
            url,
            DeliveryView::Reply { status, status_line, body },
            access_token,
        ) == Ok::<JsonTree, Seq<char>>(tree),
        parsed_json(body) matches Err(cause) ==> post_outcome(
            url,
            DeliveryView::Reply { status, status_line, body },
            access_token,
        ) == Err::<JsonTree, Seq<char>>(
            "non-JSON response from "@ + url + ": "@ + excerpt(body, access_token, 200) + ": "@
                + cause,
        ),
{
}

/// A call that brings no answer has failed, and says where and why.
pub proof fn law_lost_calls_are_failures(
    url: Seq<char>,
    cause: Seq<char>,
    access_token: Seq<char>,
)
    ensures
        post_outcome(url, DeliveryView::SendFailed(cause), access_token) == Err::<
            JsonTree,
            Seq<char>,
        >("request failed: "@ + url + ": "@ + cause),
        post_outcome(url, DeliveryView::ReadFailed(cause), access_token) == Err::<
            JsonTree,
            Seq<char>,
        >("failed reading response from "@ + url + ": "@ + cause),
{
}

/// An excerpt of an answer without the access token is its beginning: all of
/// it where it is short enough, else as many characters as are allowed.
pub proof fn law_excerpts_are_beginnings(
    value: Seq<char>,
    access_token: Seq<char>,
    max_chars: nat,
)
    requires
        access_token.len() > 0,
        !contains_text(value, access_token),
    ensures
        value.len() <= max_chars ==> excerpt(value, access_token, max_chars) == value,
        value.len() > max_chars ==> excerpt(value, access_token, max_chars) == value.take(
            max_chars as int,
        ),
{
    law_replacing_nothing_changes_nothing(value, access_token, redaction());
}

/// The first occurrence of the access token in an answer is shown as
/// `[redacted]`, and what stands before it as it is, as far as the excerpt
/// reaches.
pub proof fn law_excerpts_name_the_redaction(
    value: Seq<char>,
    access_token: Seq<char>,
    max_chars: nat,
    at: int,
)
    requires
        access_token.len() > 0,
        0 <= at <= value.len(),
        begins_with(value.skip(at), access_token),
        forall|i: int| 0 <= i < at ==> !begins_with(#[trigger] value.skip(i), access_token),
        at + 10 <= max_chars,
    ensures
        begins_with(excerpt(value, access_token, max_chars), value.take(at) + "[redacted]"@),
        excerpt(value, access_token, max_chars).len() <= max_chars,
{
    reveal_strlit("[redacted]");
    law_the_first_match_is_replaced(value, access_token, redaction(), at);
    let shown = excerpt(value, access_token, max_chars);
    assert(shown.take(at + 10) =~= value.take(at) + "[redacted]"@);
}

/// The API knows one system and one architecture by other names than Rust, and
/// every other by the same.
pub proof fn law_system_names(name: Seq<char>)
    ensures
        name == "macos"@ ==> os_name(name) == "darwin"@,
        name != "macos"@ ==> os_name(name) == name,
        name == "aarch64"@ ==> arch_name(name) == "arm64"@,
        name != "aarch64"@ ==> arch_name(name) == name,
{
}

/// What is said where every host failed holds, for each host, its address and
/// its own error.
pub proof fn law_every_failure_is_told(
    base_urls: Seq<Seq<char>>,
    errors: Seq<Seq<char>>,
    i: int,
)
    requires
        0 <= i < errors.len(),
        errors.len() == base_urls.len(),
    ensures
        contains_text(
            exhausted_text(reports_of(base_urls, errors)),
            base_urls[i] + ": "@ + errors[i],
        ),
        begins_with(
            exhausted_text(reports_of(base_urls, errors)),
            "quota lookup failed on every endpoint:\n  "@,
        ),
{
    let reports = reports_of(base_urls, errors);
    let lead = "quota lookup failed on every endpoint:\n  "@;
    lemma_joined_contains(reports, "\n  "@, i);
    lemma_contains_behind(lead, joined(reports, "\n  "@), reports[i]);
    assert((lead + joined(reports, "\n  "@)).take(lead.len() as int) =~= lead);
}

/// The reports on several hosts are told one to a line, in the order of the
/// hosts.
pub proof fn law_failures_are_told_in_order(front: Seq<Seq<char>>, back: Seq<Seq<char>>)
    requires
        front.len() > 0,
        back.len() > 0,
    ensures
        exhausted_text(front + back) == exhausted_text(front) + "\n  "@ + joined(back, "\n  "@),
        exhausted_text(seq![front[0]]) == "quota lookup failed on every endpoint:\n  "@ + front[0],
{
    law_joining_keeps_order(front, back, front[0], "\n  "@);
    assert(exhausted_text(front + back) =~= exhausted_text(front) + "\n  "@ + joined(
        back,
        "\n  "@,
    ));
}

/// A joined list contains each of its parts.
proof fn lemma_joined_contains(parts: Seq<Seq<char>>, separator: Seq<char>, i: int)
    requires
        0 <= i < parts.len(),
    ensures
        contains_text(joined(parts, separator), parts[i]),
    decreases parts.len(),
{
    if parts.len() == 1 {
        assert(parts[0].skip(0) =~= parts[0]);
        assert(parts[0].take(parts[0].len() as int) =~= parts[0]);
        assert(begins_with(parts[0].skip(0), parts[0]));
    } else if i == parts.len() - 1 {
        let front = joined(parts.drop_last(), separator) + separator;
        assert(parts[i].skip(0) =~= parts[i]);
        assert(parts[i].take(parts[i].len() as int) =~= parts[i]);
        assert(begins_with(parts[i].skip(0), parts[i]));
        lemma_contains_behind(front, parts.last(), parts[i]);
    } else {
        lemma_joined_contains(parts.drop_last(), separator, i);
        let front = joined(parts.drop_last(), separator);
        let whole = joined(parts, separator);
        assert(whole.take(front.len() as int) =~= front);
        lemma_contains_take(whole, front.len() as int, parts[i]);
    }
}

/// The two calls go to their own paths on the host, with the access token; the
/// first names the client, the second the project, and nothing else is sent.
pub proof fn law_calls_are_addressed(
    host: Seq<char>,
    token: Seq<char>,
    project: Seq<char>,
)
    ensures
        load_request_of(host, token) == (PostRequestView {
            url: host + "/v1internal:loadCodeAssist"@,
            bearer: Some(token),
            body: JsonTree::Object(
                seq![
                    (
                        "metadata"@,
                        JsonTree::Object(seq![("ideType"@, JsonTree::String("ANTIGRAVITY"@))]),
                    ),
                ],
            ),
        }),
        quota_request_of(host, token, project) == (PostRequestView {
            url: host + "/v1internal:retrieveUserQuotaSummary"@,
            bearer: Some(token),
            body: JsonTree::Object(seq![("project"@, JsonTree::String(project))]),
        }),
        load_url(host) == load_request_of(host, token).url,
        quota_url(host) == quota_request_of(host, token, project).url,
{
}

/// The project that the API names counts unless it is blank; then the one to
/// fall back on, unless that is blank too; then there is none.
pub proof fn law_the_named_project_counts_first(name: Seq<char>, spare: Seq<char>)
    ensures
        !is_blank(name) ==> {
            &&& settled_project(Some(name), Some(spare)) == Some(name)
            &&& settled_project(Some(name), None) == Some(name)
            &&& settled_project(None, Some(name)) == Some(name)
        },
        is_blank(name) ==> {
            &&& settled_project(Some(name), Some(spare)) == settled_project(None, Some(spare))
            &&& settled_project(Some(name), None) is None
            &&& settled_project(None, Some(name)) is None
        },
        settled_project(None, None) is None,
{
}

/// The daily host is asked first, then the other.
pub proof fn law_default_hosts()
    ensures
        DEFAULT_BASE_URLS@.len() == 2,
        DEFAULT_BASE_URLS@[0]@ == "https://daily-cloudcode-pa.googleapis.com"@,
        DEFAULT_BASE_URLS@[1]@ == "https://cloudcode-pa.googleapis.com"@,
{
}

} // verus!
