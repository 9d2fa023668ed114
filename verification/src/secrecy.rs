//! What messages about failures keep to themselves: neither the access token
//! nor the refresh token nor the client secret is shown.
use crate::auth::law_redaction_removes_secrets;
use crate::auth::law_tokens_are_long;
use crate::auth::redacted;
use crate::auth::redaction;
use crate::auth::refresh_no_token;
use crate::auth::refresh_outcome;
use crate::auth::refresh_secrets;
use crate::auth::token_refresh_failed;
use crate::auth::without_secret;
use crate::auth::RefreshCredentialsView;
use crate::client::endpoint_report;
use crate::client::excerpt;
use crate::client::exhausted_text;
use crate::client::law_excerpt_hides_access_token;
use crate::client::load_url;
use crate::client::post_outcome;
use crate::client::quota_url;
use crate::fetch::fetch_action;
use crate::fetch::fetch_after;
use crate::fetch::fetch_on_host;
use crate::fetch::fetch_run;
use crate::fetch::fetch_start;
use crate::fetch::law_host_succeeds_or_is_given_up;
use crate::fetch::law_lookup_stays_consistent;
use crate::fetch::load_failed;
use crate::fetch::load_unexpected;
use crate::fetch::no_project;
use crate::fetch::quota_failed;
use crate::fetch::FetchActionView;
use crate::fetch::FetchEventView;
use crate::fetch::FetchView;
use crate::fetch::HostReplies;
use crate::fetch::StageView;
use crate::http::is_success;
use crate::http::DeliveryView;
use crate::json::parsed_json;
use crate::text::begins_with;
use crate::text::clear_of;
use crate::text::contains_text;
use crate::text::joined;
use crate::text::lemma_contains_past_marker;
use crate::text::lemma_contains_take;
use crate::text::lemma_replaced_adds_nothing;
use crate::text::lemma_replaced_removes;
use crate::text::replaced;
use crate::workflow::check_action;
use crate::workflow::check_after;
use crate::workflow::law_check_stays_consistent;
use crate::workflow::phase_of_lookup;
use crate::workflow::unexpected_shape;
use crate::workflow::CheckActionView;
use crate::workflow::CheckEventView;
use crate::workflow::CheckView;
use crate::workflow::PhaseView;
use crate::workflow::TokenFileView;
use vstd::prelude::*;

verus! {

/// Whether a secret can be told from the wording in front of it: it does not
/// occur there, and no end of the wording is a beginning of the secret.
pub open spec fn clear_behind(secret: Seq<char>, wording: Seq<char>) -> bool {
    &&& !contains_text(wording, secret)
    &&& forall|k: int|
        0 < k <= wording.len() && k < secret.len() ==> #[trigger] secret.take(k) != wording.skip(
            wording.len() - k,
        )
}

/// Whether a secret can be told from the fixed parts of the messages about
/// requests and their answers: it shares nothing with a part that stands
/// between two texts, is clear of a part behind which a text begins, and does
/// not occur in a part that stands alone.
pub open spec fn is_no_wording(secret: Seq<char>) -> bool {
    &&& clear_of(secret, ": "@)
    &&& clear_of(secret, " from "@)
    &&& clear_of(secret, "\n  "@)
    &&& clear_of(secret, "): "@)
    &&& clear_of(
        secret,
        "). Open/use the official Antigravity ACP agent in Zed so it can refresh or re-authenticate, then run the task again. Response: "@,
    )
    &&& clear_behind(secret, "request failed: "@)
    &&& clear_behind(secret, "failed reading response from "@)
    &&& clear_behind(secret, "Google rejected the ACP OAuth access token (HTTP "@)
    &&& clear_behind(secret, "Google returned HTTP "@)
    &&& clear_behind(secret, "non-JSON response from "@)
    &&& clear_behind(secret, "loadCodeAssist failed: "@)
    &&& clear_behind(secret, "unexpected loadCodeAssist response: "@)
    &&& clear_behind(secret, "retrieveUserQuotaSummary failed: "@)
    &&& clear_behind(secret, "quota lookup failed on every endpoint:\n  "@)
    &&& clear_behind(secret, "request failed to token endpoint: "@)
    &&& clear_behind(secret, "OAuth refresh failed (HTTP "@)
    &&& clear_behind(secret, "non-JSON response from OAuth token endpoint: "@)
    &&& clear_behind(secret, "failed to refresh access token using credentials from "@)
    &&& clear_behind(secret, "Google returned an unexpected quota response shape: "@)
    &&& !contains_text(no_project(), secret)
    &&& !contains_text(refresh_no_token(), secret)
    &&& !contains_text("missing field `groups`"@, secret)
}

/// Whether a secret can be told from the words around it: it shares nothing
/// with the placeholder and is no part of the fixed wording.
pub open spec fn can_be_hidden(secret: Seq<char>) -> bool {
    &&& secret.len() > 0
    &&& clear_of(secret, redaction())
    &&& is_no_wording(secret)
}

/// Whether what is known of an exchange, apart from the body of the answer,
/// contains a text: why nothing arrived, the status line, or why the body is
/// no JSON document.
pub open spec fn tells(delivery: DeliveryView, secret: Seq<char>) -> bool {
    match delivery {
        DeliveryView::SendFailed(cause) => contains_text(cause, secret),
        DeliveryView::ReadFailed(cause) => contains_text(cause, secret),
        DeliveryView::Reply { status, status_line, body } => {
            ||| contains_text(status_line, secret)
            ||| is_success(status) && (parsed_json(body) matches Err(cause) && contains_text(
                cause,
                secret,
            ))
        },
    }
}

/// Whether a call to the API can show a secret where it fails: what is known of
/// the exchange contains it, or the body of the answer does, and it is not the
/// access token, which is taken out.
pub open spec fn call_reveals(
    delivery: DeliveryView,
    access_token: Seq<char>,
    secret: Seq<char>,
) -> bool {
    tells(delivery, secret) || secret != access_token && contains_text(delivery.body(), secret)
}

/// Whether a decoder's words show a secret, once the access token is taken out.
pub open spec fn cause_reveals(
    cause: Seq<char>,
    access_token: Seq<char>,
    secret: Seq<char>,
) -> bool {
    secret != access_token && contains_text(cause, secret)
}

/// A character that a bearer token may consist of.
pub open spec fn is_token_character(c: char) -> bool {
    ||| 'a' <= c <= 'z'
    ||| 'A' <= c <= 'Z'
    ||| '0' <= c <= '9'
    ||| c == '-' || c == '.' || c == '_' || c == '~' || c == '+' || c == '/' || c == '='
}

/// Whether a text is a bearer token that is longer than any word the messages
/// are made of.
pub open spec fn is_long_token(text: Seq<char>) -> bool {
    text.len() >= 25 && forall|i: int|
        0 <= i < text.len() ==> is_token_character(#[trigger] text[i])
}

/// Whether wording is broken at least at every 25th character. `breaks` lists
/// where, between the ends of the wording.
spec fn are_breaks(breaks: Seq<int>, wording: Seq<char>) -> bool {
    &&& breaks.len() >= 2
    &&& breaks[0] == -1
    &&& breaks.last() == wording.len()
    &&& forall|k: int|
        0 < k < breaks.len() - 1 ==> 0 <= #[trigger] breaks[k] < wording.len()
            && !is_token_character(wording[breaks[k]])
    &&& forall|k: int| 0 < k < breaks.len() ==> #[trigger] breaks[k] <= breaks[k - 1] + 25
}

/// A token does not occur in wording that is broken often enough.
proof fn lemma_no_long_word(wording: Seq<char>, breaks: Seq<int>, token: Seq<char>)
    requires
        is_long_token(token),
        are_breaks(breaks, wording),
    ensures
        !contains_text(wording, token),
{
    if contains_text(wording, token) {
        let i = choose|i: int|
            0 <= i <= wording.len() && #[trigger] begins_with(wording.skip(i), token);
        assert forall|j: int| 0 <= j < token.len() implies token[j] == wording[i + j] by {
            assert(wording.skip(i).take(token.len() as int)[j] == wording[i + j]);
        }
        let k = lemma_next_break(breaks, i, breaks.len() - 1);
        if k < breaks.len() - 1 {
            assert(is_token_character(token[breaks[k] - i]));
        }
    }
}

/// The first break at or behind a position.
proof fn lemma_next_break(breaks: Seq<int>, i: int, upper: int) -> (k: int)
    requires
        0 < upper < breaks.len(),
        breaks[0] < i <= breaks[upper],
    ensures
        0 < k <= upper,
        breaks[k - 1] < i <= breaks[k],
    decreases upper,
{
    if breaks[upper - 1] < i {
        upper
    } else {
        lemma_next_break(breaks, i, upper - 1)
    }
}

/// A token is clear of wording in front of it that is broken often enough and
/// at its end.
proof fn lemma_long_token_is_clear_behind(
    wording: Seq<char>,
    breaks: Seq<int>,
    token: Seq<char>,
)
    requires
        is_long_token(token),
        are_breaks(breaks, wording),
        wording.len() > 0,
        !is_token_character(wording.last()),
    ensures
        clear_behind(token, wording),
{
    lemma_no_long_word(wording, breaks, token);
    assert forall|k: int| 0 < k <= wording.len() && k < token.len() implies #[trigger] token.take(k)
        != wording.skip(wording.len() - k) by {
        assert(token.take(k)[k - 1] == token[k - 1]);
        assert(wording.skip(wording.len() - k)[k - 1] == wording.last());
    }
}

/// A token shares nothing with wording that is broken often enough and at both
/// ends.
proof fn lemma_long_token_is_clear(wording: Seq<char>, breaks: Seq<int>, token: Seq<char>)
    requires
        is_long_token(token),
        are_breaks(breaks, wording),
        wording.len() > 0,
        !is_token_character(wording[0]),
        !is_token_character(wording.last()),
    ensures
        clear_of(token, wording),
{
    lemma_long_token_is_clear_behind(wording, breaks, token);
    if contains_text(token, wording) {
        let i = choose|i: int|
            0 <= i <= token.len() && #[trigger] begins_with(token.skip(i), wording);
        assert(token.skip(i).take(wording.len() as int)[0] == token[i]);
    }
    assert forall|k: int| 0 < k < token.len() && k < wording.len() implies token.skip(
        token.len() - k,
    ) != #[trigger] wording.take(k) by {
        assert(token.skip(token.len() - k)[0] == token[token.len() - k]);
        assert(wording.take(k)[0] == wording[0]);
    }
}

/// Every bearer token of at least 25 characters can be hidden.
pub proof fn law_long_tokens_can_be_hidden(token: Seq<char>)
    requires
        is_long_token(token),
    ensures
        can_be_hidden(token),
{
    reveal_strlit("[redacted]");
    lemma_long_token_is_clear(redaction(), seq![-1, 10], token);
    reveal_strlit(": ");
    lemma_long_token_is_clear(": "@, seq![-1, 2], token);
    reveal_strlit(" from ");
    lemma_long_token_is_clear(" from "@, seq![-1, 6], token);
    reveal_strlit("\n  ");
    lemma_long_token_is_clear("\n  "@, seq![-1, 3], token);
    reveal_strlit("): ");
    lemma_long_token_is_clear("): "@, seq![-1, 3], token);
    reveal_strlit(
        "). Open/use the official Antigravity ACP agent in Zed so it can refresh or re-authenticate, then run the task again. Response: ",
    );
    lemma_long_token_is_clear(
        "). Open/use the official Antigravity ACP agent in Zed so it can refresh or re-authenticate, then run the task again. Response: "@,
        seq![-1, 24, 49, 74, 96, 116, 127],
        token,
    );
    reveal_strlit("request failed: ");
    lemma_long_token_is_clear_behind("request failed: "@, seq![-1, 16], token);
    reveal_strlit("failed reading response from ");
    lemma_long_token_is_clear_behind("failed reading response from "@, seq![-1, 23, 29], token);
    reveal_strlit("Google rejected the ACP OAuth access token (HTTP ");
    lemma_long_token_is_clear_behind(
        "Google rejected the ACP OAuth access token (HTTP "@,
        seq![-1, 23, 48, 49],
        token,
    );
    reveal_strlit("Google returned HTTP ");
    lemma_long_token_is_clear_behind("Google returned HTTP "@, seq![-1, 21], token);
    reveal_strlit("non-JSON response from ");
    lemma_long_token_is_clear_behind("non-JSON response from "@, seq![-1, 23], token);
    reveal_strlit("loadCodeAssist failed: ");
    lemma_long_token_is_clear_behind("loadCodeAssist failed: "@, seq![-1, 23], token);
    reveal_strlit("unexpected loadCodeAssist response: ");
    lemma_long_token_is_clear_behind(
        "unexpected loadCodeAssist response: "@,
        seq![-1, 10, 35, 36],
        token,
    );
    reveal_strlit("retrieveUserQuotaSummary failed: ");
    lemma_long_token_is_clear_behind(
        "retrieveUserQuotaSummary failed: "@,
        seq![-1, 24, 33],
        token,
    );
    reveal_strlit("quota lookup failed on every endpoint:\n  ");
    lemma_long_token_is_clear_behind(
        "quota lookup failed on every endpoint:\n  "@,
        seq![-1, 22, 41],
        token,
    );
    reveal_strlit("request failed to token endpoint: ");
    lemma_long_token_is_clear_behind(
        "request failed to token endpoint: "@,
        seq![-1, 23, 34],
        token,
    );
    reveal_strlit("OAuth refresh failed (HTTP ");
    lemma_long_token_is_clear_behind("OAuth refresh failed (HTTP "@, seq![-1, 21, 27], token);
    reveal_strlit("non-JSON response from OAuth token endpoint: ");
    lemma_long_token_is_clear_behind(
        "non-JSON response from OAuth token endpoint: "@,
        seq![-1, 22, 45],
        token,
    );
    reveal_strlit("failed to refresh access token using credentials from ");
    lemma_long_token_is_clear_behind(
        "failed to refresh access token using credentials from "@,
        seq![-1, 24, 48, 54],
        token,
    );
    reveal_strlit("Google returned an unexpected quota response shape: ");
    lemma_long_token_is_clear_behind(
        "Google returned an unexpected quota response shape: "@,
        seq![-1, 18, 35, 52],
        token,
    );
    reveal_strlit(
        "Google loadCodeAssist did not return cloudaicompanionProject. The account may not expose Antigravity quota or the internal API changed.",
    );
    lemma_no_long_word(no_project(), seq![-1, 21, 36, 61, 81, 106, 126, 135], token);
    reveal_strlit("OAuth token endpoint response did not contain an access_token");
    lemma_no_long_word(refresh_no_token(), seq![-1, 20, 45, 61], token);
    reveal_strlit("missing field `groups`");
    lemma_no_long_word("missing field `groups`"@, seq![-1, 22], token);
}

/// Where a text that occurs in `a + b` begins in `a` and ends in `b`.
proof fn lemma_straddles(a: Seq<char>, b: Seq<char>, secret: Seq<char>) -> (i: int)
    requires
        !contains_text(a, secret),
        !contains_text(b, secret),
        contains_text(a + b, secret),
    ensures
        0 <= i < a.len() < i + secret.len() <= a.len() + b.len(),
        (a + b).subrange(i, i + secret.len()) == secret,
{
    let whole = a + b;
    let n = secret.len();
    let i = choose|i: int| 0 <= i <= whole.len() && #[trigger] begins_with(whole.skip(i), secret);
    assert(whole.subrange(i, i + n) =~= whole.skip(i).take(n as int));
    if i + n <= a.len() {
        assert(a.skip(i).take(n as int) =~= secret);
        assert(begins_with(a.skip(i), secret));
    } else if i >= a.len() {
        assert(b.skip(i - a.len()).take(n as int) =~= secret);
        assert(begins_with(b.skip(i - a.len()), secret));
    }
    i
}

/// A text behind fixed wording hides a secret as it does alone.
proof fn lemma_behind(wording: Seq<char>, text: Seq<char>, secret: Seq<char>)
    requires
        clear_behind(secret, wording),
        !contains_text(text, secret),
    ensures
        !contains_text(wording + text, secret),
{
    if contains_text(wording + text, secret) {
        let i = lemma_straddles(wording, text, secret);
        let k = wording.len() - i;
        assert(secret.take(k) =~= wording.skip(wording.len() - k));
    }
}

/// Fixed wording between two texts hides a secret as they do.
proof fn lemma_between(a: Seq<char>, wording: Seq<char>, b: Seq<char>, secret: Seq<char>)
    requires
        clear_of(secret, wording),
        !contains_text(a, secret),
        !contains_text(b, secret),
    ensures
        !contains_text(a + wording + b, secret),
{
    let rest = wording + b;
    if contains_text(rest, secret) {
        lemma_contains_past_marker(wording, b, secret);
    }
    assert(a + wording + b =~= a + rest);
    if contains_text(a + rest, secret) {
        let i = lemma_straddles(a, rest, secret);
        let k = i + secret.len() - a.len();
        if k < wording.len() {
            assert(secret.skip(secret.len() - k) =~= wording.take(k));
        } else {
            assert(secret.skip(a.len() - i).take(wording.len() as int) =~= wording);
            assert(begins_with(secret.skip(a.len() - i), wording));
        }
    }
}

/// An address is shown as it is, and hides a secret if it does not hold it.
proof fn lemma_addressed(lead: Seq<char>, url: Seq<char>, rest: Seq<char>, secret: Seq<char>)
    requires
        clear_of(secret, ": "@),
        clear_behind(secret, lead),
        !contains_text(url, secret),
        !contains_text(rest, secret),
    ensures
        !contains_text(lead + url + ": "@ + rest, secret),
{
    lemma_behind(lead, url, secret);
    lemma_between(lead + url, ": "@, rest, secret);
}

/// An answer without the access token hides that token, and every other secret
/// that the answer hides.
proof fn lemma_excerpt_hides(
    body: Seq<char>,
    access_token: Seq<char>,
    max_chars: nat,
    secret: Seq<char>,
)
    requires
        can_be_hidden(secret),
        access_token.len() > 0,
        secret == access_token || !contains_text(body, secret),
    ensures
        !contains_text(excerpt(body, access_token, max_chars), secret),
{
    let clean = replaced(body, access_token, redaction());
    if secret == access_token {
        law_excerpt_hides_access_token(body, secret, max_chars);
    } else if contains_text(excerpt(body, access_token, max_chars), secret) {
        if clean.len() > max_chars {
            lemma_contains_take(clean, max_chars as int, secret);
        }
        lemma_replaced_adds_nothing(body, access_token, redaction(), secret);
    }
}

/// A decoder's words without the access token hide that token, and every other
/// secret that they hide.
proof fn lemma_clean_cause_hides(cause: Seq<char>, access_token: Seq<char>, secret: Seq<char>)
    requires
        can_be_hidden(secret),
        access_token.len() > 0,
        !cause_reveals(cause, access_token, secret),
    ensures
        !contains_text(without_secret(cause, access_token), secret),
{
    if secret == access_token {
        lemma_replaced_removes(cause, secret, redaction());
    } else if contains_text(without_secret(cause, access_token), secret) {
        lemma_replaced_adds_nothing(cause, access_token, redaction(), secret);
    }
}

/// Where a call to the API fails, the message does not show the access token,
/// whatever the answer's body holds, nor another secret that the body hides,
/// unless the address or what is known of the exchange does.
pub proof fn law_call_failure_hides_secrets(
    url: Seq<char>,
    delivery: DeliveryView,
    access_token: Seq<char>,
    secret: Seq<char>,
)
    requires
        can_be_hidden(secret),
        access_token.len() > 0,
        !contains_text(url, secret),
        !call_reveals(delivery, access_token, secret),
    ensures
        post_outcome(url, delivery, access_token) matches Err(message) ==> !contains_text(
            message,
            secret,
        ),
{
    match delivery {
        DeliveryView::SendFailed(cause) => {
            lemma_addressed("request failed: "@, url, cause, secret);
        },
        DeliveryView::ReadFailed(cause) => {
            lemma_addressed("failed reading response from "@, url, cause, secret);
        },
        DeliveryView::Reply { status, status_line, body } => {
            lemma_excerpt_hides(body, access_token, 200, secret);
            lemma_excerpt_hides(body, access_token, 400, secret);
            let answer = excerpt(body, access_token, 400);
            if is_success(status) {
                if let Err(cause) = parsed_json(body) {
                    let lead = "non-JSON response from "@;
                    lemma_addressed(lead, url, excerpt(body, access_token, 200), secret);
                    lemma_between(
                        lead + url + ": "@ + excerpt(body, access_token, 200),
                        ": "@,
                        cause,
                        secret,
                    );
                }
            } else if status == 401 || status == 403 {
                let lead = "Google rejected the ACP OAuth access token (HTTP "@;
                lemma_behind(lead, status_line, secret);
                lemma_between(
                    lead + status_line,
                    "). Open/use the official Antigravity ACP agent in Zed so it can refresh or re-authenticate, then run the task again. Response: "@,
                    answer,
                    secret,
                );
            } else {
                let lead = "Google returned HTTP "@;
                lemma_behind(lead, status_line, secret);
                lemma_between(lead + status_line, " from "@, url, secret);
                lemma_between(lead + status_line + " from "@ + url, ": "@, answer, secret);
            }
        },
    }
}

/// Where a refresh fails, the message shows neither the refresh token nor the
/// client secret, whatever the answer's body holds, unless the address or
/// what is known of the exchange does.
pub proof fn law_refresh_failure_hides_secrets(
    credentials: RefreshCredentialsView,
    delivery: DeliveryView,
    i: int,
)
    requires
        0 <= i < refresh_secrets(credentials).len(),
        can_be_hidden(refresh_secrets(credentials)[i]),
        !contains_text(credentials.token_uri, refresh_secrets(credentials)[i]),
        !tells(delivery, refresh_secrets(credentials)[i]),
    ensures
        refresh_outcome(credentials, delivery) matches Err(message) ==> !contains_text(
            message,
            refresh_secrets(credentials)[i],
        ),
{
    let secrets = refresh_secrets(credentials);
    let secret = secrets[i];
    match delivery {
        DeliveryView::SendFailed(cause) => {
            lemma_addressed(
                "request failed to token endpoint: "@,
                credentials.token_uri,
                cause,
                secret,
            );
        },
        DeliveryView::ReadFailed(cause) => {
            lemma_addressed(
                "failed reading response from "@,
                credentials.token_uri,
                cause,
                secret,
            );
        },
        DeliveryView::Reply { status, status_line, body } => {
            if is_success(status) {
                if let Err(cause) = parsed_json(body) {
                    lemma_behind("non-JSON response from OAuth token endpoint: "@, cause, secret);
                }
            } else {
                let lead = "OAuth refresh failed (HTTP "@;
                law_redaction_removes_secrets(body, secrets, i);
                lemma_behind(lead, status_line, secret);
                lemma_between(lead + status_line, "): "@, redacted(body, secrets), secret);
            }
        },
    }
}

/// What is said where the token file's refresh token was of no use shows
/// neither the refresh token nor the client secret, unless the path, the
/// address or what is known of the exchange does.
pub proof fn law_failed_refresh_is_reported_without_secrets(
    path: Seq<char>,
    credentials: RefreshCredentialsView,
    delivery: DeliveryView,
    i: int,
)
    requires
        0 <= i < refresh_secrets(credentials).len(),
        can_be_hidden(refresh_secrets(credentials)[i]),
        !contains_text(path, refresh_secrets(credentials)[i]),
        !contains_text(credentials.token_uri, refresh_secrets(credentials)[i]),
        !tells(delivery, refresh_secrets(credentials)[i]),
    ensures
        refresh_outcome(credentials, delivery) matches Err(error) ==> !contains_text(
            token_refresh_failed(path, error),
            refresh_secrets(credentials)[i],
        ),
{
    law_refresh_failure_hides_secrets(credentials, delivery, i);
    if let Err(error) = refresh_outcome(credentials, delivery) {
        lemma_addressed(
            "failed to refresh access token using credentials from "@,
            path,
            error,
            refresh_secrets(credentials)[i],
        );
    }
}

/// Whether no address under the given hosts holds a secret.
pub open spec fn hosts_hide(base_urls: Seq<Seq<char>>, secret: Seq<char>) -> bool {
    forall|i: int|
        0 <= i < base_urls.len() ==> {
            &&& !contains_text(#[trigger] base_urls[i], secret)
            &&& !contains_text(load_url(base_urls[i]), secret)
            &&& !contains_text(quota_url(base_urls[i]), secret)
        }
}

/// Whether no report of a lookup shows a secret.
pub open spec fn reports_hide(fetch: FetchView, secret: Seq<char>) -> bool {
    forall|i: int|
        0 <= i < fetch.reports.len() ==> !contains_text(#[trigger] fetch.reports[i], secret)
}

/// Whether what came of a step of a lookup holds a secret where it is not
/// taken out.
pub open spec fn event_reveals(
    event: FetchEventView,
    access_token: Seq<char>,
    secret: Seq<char>,
) -> bool {
    match event {
        FetchEventView::Delivered(delivery) => call_reveals(delivery, access_token, secret),
        FetchEventView::LoadDecoded(Err(cause)) => cause_reveals(cause, access_token, secret),
        FetchEventView::LoadDecoded(Ok(_)) => false,
    }
}

/// No step of a lookup writes a secret into a report, be it the access token
/// or another, unless what came of the step holds it where it is not taken
/// out.
pub proof fn law_reports_hide_secrets(
    fetch: FetchView,
    event: FetchEventView,
    secret: Seq<char>,
)
    requires
        fetch.is_consistent(),
        fetch.access_token.len() > 0,
        can_be_hidden(secret),
        hosts_hide(fetch.base_urls, secret),
        reports_hide(fetch, secret),
        !event_reveals(event, fetch.access_token, secret),
    ensures
        reports_hide(fetch_after(fetch, event), secret),
{
    let token = fetch.access_token;
    let host = fetch.current_host();
    let after = fetch_after(fetch, event);
    if after.reports != fetch.reports {
        assert(host == fetch.base_urls[fetch.reports.len() as int]);
        let error = match (fetch.stage, event) {
            (StageView::Load, FetchEventView::Delivered(delivery)) => load_failed(
                post_outcome(load_url(host), delivery, token)->Err_0,
            ),
            (StageView::Decode(_), FetchEventView::LoadDecoded(Ok(_))) => no_project(),
            (StageView::Decode(_), FetchEventView::LoadDecoded(Err(cause))) => load_unexpected(
                without_secret(cause, token),
            ),
            (StageView::Quota(_, _), FetchEventView::Delivered(delivery)) => quota_failed(
                post_outcome(quota_url(host), delivery, token)->Err_0,
            ),
            _ => Seq::empty(),
        };
        assert(after.reports == fetch.reports.push(endpoint_report(host, error)));
        match (fetch.stage, event) {
            (StageView::Load, FetchEventView::Delivered(delivery)) => {
                law_call_failure_hides_secrets(load_url(host), delivery, token, secret);
                lemma_behind(
                    "loadCodeAssist failed: "@,
                    post_outcome(load_url(host), delivery, token)->Err_0,
                    secret,
                );
            },
            (StageView::Decode(_), FetchEventView::LoadDecoded(Err(cause))) => {
                lemma_clean_cause_hides(cause, token, secret);
                lemma_behind(
                    "unexpected loadCodeAssist response: "@,
                    without_secret(cause, token),
                    secret,
                );
            },
            (StageView::Quota(_, _), FetchEventView::Delivered(delivery)) => {
                law_call_failure_hides_secrets(quota_url(host), delivery, token, secret);
                lemma_behind(
                    "retrieveUserQuotaSummary failed: "@,
                    post_outcome(quota_url(host), delivery, token)->Err_0,
                    secret,
                );
            },
            _ => {},
        }
        lemma_between(host, ": "@, error, secret);
    }
}

/// A list hides a secret where each of its parts does.
proof fn lemma_joined_hides(parts: Seq<Seq<char>>, secret: Seq<char>)
    requires
        can_be_hidden(secret),
        forall|i: int| 0 <= i < parts.len() ==> !contains_text(#[trigger] parts[i], secret),
    ensures
        !contains_text(joined(parts, "\n  "@), secret),
    decreases parts.len(),
{
    if parts.len() == 0 {
        let nothing = Seq::<char>::empty();
        if contains_text(nothing, secret) {
            let i = choose|i: int|
                0 <= i <= nothing.len() && #[trigger] begins_with(nothing.skip(i), secret);
            assert(nothing.skip(i).len() == 0);
        }
    } else if parts.len() > 1 {
        lemma_joined_hides(parts.drop_last(), secret);
        lemma_between(joined(parts.drop_last(), "\n  "@), "\n  "@, parts.last(), secret);
    }
}

/// The message of a lookup that failed on every host does not show a secret
/// that no report shows.
pub proof fn law_lookup_failure_hides_secrets(fetch: FetchView, secret: Seq<char>)
    requires
        can_be_hidden(secret),
        reports_hide(fetch, secret),
    ensures
        !contains_text(exhausted_text(fetch.reports), secret),
{
    let lead = "quota lookup failed on every endpoint:\n  "@;
    lemma_joined_hides(fetch.reports, secret);
    lemma_behind(lead, joined(fetch.reports, "\n  "@), secret);
}

/// Running a lookup writes the access token into no report.
proof fn lemma_run_hides_token(fetch: FetchView, replies: Seq<HostReplies>)
    requires
        fetch.is_consistent(),
        replies.len() == fetch.base_urls.len(),
        can_be_hidden(fetch.access_token),
        hosts_hide(fetch.base_urls, fetch.access_token),
        reports_hide(fetch, fetch.access_token),
        forall|i: int|
            0 <= i < replies.len() ==> !replies_tell(#[trigger] replies[i], fetch.access_token),
    ensures
        reports_hide(fetch_run(fetch, replies), fetch.access_token),
        fetch_run(fetch, replies).access_token == fetch.access_token,
    decreases fetch.base_urls.len() - fetch.reports.len(),
{
    if fetch.stage is Load {
        let token = fetch.access_token;
        let reply = replies[fetch.reports.len() as int];
        let load = FetchEventView::Delivered(reply.load);
        let asked = fetch_after(fetch, load);
        law_lookup_stays_consistent(fetch, load);
        law_reports_hide_secrets(fetch, load, token);
        if asked.stage is Decode {
            let answer = FetchEventView::LoadDecoded(reply.decoded);
            let decoded = fetch_after(asked, answer);
            law_lookup_stays_consistent(asked, answer);
            law_reports_hide_secrets(asked, answer, token);
            if decoded.stage is Quota {
                let quota = FetchEventView::Delivered(reply.quota);
                law_lookup_stays_consistent(decoded, quota);
                law_reports_hide_secrets(decoded, quota, token);
            }
        }
        let after = fetch_on_host(fetch, reply);
        law_host_succeeds_or_is_given_up(fetch, reply);
        if after.stage is Load {
            lemma_run_hides_token(after, replies);
        }
    }
}

/// Whether what is known of a host's answers, apart from what they say,
/// contains a text.
pub open spec fn replies_tell(replies: HostReplies, secret: Seq<char>) -> bool {
    tells(replies.load, secret) || tells(replies.quota, secret)
}

/// A lookup that fails does not show its access token, whatever its hosts
/// answer and whatever a decoder says of it, unless an address, a status line,
/// the reason why no answer arrived or the parser's complaint about an answer
/// shows it.
pub proof fn law_failed_lookup_hides_access_token(
    base_urls: Seq<Seq<char>>,
    access_token: Seq<char>,
    fallback_project: Option<Seq<char>>,
    replies: Seq<HostReplies>,
)
    requires
        replies.len() == base_urls.len(),
        can_be_hidden(access_token),
        hosts_hide(base_urls, access_token),
        forall|i: int|
            0 <= i < replies.len() ==> !replies_tell(#[trigger] replies[i], access_token),
    ensures
        fetch_action(
            fetch_run(fetch_start(base_urls, access_token, fallback_project), replies),
        ) matches FetchActionView::Fail(message) ==> !contains_text(message, access_token),
{
    let start = fetch_start(base_urls, access_token, fallback_project);
    lemma_run_hides_token(start, replies);
    law_lookup_failure_hides_secrets(fetch_run(start, replies), access_token);
}

/// Whether a check works with a secret: the refresh token or the client secret
/// while it refreshes, the access token from then on.
pub open spec fn works_with(check: CheckView, secret: Seq<char>) -> bool {
    match check.phase {
        PhaseView::Refresh { credentials, .. } => refresh_secrets(credentials).contains(secret),
        PhaseView::Fetch(fetch) => secret == fetch.access_token,
        PhaseView::Decode { access_token, .. } => secret == access_token,
        _ => false,
    }
}

/// Whether a check that has come to know a secret has kept it: nothing that it
/// says, or may come to say, holds the secret so far.
pub open spec fn keeps(check: CheckView, secret: Seq<char>) -> bool {
    &&& hosts_hide(check.base_urls, secret)
    &&& match check.phase {
        PhaseView::Token => false,
        PhaseView::Refresh { credentials, path, .. } => {
            &&& refresh_secrets(credentials).contains(secret)
            &&& !contains_text(path, secret)
            &&& !contains_text(credentials.token_uri, secret)
        },
        PhaseView::Fetch(fetch) => fetch.access_token.len() > 0 && reports_hide(fetch, secret),
        PhaseView::Decode { access_token, .. } => access_token.len() > 0,
        PhaseView::Reported(_) => true,
        PhaseView::Failed(message) => !contains_text(message, secret),
    }
}

/// Whether what came of a step of a check holds a secret where it is not taken
/// out.
pub open spec fn step_reveals(check: CheckView, event: CheckEventView, secret: Seq<char>) -> bool {
    match (check.phase, event) {
        (PhaseView::Refresh { .. }, CheckEventView::Delivered(delivery)) => tells(
            delivery,
            secret,
        ),
        (PhaseView::Fetch(fetch), CheckEventView::Delivered(delivery)) => call_reveals(
            delivery,
            fetch.access_token,
            secret,
        ),
        (PhaseView::Fetch(fetch), CheckEventView::LoadDecoded(Err(cause))) => cause_reveals(
            cause,
            fetch.access_token,
            secret,
        ),
        (
            PhaseView::Decode { access_token, .. },
            CheckEventView::QuotaDecoded(Err(cause)),
        ) => cause_reveals(cause, access_token, secret),
        _ => false,
    }
}

/// A check that takes up a secret, from the token file or from the answer to a
/// refresh, has kept it at that point, unless its hosts, the path of the token
/// file or the address for the refresh hold it.
pub proof fn law_new_secrets_are_kept(
    check: CheckView,
    event: CheckEventView,
    secret: Seq<char>,
)
    requires
        check.phase is Token || check.phase is Refresh,
        check_after(check, event).phase is Refresh ==> {
            let after = check_after(check, event).phase;
            &&& !contains_text(after->Refresh_path, secret)
            &&& !contains_text(after->Refresh_credentials.token_uri, secret)
        },
        works_with(check_after(check, event), secret),
        hosts_hide(check.base_urls, secret),
    ensures
        keeps(check_after(check, event), secret),
{
    match (check.phase, event) {
        (
            PhaseView::Token,
            CheckEventView::TokenRead(path, TokenFileView::Contents(contents)),
        ) => {
            if let Ok(tree) = parsed_json(contents) {
                law_tokens_are_long(tree);
            }
        },
        (PhaseView::Refresh { credentials, .. }, CheckEventView::Delivered(delivery)) => {
            lemma_refreshed_token_is_long(credentials, delivery);
        },
        _ => {},
    }
}

/// The access token that a refresh yields is not empty.
proof fn lemma_refreshed_token_is_long(
    credentials: RefreshCredentialsView,
    delivery: DeliveryView,
)
    ensures
        refresh_outcome(credentials, delivery) matches Ok(token) ==> token.len() > 20,
{
    if let DeliveryView::Reply { body, .. } = delivery {
        if let Ok(tree) = parsed_json(body) {
            law_tokens_are_long(tree);
        }
    }
}

/// What is said of an unexpected quota hides what the cause hides.
proof fn lemma_unexpected_shape_hides(cause: Seq<char>, secret: Seq<char>)
    requires
        can_be_hidden(secret),
        !contains_text(cause, secret),
    ensures
        !contains_text(unexpected_shape(cause), secret),
{
    lemma_behind("Google returned an unexpected quota response shape: "@, cause, secret);
}

/// A lookup that has kept a secret leads to a phase that keeps it.
proof fn lemma_lookup_keeps(check: CheckView, fetch: FetchView, secret: Seq<char>)
    requires
        can_be_hidden(secret),
        hosts_hide(check.base_urls, secret),
        fetch.is_consistent(),
        fetch.access_token.len() > 0,
        reports_hide(fetch, secret),
    ensures
        keeps(CheckView { phase: phase_of_lookup(check.options, fetch), ..check }, secret),
{
    law_lookup_failure_hides_secrets(fetch, secret);
    lemma_unexpected_shape_hides("missing field `groups`"@, secret);
}

/// No step makes a check say a secret that it has kept, unless what came of
/// the step holds the secret where it is not taken out.
pub proof fn law_secrets_stay_kept(check: CheckView, event: CheckEventView, secret: Seq<char>)
    requires
        check.is_consistent(),
        can_be_hidden(secret),
        keeps(check, secret),
        !step_reveals(check, event, secret),
    ensures
        keeps(check_after(check, event), secret),
{
    match (check.phase, event) {
        (
            PhaseView::Refresh { credentials, path, fallback },
            CheckEventView::Delivered(delivery),
        ) => {
            let secrets = refresh_secrets(credentials);
            let i = choose|i: int| 0 <= i < secrets.len() && secrets[i] == secret;
            law_failed_refresh_is_reported_without_secrets(path, credentials, delivery, i);
            lemma_refreshed_token_is_long(credentials, delivery);
            if let Ok(token) = refresh_outcome(credentials, delivery) {
                lemma_lookup_keeps(check, fetch_start(check.base_urls, token, fallback), secret);
            }
        },
        (PhaseView::Fetch(fetch), CheckEventView::Delivered(delivery)) => {
            let step = FetchEventView::Delivered(delivery);
            law_lookup_stays_consistent(fetch, step);
            law_reports_hide_secrets(fetch, step, secret);
            lemma_lookup_keeps(check, fetch_after(fetch, step), secret);
        },
        (PhaseView::Fetch(fetch), CheckEventView::LoadDecoded(decoded)) => {
            let step = FetchEventView::LoadDecoded(decoded);
            law_lookup_stays_consistent(fetch, step);
            law_reports_hide_secrets(fetch, step, secret);
            lemma_lookup_keeps(check, fetch_after(fetch, step), secret);
        },
        (
            PhaseView::Decode { fetched, access_token },
            CheckEventView::QuotaDecoded(decoded),
        ) => {
            lemma_unexpected_shape_hides("missing field `groups`"@, secret);
            if let Err(cause) = decoded {
                lemma_clean_cause_hides(cause, access_token, secret);
                lemma_unexpected_shape_hides(without_secret(cause, access_token), secret);
            }
        },
        _ => {},
    }
}

/// A check after several events.
pub open spec fn check_run(check: CheckView, events: Seq<CheckEventView>) -> CheckView
    decreases events.len(),
{
    if events.len() == 0 {
        check
    } else {
        check_run(check_after(check, events[0]), events.skip(1))
    }
}

/// Whether what came of any of several steps holds a secret where it is not
/// taken out.
pub open spec fn run_reveals(
    check: CheckView,
    events: Seq<CheckEventView>,
    secret: Seq<char>,
) -> bool
    decreases events.len(),
{
    events.len() > 0 && (step_reveals(check, events[0], secret) || run_reveals(
        check_after(check, events[0]),
        events.skip(1),
        secret,
    ))
}

/// From the point where a check has come to know the access token, the refresh
/// token or the client secret, no failure that it ends with shows that secret,
/// unless what came of a step holds it where it is not taken out.
pub proof fn law_failed_check_hides_secrets(
    check: CheckView,
    events: Seq<CheckEventView>,
    secret: Seq<char>,
)
    requires
        check.is_consistent(),
        can_be_hidden(secret),
        keeps(check, secret),
        !run_reveals(check, events, secret),
    ensures
        check_action(check_run(check, events)) matches CheckActionView::Fail(message)
            ==> !contains_text(message, secret),
    decreases events.len(),
{
    if events.len() > 0 {
        law_check_stays_consistent(check, events[0]);
        law_secrets_stay_kept(check, events[0], secret);
        law_failed_check_hides_secrets(check_after(check, events[0]), events.skip(1), secret);
    }
}

/// From the step on in which a check takes up a secret, no failure that it
/// ends with shows that secret, unless its hosts, the path of the token file,
/// the address for the refresh or what came of a later step, where it is not
/// taken out, hold it.
pub proof fn law_check_hides_its_secrets(
    check: CheckView,
    event: CheckEventView,
    later: Seq<CheckEventView>,
    secret: Seq<char>,
)
    requires
        check.is_consistent(),
        check.phase is Token || check.phase is Refresh,
        works_with(check_after(check, event), secret),
        can_be_hidden(secret),
        hosts_hide(check.base_urls, secret),
        check_after(check, event).phase is Refresh ==> {
            let after = check_after(check, event).phase;
            &&& !contains_text(after->Refresh_path, secret)
            &&& !contains_text(after->Refresh_credentials.token_uri, secret)
        },
        !run_reveals(check_after(check, event), later, secret),
    ensures
        check_action(check_run(check_after(check, event), later)) matches CheckActionView::Fail(
            message,
        ) ==> !contains_text(message, secret),
{
    law_check_stays_consistent(check, event);
    law_new_secrets_are_kept(check, event, secret);
    law_failed_check_hides_secrets(check_after(check, event), later, secret);
}

} // verus!
