//! OAuth credentials: where the access token stands in the token file, when
//! it has to be refreshed, and how secrets are kept out of messages.
use crate::http::is_success;
use crate::http::Delivery;
use crate::http::DeliveryView;
use crate::json::distinct_keys;
use crate::json::entry_of;
use crate::json::json_string;
use crate::json::law_absent_keys_name_nothing;
use crate::json::law_keys_are_unambiguous;
use crate::json::parse_json;
use crate::json::parsed_json;
use crate::json::well_formed;
use crate::json::JsonTree;
use crate::json::JsonValue;
use crate::text::begins_with;
use crate::text::clear_of;
use crate::text::contains_text;
use crate::text::law_replacing_nothing_changes_nothing;
use crate::text::law_the_first_match_is_replaced;
use crate::text::lemma_replaced_adds_nothing;
use crate::text::lemma_replaced_removes;
use crate::text::optional_slice;
use crate::text::optional_text;
use crate::text::replace_all;
use crate::text::replaced;
use crate::text::slice_texts;
use crate::text::trimmed;
use vstd::prelude::*;
use vstd::string::StrSliceExecFns;
use vstd::string::StringExecFns;

verus! {

/// Largest token file that is read, in bytes. Anything larger is not what it
/// is taken for.
pub const MAX_TOKEN_FILE_SIZE_BYTES: u64 = 2 * 1024 * 1024;

/// What a search in a JSON document looks for under a key.
#[derive(Debug, Clone, Copy, PartialEq, Eq)]
pub enum Wanted {
    /// A string that is not blank.
    Text,
    /// A string long enough to be a token: more than 20 characters.
    Token,
}

impl Wanted {
    /// Whether a string, without the white space at its ends, will do.
    pub open spec fn fits(self, text: Seq<char>) -> bool {
        match self {
            Wanted::Text => text.len() > 0,
            Wanted::Token => text.len() > 20,
        }
    }
}

/// The documents directly within a document, in the order they are walked.
pub open spec fn children(tree: JsonTree) -> Seq<JsonTree> {
    match tree {
        JsonTree::Array(items) => items,
        JsonTree::Object(entries) => Seq::new(entries.len(), |i: int| entries[i].1),
        _ => Seq::empty(),
    }
}

/// What an object itself has under `key`, trimmed, if that is a string that
/// will do.
pub open spec fn own_text(tree: JsonTree, key: Seq<char>, wanted: Wanted) -> Option<Seq<char>> {
    match tree {
        JsonTree::Object(entries) => match entry_of(entries, key) {
            Some(JsonTree::String(text)) if wanted.fits(trimmed(text)) => Some(trimmed(text)),
            _ => None,
        },
        _ => None,
    }
}

/// A child is smaller than the document it stands in.
pub proof fn lemma_child_smaller(tree: JsonTree, i: int)
    requires
        0 <= i < children(tree).len(),
    ensures
        decreases_to!(tree => children(tree)[i]),
{
    match tree {
        JsonTree::Array(items) => {
            assert(decreases_to!(tree => tree->Array_0));
            assert(decreases_to!(items => items[i]));
        },
        JsonTree::Object(entries) => {
            assert(decreases_to!(tree => tree->Object_0));
            assert(decreases_to!(entries => entries[i]));
            assert(decreases_to!(entries[i] => entries[i].1));
        },
        _ => {},
    }
}

/// The first fitting string under `key`: an object's own entry comes before
/// what stands within its entries, and what stands earlier before what stands
/// later.
pub open spec fn named_text(tree: JsonTree, key: Seq<char>, wanted: Wanted) -> Option<Seq<char>>
    decreases tree, children(tree).len() + 1,
{
    match own_text(tree, key, wanted) {
        Some(text) => Some(text),
        None => named_text_below(tree, 0, key, wanted),
    }
}

/// The first fitting string under `key` within the children from `from` on.
pub open spec fn named_text_below(
    tree: JsonTree,
    from: int,
    key: Seq<char>,
    wanted: Wanted,
) -> Option<Seq<char>>
    decreases tree, children(tree).len() - from,
{
    if 0 <= from < children(tree).len() {
        proof {
            lemma_child_smaller(tree, from);
        }
        match named_text(children(tree)[from], key, wanted) {
            Some(text) => Some(text),
            None => named_text_below(tree, from + 1, key, wanted),
        }
    } else {
        None
    }
}

/// The result for the first of several keys that has one.
pub open spec fn first_named(
    tree: JsonTree,
    keys: Seq<Seq<char>>,
    wanted: Wanted,
) -> Option<Seq<char>>
    decreases keys.len(),
{
    if keys.len() == 0 {
        None
    } else {
        match named_text(tree, keys[0], wanted) {
            Some(text) => Some(text),
            None => first_named(tree, keys.skip(1), wanted),
        }
    }
}

/// Whether a string will do, once trimmed.
fn fits(text: &str, wanted: Wanted) -> (fits: bool)
    ensures
        fits == wanted.fits(text@),
{
    match wanted {
        Wanted::Text => !text.is_empty(),
        Wanted::Token => text.unicode_len() > 20,
    }
}

/// Searches a document for a fitting string under a key.
fn find_named<'a>(value: &'a JsonValue, key: &str, wanted: Wanted) -> (found: Option<&'a str>)
    ensures
        optional_slice(found) == named_text(value@, key@, wanted),
    decreases value@,
{
    if let Some(JsonValue::String(text)) = value.get(key) {
        let trim = text.trim();
        if fits(trim, wanted) {
            return Some(trim);
        }
    }
    match value {
        JsonValue::Object(entries) => {
            for i in 0..entries.len()
                invariant
                    *value == JsonValue::Object(*entries),
                    named_text(value@, key@, wanted) == named_text_below(
                        value@,
                        i as int,
                        key@,
                        wanted,
                    ),
            {
                let child = &entries[i].1;
                assert(child@ == children(value@)[i as int]);
                proof {
                    lemma_child_smaller(value@, i as int);
                }
                if let Some(text) = find_named(child, key, wanted) {
                    return Some(text);
                }
            }
        },
        JsonValue::Array(items) => {
            for i in 0..items.len()
                invariant
                    *value == JsonValue::Array(*items),
                    named_text(value@, key@, wanted) == named_text_below(
                        value@,
                        i as int,
                        key@,
                        wanted,
                    ),
            {
                let child = &items[i];
                assert(child@ == children(value@)[i as int]);
                proof {
                    lemma_child_smaller(value@, i as int);
                }
                if let Some(text) = find_named(child, key, wanted) {
                    return Some(text);
                }
            }
        },
        _ => {},
    }
    None
}

/// Finds a string that is not blank under the given key, anywhere in a
/// document.
pub fn find_named_string<'a>(value: &'a JsonValue, key: &str) -> (found: Option<&'a str>)
    ensures
        optional_slice(found) == named_text(value@, key@, Wanted::Text),
{
    find_named(value, key, Wanted::Text)
}

/// Finds a string of more than 20 characters under the given key, anywhere in a
/// document.
pub fn find_named_token<'a>(value: &'a JsonValue, key: &str) -> (found: Option<&'a str>)
    ensures
        optional_slice(found) == named_text(value@, key@, Wanted::Token),
{
    find_named(value, key, Wanted::Token)
}

/// Searches a document under several keys, in the order in which they are
/// preferred.
fn find_first<'a>(value: &'a JsonValue, keys: &[&str], wanted: Wanted) -> (found: Option<&'a str>)
    ensures
        optional_slice(found) == first_named(value@, slice_texts(keys@), wanted),
{
    let ghost names = slice_texts(keys@);
    assert(names.skip(0) =~= names);
    for i in 0..keys.len()
        invariant
            names == slice_texts(keys@),
            first_named(value@, names, wanted) == first_named(
                value@,
                names.skip(i as int),
                wanted,
            ),
    {
        assert(names.skip(i as int)[0] == keys@[i as int]@);
        assert(names.skip(i as int).skip(1) =~= names.skip(i + 1));
        if let Some(text) = find_named(value, keys[i], wanted) {
            return Some(text);
        }
    }
    None
}

/// The keys under which an access token may stand, best first.
pub open spec fn access_token_keys() -> Seq<Seq<char>> {
    seq!["access_token"@, "accessToken"@, "access"@, "token"@]
}

/// The keys under which a refresh token may stand, best first.
pub open spec fn refresh_token_keys() -> Seq<Seq<char>> {
    seq!["refresh_token"@, "refreshToken"@]
}

/// The access token in a document.
pub open spec fn access_token_of(tree: JsonTree) -> Option<Seq<char>> {
    first_named(tree, access_token_keys(), Wanted::Token)
}

/// The refresh token in a document.
pub open spec fn refresh_token_of(tree: JsonTree) -> Option<Seq<char>> {
    first_named(tree, refresh_token_keys(), Wanted::Token)
}

/// The project that a token file names.
pub open spec fn project_id_of(tree: JsonTree) -> Option<Seq<char>> {
    first_named(tree, seq!["project_id"@, "projectId"@], Wanted::Text)
}

/// Searches a document for an access token.
pub fn find_access_token(value: &JsonValue) -> (found: Option<&str>)
    ensures
        optional_slice(found) == access_token_of(value@),
{
    let keys = ["access_token", "accessToken", "access", "token"];
    assert(slice_texts(keys@) =~= access_token_keys());
    find_first(value, keys.as_slice(), Wanted::Token)
}

/// Searches a document for a refresh token.
pub fn find_refresh_token(value: &JsonValue) -> (found: Option<&str>)
    ensures
        optional_slice(found) == refresh_token_of(value@),
{
    let keys = ["refresh_token", "refreshToken"];
    assert(slice_texts(keys@) =~= refresh_token_keys());
    find_first(value, keys.as_slice(), Wanted::Token)
}

/// Searches a token file for the project to fall back on.
pub fn find_project_id(value: &JsonValue) -> (found: Option<&str>)
    ensures
        optional_slice(found) == project_id_of(value@),
{
    let keys = ["project_id", "projectId"];
    assert(slice_texts(keys@) =~= seq!["project_id"@, "projectId"@]);
    find_first(value, keys.as_slice(), Wanted::Text)
}

/// What it takes to exchange a refresh token for an access token.
#[derive(Debug, PartialEq, Eq)]
pub struct RefreshCredentials {
    pub token_uri: String,
    pub refresh_token: String,
    pub client_id: Option<String>,
    pub client_secret: Option<String>,
}

/// What [`RefreshCredentials`] hold.
pub ghost struct RefreshCredentialsView {
    pub token_uri: Seq<char>,
    pub refresh_token: Seq<char>,
    pub client_id: Option<Seq<char>>,
    pub client_secret: Option<Seq<char>>,
}

impl View for RefreshCredentials {
    type V = RefreshCredentialsView;

    open spec fn view(&self) -> RefreshCredentialsView {
        RefreshCredentialsView {
            token_uri: self.token_uri@,
            refresh_token: self.refresh_token@,
            client_id: optional_text(self.client_id),
            client_secret: optional_text(self.client_secret),
        }
    }
}

/// Where the access token comes from.
#[derive(Debug, PartialEq, Eq)]
pub enum TokenSource {
    /// The token file holds it.
    Access(String),
    /// It has to be asked for.
    Refresh(RefreshCredentials),
}

/// What a [`TokenSource`] says.
pub ghost enum TokenSourceView {
    Access(Seq<char>),
    Refresh(RefreshCredentialsView),
}

impl View for TokenSource {
    type V = TokenSourceView;

    open spec fn view(&self) -> TokenSourceView {
        match self {
            TokenSource::Access(token) => TokenSourceView::Access(token@),
            TokenSource::Refresh(credentials) => TokenSourceView::Refresh(credentials@),
        }
    }
}

/// The refresh credentials that go with a refresh token in a document.
pub open spec fn refresh_credentials_of(
    tree: JsonTree,
    refresh_token: Seq<char>,
) -> RefreshCredentialsView {
    RefreshCredentialsView {
        token_uri: match first_named(tree, seq!["token_uri"@, "tokenUri"@], Wanted::Text) {
            Some(uri) => uri,
            None => "https://oauth2.googleapis.com/token"@,
        },
        refresh_token,
        client_id: first_named(tree, seq!["client_id"@, "clientId"@], Wanted::Text),
        client_secret: first_named(tree, seq!["client_secret"@, "clientSecret"@], Wanted::Text),
    }
}

/// Where the access token of a token file comes from: the file's own access
/// token if it has one, else its refresh token.
pub open spec fn token_source_of(tree: JsonTree) -> Option<TokenSourceView> {
    match access_token_of(tree) {
        Some(token) => Some(TokenSourceView::Access(token)),
        None => match refresh_token_of(tree) {
            Some(token) => Some(TokenSourceView::Refresh(refresh_credentials_of(tree, token))),
            None => None,
        },
    }
}

/// Why the exchange of a refresh token failed.
#[derive(Debug, PartialEq, Eq)]
pub enum RefreshError {
    SendFailed { token_uri: String, cause: String },
    ReadFailed { token_uri: String, cause: String },
    /// The endpoint refused; its answer, without secrets.
    Refused { status_line: String, answer: String },
    NotJson { cause: String },
    NoAccessToken,
}

impl RefreshError {
    /// The message for the user.
    pub open spec fn text(self) -> Seq<char> {
        match self {
            RefreshError::SendFailed { token_uri, cause } => refresh_send_failed(
                token_uri@,
                cause@,
            ),
            RefreshError::ReadFailed { token_uri, cause } => refresh_read_failed(
                token_uri@,
                cause@,
            ),
            RefreshError::Refused { status_line, answer } => refresh_refused(
                status_line@,
                answer@,
            ),
            RefreshError::NotJson { cause } => refresh_not_json(cause@),
            RefreshError::NoAccessToken => refresh_no_token(),
        }
    }

    /// Words the error for the user.
    pub fn message(&self) -> (message: String)
        ensures
            message@ == self.text(),
    {
        match self {
            RefreshError::SendFailed { token_uri, cause } => {
                "request failed to token endpoint: ".to_owned().concat(token_uri.as_str()).concat(
                    ": ",
                ).concat(cause.as_str())
            },
            RefreshError::ReadFailed { token_uri, cause } => {
                "failed reading response from ".to_owned().concat(token_uri.as_str()).concat(
                    ": ",
                ).concat(cause.as_str())
            },
            RefreshError::Refused { status_line, answer } => {
                "OAuth refresh failed (HTTP ".to_owned().concat(status_line.as_str()).concat(
                    "): ",
                ).concat(answer.as_str())
            },
            RefreshError::NotJson { cause } => {
                "non-JSON response from OAuth token endpoint: ".to_owned().concat(cause.as_str())
            },
            RefreshError::NoAccessToken => {
                "OAuth token endpoint response did not contain an access_token".to_owned()
            },
        }
    }
}

/// The message where the refresh request could not be sent.
pub open spec fn refresh_send_failed(token_uri: Seq<char>, cause: Seq<char>) -> Seq<char> {
    "request failed to token endpoint: "@ + token_uri + ": "@ + cause
}

/// The message where the refresh answer could not be read.
pub open spec fn refresh_read_failed(token_uri: Seq<char>, cause: Seq<char>) -> Seq<char> {
    "failed reading response from "@ + token_uri + ": "@ + cause
}

/// The message where the token endpoint refused.
pub open spec fn refresh_refused(status_line: Seq<char>, answer: Seq<char>) -> Seq<char> {
    "OAuth refresh failed (HTTP "@ + status_line + "): "@ + answer
}

/// The message where the refresh answer is no JSON document.
pub open spec fn refresh_not_json(cause: Seq<char>) -> Seq<char> {
    "non-JSON response from OAuth token endpoint: "@ + cause
}

/// The message where the refresh answer holds no access token.
pub open spec fn refresh_no_token() -> Seq<char> {
    "OAuth token endpoint response did not contain an access_token"@
}

/// Why there is no access token.
#[derive(Debug, PartialEq, Eq)]
pub enum AuthError {
    NotFound { path: String, cause: String },
    TooLarge { path: String },
    Unreadable { path: String, cause: String },
    NotJson { path: String, cause: String },
    NoToken { path: String },
    RefreshFailed { path: String, error: RefreshError },
}

/// The message where the token file does not exist.
pub open spec fn token_file_not_found(path: Seq<char>, cause: Seq<char>) -> Seq<char> {
    "ACP OAuth token file not found: "@ + path
        + ". Authenticate the Antigravity ACP agent in Zed first.: "@ + cause
}

/// The message where the token file is too large.
pub open spec fn token_file_too_large(path: Seq<char>) -> Seq<char> {
    "Refusing to read unexpectedly large token file: "@ + path
}

/// The message where the token file cannot be read.
pub open spec fn token_file_unreadable(path: Seq<char>, cause: Seq<char>) -> Seq<char> {
    "failed to read "@ + path + ": "@ + cause
}

/// The message where the token file is no JSON document.
pub open spec fn token_file_not_json(path: Seq<char>, cause: Seq<char>) -> Seq<char> {
    "failed to parse "@ + path + ": "@ + cause
}

/// The message where the token file holds no token.
pub open spec fn token_file_without_token(path: Seq<char>) -> Seq<char> {
    "No OAuth access token or refresh token found in "@ + path
        + ". The ACP token schema may have changed."@
}

/// The message where the token file's refresh token was of no use.
pub open spec fn token_refresh_failed(path: Seq<char>, error: Seq<char>) -> Seq<char> {
    "failed to refresh access token using credentials from "@ + path + ": "@ + error
}

impl AuthError {
    /// The message for the user.
    pub open spec fn text(self) -> Seq<char> {
        match self {
            AuthError::NotFound { path, cause } => token_file_not_found(path@, cause@),
            AuthError::TooLarge { path } => token_file_too_large(path@),
            AuthError::Unreadable { path, cause } => token_file_unreadable(path@, cause@),
            AuthError::NotJson { path, cause } => token_file_not_json(path@, cause@),
            AuthError::NoToken { path } => token_file_without_token(path@),
            AuthError::RefreshFailed { path, error } => token_refresh_failed(path@, error.text()),
        }
    }

    /// Words the error for the user.
    pub fn message(&self) -> (message: String)
        ensures
            message@ == self.text(),
    {
        match self {
            AuthError::NotFound { path, cause } => {
                "ACP OAuth token file not found: ".to_owned().concat(path.as_str()).concat(
                    ". Authenticate the Antigravity ACP agent in Zed first.: ",
                ).concat(cause.as_str())
            },
            AuthError::TooLarge { path } => {
                "Refusing to read unexpectedly large token file: ".to_owned().concat(path.as_str())
            },
            AuthError::Unreadable { path, cause } => {
                "failed to read ".to_owned().concat(path.as_str()).concat(": ").concat(
                    cause.as_str(),
                )
            },
            AuthError::NotJson { path, cause } => {
                "failed to parse ".to_owned().concat(path.as_str()).concat(": ").concat(
                    cause.as_str(),
                )
            },
            AuthError::NoToken { path } => {
                "No OAuth access token or refresh token found in ".to_owned().concat(
                    path.as_str(),
                ).concat(". The ACP token schema may have changed.")
            },
            AuthError::RefreshFailed { path, error } => {
                let reason = error.message();
                "failed to refresh access token using credentials from ".to_owned().concat(
                    path.as_str(),
                ).concat(": ").concat(reason.as_str())
            },
        }
    }
}

/// Makes a string of one's own of an optional slice.
fn owned(text: Option<&str>) -> (string: Option<String>)
    ensures
        optional_text(string) == optional_slice(text),
{
    match text {
        Some(t) => Some(t.to_owned()),
        None => None,
    }
}

/// Decides where the access token comes from:
/// - a direct access token in the token file is used as it is;
/// - otherwise its refresh token is to be exchanged for one.
///
/// # Errors
///
/// [`AuthError::NoToken`] where the file holds neither.
pub fn resolve_access_token(token_json: &JsonValue, token_path: &str) -> (result: Result<
    TokenSource,
    AuthError,
>)
    ensures
        match result {
            Ok(source) => token_source_of(token_json@) == Some(source@),
            Err(AuthError::NoToken { path }) => token_source_of(token_json@) is None && path@
                == token_path@,
            Err(_) => false,
        },
{
    if let Some(token) = find_access_token(token_json) {
        return Ok(TokenSource::Access(token.to_owned()));
    }
    if let Some(refresh_token) = find_refresh_token(token_json) {
        let id_keys = ["client_id", "clientId"];
        let secret_keys = ["client_secret", "clientSecret"];
        let uri_keys = ["token_uri", "tokenUri"];
        assert(slice_texts(id_keys@) =~= seq!["client_id"@, "clientId"@]);
        assert(slice_texts(secret_keys@) =~= seq!["client_secret"@, "clientSecret"@]);
        assert(slice_texts(uri_keys@) =~= seq!["token_uri"@, "tokenUri"@]);
        let client_id = find_first(token_json, id_keys.as_slice(), Wanted::Text);
        let client_secret = find_first(token_json, secret_keys.as_slice(), Wanted::Text);
        let token_uri = match find_first(token_json, uri_keys.as_slice(), Wanted::Text) {
            Some(uri) => uri,
            None => "https://oauth2.googleapis.com/token",
        };
        return Ok(
            TokenSource::Refresh(
                RefreshCredentials {
                    token_uri: token_uri.to_owned(),
                    refresh_token: refresh_token.to_owned(),
                    client_id: owned(client_id),
                    client_secret: owned(client_secret),
                },
            ),
        );
    }
    Err(AuthError::NoToken { path: token_path.to_owned() })
}

/// What stands in the place of a secret.
pub open spec fn redaction() -> Seq<char> {
    "[redacted]"@
}

/// `text` with one secret taken out.
pub open spec fn without_secret(text: Seq<char>, secret: Seq<char>) -> Seq<char> {
    if secret.len() == 0 {
        text
    } else {
        replaced(text, secret, redaction())
    }
}

/// Takes one sensitive string out of a text.
pub fn remove_secret(text: &str, secret: &str) -> (result: String)
    ensures
        result@ == without_secret(text@, secret@),
{
    if secret.is_empty() {
        text.to_owned()
    } else {
        replace_all(text, secret, "[redacted]")
    }
}

/// `text` with several secrets taken out, one after the other.
pub open spec fn redacted(text: Seq<char>, secrets: Seq<Seq<char>>) -> Seq<char>
    decreases secrets.len(),
{
    if secrets.len() == 0 {
        text
    } else {
        redacted(without_secret(text, secrets[0]), secrets.skip(1))
    }
}

/// Takes sensitive strings out of a text.
pub fn redact_secrets(text: &str, secrets: &[&str]) -> (result: String)
    ensures
        result@ == redacted(text@, slice_texts(secrets@)),
{
    let ghost all = slice_texts(secrets@);
    let mut result = text.to_owned();
    assert(all.skip(0) =~= all);
    for i in 0..secrets.len()
        invariant
            all == slice_texts(secrets@),
            redacted(result@, all.skip(i as int)) == redacted(text@, all),
    {
        let secret = secrets[i];
        assert(all.skip(i as int)[0] == secret@);
        assert(all.skip(i as int).skip(1) =~= all.skip(i + 1));
        result = remove_secret(result.as_str(), secret);
    }
    result
}

/// Taking secrets out brings no occurrence of a text that shares nothing with
/// the placeholder.
pub proof fn law_redaction_adds_nothing(
    text: Seq<char>,
    secrets: Seq<Seq<char>>,
    part: Seq<char>,
)
    requires
        clear_of(part, redaction()),
        contains_text(redacted(text, secrets), part),
    ensures
        contains_text(text, part),
    decreases secrets.len(),
{
    if secrets.len() > 0 {
        law_redaction_adds_nothing(without_secret(text, secrets[0]), secrets.skip(1), part);
        if secrets[0].len() > 0 {
            lemma_replaced_adds_nothing(text, secrets[0], redaction(), part);
        }
    }
}

/// No secret that shares nothing with the placeholder is left in a redacted
/// text.
pub proof fn law_redaction_removes_secrets(text: Seq<char>, secrets: Seq<Seq<char>>, i: int)
    requires
        0 <= i < secrets.len(),
        secrets[i].len() > 0,
        clear_of(secrets[i], redaction()),
    ensures
        !contains_text(redacted(text, secrets), secrets[i]),
    decreases secrets.len(),
{
    let first = without_secret(text, secrets[0]);
    if i == 0 {
        lemma_replaced_removes(text, secrets[0], redaction());
        if contains_text(redacted(text, secrets), secrets[0]) {
            law_redaction_adds_nothing(first, secrets.skip(1), secrets[0]);
        }
    } else {
        law_redaction_removes_secrets(first, secrets.skip(1), i - 1);
    }
}

/// The entry for an optional credential.
pub open spec fn optional_entry(
    key: Seq<char>,
    value: Option<Seq<char>>,
) -> Seq<(Seq<char>, JsonTree)> {
    match value {
        Some(text) => seq![(key, JsonTree::String(text))],
        None => Seq::empty(),
    }
}

/// The body of a refresh request.
pub open spec fn refresh_body_tree(credentials: RefreshCredentialsView) -> JsonTree {
    JsonTree::Object(
        optional_entry("client_id"@, credentials.client_id) + optional_entry(
            "client_secret"@,
            credentials.client_secret,
        ) + seq![
            ("grant_type"@, JsonTree::String("refresh_token"@)),
            ("refresh_token"@, JsonTree::String(credentials.refresh_token)),
        ],
    )
}

/// Builds the body of a refresh request.
pub fn refresh_body(credentials: &RefreshCredentials) -> (body: JsonValue)
    ensures
        body@ == refresh_body_tree(credentials@),
{
    let mut entries: Vec<(String, JsonValue)> = Vec::new();
    if let Some(id) = &credentials.client_id {
        entries.push(("client_id".to_owned(), json_string(id.as_str())));
    }
    if let Some(secret) = &credentials.client_secret {
        entries.push(("client_secret".to_owned(), json_string(secret.as_str())));
    }
    entries.push(("grant_type".to_owned(), json_string("refresh_token")));
    entries.push(("refresh_token".to_owned(), json_string(credentials.refresh_token.as_str())));
    let body = JsonValue::Object(entries);
    assert(body.tree()->Object_0 =~= refresh_body_tree(credentials@)->Object_0);
    body
}

/// The secrets that a token endpoint's answer must not show.
pub open spec fn refresh_secrets(credentials: RefreshCredentialsView) -> Seq<Seq<char>> {
    match credentials.client_secret {
        Some(secret) => seq![credentials.refresh_token, secret],
        None => seq![credentials.refresh_token],
    }
}

/// The body of the token endpoint's answer, where it reports success.
///
/// # Errors
///
/// Says what went wrong; the answer of an endpoint that refused is shown
/// without the refresh token and the client secret.
pub fn accept_refresh_reply<'a>(
    credentials: &RefreshCredentials,
    delivery: &'a Delivery,
) -> (result: Result<&'a str, RefreshError>)
    ensures
        match delivery@ {
            DeliveryView::SendFailed(why) => result matches Err(
                RefreshError::SendFailed { token_uri, cause },
            ) && token_uri@ == credentials.token_uri@ && cause@ == why,
            DeliveryView::ReadFailed(why) => result matches Err(
                RefreshError::ReadFailed { token_uri, cause },
            ) && token_uri@ == credentials.token_uri@ && cause@ == why,
            DeliveryView::Reply { status, status_line, body } => if is_success(status) {
                result matches Ok(text) && text@ == body
            } else {
                result matches Err(RefreshError::Refused { status_line: line, answer })
                    && line@ == status_line && answer@ == redacted(
                    body,
                    refresh_secrets(credentials@),
                )
            },
        },
{
    match delivery {
        Delivery::SendFailed(cause) => Err(
            RefreshError::SendFailed {
                token_uri: credentials.token_uri.clone(),
                cause: cause.clone(),
            },
        ),
        Delivery::ReadFailed(cause) => Err(
            RefreshError::ReadFailed {
                token_uri: credentials.token_uri.clone(),
                cause: cause.clone(),
            },
        ),
        Delivery::Reply(reply) => {
            if 200 <= reply.status && reply.status < 300 {
                return Ok(reply.body.as_str());
            }
            let mut secrets: Vec<&str> = Vec::new();
            secrets.push(credentials.refresh_token.as_str());
            if let Some(secret) = &credentials.client_secret {
                secrets.push(secret.as_str());
            }
            assert(slice_texts(secrets@) =~= refresh_secrets(credentials@));
            let answer = redact_secrets(reply.body.as_str(), secrets.as_slice());
            Err(RefreshError::Refused { status_line: reply.status_line.clone(), answer })
        },
    }
}

/// The access token in the document that a token endpoint answered with.
///
/// # Errors
///
/// [`RefreshError::NotJson`] where the answer is no JSON document, and
/// [`RefreshError::NoAccessToken`] where it holds no access token.
pub fn accept_refresh_document(document: Result<JsonValue, String>) -> (result: Result<
    String,
    RefreshError,
>)
    ensures
        match document {
            Err(message) => result matches Err(RefreshError::NotJson { cause }) && cause@
                == message@,
            Ok(value) => match access_token_of(value@) {
                Some(token) => result matches Ok(text) && text@ == token,
                None => result == Err::<String, RefreshError>(RefreshError::NoAccessToken),
            },
        },
{
    match document {
        Err(cause) => Err(RefreshError::NotJson { cause }),
        Ok(value) => match find_access_token(&value) {
            Some(token) => Ok(token.to_owned()),
            None => Err(RefreshError::NoAccessToken),
        },
    }
}

/// What comes of a refresh request: the new access token or a message.
pub open spec fn refresh_outcome(
    credentials: RefreshCredentialsView,
    delivery: DeliveryView,
) -> Result<Seq<char>, Seq<char>> {
    match delivery {
        DeliveryView::SendFailed(cause) => Err(refresh_send_failed(credentials.token_uri, cause)),
        DeliveryView::ReadFailed(cause) => Err(refresh_read_failed(credentials.token_uri, cause)),
        DeliveryView::Reply { status, status_line, body } => if is_success(status) {
            match parsed_json(body) {
                Err(cause) => Err(refresh_not_json(cause)),
                Ok(tree) => match access_token_of(tree) {
                    Some(token) => Ok(token),
                    None => Err(refresh_no_token()),
                },
            }
        } else {
            Err(refresh_refused(status_line, redacted(body, refresh_secrets(credentials))))
        },
    }
}

/// Takes the short-lived access token from what came of a refresh request.
///
/// # Errors
///
/// Says why there is none.
pub fn refresh_access_token(
    credentials: &RefreshCredentials,
    delivery: &Delivery,
) -> (result: Result<String, RefreshError>)
    ensures
        match result {
            Ok(token) => refresh_outcome(credentials@, delivery@) == Ok::<Seq<char>, Seq<char>>(
                token@,
            ),
            Err(error) => refresh_outcome(credentials@, delivery@) == Err::<Seq<char>, Seq<char>>(
                error.text(),
            ),
        },
{
    match accept_refresh_reply(credentials, delivery) {
        Ok(body) => accept_refresh_document(parse_json(body)),
        Err(error) => Err(error),
    }
}

/// The token file's document.
///
/// # Errors
///
/// [`AuthError::NotJson`] where its contents are no JSON document.
pub fn accept_token_document(path: &str, document: Result<JsonValue, String>) -> (result: Result<
    JsonValue,
    AuthError,
>)
    ensures
        match document {
            Ok(value) => result == Ok::<JsonValue, AuthError>(value),
            Err(message) => result matches Err(AuthError::NotJson { path: p, cause }) && p@ == path@
                && cause@ == message@,
        },
{
    match document {
        Ok(value) => Ok(value),
        Err(cause) => Err(AuthError::NotJson { path: path.to_owned(), cause }),
    }
}

/// Reads the document in the contents of a token file.
///
/// # Errors
///
/// [`AuthError::NotJson`] where the contents are no JSON document.
pub fn read_token_json(path: &str, contents: &str) -> (result: Result<JsonValue, AuthError>)
    ensures
        match result {
            Ok(value) => parsed_json(contents@) == Ok::<JsonTree, Seq<char>>(value@),
            Err(AuthError::NotJson { path: p, cause }) => p@ == path@ && parsed_json(contents@)
                == Err::<JsonTree, Seq<char>>(cause@),
            Err(_) => false,
        },
{
    accept_token_document(path, parse_json(contents))
}

/// The document at the end of a path, each step of which picks a child.
pub open spec fn node_at(tree: JsonTree, path: Seq<int>) -> Option<JsonTree>
    decreases path.len(),
{
    if path.len() == 0 {
        Some(tree)
    } else if 0 <= path[0] < children(tree).len() {
        node_at(children(tree)[path[0]], path.skip(1))
    } else {
        None
    }
}

/// The fitting string that the object at the end of a path has under `key`.
pub open spec fn text_at(
    tree: JsonTree,
    path: Seq<int>,
    key: Seq<char>,
    wanted: Wanted,
) -> Option<Seq<char>> {
    match node_at(tree, path) {
        Some(node) => own_text(node, key, wanted),
        None => None,
    }
}

/// Whether `a` comes no later than `b` where a document is walked from the
/// outside in and from front to back.
pub open spec fn no_later(a: Seq<int>, b: Seq<int>) -> bool
    decreases a.len(),
{
    a.len() == 0 || b.len() > 0 && (a[0] < b[0] || a[0] == b[0] && no_later(a.skip(1), b.skip(1)))
}

/// A search that finds a string has found the first one: the string stands
/// under the key at some place, and no place before it has one.
pub proof fn law_search_finds_the_first(tree: JsonTree, key: Seq<char>, wanted: Wanted) -> (path:
    Seq<int>)
    requires
        named_text(tree, key, wanted) is Some,
    ensures
        text_at(tree, path, key, wanted) == named_text(tree, key, wanted),
        forall|other: Seq<int>| #[trigger]
            text_at(tree, other, key, wanted) is Some ==> no_later(path, other),
    decreases tree, children(tree).len() + 1,
{
    if own_text(tree, key, wanted) is Some {
        Seq::empty()
    } else {
        lemma_search_below(tree, 0, key, wanted)
    }
}

/// The same of the children from `from` on.
proof fn lemma_search_below(tree: JsonTree, from: int, key: Seq<char>, wanted: Wanted) -> (path:
    Seq<int>)
    requires
        0 <= from,
        own_text(tree, key, wanted) is None,
        named_text_below(tree, from, key, wanted) is Some,
    ensures
        text_at(tree, path, key, wanted) == named_text_below(tree, from, key, wanted),
        path.len() > 0,
        path[0] >= from,
        forall|other: Seq<int>| #[trigger]
            text_at(tree, other, key, wanted) is Some && other[0] >= from ==> no_later(
                path,
                other,
            ),
    decreases tree, children(tree).len() - from,
{
    let child = children(tree)[from];
    lemma_child_smaller(tree, from);
    if named_text(child, key, wanted) is Some {
        let tail = law_search_finds_the_first(child, key, wanted);
        let path = seq![from] + tail;
        assert(path.skip(1) =~= tail);
        assert forall|other: Seq<int>| #[trigger]
            text_at(tree, other, key, wanted) is Some && other[0] >= from implies no_later(
            path,
            other,
        ) by {
            if other.len() > 0 && other[0] == from {
                assert(text_at(child, other.skip(1), key, wanted) is Some);
            }
        }
        path
    } else {
        let path = lemma_search_below(tree, from + 1, key, wanted);
        assert forall|other: Seq<int>| #[trigger]
            text_at(tree, other, key, wanted) is Some && other[0] >= from implies no_later(
            path,
            other,
        ) by {
            if other.len() > 0 && other[0] == from {
                law_search_is_complete(child, other.skip(1), key, wanted);
            }
        }
        path
    }
}

/// A search that finds nothing has missed nothing.
pub proof fn law_search_is_complete(
    tree: JsonTree,
    path: Seq<int>,
    key: Seq<char>,
    wanted: Wanted,
)
    requires
        named_text(tree, key, wanted) is None,
    ensures
        text_at(tree, path, key, wanted) is None,
    decreases path.len(),
{
    if path.len() > 0 && 0 <= path[0] < children(tree).len() {
        lemma_none_below(tree, 0, path[0], key, wanted);
        law_search_is_complete(children(tree)[path[0]], path.skip(1), key, wanted);
    }
}

/// Where no child from `from` on has a fitting string, child `i` has none.
proof fn lemma_none_below(tree: JsonTree, from: int, i: int, key: Seq<char>, wanted: Wanted)
    requires
        0 <= from <= i < children(tree).len(),
        named_text_below(tree, from, key, wanted) is None,
    ensures
        named_text(children(tree)[i], key, wanted) is None,
    decreases i - from,
{
    if from < i {
        lemma_none_below(tree, from + 1, i, key, wanted);
    }
}

/// What a search finds is fit for its purpose.
pub proof fn law_search_finds_what_fits(tree: JsonTree, key: Seq<char>, wanted: Wanted)
    ensures
        named_text(tree, key, wanted) matches Some(text) ==> wanted.fits(text),
{
    if named_text(tree, key, wanted) is Some {
        law_search_finds_the_first(tree, key, wanted);
    }
}

/// What is taken for a token, access or refresh, has more than 20 characters.
pub proof fn law_tokens_are_long(tree: JsonTree)
    ensures
        access_token_of(tree) matches Some(token) ==> token.len() > 20,
        refresh_token_of(tree) matches Some(token) ==> token.len() > 20,
{
    lemma_first_named_fits(tree, access_token_keys(), Wanted::Token);
    lemma_first_named_fits(tree, refresh_token_keys(), Wanted::Token);
}

/// What a search under several keys finds is fit for its purpose.
proof fn lemma_first_named_fits(tree: JsonTree, keys: Seq<Seq<char>>, wanted: Wanted)
    ensures
        first_named(tree, keys, wanted) matches Some(text) ==> wanted.fits(text),
    decreases keys.len(),
{
    if keys.len() > 0 {
        law_search_finds_what_fits(tree, keys[0], wanted);
        lemma_first_named_fits(tree, keys.skip(1), wanted);
    }
}

/// A token file that holds an access token is never asked for a refresh.
pub proof fn law_access_token_is_used_directly(tree: JsonTree)
    ensures
        access_token_of(tree) matches Some(token) ==> token_source_of(tree) == Some(
            TokenSourceView::Access(token),
        ),
        token_source_of(tree) matches Some(TokenSourceView::Refresh(_)) ==> access_token_of(
            tree,
        ) is None,
{
}

/// Of several keys the first that has a result counts, wherever in the
/// document the results stand; a search under several keys finds nothing only
/// where none has one.
pub proof fn law_earlier_keys_are_preferred(
    tree: JsonTree,
    keys: Seq<Seq<char>>,
    wanted: Wanted,
    i: int,
)
    requires
        0 <= i < keys.len(),
        forall|j: int| 0 <= j < i ==> named_text(tree, #[trigger] keys[j], wanted) is None,
    ensures
        named_text(tree, keys[i], wanted) is Some ==> first_named(tree, keys, wanted) == named_text(
            tree,
            keys[i],
            wanted,
        ),
        first_named(tree, keys, wanted) is None ==> named_text(tree, keys[i], wanted) is None,
    decreases i,
{
    if i > 0 {
        assert(named_text(tree, keys[0], wanted) is None);
        assert forall|j: int| 0 <= j < i - 1 implies named_text(
            tree,
            #[trigger] keys.skip(1)[j],
            wanted,
        ) is None by {
            assert(named_text(tree, keys[j + 1], wanted) is None);
        }
        law_earlier_keys_are_preferred(tree, keys.skip(1), wanted, i - 1);
    }
}

/// A string that an object has under a key is found, trimmed, where it is long
/// enough: not blank for a text, more than 20 characters for a token.
pub proof fn law_own_entries_are_found(entries: Seq<(Seq<char>, JsonTree)>, i: int)
    requires
        well_formed(JsonTree::Object(entries)),
        0 <= i < entries.len(),
    ensures
        entries[i].1 matches JsonTree::String(text) ==> {
            let key = entries[i].0;
            let tree = JsonTree::Object(entries);
            &&& trimmed(text).len() >= 1 ==> named_text(tree, key, Wanted::Text) == Some(
                trimmed(text),
            )
            &&& trimmed(text).len() >= 21 ==> named_text(tree, key, Wanted::Token) == Some(
                trimmed(text),
            )
        },
{
    law_keys_are_unambiguous(entries, i);
}

/// What a search finds has the right length: at least one character for a
/// text, more than 20 for a token.
pub proof fn law_found_texts_are_long_enough(tree: JsonTree, key: Seq<char>)
    ensures
        named_text(tree, key, Wanted::Text) matches Some(text) ==> text.len() >= 1,
        named_text(tree, key, Wanted::Token) matches Some(text) ==> text.len() >= 21,
{
    law_search_finds_what_fits(tree, key, Wanted::Text);
    law_search_finds_what_fits(tree, key, Wanted::Token);
}

/// Where the children before one have nothing to find, what is found below is
/// found there.
proof fn lemma_found_at(tree: JsonTree, from: int, i: int, key: Seq<char>, wanted: Wanted)
    requires
        0 <= from <= i < children(tree).len(),
        forall|j: int| from <= j < i ==> named_text(#[trigger] children(tree)[j], key, wanted) is None,
        named_text(children(tree)[i], key, wanted) is Some,
    ensures
        named_text_below(tree, from, key, wanted) == named_text(children(tree)[i], key, wanted),
    decreases i - from,
{
    if from < i {
        assert(named_text(children(tree)[from], key, wanted) is None);
        lemma_found_at(tree, from + 1, i, key, wanted);
    }
}

/// An array is searched from front to back: the first item in which something
/// is found counts.
pub proof fn law_arrays_are_searched_in_order(
    items: Seq<JsonTree>,
    i: int,
    key: Seq<char>,
    wanted: Wanted,
)
    requires
        0 <= i < items.len(),
        forall|j: int| 0 <= j < i ==> named_text(#[trigger] items[j], key, wanted) is None,
        named_text(items[i], key, wanted) is Some,
    ensures
        named_text(JsonTree::Array(items), key, wanted) == named_text(items[i], key, wanted),
{
    let tree = JsonTree::Array(items);
    assert forall|j: int| 0 <= j < i implies named_text(
        #[trigger] children(tree)[j],
        key,
        wanted,
    ) is None by {
        assert(named_text(items[j], key, wanted) is None);
    }
    lemma_found_at(tree, 0, i, key, wanted);
}

/// An object that does not have the key itself is searched entry by entry, from
/// front to back, whatever the entries are called.
pub proof fn law_objects_are_searched_in_order(
    entries: Seq<(Seq<char>, JsonTree)>,
    i: int,
    key: Seq<char>,
    wanted: Wanted,
)
    requires
        0 <= i < entries.len(),
        forall|j: int| 0 <= j < entries.len() ==> (#[trigger] entries[j]).0 != key,
        forall|j: int| 0 <= j < i ==> named_text((#[trigger] entries[j]).1, key, wanted) is None,
        named_text(entries[i].1, key, wanted) is Some,
    ensures
        named_text(JsonTree::Object(entries), key, wanted) == named_text(
            entries[i].1,
            key,
            wanted,
        ),
{
    let tree = JsonTree::Object(entries);
    law_absent_keys_name_nothing(entries, key);
    assert forall|j: int| 0 <= j < i implies named_text(
        #[trigger] children(tree)[j],
        key,
        wanted,
    ) is None by {
        assert(named_text(entries[j].1, key, wanted) is None);
    }
    lemma_found_at(tree, 0, i, key, wanted);
}

/// Nothing is found in a document that is neither an array nor an object.
pub proof fn law_leaves_hold_nothing(tree: JsonTree, key: Seq<char>, wanted: Wanted)
    requires
        tree !is Array,
        tree !is Object,
    ensures
        named_text(tree, key, wanted) is None,
{
}

/// The first of two texts that is there.
pub open spec fn either(first: Option<Seq<char>>, second: Option<Seq<char>>) -> Option<Seq<char>> {
    if first is Some {
        first
    } else {
        second
    }
}

/// A search under two keys takes what stands under the second only where
/// nothing stands under the first.
proof fn lemma_two_keys(tree: JsonTree, first: Seq<char>, second: Seq<char>, wanted: Wanted)
    ensures
        first_named(tree, seq![first, second], wanted) == either(
            named_text(tree, first, wanted),
            named_text(tree, second, wanted),
        ),
{
    reveal_with_fuel(first_named, 3);
    assert(seq![first, second].skip(1) =~= seq![second]);
    assert(seq![second].skip(1) =~= Seq::<Seq<char>>::empty());
}

/// An access token stands under `access_token`, else `accessToken`, else
/// `access`, else `token`; a refresh token under `refresh_token`, else
/// `refreshToken`; a project under `project_id`, else `projectId`.
pub proof fn law_tokens_are_looked_for_by_name(tree: JsonTree)
    ensures
        access_token_of(tree) == either(
            named_text(tree, "access_token"@, Wanted::Token),
            either(
                named_text(tree, "accessToken"@, Wanted::Token),
                either(
                    named_text(tree, "access"@, Wanted::Token),
                    named_text(tree, "token"@, Wanted::Token),
                ),
            ),
        ),
        refresh_token_of(tree) == either(
            named_text(tree, "refresh_token"@, Wanted::Token),
            named_text(tree, "refreshToken"@, Wanted::Token),
        ),
        project_id_of(tree) == either(
            named_text(tree, "project_id"@, Wanted::Text),
            named_text(tree, "projectId"@, Wanted::Text),
        ),
{
    reveal_with_fuel(first_named, 3);
    let keys = access_token_keys();
    assert(keys.skip(1).skip(1) =~= seq!["access"@, "token"@]);
    lemma_two_keys(tree, "access"@, "token"@, Wanted::Token);
    lemma_two_keys(tree, "refresh_token"@, "refreshToken"@, Wanted::Token);
    lemma_two_keys(tree, "project_id"@, "projectId"@, Wanted::Text);
}

/// A document without an access token but with a refresh token leads to a
/// refresh with the client's identifier, its secret and the address that the
/// document names, each under the one spelling or else under the other;
/// without an address, Google's is taken. Without either token there is no
/// source.
pub proof fn law_refresh_takes_the_documents_credentials(tree: JsonTree)
    requires
        access_token_of(tree) is None,
    ensures
        refresh_token_of(tree) is None ==> token_source_of(tree) is None,
        refresh_token_of(tree) matches Some(token) ==> {
            &&& token_source_of(tree) matches Some(TokenSourceView::Refresh(credentials))
            &&& credentials.refresh_token == token
            &&& credentials.client_id == either(
                named_text(tree, "client_id"@, Wanted::Text),
                named_text(tree, "clientId"@, Wanted::Text),
            )
            &&& credentials.client_secret == either(
                named_text(tree, "client_secret"@, Wanted::Text),
                named_text(tree, "clientSecret"@, Wanted::Text),
            )
            &&& either(
                named_text(tree, "token_uri"@, Wanted::Text),
                named_text(tree, "tokenUri"@, Wanted::Text),
            ) == Some(credentials.token_uri) || {
                &&& named_text(tree, "token_uri"@, Wanted::Text) is None
                &&& named_text(tree, "tokenUri"@, Wanted::Text) is None
                &&& credentials.token_uri == "https://oauth2.googleapis.com/token"@
            }
        },
{
    lemma_two_keys(tree, "client_id"@, "clientId"@, Wanted::Text);
    lemma_two_keys(tree, "client_secret"@, "clientSecret"@, Wanted::Text);
    lemma_two_keys(tree, "token_uri"@, "tokenUri"@, Wanted::Text);
}

/// The value of an optional credential in the body of a refresh request.
pub open spec fn credential_entry(value: Option<Seq<char>>) -> Option<JsonTree> {
    match value {
        Some(text) => Some(JsonTree::String(text)),
        None => None,
    }
}

/// The body of a refresh request says that a refresh token is exchanged, and
/// carries the token, and the client's identifier and secret where they are
/// known, each under its own key; it carries nothing else.
pub proof fn law_refresh_requests_carry_the_credentials(credentials: RefreshCredentialsView)
    ensures
        refresh_body_tree(credentials) matches JsonTree::Object(entries) && {
            &&& entry_of(entries, "grant_type"@) == Some(JsonTree::String("refresh_token"@))
            &&& entry_of(entries, "refresh_token"@) == Some(
                JsonTree::String(credentials.refresh_token),
            )
            &&& entry_of(entries, "client_id"@) == credential_entry(credentials.client_id)
            &&& entry_of(entries, "client_secret"@) == credential_entry(credentials.client_secret)
            &&& forall|i: int|
                0 <= i < entries.len() ==> {
                    ||| (#[trigger] entries[i]).0 == "grant_type"@
                    ||| entries[i].0 == "refresh_token"@
                    ||| entries[i].0 == "client_id"@
                    ||| entries[i].0 == "client_secret"@
                }
        },
{
    reveal_strlit("grant_type");
    reveal_strlit("refresh_token");
    reveal_strlit("client_id");
    reveal_strlit("client_secret");
    assert("refresh_token"@[0] != "client_secret"@[0]);
    assert("grant_type"@.len() != "refresh_token"@.len());
    assert("grant_type"@.len() != "client_id"@.len());
    assert("grant_type"@.len() != "client_secret"@.len());
    assert("client_id"@.len() != "refresh_token"@.len());
    assert("client_id"@.len() != "client_secret"@.len());
    let entries = refresh_body_tree(credentials)->Object_0;
    let n = entries.len() as int;
    assert(distinct_keys(entries));
    assert forall|i: int| 0 <= i < n implies well_formed((#[trigger] entries[i]).1) by {
        assert(entries[i].1 is String);
    }
    assert(entries[n - 2] == ("grant_type"@, JsonTree::String("refresh_token"@)));
    assert(entries[n - 1] == ("refresh_token"@, JsonTree::String(credentials.refresh_token)));
    law_keys_are_unambiguous(entries, n - 2);
    law_keys_are_unambiguous(entries, n - 1);
    if let Some(id) = credentials.client_id {
        assert(entries[0] == ("client_id"@, JsonTree::String(id)));
        law_keys_are_unambiguous(entries, 0);
    } else {
        law_absent_keys_name_nothing(entries, "client_id"@);
    }
    if let Some(secret) = credentials.client_secret {
        assert(entries[n - 3] == ("client_secret"@, JsonTree::String(secret)));
        law_keys_are_unambiguous(entries, n - 3);
    } else {
        law_absent_keys_name_nothing(entries, "client_secret"@);
    }
}

/// The refresh token and the client's secret, where there is one, are the
/// secrets of a refresh.
pub proof fn law_secrets_of_a_refresh(credentials: RefreshCredentialsView)
    ensures
        refresh_secrets(credentials).contains(credentials.refresh_token),
        credentials.client_secret matches Some(secret) ==> refresh_secrets(credentials).contains(
            secret,
        ),
{
    assert(refresh_secrets(credentials)[0] == credentials.refresh_token);
    if let Some(secret) = credentials.client_secret {
        assert(refresh_secrets(credentials)[1] == secret);
    }
}

/// A refresh yields the access token in a successful answer, one with a status
/// from 200 up to 299, and fails where that answer is no document or holds no
/// access token.
pub proof fn law_successful_refreshes_yield_the_token(
    credentials: RefreshCredentialsView,
    status: u16,
    status_line: Seq<char>,
    body: Seq<char>,
)
    requires
        200 <= status && status < 300,
    ensures
        ({
            let outcome = refresh_outcome(
                credentials,
                DeliveryView::Reply { status, status_line, body },
            );
            match parsed_json(body) {
                Ok(tree) => if access_token_of(tree) is Some {
                    outcome == Ok::<Seq<char>, Seq<char>>(access_token_of(tree)->Some_0)
                } else {
                    outcome == Err::<Seq<char>, Seq<char>>(
                        "OAuth token endpoint response did not contain an access_token"@,
                    )
                },
                Err(cause) => outcome == Err::<Seq<char>, Seq<char>>(
                    "non-JSON response from OAuth token endpoint: "@ + cause,
                ),
            }
        }),
{
}

/// A refresh has failed where the answer has a status below 200 or from 300 on,
/// whatever it holds, and where no answer arrives.
pub proof fn law_unsuccessful_refreshes_fail(
    credentials: RefreshCredentialsView,
    status: u16,
    status_line: Seq<char>,
    body: Seq<char>,
    cause: Seq<char>,
)
    requires
        status < 200 || status >= 300,
    ensures
        refresh_outcome(credentials, DeliveryView::Reply { status, status_line, body }) == Err::<
            Seq<char>,
            Seq<char>,
        >(
            "OAuth refresh failed (HTTP "@ + status_line + "): "@ + redacted(
                body,
                refresh_secrets(credentials),
            ),
        ),
        refresh_outcome(credentials, DeliveryView::SendFailed(cause)) == Err::<
            Seq<char>,
            Seq<char>,
        >("request failed to token endpoint: "@ + credentials.token_uri + ": "@ + cause),
        refresh_outcome(credentials, DeliveryView::ReadFailed(cause)) == Err::<
            Seq<char>,
            Seq<char>,
        >("failed reading response from "@ + credentials.token_uri + ": "@ + cause),
{
}

/// A text in which no secret occurs is shown as it is.
pub proof fn law_redaction_keeps_the_rest(text: Seq<char>, secrets: Seq<Seq<char>>)
    requires
        forall|i: int|
            0 <= i < secrets.len() ==> secrets[i].len() == 0 || !contains_text(
                text,
                #[trigger] secrets[i],
            ),
    ensures
        redacted(text, secrets) == text,
    decreases secrets.len(),
{
    if secrets.len() > 0 {
        if secrets[0].len() > 0 {
            law_replacing_nothing_changes_nothing(text, secrets[0], redaction());
        }
        assert forall|i: int| 0 <= i < secrets.len() - 1 implies secrets.skip(1)[i].len() == 0
            || !contains_text(text, #[trigger] secrets.skip(1)[i]) by {
            assert(secrets[i + 1].len() == 0 || !contains_text(text, secrets[i + 1]));
        }
        law_redaction_keeps_the_rest(text, secrets.skip(1));
    }
}

/// The first occurrence of a secret is shown as `[redacted]`, with what stands
/// before it as it is.
pub proof fn law_redaction_shows_the_placeholder(text: Seq<char>, secret: Seq<char>, at: int)
    requires
        secret.len() > 0,
        0 <= at <= text.len(),
        begins_with(text.skip(at), secret),
        forall|i: int| 0 <= i < at ==> !begins_with(#[trigger] text.skip(i), secret),
    ensures
        redacted(text, seq![secret]) == text.take(at) + "[redacted]"@ + redacted(
            text.skip(at + secret.len()),
            seq![secret],
        ),
{
    reveal_with_fuel(redacted, 2);
    assert(seq![secret].skip(1) =~= Seq::<Seq<char>>::empty());
    law_the_first_match_is_replaced(text, secret, redaction(), at);
}

/// Token files of up to two mebibytes are read.
pub proof fn law_token_file_limit()
    ensures
        MAX_TOKEN_FILE_SIZE_BYTES == 2_097_152,
{
}

/// The model of credentials and of their source has each of their parts.
pub proof fn law_models_keep_the_credentials(credentials: RefreshCredentials, source: TokenSource)
    ensures
        credentials@.token_uri == credentials.token_uri@,
        credentials@.refresh_token == credentials.refresh_token@,
        credentials@.client_id == optional_text(credentials.client_id),
        credentials@.client_secret == optional_text(credentials.client_secret),
        source matches TokenSource::Access(token) ==> source@ == TokenSourceView::Access(token@),
        source matches TokenSource::Refresh(kept) ==> source@ == TokenSourceView::Refresh(kept@),
{
}

} // verus!
