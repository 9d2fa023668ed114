//! A quota check from the token file to the report, step by step. The caller
//! reads files, sends requests and decodes answers as it is told, and hands
//! back what came of it.
use crate::auth::find_project_id;
use crate::auth::project_id_of;
use crate::auth::read_token_json;
use crate::auth::refresh_access_token;
use crate::auth::refresh_body;
use crate::auth::refresh_body_tree;
use crate::auth::refresh_outcome;
use crate::auth::remove_secret;
use crate::auth::resolve_access_token;
use crate::auth::token_file_not_found;
use crate::auth::token_file_not_json;
use crate::auth::token_file_too_large;
use crate::auth::token_file_unreadable;
use crate::auth::token_file_without_token;
use crate::auth::token_refresh_failed;
use crate::auth::token_source_of;
use crate::auth::without_secret;
use crate::auth::AuthError;
use crate::auth::MAX_TOKEN_FILE_SIZE_BYTES;
use crate::auth::RefreshCredentials;
use crate::auth::RefreshCredentialsView;
use crate::auth::TokenSource;
use crate::auth::TokenSourceView;
use crate::cli::Options;
use crate::cli::OptionsView;
use crate::cli::OutputFormat;
use crate::client::exhausted_text;
use crate::client::load_request_of;
use crate::client::load_url;
use crate::client::quota_request_of;
use crate::client::quota_url;
use crate::fetch::decoded_load;
use crate::fetch::fetch_action;
use crate::fetch::fetch_after;
use crate::fetch::fetch_start;
use crate::fetch::law_lookup_stays_consistent;
use crate::fetch::law_other_events_do_not_touch_the_lookup;
use crate::fetch::law_token_goes_to_the_hosts_only;
use crate::fetch::FetchAction;
use crate::fetch::FetchActionView;
use crate::fetch::FetchEvent;
use crate::fetch::FetchEventView;
use crate::fetch::FetchOutcome;
use crate::fetch::FetchView;
use crate::fetch::FetchedQuota;
use crate::fetch::FetchedView;
use crate::fetch::QuotaFetch;
use crate::fetch::StageView;
use crate::history::row_views;
use crate::history::rows_of;
use crate::history::snapshot_rows;
use crate::history::BucketRow;
use crate::history::BucketRowView;
use crate::http::Delivery;
use crate::http::DeliveryView;
use crate::http::PostRequest;
use crate::http::PostRequestView;
use crate::json::entry_of;
use crate::json::law_absent_keys_name_nothing;
use crate::json::parsed_json;
use crate::json::pretty_json_text;
use crate::json::JsonTree;
use crate::json::JsonValue;
use crate::models::group_views;
use crate::models::normalized_quota;
use crate::models::GroupView;
use crate::models::LoadCodeAssistResponse;
use crate::models::LoadView;
use crate::models::QuotaSummaryResponse;
use crate::output::human_summary;
use crate::output::render_output;
use crate::output::rendered;
use crate::output::Rendered;
use crate::output::RenderedView;
use crate::text::optional_text;
use crate::text::texts;
use vstd::prelude::*;
use vstd::string::StringExecFns;

verus! {

/// What came of reading the token file.
#[derive(Debug, PartialEq, Eq)]
pub enum TokenFile {
    /// It does not exist; says why.
    Missing(String),
    /// It is larger than a token file can be.
    TooLarge,
    /// It cannot be read; says why.
    Unreadable(String),
    /// It holds this text.
    Contents(String),
}

impl TokenFile {
    /// Refuses a token file by its size in bytes, before it is read. `None`
    /// where it is to be read.
    pub fn refused_by_size(size: u64) -> (refused: Option<TokenFile>)
        ensures
            refused == (if size > MAX_TOKEN_FILE_SIZE_BYTES {
                Some(TokenFile::TooLarge)
            } else {
                None
            }),
    {
        if size > MAX_TOKEN_FILE_SIZE_BYTES {
            Some(TokenFile::TooLarge)
        } else {
            None
        }
    }
}

/// What a [`TokenFile`] says.
pub ghost enum TokenFileView {
    Missing(Seq<char>),
    TooLarge,
    Unreadable(Seq<char>),
    Contents(Seq<char>),
}

impl View for TokenFile {
    type V = TokenFileView;

    open spec fn view(&self) -> TokenFileView {
        match self {
            TokenFile::Missing(cause) => TokenFileView::Missing(cause@),
            TokenFile::TooLarge => TokenFileView::TooLarge,
            TokenFile::Unreadable(cause) => TokenFileView::Unreadable(cause@),
            TokenFile::Contents(contents) => TokenFileView::Contents(contents@),
        }
    }
}

/// What a check ends with: what is shown, then what is added to the history.
#[derive(Debug, PartialEq, Eq)]
pub struct Report {
    pub project: String,
    pub tier: Option<String>,
    pub output: Rendered,
    pub rows: Vec<BucketRow>,
}

/// What a [`Report`] holds.
pub ghost struct ReportView {
    pub project: Seq<char>,
    pub tier: Option<Seq<char>>,
    pub output: RenderedView,
    pub rows: Seq<BucketRowView>,
}

impl View for Report {
    type V = ReportView;

    open spec fn view(&self) -> ReportView {
        ReportView {
            project: self.project@,
            tier: optional_text(self.tier),
            output: self.output@,
            rows: row_views(self.rows@),
        }
    }
}

/// The report on a lookup in a given format, or what went wrong.
pub open spec fn report_of(
    format: OutputFormat,
    fetched: FetchedView,
    groups: Seq<GroupView>,
) -> Result<ReportView, Seq<char>> {
    match rendered(
        format,
        fetched.project,
        fetched.load.tier_name(),
        groups,
        fetched.body,
    ) {
        Ok(output) => Ok(
            ReportView {
                project: fetched.project,
                tier: fetched.load.tier_name(),
                output,
                rows: rows_of(groups),
            },
        ),
        Err(message) => Err(message),
    }
}

/// The phase that a report, or the lack of one, leads to.
pub open spec fn phase_of_report(report: Result<ReportView, Seq<char>>) -> PhaseView {
    match report {
        Ok(r) => PhaseView::Reported(r),
        Err(message) => PhaseView::Failed(message),
    }
}

/// Makes the report on a lookup.
fn make_report(
    format: OutputFormat,
    fetched: FetchedQuota,
    summary: &QuotaSummaryResponse,
) -> (phase: Phase)
    ensures
        phase.view() == phase_of_report(
            report_of(format, fetched@, group_views(summary.groups@)),
        ),
{
    let tier = fetched.load.tier_name();
    let groups = summary.groups.as_slice();
    match render_output(format, fetched.project.as_str(), &tier, groups, fetched.body.as_str()) {
        Ok(output) => Phase::Reported(
            Report { project: fetched.project, tier, output, rows: snapshot_rows(groups) },
        ),
        Err(message) => Phase::Failed(message),
    }
}

/// Whether a document is an object that has the field with the quota groups.
pub open spec fn has_groups(tree: JsonTree) -> bool {
    tree matches JsonTree::Object(entries) && entry_of(entries, "groups"@) is Some
}

/// Refuses an answer that has no quota groups: that is no empty quota, it is
/// another answer than the one that was asked for.
///
/// # Errors
///
/// Names the missing field.
pub fn check_quota_shape(value: &JsonValue) -> (result: Result<(), String>)
    ensures
        match result {
            Ok(_) => has_groups(value@),
            Err(cause) => !has_groups(value@) && cause@ == "missing field `groups`"@,
        },
{
    if value.get("groups").is_none() {
        return Err("missing field `groups`".to_owned());
    }
    Ok(())
}

/// The message where the quota is not what was expected.
pub open spec fn unexpected_shape(cause: Seq<char>) -> Seq<char> {
    "Google returned an unexpected quota response shape: "@ + cause
}

/// Says that the quota is not what was expected.
fn report_unexpected(cause: &str) -> (message: String)
    ensures
        message@ == unexpected_shape(cause@),
{
    "Google returned an unexpected quota response shape: ".to_owned().concat(cause)
}

/// How far the check has come.
enum Phase {
    /// The token file is to be read.
    Token,
    /// An access token is asked for, with credentials from the file at a path.
    Refresh(RefreshCredentials, String, Option<String>),
    /// The quota is looked up.
    Fetch(QuotaFetch),
    /// The quota, looked up with an access token, is to be decoded.
    Decode(FetchedQuota, String),
    /// The check succeeded.
    Reported(Report),
    /// The check failed.
    Failed(String),
}

/// How far a check has come.
pub ghost enum PhaseView {
    Token,
    Refresh { credentials: RefreshCredentialsView, path: Seq<char>, fallback: Option<Seq<char>> },
    Fetch(FetchView),
    Decode { fetched: FetchedView, access_token: Seq<char> },
    Reported(ReportView),
    Failed(Seq<char>),
}

impl Phase {
    spec fn view(self) -> PhaseView {
        match self {
            Phase::Token => PhaseView::Token,
            Phase::Refresh(credentials, path, fallback) => PhaseView::Refresh {
                credentials: credentials@,
                path: path@,
                fallback: optional_text(fallback),
            },
            Phase::Fetch(fetch) => PhaseView::Fetch(fetch@),
            Phase::Decode(fetched, access_token) => PhaseView::Decode {
                fetched: fetched@,
                access_token: access_token@,
            },
            Phase::Reported(report) => PhaseView::Reported(report@),
            Phase::Failed(message) => PhaseView::Failed(message@),
        }
    }
}

/// A quota check in progress.
pub struct CheckRun {
    options: Options,
    base_urls: Vec<String>,
    phase: Phase,
}

/// The state of a [`CheckRun`].
pub ghost struct CheckView {
    pub options: OptionsView,
    pub base_urls: Seq<Seq<char>>,
    pub phase: PhaseView,
}

impl View for CheckRun {
    type V = CheckView;

    closed spec fn view(&self) -> CheckView {
        CheckView {
            options: self.options@,
            base_urls: texts(self.base_urls@),
            phase: self.phase.view(),
        }
    }
}

/// What is to be done next.
#[derive(Debug, PartialEq, Eq)]
pub enum CheckAction<'a> {
    /// Read the token file.
    ReadTokenFile,
    /// Send a request.
    Post(PostRequest),
    /// Decode the API's answer about the project.
    DecodeLoad(&'a JsonValue),
    /// Decode the API's answer about the quota.
    DecodeQuota(&'a JsonValue),
    /// Show the report, then add it to the history; nothing comes after.
    Report(&'a Report),
    /// Say what went wrong; nothing comes after.
    Fail(String),
}

/// What a [`CheckAction`] asks for.
pub ghost enum CheckActionView {
    ReadTokenFile,
    Post(PostRequestView),
    DecodeLoad(JsonTree),
    DecodeQuota(JsonTree),
    Report(ReportView),
    Fail(Seq<char>),
}

impl<'a> View for CheckAction<'a> {
    type V = CheckActionView;

    open spec fn view(&self) -> CheckActionView {
        match self {
            CheckAction::ReadTokenFile => CheckActionView::ReadTokenFile,
            CheckAction::Post(request) => CheckActionView::Post(request@),
            CheckAction::DecodeLoad(value) => CheckActionView::DecodeLoad(value@),
            CheckAction::DecodeQuota(value) => CheckActionView::DecodeQuota(value@),
            CheckAction::Report(report) => CheckActionView::Report(report@),
            CheckAction::Fail(message) => CheckActionView::Fail(message@),
        }
    }
}

/// What came of an action.
#[derive(Debug, PartialEq, Eq)]
pub enum CheckEvent {
    /// The token file at a path was read, with this outcome.
    TokenRead(String, TokenFile),
    /// A request was sent, with this outcome.
    Delivered(Delivery),
    /// An answer about the project was decoded, or could not be.
    LoadDecoded(Result<LoadCodeAssistResponse, String>),
    /// An answer about the quota was decoded, or could not be.
    QuotaDecoded(Result<QuotaSummaryResponse, String>),
}

/// What a [`CheckEvent`] says.
pub ghost enum CheckEventView {
    TokenRead(Seq<char>, TokenFileView),
    Delivered(DeliveryView),
    LoadDecoded(Result<LoadView, Seq<char>>),
    QuotaDecoded(Result<Seq<GroupView>, Seq<char>>),
}

/// What a decoding of the quota says.
pub open spec fn decoded_quota(decoded: Result<QuotaSummaryResponse, String>) -> Result<
    Seq<GroupView>,
    Seq<char>,
> {
    match decoded {
        Ok(summary) => Ok(group_views(summary.groups@)),
        Err(cause) => Err(cause@),
    }
}

impl View for CheckEvent {
    type V = CheckEventView;

    open spec fn view(&self) -> CheckEventView {
        match self {
            CheckEvent::TokenRead(path, file) => CheckEventView::TokenRead(path@, file@),
            CheckEvent::Delivered(delivery) => CheckEventView::Delivered(delivery@),
            CheckEvent::LoadDecoded(decoded) => CheckEventView::LoadDecoded(decoded_load(*decoded)),
            CheckEvent::QuotaDecoded(decoded) => CheckEventView::QuotaDecoded(
                decoded_quota(*decoded),
            ),
        }
    }
}

/// The request for an access token. It carries no access token.
pub open spec fn refresh_request_of(credentials: RefreshCredentialsView) -> PostRequestView {
    PostRequestView {
        url: credentials.token_uri,
        bearer: None,
        body: refresh_body_tree(credentials),
    }
}

/// What a check asks for next.
pub open spec fn check_action(check: CheckView) -> CheckActionView {
    match check.phase {
        PhaseView::Token => CheckActionView::ReadTokenFile,
        PhaseView::Refresh { credentials, .. } => CheckActionView::Post(
            refresh_request_of(credentials),
        ),
        PhaseView::Fetch(fetch) => match fetch_action(fetch) {
            FetchActionView::Post(request) => CheckActionView::Post(request),
            FetchActionView::DecodeLoad(tree) => CheckActionView::DecodeLoad(tree),
            FetchActionView::Finish(fetched) => CheckActionView::DecodeQuota(fetched.quota),
            FetchActionView::Fail(message) => CheckActionView::Fail(message),
        },
        PhaseView::Decode { fetched, .. } => CheckActionView::DecodeQuota(fetched.quota),
        PhaseView::Reported(report) => CheckActionView::Report(report),
        PhaseView::Failed(message) => CheckActionView::Fail(message),
    }
}

/// What follows once the quota was looked up: raw output needs no decoding
/// and leaves an empty snapshot in the history; an object without groups is
/// not decoded.
pub open spec fn phase_after_lookup(
    options: OptionsView,
    fetched: FetchedView,
    access_token: Seq<char>,
) -> PhaseView {
    if options.raw_output {
        phase_of_report(report_of(OutputFormat::Raw, fetched, Seq::empty()))
    } else if fetched.quota is Object && !has_groups(fetched.quota) {
        PhaseView::Failed(unexpected_shape("missing field `groups`"@))
    } else {
        PhaseView::Decode { fetched, access_token }
    }
}

/// What follows once the quota was decoded, or could not be. The decoder's
/// words are shown without the access token; a quota that it makes of an
/// answer without groups does not count.
pub open spec fn phase_after_decoding(
    options: OptionsView,
    fetched: FetchedView,
    access_token: Seq<char>,
    decoded: Result<Seq<GroupView>, Seq<char>>,
) -> PhaseView {
    match decoded {
        Err(cause) => PhaseView::Failed(unexpected_shape(without_secret(cause, access_token))),
        Ok(groups) => if has_groups(fetched.quota) {
            phase_of_report(report_of(options.output_format(), fetched, groups))
        } else {
            PhaseView::Failed(unexpected_shape("missing field `groups`"@))
        },
    }
}

/// What a lookup makes of a check.
pub open spec fn phase_of_lookup(options: OptionsView, fetch: FetchView) -> PhaseView {
    match fetch.stage {
        StageView::Done(fetched) => phase_after_lookup(options, fetched, fetch.access_token),
        StageView::Exhausted => PhaseView::Failed(exhausted_text(fetch.reports)),
        _ => PhaseView::Fetch(fetch),
    }
}

/// What the token file makes of a check.
pub open spec fn phase_after_token_file(
    check: CheckView,
    path: Seq<char>,
    file: TokenFileView,
) -> PhaseView {
    match file {
        TokenFileView::Missing(cause) => PhaseView::Failed(token_file_not_found(path, cause)),
        TokenFileView::TooLarge => PhaseView::Failed(token_file_too_large(path)),
        TokenFileView::Unreadable(cause) => PhaseView::Failed(token_file_unreadable(path, cause)),
        TokenFileView::Contents(contents) => match parsed_json(contents) {
            Err(cause) => PhaseView::Failed(token_file_not_json(path, cause)),
            Ok(tree) => phase_after_token_document(check, path, tree),
        },
    }
}

/// What the document in the token file makes of a check.
pub open spec fn phase_after_token_document(
    check: CheckView,
    path: Seq<char>,
    tree: JsonTree,
) -> PhaseView {
    match token_source_of(tree) {
        None => PhaseView::Failed(token_file_without_token(path)),
        Some(TokenSourceView::Access(token)) => phase_of_lookup(
            check.options,
            fetch_start(check.base_urls, token, project_id_of(tree)),
        ),
        Some(TokenSourceView::Refresh(credentials)) => PhaseView::Refresh {
            credentials,
            path,
            fallback: project_id_of(tree),
        },
    }
}

/// A check after an event. An event that does not answer what the check asked
/// for changes nothing.
pub open spec fn check_after(check: CheckView, event: CheckEventView) -> CheckView {
    let phase = match (check.phase, event) {
        (PhaseView::Token, CheckEventView::TokenRead(path, file)) => phase_after_token_file(
            check,
            path,
            file,
        ),
        (
            PhaseView::Refresh { credentials, path, fallback },
            CheckEventView::Delivered(delivery),
        ) => match refresh_outcome(credentials, delivery) {
            Ok(token) => phase_of_lookup(
                check.options,
                fetch_start(check.base_urls, token, fallback),
            ),
            Err(error) => PhaseView::Failed(token_refresh_failed(path, error)),
        },
        (PhaseView::Fetch(fetch), CheckEventView::Delivered(delivery)) => phase_of_lookup(
            check.options,
            fetch_after(fetch, FetchEventView::Delivered(delivery)),
        ),
        (PhaseView::Fetch(fetch), CheckEventView::LoadDecoded(decoded)) => phase_of_lookup(
            check.options,
            fetch_after(fetch, FetchEventView::LoadDecoded(decoded)),
        ),
        (
            PhaseView::Decode { fetched, access_token },
            CheckEventView::QuotaDecoded(decoded),
        ) => phase_after_decoding(check.options, fetched, access_token, decoded),
        (phase, _) => phase,
    };
    CheckView { phase, ..check }
}

/// A check before its first step.
pub open spec fn check_start(options: OptionsView, base_urls: Seq<Seq<char>>) -> CheckView {
    CheckView { options, base_urls, phase: PhaseView::Token }
}

impl CheckView {
    /// A lookup that has ended does not linger, it asks the hosts of the
    /// check, an object without groups is not decoded, and nothing is where
    /// raw output is asked for.
    pub open spec fn is_consistent(self) -> bool {
        match self.phase {
            PhaseView::Fetch(fetch) => fetch.is_consistent() && fetch.base_urls == self.base_urls
                && fetch.stage !is Done && fetch.stage !is Exhausted,
            PhaseView::Decode { fetched, .. } => !self.options.raw_output && (
            fetched.quota is Object ==> has_groups(fetched.quota)),
            _ => true,
        }
    }
}

/// The phase that the start of a lookup or a step of it leads to.
fn settle_lookup(options: &Options, fetch: QuotaFetch) -> (phase: Phase)
    ensures
        phase.view() == phase_of_lookup(options@, fetch@),
{
    match fetch.outcome() {
        FetchOutcome::Pending(fetch) => Phase::Fetch(fetch),
        FetchOutcome::Failed(message) => Phase::Failed(message),
        FetchOutcome::Done(fetched, access_token) => {
            if options.raw_output {
                let nothing = QuotaSummaryResponse { groups: Vec::new() };
                assert(group_views(nothing.groups@) =~= Seq::empty());
                return make_report(OutputFormat::Raw, fetched, &nothing);
            }
            if let JsonValue::Object(_) = &fetched.quota {
                if let Err(cause) = check_quota_shape(&fetched.quota) {
                    return Phase::Failed(report_unexpected(cause.as_str()));
                }
            }
            Phase::Decode(fetched, access_token)
        },
    }
}

/// The phase that the decoding of the quota leads to.
fn settle_quota(
    options: &Options,
    fetched: FetchedQuota,
    access_token: &str,
    decoded: Result<QuotaSummaryResponse, String>,
) -> (phase: Phase)
    ensures
        phase.view() == phase_after_decoding(
            options@,
            fetched@,
            access_token@,
            decoded_quota(decoded),
        ),
{
    match decoded {
        Err(cause) => {
            let clean = remove_secret(cause.as_str(), access_token);
            Phase::Failed(report_unexpected(clean.as_str()))
        },
        Ok(summary) => match check_quota_shape(&fetched.quota) {
            Ok(_) => make_report(options.output_format(), fetched, &summary),
            Err(cause) => Phase::Failed(report_unexpected(cause.as_str())),
        },
    }
}

/// A copy of a list of strings.
fn copy_texts(list: &Vec<String>) -> (copy: Vec<String>)
    ensures
        texts(copy@) == texts(list@),
{
    let mut copy: Vec<String> = Vec::new();
    for i in 0..list.len()
        invariant
            texts(copy@) == texts(list@).take(i as int),
    {
        let ghost before = copy@;
        copy.push(list[i].clone());
        assert(texts(copy@) =~= texts(before).push(list@[i as int]@));
        assert(texts(list@).take(i + 1) =~= texts(list@).take(i as int).push(list@[i as int]@));
    }
    assert(texts(list@).take(list@.len() as int) =~= texts(list@));
    copy
}

impl CheckRun {
    #[verifier::type_invariant]
    spec fn holds_together(self) -> bool {
        self@.is_consistent()
    }

    /// Starts a check that asks the provided base URLs.
    pub fn new(options: Options, base_urls: Vec<String>) -> (check: Self)
        ensures
            check@ == check_start(options@, texts(base_urls@)),
            check@.is_consistent(),
    {
        CheckRun { options, base_urls, phase: Phase::Token }
    }

    /// What is to be done next.
    pub fn action(&self) -> (action: CheckAction<'_>)
        ensures
            action@ == check_action(self@),
            self@.is_consistent(),
    {
        proof {
            use_type_invariant(&*self);
        }
        match &self.phase {
            Phase::Token => CheckAction::ReadTokenFile,
            Phase::Refresh(credentials, _, _) => CheckAction::Post(
                PostRequest {
                    url: credentials.token_uri.clone(),
                    bearer: None,
                    body: refresh_body(credentials),
                },
            ),
            Phase::Fetch(fetch) => match fetch.action() {
                FetchAction::Post(request) => CheckAction::Post(request),
                FetchAction::DecodeLoad(value) => CheckAction::DecodeLoad(value),
                FetchAction::Finish(fetched) => CheckAction::DecodeQuota(&fetched.quota),
                FetchAction::Fail(message) => CheckAction::Fail(message),
            },
            Phase::Decode(fetched, _) => CheckAction::DecodeQuota(&fetched.quota),
            Phase::Reported(report) => CheckAction::Report(report),
            Phase::Failed(message) => CheckAction::Fail(message.clone()),
        }
    }

    /// Starts the lookup with an access token.
    fn start_lookup(
        options: &Options,
        base_urls: &Vec<String>,
        access_token: String,
        fallback_project: Option<String>,
    ) -> (phase: Phase)
        ensures
            phase.view() == phase_of_lookup(
                options@,
                fetch_start(
                    texts(base_urls@),
                    access_token@,
                    optional_text(fallback_project),
                ),
            ),
    {
        let fetch = QuotaFetch::new(copy_texts(base_urls), access_token, fallback_project);
        settle_lookup(options, fetch)
    }

    /// The phase that the document in the token file leads to.
    fn after_token_document(
        options: &Options,
        base_urls: &Vec<String>,
        path: &str,
        document: &JsonValue,
    ) -> (phase: Phase)
        ensures
            phase.view() == phase_after_token_document(
                check_start(options@, texts(base_urls@)),
                path@,
                document@,
            ),
    {
        let fallback = match find_project_id(document) {
            Some(project) => Some(project.to_owned()),
            None => None,
        };
        match resolve_access_token(document, path) {
            Ok(TokenSource::Access(token)) => Self::start_lookup(
                options,
                base_urls,
                token,
                fallback,
            ),
            Ok(TokenSource::Refresh(credentials)) => Phase::Refresh(
                credentials,
                path.to_owned(),
                fallback,
            ),
            Err(error) => Phase::Failed(error.message()),
        }
    }

    /// The phase that the token file leads to.
    fn after_token_file(
        options: &Options,
        base_urls: &Vec<String>,
        path: String,
        file: TokenFile,
    ) -> (phase: Phase)
        ensures
            phase.view() == phase_after_token_file(
                check_start(options@, texts(base_urls@)),
                path@,
                file@,
            ),
    {
        match file {
            TokenFile::Missing(cause) => Phase::Failed(
                (AuthError::NotFound { path, cause }).message(),
            ),
            TokenFile::TooLarge => Phase::Failed((AuthError::TooLarge { path }).message()),
            TokenFile::Unreadable(cause) => Phase::Failed(
                (AuthError::Unreadable { path, cause }).message(),
            ),
            TokenFile::Contents(contents) => {
                match read_token_json(path.as_str(), contents.as_str()) {
                    Ok(document) => Self::after_token_document(
                        options,
                        base_urls,
                        path.as_str(),
                        &document,
                    ),
                    Err(error) => Phase::Failed(error.message()),
                }
            },
        }
    }

    /// Takes in what came of the last action. An event that does not answer
    /// it changes nothing.
    pub fn advance(self, event: CheckEvent) -> (check: Self)
        ensures
            check@ == check_after(self@, event@),
            check@.is_consistent(),
    {
        proof {
            use_type_invariant(&self);
            law_check_stays_consistent(self@, event@);
        }
        let options = self.options;
        let base_urls = self.base_urls;
        let phase = match (self.phase, event) {
            (Phase::Token, CheckEvent::TokenRead(path, file)) => {
                Self::after_token_file(&options, &base_urls, path, file)
            },
            (
                Phase::Refresh(credentials, path, fallback),
                CheckEvent::Delivered(delivery),
            ) => match refresh_access_token(&credentials, &delivery) {
                Ok(token) => Self::start_lookup(&options, &base_urls, token, fallback),
                Err(error) => Phase::Failed((AuthError::RefreshFailed { path, error }).message()),
            },
            (Phase::Fetch(fetch), CheckEvent::Delivered(delivery)) => {
                settle_lookup(&options, fetch.advance(FetchEvent::Delivered(delivery)))
            },
            (Phase::Fetch(fetch), CheckEvent::LoadDecoded(decoded)) => {
                settle_lookup(&options, fetch.advance(FetchEvent::LoadDecoded(decoded)))
            },
            (Phase::Decode(fetched, access_token), CheckEvent::QuotaDecoded(decoded)) => {
                settle_quota(&options, fetched, access_token.as_str(), decoded)
            },
            (phase, _) => phase,
        };
        CheckRun { options, base_urls, phase }
    }
}

/// No event breaks a check, and none changes its options or its hosts.
pub proof fn law_check_stays_consistent(check: CheckView, event: CheckEventView)
    requires
        check.is_consistent(),
    ensures
        check_after(check, event).is_consistent(),
        check_after(check, event).options == check.options,
        check_after(check, event).base_urls == check.base_urls,
{
    match (check.phase, event) {
        (PhaseView::Fetch(fetch), CheckEventView::Delivered(delivery)) => {
            law_lookup_stays_consistent(fetch, FetchEventView::Delivered(delivery));
        },
        (PhaseView::Fetch(fetch), CheckEventView::LoadDecoded(decoded)) => {
            law_lookup_stays_consistent(fetch, FetchEventView::LoadDecoded(decoded));
        },
        _ => {},
    }
}

/// A check that has reported or failed is over: nothing changes it any more.
pub proof fn law_the_end_is_final(check: CheckView, event: CheckEventView)
    requires
        check.phase is Reported || check.phase is Failed,
    ensures
        check_after(check, event) == check,
{
}

/// A token file that holds an access token leads straight to the first host,
/// with that token; nothing is refreshed.
pub proof fn law_access_token_needs_no_refresh(
    check: CheckView,
    path: Seq<char>,
    tree: JsonTree,
    token: Seq<char>,
)
    requires
        check.base_urls.len() > 0,
        token_source_of(tree) == Some(TokenSourceView::Access(token)),
    ensures
        check_action(CheckView { phase: phase_after_token_document(check, path, tree), ..check })
            == CheckActionView::Post(load_request_of(check.base_urls[0], token)),
{
}

/// An access token is sent to the hosts of the check only.
pub proof fn law_access_token_is_sent_to_the_hosts_only(
    check: CheckView,
    request: PostRequestView,
)
    requires
        check.is_consistent(),
        check_action(check) == CheckActionView::Post(request),
        request.bearer is Some,
    ensures
        exists|i: int|
            0 <= i < check.base_urls.len() && (request.url == load_url(
                #[trigger] check.base_urls[i],
            ) || request.url == quota_url(check.base_urls[i])),
{
    if let PhaseView::Fetch(fetch) = check.phase {
        law_token_goes_to_the_hosts_only(fetch, request);
    }
}

/// A check makes three requests and no other: the exchange of a refresh token,
/// which carries no access token, and the two calls of the API.
pub proof fn law_no_other_request_is_made(check: CheckView, request: PostRequestView)
    requires
        check.is_consistent(),
        check_action(check) == CheckActionView::Post(request),
    ensures
        match check.phase {
            PhaseView::Refresh { credentials, .. } => request == refresh_request_of(credentials),
            PhaseView::Fetch(fetch) => {
                ||| request == load_request_of(fetch.current_host(), fetch.access_token)
                ||| fetch.stage matches StageView::Quota(_, project) && request
                    == quota_request_of(fetch.current_host(), fetch.access_token, project)
            },
            _ => false,
        },
        request.bearer is None <==> check.phase is Refresh,
{
}

/// The access token that a refresh yields goes to the first host.
pub proof fn law_refreshed_token_is_used(
    check: CheckView,
    delivery: DeliveryView,
    token: Seq<char>,
)
    requires
        check.base_urls.len() > 0,
        check.phase matches PhaseView::Refresh { credentials, .. } && refresh_outcome(
            credentials,
            delivery,
        ) == Ok::<Seq<char>, Seq<char>>(token),
    ensures
        check_action(check_after(check, CheckEventView::Delivered(delivery)))
            == CheckActionView::Post(load_request_of(check.base_urls[0], token)),
{
}

/// Raw output is the document that the API answered with, laid out for
/// reading, and nothing else.
pub proof fn law_raw_output_is_the_answer(options: OptionsView, fetch: FetchView)
    requires
        fetch.is_consistent(),
        fetch.stage is Done,
        options.raw_output,
    ensures
        phase_of_lookup(options, fetch) matches PhaseView::Reported(report) && report.output
            == RenderedView::Raw(pretty_json_text(fetch.stage->Done_0.quota)),
{
}

/// An answer to the call for the quota that is an object without groups ends
/// the check with an error, unless raw output is asked for.
pub proof fn law_missing_groups_is_an_error(options: OptionsView, fetch: FetchView)
    requires
        fetch.stage matches StageView::Done(fetched) && fetched.quota is Object && !has_groups(
            fetched.quota,
        ),
        !options.raw_output,
    ensures
        phase_of_lookup(options, fetch) == PhaseView::Failed(
            unexpected_shape("missing field `groups`"@),
        ),
{
}

/// Without raw output an answer that has no groups, object or not, is never
/// reported, as an empty quota or otherwise: whatever a decoder makes of it,
/// the check ends with an error that calls the answer unexpected.
pub proof fn law_no_report_without_groups(check: CheckView, event: CheckEventView)
    requires
        check.is_consistent(),
        !check.options.raw_output,
        check.phase !is Reported,
    ensures
        check_after(check, event).phase is Reported ==> check.phase is Decode && has_groups(
            check.phase->Decode_fetched.quota,
        ),
        check.phase is Decode && event is QuotaDecoded && !has_groups(
            check.phase->Decode_fetched.quota,
        ) ==> exists|cause: Seq<char>|
            check_after(check, event).phase == PhaseView::Failed(
                #[trigger] unexpected_shape(cause),
            ),
{
}

/// An answer that has groups is reported once it is decoded, an empty list of
/// groups as well.
pub proof fn law_decoded_groups_are_reported(check: CheckView, groups: Seq<GroupView>)
    requires
        check.is_consistent(),
        check.phase is Decode,
        has_groups(check.phase->Decode_fetched.quota),
    ensures
        check_after(check, CheckEventView::QuotaDecoded(Ok(groups))).phase is Reported,
{
}

/// A report that is not raw was decoded from an answer that has groups, and
/// its history rows are those of the groups that are shown.
pub proof fn law_report_stores_what_it_shows(
    check: CheckView,
    event: CheckEventView,
    report: ReportView,
)
    requires
        check.is_consistent(),
        check.phase !is Reported,
        check_after(check, event).phase == PhaseView::Reported(report),
    ensures
        check.options.raw_output ==> report.output is Raw && report.rows.len() == 0,
        !check.options.raw_output ==> {
            &&& check.phase matches PhaseView::Decode { fetched, .. }
            &&& event matches CheckEventView::QuotaDecoded(Ok(groups))
            &&& has_groups(fetched.quota)
            &&& report_of(check.options.output_format(), fetched, groups) == Ok::<
                ReportView,
                Seq<char>,
            >(report)
            &&& report.rows == rows_of(groups)
        },
{
}

/// A check begins with the token file; it knows its options and its hosts.
pub proof fn law_a_check_begins_with_the_token_file(
    options: OptionsView,
    base_urls: Seq<Seq<char>>,
)
    ensures
        check_action(check_start(options, base_urls)) is ReadTokenFile,
        check_start(options, base_urls).options == options,
        check_start(options, base_urls).base_urls == base_urls,
        check_start(options, base_urls).is_consistent(),
{
}

/// A token file that is missing, too large, unreadable or no document ends the
/// check, with the path and the cause.
pub proof fn law_token_file_problems_are_told(
    check: CheckView,
    path: Seq<char>,
    cause: Seq<char>,
    contents: Seq<char>,
)
    requires
        check.phase is Token,
    ensures
        check_action(
            check_after(check, CheckEventView::TokenRead(path, TokenFileView::Missing(cause))),
        ) == CheckActionView::Fail(
            "ACP OAuth token file not found: "@ + path
                + ". Authenticate the Antigravity ACP agent in Zed first.: "@ + cause,
        ),
        check_action(check_after(check, CheckEventView::TokenRead(path, TokenFileView::TooLarge)))
            == CheckActionView::Fail("Refusing to read unexpectedly large token file: "@ + path),
        check_action(
            check_after(check, CheckEventView::TokenRead(path, TokenFileView::Unreadable(cause))),
        ) == CheckActionView::Fail("failed to read "@ + path + ": "@ + cause),
        parsed_json(contents) == Err::<JsonTree, Seq<char>>(cause) ==> check_action(
            check_after(check, CheckEventView::TokenRead(path, TokenFileView::Contents(contents))),
        ) == CheckActionView::Fail("failed to parse "@ + path + ": "@ + cause),
{
}

/// A token file that is a document leads to the first host where it holds an
/// access token, else to a refresh where it holds a refresh token, else to the
/// end. The project it names is the one to fall back on.
pub proof fn law_the_token_file_says_how_to_go_on(
    check: CheckView,
    path: Seq<char>,
    contents: Seq<char>,
    tree: JsonTree,
)
    requires
        check.phase is Token,
        check.base_urls.len() > 0,
        parsed_json(contents) == Ok::<JsonTree, Seq<char>>(tree),
    ensures
        ({
            let after = check_after(
                check,
                CheckEventView::TokenRead(path, TokenFileView::Contents(contents)),
            );
            match token_source_of(tree) {
                Some(TokenSourceView::Access(token)) => {
                    &&& check_action(after) == CheckActionView::Post(
                        load_request_of(check.base_urls[0], token),
                    )
                    &&& after.phase matches PhaseView::Fetch(fetch)
                    &&& fetch.fallback_project == project_id_of(tree)
                    &&& fetch.base_urls == check.base_urls
                },
                Some(TokenSourceView::Refresh(credentials)) => {
                    &&& check_action(after) == CheckActionView::Post(
                        PostRequestView {
                            url: credentials.token_uri,
                            bearer: None,
                            body: refresh_body_tree(credentials),
                        },
                    )
                    &&& after.phase == PhaseView::Refresh {
                        credentials,
                        path,
                        fallback: project_id_of(tree),
                    }
                },
                None => check_action(after) == CheckActionView::Fail(
                    "No OAuth access token or refresh token found in "@ + path
                        + ". The ACP token schema may have changed."@,
                ),
            }
        }),
{
}

/// A refresh that yields a token leads to the lookup with that token and the
/// project to fall back on; one that fails ends the check, with the path and
/// the reason.
pub proof fn law_a_refresh_leads_to_the_lookup(check: CheckView, delivery: DeliveryView)
    requires
        check.phase is Refresh,
        check.base_urls.len() > 0,
    ensures
        ({
            let after = check_after(check, CheckEventView::Delivered(delivery));
            match refresh_outcome(check.phase->Refresh_credentials, delivery) {
                Ok(token) => after.phase == PhaseView::Fetch(
                    fetch_start(check.base_urls, token, check.phase->fallback),
                ),
                Err(error) => check_action(after) == CheckActionView::Fail(
                    "failed to refresh access token using credentials from "@
                        + check.phase->Refresh_path + ": "@ + error,
                ),
            }
        }),
{
}

/// While the quota is looked up the check does what the lookup asks for and
/// hands on what came of it. A lookup that succeeds is decoded, one that fails
/// ends the check with its own message.
pub proof fn law_a_check_follows_its_lookup(
    check: CheckView,
    fetch: FetchView,
    event: CheckEventView,
    step: FetchEventView,
)
    requires
        check.is_consistent(),
        check.phase == PhaseView::Fetch(fetch),
        match event {
            CheckEventView::Delivered(delivery) => step == FetchEventView::Delivered(delivery),
            CheckEventView::LoadDecoded(decoded) => step == FetchEventView::LoadDecoded(decoded),
            _ => false,
        },
    ensures
        fetch_action(fetch) matches FetchActionView::Post(request) ==> check_action(check)
            == CheckActionView::Post(request),
        fetch_action(fetch) matches FetchActionView::DecodeLoad(tree) ==> check_action(check)
            == CheckActionView::DecodeLoad(tree),
        ({
            let after = check_after(check, event);
            match fetch_action(fetch_after(fetch, step)) {
                FetchActionView::Fail(message) => check_action(after) == CheckActionView::Fail(
                    message,
                ),
                FetchActionView::Finish(fetched) => !check.options.raw_output && has_groups(
                    fetched.quota,
                ) ==> check_action(after) == CheckActionView::DecodeQuota(fetched.quota)
                    && after.phase == (PhaseView::Decode {
                    fetched,
                    access_token: fetch.access_token,
                }),
                _ => after.phase == PhaseView::Fetch(fetch_after(fetch, step)),
            }
        }),
{
}

/// A quota has groups where it is an object with an entry under `groups`,
/// whatever that holds, and not otherwise.
pub proof fn law_groups_are_an_entry_of_an_object(entries: Seq<(Seq<char>, JsonTree)>, tree: JsonTree)
    ensures
        tree !is Object ==> !has_groups(tree),
        (forall|i: int| 0 <= i < entries.len() ==> (#[trigger] entries[i]).0 != "groups"@)
            ==> !has_groups(JsonTree::Object(entries)),
        forall|i: int|
            0 <= i < entries.len() && (#[trigger] entries[i]).0 == "groups"@ ==> has_groups(
                JsonTree::Object(entries),
            ),
{
    if forall|i: int| 0 <= i < entries.len() ==> (#[trigger] entries[i]).0 != "groups"@ {
        law_absent_keys_name_nothing(entries, "groups"@);
    }
    assert forall|i: int|
        0 <= i < entries.len() && (#[trigger] entries[i]).0 == "groups"@ implies has_groups(
        JsonTree::Object(entries),
    ) by {
        lemma_present_key_names_something(entries, i);
    }
}

/// A key that some entry has names something.
proof fn lemma_present_key_names_something(entries: Seq<(Seq<char>, JsonTree)>, i: int)
    requires
        0 <= i < entries.len(),
    ensures
        entry_of(entries, entries[i].0) is Some,
    decreases entries.len(),
{
    if i > 0 {
        assert(entries.skip(1)[i - 1] == entries[i]);
        lemma_present_key_names_something(entries.skip(1), i - 1);
    }
}

/// What a check reports of a decoded quota: the project, the plan, the groups
/// in the format that was asked for, and their rows for the history.
pub proof fn law_a_report_is_of_what_was_found(
    check: CheckView,
    fetched: FetchedView,
    access_token: Seq<char>,
    groups: Seq<GroupView>,
)
    requires
        check.is_consistent(),
        check.phase == (PhaseView::Decode { fetched, access_token }),
        has_groups(fetched.quota),
    ensures
        check_action(check_after(check, CheckEventView::QuotaDecoded(Ok(groups))))
            == CheckActionView::Report(
            ReportView {
                project: fetched.project,
                tier: fetched.load.tier_name(),
                output: if check.options.json_output {
                    RenderedView::Json(
                        normalized_quota(fetched.project, fetched.load.tier_name(), groups),
                    )
                } else {
                    RenderedView::Human(
                        human_summary(fetched.project, fetched.load.tier_name(), groups),
                    )
                },
                rows: rows_of(groups),
            },
        ),
{
}

/// A quota that cannot be decoded ends the check with the decoder's words,
/// without the access token.
pub proof fn law_undecodable_quotas_are_told(
    check: CheckView,
    fetched: FetchedView,
    access_token: Seq<char>,
    cause: Seq<char>,
)
    requires
        check.phase == (PhaseView::Decode { fetched, access_token }),
    ensures
        check_action(check_after(check, CheckEventView::QuotaDecoded(Err(cause))))
            == CheckActionView::Fail(
            "Google returned an unexpected quota response shape: "@ + without_secret(
                cause,
                access_token,
            ),
        ),
        !has_groups(fetched.quota) ==> forall|groups: Seq<GroupView>|
            check_action(
                #[trigger] check_after(check, CheckEventView::QuotaDecoded(Ok(groups))),
            ) == CheckActionView::Fail(
                "Google returned an unexpected quota response shape: "@
                    + "missing field `groups`"@,
            ),
{
}

/// A raw report is of the lookup's project and plan, shows the answer, and
/// leaves no rows.
pub proof fn law_a_raw_report_leaves_no_rows(options: OptionsView, fetch: FetchView)
    requires
        fetch.is_consistent(),
        options.raw_output,
        fetch.stage is Done,
    ensures
        phase_of_lookup(options, fetch) == PhaseView::Reported(
            ReportView {
                project: fetch.stage->Done_0.project,
                tier: fetch.stage->Done_0.load.tier_name(),
                output: RenderedView::Raw(pretty_json_text(fetch.stage->Done_0.quota)),
                rows: Seq::empty(),
            },
        ),
{
    assert(rows_of(Seq::empty()) =~= Seq::empty());
}

/// An event that does not answer what the check asked for changes nothing.
pub proof fn law_other_events_do_not_touch_the_check(check: CheckView, event: CheckEventView)
    requires
        check.is_consistent(),
        match check_action(check) {
            CheckActionView::ReadTokenFile => event !is TokenRead,
            CheckActionView::Post(_) => event !is Delivered,
            CheckActionView::DecodeLoad(_) => event !is LoadDecoded,
            CheckActionView::DecodeQuota(_) => event !is QuotaDecoded,
            _ => true,
        },
    ensures
        check_after(check, event) == check,
{
    if let PhaseView::Fetch(fetch) = check.phase {
        if let CheckEventView::Delivered(delivery) = event {
            law_other_events_do_not_touch_the_lookup(fetch, FetchEventView::Delivered(delivery));
        }
        if let CheckEventView::LoadDecoded(decoded) = event {
            law_other_events_do_not_touch_the_lookup(fetch, FetchEventView::LoadDecoded(decoded));
        }
    }
}

/// The models of a report, of what was found and of what a decoder made of it
/// have each of their parts.
pub proof fn law_models_keep_the_report(
    report: Report,
    fetched: FetchedQuota,
    summary: QuotaSummaryResponse,
)
    ensures
        report@.project == report.project@,
        report@.tier == optional_text(report.tier),
        report@.output == report.output@,
        report@.rows == row_views(report.rows@),
        report.output matches Rendered::Raw(text) ==> report@.output == RenderedView::Raw(text@),
        report.output matches Rendered::Json(quota) ==> report@.output == RenderedView::Json(
            quota@,
        ),
        report.output matches Rendered::Human(text) ==> report@.output == RenderedView::Human(
            text@,
        ),
        fetched@.load == fetched.load@,
        fetched@.project == fetched.project@,
        fetched@.quota == fetched.quota@,
        fetched@.body == fetched.body@,
        (CheckEvent::QuotaDecoded(Ok(summary)))@ == CheckEventView::QuotaDecoded(
            Ok(group_views(summary.groups@)),
        ),
{
}

/// The models of what is done and of what came of it say the same thing.
pub proof fn law_models_keep_actions_and_events<'a>(
    text: String,
    file: TokenFile,
    delivery: Delivery,
    load: LoadCodeAssistResponse,
    request: PostRequest,
    value: &'a JsonValue,
    report: &'a Report,
)
    ensures
        TokenFile::Missing(text)@ == TokenFileView::Missing(text@),
        TokenFile::TooLarge@ is TooLarge,
        TokenFile::Unreadable(text)@ == TokenFileView::Unreadable(text@),
        TokenFile::Contents(text)@ == TokenFileView::Contents(text@),
        CheckEvent::TokenRead(text, file)@ == CheckEventView::TokenRead(text@, file@),
        CheckEvent::Delivered(delivery)@ == CheckEventView::Delivered(delivery@),
        CheckEvent::LoadDecoded(Ok(load))@ == CheckEventView::LoadDecoded(Ok(load@)),
        CheckEvent::LoadDecoded(Err(text))@ == CheckEventView::LoadDecoded(Err(text@)),
        CheckEvent::QuotaDecoded(Err(text))@ == CheckEventView::QuotaDecoded(Err(text@)),
        CheckAction::ReadTokenFile@ is ReadTokenFile,
        CheckAction::Post(request)@ == CheckActionView::Post(request@),
        CheckAction::DecodeLoad(value)@ == CheckActionView::DecodeLoad(value@),
        CheckAction::DecodeQuota(value)@ == CheckActionView::DecodeQuota(value@),
        CheckAction::Report(report)@ == CheckActionView::Report(report@),
        CheckAction::Fail(text)@ == CheckActionView::Fail(text@),
{
}

} // verus!
