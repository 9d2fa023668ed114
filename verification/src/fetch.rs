//! The quota lookup, step by step: one call for the project and one for its
//! quota, on one host after the other until both succeed on one.
use crate::auth::remove_secret;
use crate::auth::without_secret;
use crate::client::endpoint_report;
use crate::client::exhausted_text;
use crate::client::law_unsuccessful_answers_are_failures;
use crate::client::load_request;
use crate::client::load_request_of;
use crate::client::load_url;
use crate::client::post_json;
use crate::client::post_outcome;
use crate::client::quota_request;
use crate::client::quota_request_of;
use crate::client::quota_url;
use crate::client::report_endpoint;
use crate::client::report_exhausted;
use crate::client::reports_of;
use crate::client::settle_project;
use crate::client::settled_project;
use crate::http::Delivery;
use crate::http::DeliveryView;
use crate::http::PostRequest;
use crate::http::PostRequestView;
use crate::json::parsed_json;
use crate::json::JsonTree;
use crate::json::JsonValue;
use crate::models::LoadCodeAssistResponse;
use crate::models::LoadView;
use crate::text::begins_with;
use crate::text::is_blank;
use crate::text::optional_text;
use crate::text::texts;
use vstd::prelude::*;
use vstd::string::StringExecFns;

verus! {

/// A quota that was looked up.
#[derive(Debug, PartialEq, Eq)]
pub struct FetchedQuota {
    pub load: LoadCodeAssistResponse,
    pub project: String,
    pub quota: JsonValue,
    /// The text that the quota was read from.
    pub body: String,
}

/// What a [`FetchedQuota`] holds.
pub ghost struct FetchedView {
    pub load: LoadView,
    pub project: Seq<char>,
    pub quota: JsonTree,
    pub body: Seq<char>,
}

impl View for FetchedQuota {
    type V = FetchedView;

    open spec fn view(&self) -> FetchedView {
        FetchedView {
            load: self.load@,
            project: self.project@,
            quota: self.quota@,
            body: self.body@,
        }
    }
}

/// How far the lookup has come.
enum Stage {
    /// The current host is asked for the project.
    Load,
    /// Its answer is to be decoded.
    Decode(JsonValue),
    /// It is asked for the quota of the project.
    Quota(LoadCodeAssistResponse, String),
    /// Both calls succeeded.
    Done(FetchedQuota),
    /// No host is left.
    Exhausted,
}

/// How far a lookup has come.
pub ghost enum StageView {
    Load,
    Decode(JsonTree),
    Quota(LoadView, Seq<char>),
    Done(FetchedView),
    Exhausted,
}

impl StageView {
    /// From the call for the quota on, the project is known, and it is not
    /// blank.
    pub open spec fn has_project(self) -> bool {
        match self {
            StageView::Quota(load, project) => load.cloudaicompanion_project == Some(project)
                && !is_blank(project),
            StageView::Done(fetched) => fetched.load.cloudaicompanion_project == Some(
                fetched.project,
            ) && !is_blank(fetched.project),
            _ => true,
        }
    }
}

impl Stage {
    spec fn view(self) -> StageView {
        match self {
            Stage::Load => StageView::Load,
            Stage::Decode(value) => StageView::Decode(value@),
            Stage::Quota(load, project) => StageView::Quota(load@, project@),
            Stage::Done(fetched) => StageView::Done(fetched@),
            Stage::Exhausted => StageView::Exhausted,
        }
    }
}

/// A quota lookup in progress.
pub struct QuotaFetch {
    base_urls: Vec<String>,
    access_token: String,
    fallback_project: Option<String>,
    /// What went wrong on each host that was given up.
    reports: Vec<String>,
    stage: Stage,
}

/// The state of a [`QuotaFetch`].
pub ghost struct FetchView {
    pub base_urls: Seq<Seq<char>>,
    pub access_token: Seq<char>,
    pub fallback_project: Option<Seq<char>>,
    pub reports: Seq<Seq<char>>,
    pub stage: StageView,
}

impl View for QuotaFetch {
    type V = FetchView;

    closed spec fn view(&self) -> FetchView {
        FetchView {
            base_urls: texts(self.base_urls@),
            access_token: self.access_token@,
            fallback_project: optional_text(self.fallback_project),
            reports: texts(self.reports@),
            stage: self.stage.view(),
        }
    }
}

impl FetchView {
    /// There is a report on every host that was given up, as long as the
    /// lookup goes on there is a host left, a quota is never asked for without
    /// a project, and a quota that was found is the document in its text.
    pub open spec fn is_consistent(self) -> bool {
        &&& self.reports.len() <= self.base_urls.len()
        &&& self.stage is Exhausted <==> self.reports.len() == self.base_urls.len()
        &&& self.stage.has_project()
        &&& self.stage matches StageView::Done(fetched) ==> parsed_json(fetched.body) == Ok::<
            JsonTree,
            Seq<char>,
        >(fetched.quota)
    }

    /// The host that is being asked.
    pub open spec fn current_host(self) -> Seq<char> {
        self.base_urls[self.reports.len() as int]
    }

    /// The lookup, gone on to the next host after a failure on this one.
    pub open spec fn given_up(self, error: Seq<char>) -> FetchView {
        let reports = self.reports.push(endpoint_report(self.current_host(), error));
        FetchView {
            reports,
            stage: if reports.len() == self.base_urls.len() {
                StageView::Exhausted
            } else {
                StageView::Load
            },
            ..self
        }
    }

    /// The same lookup at another stage.
    pub open spec fn at(self, stage: StageView) -> FetchView {
        FetchView { stage, ..self }
    }
}

/// What is to be done next.
#[derive(Debug, PartialEq, Eq)]
pub enum FetchAction<'a> {
    /// Send a request.
    Post(PostRequest),
    /// Decode the API's answer about the project.
    DecodeLoad(&'a JsonValue),
    /// Nothing; this is the quota.
    Finish(&'a FetchedQuota),
    /// Nothing; the lookup failed.
    Fail(String),
}

/// What a [`FetchAction`] asks for.
pub ghost enum FetchActionView {
    Post(PostRequestView),
    DecodeLoad(JsonTree),
    Finish(FetchedView),
    Fail(Seq<char>),
}

impl<'a> View for FetchAction<'a> {
    type V = FetchActionView;

    open spec fn view(&self) -> FetchActionView {
        match self {
            FetchAction::Post(request) => FetchActionView::Post(request@),
            FetchAction::DecodeLoad(value) => FetchActionView::DecodeLoad(value@),
            FetchAction::Finish(fetched) => FetchActionView::Finish(fetched@),
            FetchAction::Fail(message) => FetchActionView::Fail(message@),
        }
    }
}

/// What came of an action.
#[derive(Debug, PartialEq, Eq)]
pub enum FetchEvent {
    /// A request was sent, with this outcome.
    Delivered(Delivery),
    /// An answer about the project was decoded, or could not be.
    LoadDecoded(Result<LoadCodeAssistResponse, String>),
}

/// What a [`FetchEvent`] says.
pub ghost enum FetchEventView {
    Delivered(DeliveryView),
    LoadDecoded(Result<LoadView, Seq<char>>),
}

/// What a decoding says.
pub open spec fn decoded_load(decoded: Result<LoadCodeAssistResponse, String>) -> Result<
    LoadView,
    Seq<char>,
> {
    match decoded {
        Ok(load) => Ok(load@),
        Err(cause) => Err(cause@),
    }
}

impl View for FetchEvent {
    type V = FetchEventView;

    open spec fn view(&self) -> FetchEventView {
        match self {
            FetchEvent::Delivered(delivery) => FetchEventView::Delivered(delivery@),
            FetchEvent::LoadDecoded(decoded) => FetchEventView::LoadDecoded(decoded_load(*decoded)),
        }
    }
}

/// What a lookup asks for next.
pub open spec fn fetch_action(fetch: FetchView) -> FetchActionView {
    match fetch.stage {
        StageView::Load => FetchActionView::Post(
            load_request_of(fetch.current_host(), fetch.access_token),
        ),
        StageView::Decode(tree) => FetchActionView::DecodeLoad(tree),
        StageView::Quota(load, project) => FetchActionView::Post(
            quota_request_of(fetch.current_host(), fetch.access_token, project),
        ),
        StageView::Done(fetched) => FetchActionView::Finish(fetched),
        StageView::Exhausted => FetchActionView::Fail(exhausted_text(fetch.reports)),
    }
}

/// The message where the call for the project failed.
pub open spec fn load_failed(error: Seq<char>) -> Seq<char> {
    "loadCodeAssist failed: "@ + error
}

/// The message where the answer about the project could not be decoded.
pub open spec fn load_unexpected(cause: Seq<char>) -> Seq<char> {
    "unexpected loadCodeAssist response: "@ + cause
}

/// The message where no project is known.
pub open spec fn no_project() -> Seq<char> {
    "Google loadCodeAssist did not return cloudaicompanionProject. The account may not expose Antigravity quota or the internal API changed."@
}

/// The message where the call for the quota failed.
pub open spec fn quota_failed(error: Seq<char>) -> Seq<char> {
    "retrieveUserQuotaSummary failed: "@ + error
}

/// The answer about the project, with the project that counts filled in.
pub open spec fn with_project(load: LoadView, project: Seq<char>) -> LoadView {
    LoadView { cloudaicompanion_project: Some(project), ..load }
}

/// A lookup after an event. An event that does not answer what the lookup
/// asked for changes nothing.
pub open spec fn fetch_after(fetch: FetchView, event: FetchEventView) -> FetchView {
    match (fetch.stage, event) {
        (StageView::Load, FetchEventView::Delivered(delivery)) => match post_outcome(
            load_url(fetch.current_host()),
            delivery,
            fetch.access_token,
        ) {
            Ok(tree) => fetch.at(StageView::Decode(tree)),
            Err(error) => fetch.given_up(load_failed(error)),
        },
        (StageView::Decode(_), FetchEventView::LoadDecoded(Ok(load))) => match settled_project(
            load.cloudaicompanion_project,
            fetch.fallback_project,
        ) {
            Some(project) => fetch.at(StageView::Quota(with_project(load, project), project)),
            None => fetch.given_up(no_project()),
        },
        (StageView::Decode(_), FetchEventView::LoadDecoded(Err(cause))) => fetch.given_up(
            load_unexpected(without_secret(cause, fetch.access_token)),
        ),
        (StageView::Quota(load, project), FetchEventView::Delivered(delivery)) => match post_outcome(
            quota_url(fetch.current_host()),
            delivery,
            fetch.access_token,
        ) {
            Ok(quota) => fetch.at(
                StageView::Done(FetchedView { load, project, quota, body: delivery.body() }),
            ),
            Err(error) => fetch.given_up(quota_failed(error)),
        },
        _ => fetch,
    }
}

/// A lookup before its first request.
pub open spec fn fetch_start(
    base_urls: Seq<Seq<char>>,
    access_token: Seq<char>,
    fallback_project: Option<Seq<char>>,
) -> FetchView {
    FetchView {
        base_urls,
        access_token,
        fallback_project,
        reports: Seq::empty(),
        stage: if base_urls.len() == 0 {
            StageView::Exhausted
        } else {
            StageView::Load
        },
    }
}

impl QuotaFetch {
    #[verifier::type_invariant]
    spec fn holds_together(self) -> bool {
        self@.is_consistent()
    }

    /// Starts a lookup that tries the provided base URLs.
    pub fn new(
        base_urls: Vec<String>,
        access_token: String,
        fallback_project: Option<String>,
    ) -> (fetch: Self)
        ensures
            fetch@ == fetch_start(
                texts(base_urls@),
                access_token@,
                optional_text(fallback_project),
            ),
            fetch@.is_consistent(),
    {
        let stage = if base_urls.len() == 0 {
            Stage::Exhausted
        } else {
            Stage::Load
        };
        let reports: Vec<String> = Vec::new();
        assert(texts(reports@) =~= Seq::empty());
        QuotaFetch { base_urls, access_token, fallback_project, reports, stage }
    }

    /// What is to be done next.
    pub fn action(&self) -> (action: FetchAction<'_>)
        ensures
            action@ == fetch_action(self@),
            self@.is_consistent(),
    {
        proof {
            use_type_invariant(&*self);
        }
        match &self.stage {
            Stage::Load => {
                let host = self.base_urls[self.reports.len()].as_str();
                FetchAction::Post(load_request(host, self.access_token.as_str()))
            },
            Stage::Decode(value) => FetchAction::DecodeLoad(value),
            Stage::Quota(_, project) => {
                let host = self.base_urls[self.reports.len()].as_str();
                FetchAction::Post(
                    quota_request(host, self.access_token.as_str(), project.as_str()),
                )
            },
            Stage::Done(fetched) => FetchAction::Finish(fetched),
            Stage::Exhausted => FetchAction::Fail(report_exhausted(&self.reports)),
        }
    }

    /// The host that is being asked.
    fn host(&self) -> (host: &str)
        requires
            self@.stage !is Exhausted,
        ensures
            host@ == self@.current_host(),
    {
        proof {
            use_type_invariant(&*self);
        }
        self.base_urls[self.reports.len()].as_str()
    }

    /// Goes on to the next host after a failure on this one.
    fn give_up(self, error: String) -> (fetch: Self)
        requires
            self@.stage !is Exhausted,
        ensures
            fetch@ == self@.given_up(error@),
    {
        proof {
            use_type_invariant(&self);
        }
        let report = report_endpoint(self.host(), error.as_str());
        let mut reports = self.reports;
        let ghost before = reports@;
        reports.push(report);
        assert(texts(reports@) =~= texts(before).push(report@));
        let stage = if reports.len() == self.base_urls.len() {
            Stage::Exhausted
        } else {
            Stage::Load
        };
        QuotaFetch {
            base_urls: self.base_urls,
            access_token: self.access_token,
            fallback_project: self.fallback_project,
            reports,
            stage,
        }
    }

    /// The same lookup at another stage.
    fn proceed(self, stage: Stage) -> (fetch: Self)
        requires
            self@.stage !is Exhausted,
            stage !is Exhausted,
            stage !is Done,
            stage.view().has_project(),
        ensures
            fetch@ == self@.at(stage.view()),
    {
        proof {
            use_type_invariant(&self);
        }
        QuotaFetch {
            base_urls: self.base_urls,
            access_token: self.access_token,
            fallback_project: self.fallback_project,
            reports: self.reports,
            stage,
        }
    }

    /// Takes in what came of the last action. An event that does not answer
    /// it changes nothing.
    pub fn advance(self, event: FetchEvent) -> (fetch: Self)
        ensures
            fetch@ == fetch_after(self@, event@),
            fetch@.is_consistent(),
    {
        proof {
            use_type_invariant(&self);
        }
        match (&self.stage, event) {
            (Stage::Load, FetchEvent::Delivered(delivery)) => {
                let url = self.host().to_owned().concat("/v1internal:loadCodeAssist");
                match post_json(url.as_str(), &delivery, self.access_token.as_str()) {
                    Ok(value) => self.proceed(Stage::Decode(value)),
                    Err(error) => {
                        let message = error.message();
                        self.give_up("loadCodeAssist failed: ".to_owned().concat(message.as_str()))
                    },
                }
            },
            (Stage::Decode(_), FetchEvent::LoadDecoded(Ok(load))) => {
                match settle_project(&load, &self.fallback_project) {
                    Some(project) => {
                        let settled = LoadCodeAssistResponse {
                            cloudaicompanion_project: Some(project.clone()),
                            current_tier: load.current_tier,
                            paid_tier: load.paid_tier,
                        };
                        self.proceed(Stage::Quota(settled, project))
                    },
                    None => self.give_up(
                        "Google loadCodeAssist did not return cloudaicompanionProject. The account may not expose Antigravity quota or the internal API changed.".to_owned(),
                    ),
                }
            },
            (Stage::Decode(_), FetchEvent::LoadDecoded(Err(cause))) => {
                let clean = remove_secret(cause.as_str(), self.access_token.as_str());
                self.give_up(
                    "unexpected loadCodeAssist response: ".to_owned().concat(clean.as_str()),
                )
            },
            (Stage::Quota(_, _), FetchEvent::Delivered(delivery)) => {
                let url = self.host().to_owned().concat("/v1internal:retrieveUserQuotaSummary");
                match post_json(url.as_str(), &delivery, self.access_token.as_str()) {
                    Ok(quota) => self.complete(quota, delivery.into_body()),
                    Err(error) => {
                        let message = error.message();
                        self.give_up(
                            "retrieveUserQuotaSummary failed: ".to_owned().concat(message.as_str()),
                        )
                    },
                }
            },
            _ => self,
        }
    }

    /// Ends the lookup with the quota that was asked for.
    fn complete(self, quota: JsonValue, body: String) -> (fetch: Self)
        requires
            self@.stage is Quota,
            parsed_json(body@) == Ok::<JsonTree, Seq<char>>(quota@),
        ensures
            fetch@ == self@.at(
                StageView::Done(
                    FetchedView {
                        load: self@.stage->Quota_0,
                        project: self@.stage->Quota_1,
                        quota: quota@,
                        body: body@,
                    },
                ),
            ),
    {
        proof {
            use_type_invariant(&self);
        }
        let stage = match self.stage {
            Stage::Quota(load, project) => Stage::Done(
                FetchedQuota { load, project, quota, body },
            ),
            other => other,
        };
        QuotaFetch {
            base_urls: self.base_urls,
            access_token: self.access_token,
            fallback_project: self.fallback_project,
            reports: self.reports,
            stage,
        }
    }
}

/// Where a lookup stands.
pub enum FetchOutcome {
    /// It goes on.
    Pending(QuotaFetch),
    /// It succeeded, with this access token.
    Done(FetchedQuota, String),
    /// It failed, with this message.
    Failed(String),
}

impl QuotaFetch {
    /// Ends a lookup that has come to its end.
    pub fn outcome(self) -> (outcome: FetchOutcome)
        ensures
            match self@.stage {
                StageView::Done(fetched) => outcome matches FetchOutcome::Done(
                    f,
                    token,
                ) && f@ == fetched && token@ == self@.access_token,
                StageView::Exhausted => outcome matches FetchOutcome::Failed(message) && message@
                    == exhausted_text(self@.reports),
                _ => outcome == FetchOutcome::Pending(self),
            },
    {
        proof {
            use_type_invariant(&self);
        }
        match self.stage {
            Stage::Done(fetched) => FetchOutcome::Done(fetched, self.access_token),
            Stage::Exhausted => FetchOutcome::Failed(report_exhausted(&self.reports)),
            stage => FetchOutcome::Pending(
                QuotaFetch {
                    base_urls: self.base_urls,
                    access_token: self.access_token,
                    fallback_project: self.fallback_project,
                    reports: self.reports,
                    stage,
                },
            ),
        }
    }
}

/// What one host has to say: to the call for the project, of the decoding of
/// that answer, and to the call for the quota.
pub ghost struct HostReplies {
    pub load: DeliveryView,
    pub decoded: Result<LoadView, Seq<char>>,
    pub quota: DeliveryView,
}

/// What comes of asking one host: the quota, where both calls succeed, or
/// what went wrong first.
pub open spec fn host_outcome(
    base_url: Seq<char>,
    access_token: Seq<char>,
    fallback_project: Option<Seq<char>>,
    replies: HostReplies,
) -> Result<FetchedView, Seq<char>> {
    match post_outcome(load_url(base_url), replies.load, access_token) {
        Err(error) => Err(load_failed(error)),
        Ok(_) => match replies.decoded {
            Err(cause) => Err(load_unexpected(without_secret(cause, access_token))),
            Ok(load) => match settled_project(load.cloudaicompanion_project, fallback_project) {
                None => Err(no_project()),
                Some(project) => match post_outcome(
                    quota_url(base_url),
                    replies.quota,
                    access_token,
                ) {
                    Err(error) => Err(quota_failed(error)),
                    Ok(quota) => Ok(
                        FetchedView {
                            load: with_project(load, project),
                            project,
                            quota,
                            body: replies.quota.body(),
                        },
                    ),
                },
            },
        },
    }
}

/// A lookup after one host has answered whatever it was asked.
pub open spec fn fetch_on_host(fetch: FetchView, replies: HostReplies) -> FetchView {
    let asked = fetch_after(fetch, FetchEventView::Delivered(replies.load));
    if asked.stage !is Decode {
        asked
    } else {
        let decoded = fetch_after(asked, FetchEventView::LoadDecoded(replies.decoded));
        if decoded.stage !is Quota {
            decoded
        } else {
            fetch_after(decoded, FetchEventView::Delivered(replies.quota))
        }
    }
}

/// A lookup after as many hosts have answered as it asked. `replies` holds
/// what each host has to say.
pub open spec fn fetch_run(fetch: FetchView, replies: Seq<HostReplies>) -> FetchView
    decreases fetch.base_urls.len() - fetch.reports.len(),
    when fetch.is_consistent()
{
    if fetch.stage is Load {
        let after = fetch_on_host(fetch, replies[fetch.reports.len() as int]);
        if after.stage is Load {
            fetch_run(after, replies)
        } else {
            after
        }
    } else {
        fetch
    }
}

/// No event breaks a lookup, and none changes which hosts it asks, with which
/// access token.
pub proof fn law_lookup_stays_consistent(fetch: FetchView, event: FetchEventView)
    requires
        fetch.is_consistent(),
    ensures
        fetch_after(fetch, event).is_consistent(),
        fetch_after(fetch, event).base_urls == fetch.base_urls,
        fetch_after(fetch, event).access_token == fetch.access_token,
        fetch_after(fetch, event).fallback_project == fetch.fallback_project,
        fetch.reports.is_prefix_of(fetch_after(fetch, event).reports),
{
}

/// A new lookup is consistent.
pub proof fn law_lookup_starts_consistent(
    base_urls: Seq<Seq<char>>,
    access_token: Seq<char>,
    fallback_project: Option<Seq<char>>,
)
    ensures
        fetch_start(base_urls, access_token, fallback_project).is_consistent(),
{
}

/// A host yields the quota where both calls succeed on it; where either
/// fails, the host is given up.
pub proof fn law_host_succeeds_or_is_given_up(fetch: FetchView, replies: HostReplies)
    requires
        fetch.is_consistent(),
        fetch.stage is Load,
    ensures
        fetch_on_host(fetch, replies) == match host_outcome(
            fetch.current_host(),
            fetch.access_token,
            fetch.fallback_project,
            replies,
        ) {
            Ok(fetched) => fetch.at(StageView::Done(fetched)),
            Err(error) => fetch.given_up(error),
        },
{
}

/// Whichever call fails on a host, the lookup starts over on the next host
/// with the first call, as long as there is one.
pub proof fn law_both_calls_are_retried(fetch: FetchView, replies: HostReplies)
    requires
        fetch.is_consistent(),
        fetch.stage is Load,
        host_outcome(
            fetch.current_host(),
            fetch.access_token,
            fetch.fallback_project,
            replies,
        ) is Err,
        fetch.reports.len() + 1 < fetch.base_urls.len(),
    ensures
        fetch_on_host(fetch, replies).stage is Load,
        fetch_action(fetch_on_host(fetch, replies)) == FetchActionView::Post(
            load_request_of(
                fetch.base_urls[fetch.reports.len() as int + 1],
                fetch.access_token,
            ),
        ),
{
    law_host_succeeds_or_is_given_up(fetch, replies);
}

/// The access token goes to the given hosts only, as a bearer token, with the
/// two calls of the API and no other.
pub proof fn law_token_goes_to_the_hosts_only(fetch: FetchView, request: PostRequestView)
    requires
        fetch.is_consistent(),
        fetch_action(fetch) == FetchActionView::Post(request),
    ensures
        request.bearer == Some(fetch.access_token),
        exists|i: int|
            0 <= i < fetch.base_urls.len() && (request.url == load_url(
                #[trigger] fetch.base_urls[i],
            ) || request.url == quota_url(fetch.base_urls[i])),
{
    assert(fetch.base_urls[fetch.reports.len() as int] == fetch.current_host());
}

/// The lookup after the failures of the first hosts.
pub open spec fn fetch_after_failures(fetch: FetchView, errors: Seq<Seq<char>>) -> FetchView {
    let reports = reports_of(fetch.base_urls, errors);
    FetchView {
        reports,
        stage: if reports.len() == fetch.base_urls.len() {
            StageView::Exhausted
        } else {
            StageView::Load
        },
        ..fetch
    }
}

/// Whether the first hosts fail with the given errors.
pub open spec fn hosts_fail(
    fetch: FetchView,
    replies: Seq<HostReplies>,
    errors: Seq<Seq<char>>,
) -> bool {
    &&& errors.len() <= fetch.base_urls.len()
    &&& errors.len() <= replies.len()
    &&& forall|i: int|
        0 <= i < errors.len() ==> host_outcome(
            fetch.base_urls[i],
            fetch.access_token,
            fetch.fallback_project,
            replies[i],
        ) == Err::<FetchedView, Seq<char>>(#[trigger] errors[i])
}

/// Running past a host that fails.
proof fn lemma_run_past_failures(
    fetch: FetchView,
    replies: Seq<HostReplies>,
    errors: Seq<Seq<char>>,
    count: nat,
)
    requires
        fetch == fetch_start(fetch.base_urls, fetch.access_token, fetch.fallback_project),
        hosts_fail(fetch, replies, errors),
        count <= errors.len(),
    ensures
        fetch_run(fetch, replies) == fetch_run(
            fetch_after_failures(fetch, errors.take(count as int)),
            replies,
        ),
    decreases count,
{
    if count == 0 {
        assert(reports_of(fetch.base_urls, errors.take(0)) =~= Seq::empty());
    } else {
        let earlier = errors.take(count - 1);
        let now = errors.take(count as int);
        lemma_run_past_failures(fetch, replies, errors, (count - 1) as nat);
        let before = fetch_after_failures(fetch, earlier);
        law_host_succeeds_or_is_given_up(before, replies[count - 1]);
        assert(host_outcome(
            fetch.base_urls[count - 1],
            fetch.access_token,
            fetch.fallback_project,
            replies[count - 1],
        ) == Err::<FetchedView, Seq<char>>(errors[count - 1]));
        assert(reports_of(fetch.base_urls, now) =~= reports_of(fetch.base_urls, earlier).push(
            endpoint_report(fetch.base_urls[count - 1], errors[count - 1]),
        ));
        assert(before.given_up(errors[count - 1]) == fetch_after_failures(fetch, now));
    }
}

/// The lookup yields the quota of the first host on which both calls succeed.
pub proof fn law_first_successful_host_counts(
    base_urls: Seq<Seq<char>>,
    access_token: Seq<char>,
    fallback_project: Option<Seq<char>>,
    replies: Seq<HostReplies>,
    errors: Seq<Seq<char>>,
    fetched: FetchedView,
)
    requires
        errors.len() < base_urls.len() == replies.len(),
        hosts_fail(fetch_start(base_urls, access_token, fallback_project), replies, errors),
        host_outcome(
            base_urls[errors.len() as int],
            access_token,
            fallback_project,
            replies[errors.len() as int],
        ) == Ok::<FetchedView, Seq<char>>(fetched),
    ensures
        fetch_action(
            fetch_run(fetch_start(base_urls, access_token, fallback_project), replies),
        ) == FetchActionView::Finish(fetched),
{
    let start = fetch_start(base_urls, access_token, fallback_project);
    lemma_run_past_failures(start, replies, errors, errors.len());
    assert(errors.take(errors.len() as int) =~= errors);
    law_host_succeeds_or_is_given_up(
        fetch_after_failures(start, errors),
        replies[errors.len() as int],
    );
}

/// Where no host succeeds, the lookup fails with a report on every host.
pub proof fn law_failure_reports_every_host(
    base_urls: Seq<Seq<char>>,
    access_token: Seq<char>,
    fallback_project: Option<Seq<char>>,
    replies: Seq<HostReplies>,
    errors: Seq<Seq<char>>,
)
    requires
        errors.len() == base_urls.len() == replies.len(),
        hosts_fail(fetch_start(base_urls, access_token, fallback_project), replies, errors),
    ensures
        fetch_action(
            fetch_run(fetch_start(base_urls, access_token, fallback_project), replies),
        ) == FetchActionView::Fail(exhausted_text(reports_of(base_urls, errors))),
{
    let start = fetch_start(base_urls, access_token, fallback_project);
    lemma_run_past_failures(start, replies, errors, errors.len());
    assert(errors.take(errors.len() as int) =~= errors);
}

/// An answer with a status below 200 or from 300 on, to either call and
/// whatever it holds, makes the lookup start over on the next host with the
/// call for the project, and so does an answer that is no document; on the
/// last host the lookup fails. The report names the host.
pub proof fn law_unsuccessful_answers_move_the_lookup_on(
    fetch: FetchView,
    status: u16,
    status_line: Seq<char>,
    body: Seq<char>,
)
    requires
        fetch.is_consistent(),
        fetch.stage is Load || fetch.stage is Quota,
        status < 200 || status >= 300 || parsed_json(body) is Err,
    ensures
        ({
            let reply = DeliveryView::Reply { status, status_line, body };
            let after = fetch_after(fetch, FetchEventView::Delivered(reply));
            let here = fetch.reports.len() as int;
            &&& after.reports.len() == here + 1
            &&& after.reports.take(here) == fetch.reports
            &&& begins_with(after.reports[here], fetch.base_urls[here] + ": "@)
            &&& here + 1 < fetch.base_urls.len() ==> fetch_action(after) == FetchActionView::Post(
                load_request_of(fetch.base_urls[here + 1], fetch.access_token),
            )
            &&& here + 1 == fetch.base_urls.len() ==> fetch_action(after) is Fail
        }),
{
    let here = fetch.reports.len() as int;
    let lead = fetch.base_urls[here] + ": "@;
    let reply = DeliveryView::Reply { status, status_line, body };
    let after = fetch_after(fetch, FetchEventView::Delivered(reply));
    if status < 200 || status >= 300 {
        law_unsuccessful_answers_are_failures(
            load_url(fetch.current_host()),
            status,
            status_line,
            body,
            fetch.access_token,
        );
    }
    if status < 200 || status >= 300 {
        law_unsuccessful_answers_are_failures(
            quota_url(fetch.current_host()),
            status,
            status_line,
            body,
            fetch.access_token,
        );
    }
    assert(after.reports.take(here) =~= fetch.reports);
    assert(after.reports[here].take(lead.len() as int) =~= lead);
}

/// A request that is lost moves the lookup on as an unsuccessful answer does,
/// and so does a document that cannot be decoded or that leaves the project
/// open. The report on the host tells what went wrong.
pub proof fn law_other_failures_move_the_lookup_on(
    fetch: FetchView,
    event: FetchEventView,
    cause: Seq<char>,
)
    requires
        fetch.is_consistent(),
        match fetch.stage {
            StageView::Load | StageView::Quota(_, _) => {
                ||| event == FetchEventView::Delivered(DeliveryView::SendFailed(cause))
                ||| event == FetchEventView::Delivered(DeliveryView::ReadFailed(cause))
            },
            StageView::Decode(_) => {
                ||| event == FetchEventView::LoadDecoded(Err(cause))
                ||| event matches FetchEventView::LoadDecoded(Ok(load)) && settled_project(
                    load.cloudaicompanion_project,
                    fetch.fallback_project,
                ) is None
            },
            _ => false,
        },
    ensures
        ({
            let after = fetch_after(fetch, event);
            let here = fetch.reports.len() as int;
            &&& after.reports.len() == here + 1
            &&& after.reports.take(here) == fetch.reports
            &&& fetch.stage is Load ==> begins_with(
                after.reports[here],
                fetch.base_urls[here] + ": loadCodeAssist failed: "@,
            )
            &&& fetch.stage is Quota ==> begins_with(
                after.reports[here],
                fetch.base_urls[here] + ": retrieveUserQuotaSummary failed: "@,
            )
            &&& fetch.stage is Decode && event->LoadDecoded_0 is Err ==> after.reports[here]
                == fetch.base_urls[here] + ": unexpected loadCodeAssist response: "@
                + without_secret(cause, fetch.access_token)
            &&& fetch.stage is Decode && event->LoadDecoded_0 is Ok ==> after.reports[here]
                == fetch.base_urls[here]
                + ": Google loadCodeAssist did not return cloudaicompanionProject. The account may not expose Antigravity quota or the internal API changed."@
            &&& here + 1 < fetch.base_urls.len() ==> fetch_action(after) == FetchActionView::Post(
                load_request_of(fetch.base_urls[here + 1], fetch.access_token),
            )
            &&& here + 1 == fetch.base_urls.len() ==> fetch_action(after) is Fail
        }),
{
    let here = fetch.reports.len() as int;
    let host = fetch.base_urls[here];
    let after = fetch_after(fetch, event);
    assert(after.reports.take(here) =~= fetch.reports);
    reveal_strlit(": ");
    reveal_strlit("loadCodeAssist failed: ");
    reveal_strlit(": loadCodeAssist failed: ");
    reveal_strlit("retrieveUserQuotaSummary failed: ");
    reveal_strlit(": retrieveUserQuotaSummary failed: ");
    reveal_strlit("unexpected loadCodeAssist response: ");
    reveal_strlit(": unexpected loadCodeAssist response: ");
    reveal_strlit(
        "Google loadCodeAssist did not return cloudaicompanionProject. The account may not expose Antigravity quota or the internal API changed.",
    );
    reveal_strlit(
        ": Google loadCodeAssist did not return cloudaicompanionProject. The account may not expose Antigravity quota or the internal API changed.",
    );
    match fetch.stage {
        StageView::Load => {
            let lead = host + ": loadCodeAssist failed: "@;
            assert(after.reports[here].take(lead.len() as int) =~= lead);
        },
        StageView::Quota(_, _) => {
            let lead = host + ": retrieveUserQuotaSummary failed: "@;
            assert(after.reports[here].take(lead.len() as int) =~= lead);
        },
        _ => {
            if event->LoadDecoded_0 is Err {
                assert(after.reports[here] =~= host + ": unexpected loadCodeAssist response: "@
                    + without_secret(cause, fetch.access_token));
            } else {
                assert(after.reports[here] =~= host
                    + ": Google loadCodeAssist did not return cloudaicompanionProject. The account may not expose Antigravity quota or the internal API changed."@);
            }
        },
    }
}

/// The document in a successful answer to the call for the project is what is
/// decoded.
pub proof fn law_project_answers_are_decoded(
    fetch: FetchView,
    status: u16,
    status_line: Seq<char>,
    body: Seq<char>,
    tree: JsonTree,
)
    requires
        fetch.is_consistent(),
        fetch.stage is Load,
        200 <= status && status < 300,
        parsed_json(body) == Ok::<JsonTree, Seq<char>>(tree),
    ensures
        ({
            let reply = DeliveryView::Reply { status, status_line, body };
            let after = fetch_after(fetch, FetchEventView::Delivered(reply));
            &&& fetch_action(after) == FetchActionView::DecodeLoad(tree)
            &&& after.reports == fetch.reports
        }),
{
}

/// Once the project is settled the same host is asked for its quota, with the
/// same access token.
pub proof fn law_the_same_host_is_asked_for_the_quota(
    fetch: FetchView,
    load: LoadView,
    project: Seq<char>,
)
    requires
        fetch.is_consistent(),
        fetch.stage is Decode,
        settled_project(load.cloudaicompanion_project, fetch.fallback_project) == Some(project),
    ensures
        ({
            let after = fetch_after(fetch, FetchEventView::LoadDecoded(Ok(load)));
            &&& fetch_action(after) == FetchActionView::Post(
                quota_request_of(
                    fetch.base_urls[fetch.reports.len() as int],
                    fetch.access_token,
                    project,
                ),
            )
            &&& after.reports == fetch.reports
            &&& after.stage matches StageView::Quota(kept, _)
            &&& kept.current_tier == load.current_tier
            &&& kept.paid_tier == load.paid_tier
            &&& kept.cloudaicompanion_project == Some(project)
        }),
{
}

/// A successful answer to the call for the quota ends the lookup with the
/// document in that answer, its text, and what is known of the project.
pub proof fn law_quota_answers_end_the_lookup(
    fetch: FetchView,
    status: u16,
    status_line: Seq<char>,
    body: Seq<char>,
    tree: JsonTree,
)
    requires
        fetch.is_consistent(),
        fetch.stage is Quota,
        200 <= status && status < 300,
        parsed_json(body) == Ok::<JsonTree, Seq<char>>(tree),
    ensures
        ({
            let reply = DeliveryView::Reply { status, status_line, body };
            fetch_action(fetch_after(fetch, FetchEventView::Delivered(reply)))
                == FetchActionView::Finish(
                FetchedView {
                    load: fetch.stage->Quota_0,
                    project: fetch.stage->Quota_1,
                    quota: tree,
                    body,
                },
            )
        }),
{
}

/// A lookup begins with the call for the project on the first host; without a
/// host it fails at once.
pub proof fn law_a_lookup_begins_on_the_first_host(
    base_urls: Seq<Seq<char>>,
    access_token: Seq<char>,
    fallback_project: Option<Seq<char>>,
)
    ensures
        ({
            let start = fetch_start(base_urls, access_token, fallback_project);
            &&& base_urls.len() > 0 ==> fetch_action(start) == FetchActionView::Post(
                load_request_of(base_urls[0], access_token),
            )
            &&& base_urls.len() == 0 ==> fetch_action(start) is Fail
            &&& start.fallback_project == fallback_project
            &&& start.access_token == access_token
            &&& start.base_urls == base_urls
            &&& start.reports.len() == 0
        }),
{
}

/// An event that does not answer what the lookup asked for changes nothing.
pub proof fn law_other_events_do_not_touch_the_lookup(fetch: FetchView, event: FetchEventView)
    requires
        match fetch_action(fetch) {
            FetchActionView::Post(_) => event is LoadDecoded,
            FetchActionView::DecodeLoad(_) => event is Delivered,
            _ => true,
        },
    ensures
        fetch_after(fetch, event) == fetch,
{
}

} // verus!
