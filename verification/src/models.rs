//! What the Code Assist API answers with, and the normalized form in which
//! quota is handed on.
use crate::text::optional_text;
use vstd::prelude::*;

verus! {

/// The first of two that is there.
pub open spec fn first_of(first: Option<Seq<char>>, second: Option<Seq<char>>) -> Option<
    Seq<char>,
> {
    match first {
        Some(text) => Some(text),
        None => second,
    }
}

/// A copy of an optional string.
pub fn copy_optional(string: &Option<String>) -> (copy: Option<String>)
    ensures
        optional_text(copy) == optional_text(*string),
{
    match string {
        Some(text) => Some(text.clone()),
        None => None,
    }
}

/// A copy of the first of two optional strings that is there.
fn copy_first(first: &Option<String>, second: &Option<String>) -> (copy: Option<String>)
    ensures
        optional_text(copy) == first_of(optional_text(*first), optional_text(*second)),
{
    match first {
        Some(text) => Some(text.clone()),
        None => copy_optional(second),
    }
}

/// Response payload from Google's `v1internal:loadCodeAssist` endpoint.
#[derive(Debug, Clone, PartialEq, Eq)]
pub struct LoadCodeAssistResponse {
    pub cloudaicompanion_project: Option<String>,
    pub current_tier: Option<Tier>,
    pub paid_tier: Option<Tier>,
}

/// What a [`LoadCodeAssistResponse`] holds.
pub ghost struct LoadView {
    pub cloudaicompanion_project: Option<Seq<char>>,
    pub current_tier: Option<TierView>,
    pub paid_tier: Option<TierView>,
}

/// What an optional tier holds.
pub open spec fn optional_tier(tier: Option<Tier>) -> Option<TierView> {
    match tier {
        Some(t) => Some(t@),
        None => None,
    }
}

impl View for LoadCodeAssistResponse {
    type V = LoadView;

    open spec fn view(&self) -> LoadView {
        LoadView {
            cloudaicompanion_project: optional_text(self.cloudaicompanion_project),
            current_tier: optional_tier(self.current_tier),
            paid_tier: optional_tier(self.paid_tier),
        }
    }
}

impl LoadView {
    /// The name of the paid tier, or of the current tier where none is paid.
    pub open spec fn tier_name(self) -> Option<Seq<char>> {
        match (self.paid_tier, self.current_tier) {
            (Some(tier), _) => tier.shown_name(),
            (None, Some(tier)) => tier.shown_name(),
            (None, None) => None,
        }
    }
}

impl LoadCodeAssistResponse {
    /// Resolves the user's tier name, checking paid tier first then current
    /// tier.
    pub fn tier_name(&self) -> (name: Option<String>)
        ensures
            optional_text(name) == self@.tier_name(),
    {
        if let Some(tier) = &self.paid_tier {
            return tier.display_name();
        }
        if let Some(tier) = &self.current_tier {
            return tier.display_name();
        }
        None
    }
}

/// Tier information returned by the Code Assist API.
#[derive(Debug, Clone, PartialEq, Eq)]
pub struct Tier {
    pub id: Option<String>,
    pub name: Option<String>,
    pub display_name: Option<String>,
}

/// What a [`Tier`] holds.
pub ghost struct TierView {
    pub id: Option<Seq<char>>,
    pub name: Option<Seq<char>>,
    pub display_name: Option<Seq<char>>,
}

impl View for Tier {
    type V = TierView;

    open spec fn view(&self) -> TierView {
        TierView {
            id: optional_text(self.id),
            name: optional_text(self.name),
            display_name: optional_text(self.display_name),
        }
    }
}

impl TierView {
    /// The display name, else the name, else the identifier.
    pub open spec fn shown_name(self) -> Option<Seq<char>> {
        first_of(self.display_name, first_of(self.name, self.id))
    }
}

impl Tier {
    /// Returns the best available display identifier for the tier.
    pub fn display_name(&self) -> (name: Option<String>)
        ensures
            optional_text(name) == self@.shown_name(),
    {
        match &self.display_name {
            Some(name) => Some(name.clone()),
            None => copy_first(&self.name, &self.id),
        }
    }
}

/// Response payload from Google's `v1internal:retrieveUserQuotaSummary`
/// endpoint.
#[derive(Debug, Clone, PartialEq, Eq)]
pub struct QuotaSummaryResponse {
    pub groups: Vec<QuotaGroup>,
}

/// A logical group of quota buckets (e.g. Gemini Models).
#[derive(Debug, Clone, PartialEq, Eq)]
pub struct QuotaGroup {
    pub display_name: Option<String>,
    pub description: Option<String>,
    pub buckets: Vec<QuotaBucket>,
}

/// What a [`QuotaGroup`] holds.
pub ghost struct GroupView {
    pub display_name: Option<Seq<char>>,
    pub description: Option<Seq<char>>,
    pub buckets: Seq<BucketView>,
}

impl View for QuotaGroup {
    type V = GroupView;

    open spec fn view(&self) -> GroupView {
        GroupView {
            display_name: optional_text(self.display_name),
            description: optional_text(self.description),
            buckets: Seq::new(self.buckets@.len(), |i: int| self.buckets@[i]@),
        }
    }
}

/// What each group of a list holds.
pub open spec fn group_views(groups: Seq<QuotaGroup>) -> Seq<GroupView> {
    Seq::new(groups.len(), |i: int| groups[i]@)
}

impl GroupView {
    /// The display name, else the description, else a stock name.
    pub open spec fn name(self) -> Seq<char> {
        match first_of(self.display_name, self.description) {
            Some(name) => name,
            None => "Quota group"@,
        }
    }
}

impl QuotaGroup {
    /// Returns the best available display name for the group.
    pub fn name(&self) -> (name: String)
        ensures
            name@ == self@.name(),
    {
        match copy_first(&self.display_name, &self.description) {
            Some(name) => name,
            None => "Quota group".to_owned(),
        }
    }
}

/// How much of a bucket is left. The numbers are double precision values that
/// the library hands on without computing with them.
#[derive(Debug, Clone, PartialEq, Eq)]
pub struct Remaining {
    /// The bits of the fraction that is left.
    pub fraction: u64,
    /// The bits of the percentage that is left, between 0 and 100.
    pub percent: u64,
    /// The percentage with one decimal, as it is shown.
    pub percent_text: String,
}

/// What a [`Remaining`] holds.
pub ghost struct RemainingView {
    pub fraction: u64,
    pub percent: u64,
    pub percent_text: Seq<char>,
}

impl View for Remaining {
    type V = RemainingView;

    open spec fn view(&self) -> RemainingView {
        RemainingView {
            fraction: self.fraction,
            percent: self.percent,
            percent_text: self.percent_text@,
        }
    }
}

/// Individual quota bucket details.
#[derive(Debug, Clone, PartialEq, Eq)]
pub struct QuotaBucket {
    pub bucket_id: Option<String>,
    pub window: Option<String>,
    pub display_name: Option<String>,
    pub description: Option<String>,
    pub remaining: Option<Remaining>,
    pub reset_time: Option<String>,
}

/// What a [`QuotaBucket`] holds.
pub ghost struct BucketView {
    pub bucket_id: Option<Seq<char>>,
    pub window: Option<Seq<char>>,
    pub display_name: Option<Seq<char>>,
    pub description: Option<Seq<char>>,
    pub remaining: Option<RemainingView>,
    pub reset_time: Option<Seq<char>>,
}

impl View for QuotaBucket {
    type V = BucketView;

    open spec fn view(&self) -> BucketView {
        BucketView {
            bucket_id: optional_text(self.bucket_id),
            window: optional_text(self.window),
            display_name: optional_text(self.display_name),
            description: optional_text(self.description),
            remaining: match self.remaining {
                Some(remaining) => Some(remaining@),
                None => None,
            },
            reset_time: optional_text(self.reset_time),
        }
    }
}

impl BucketView {
    /// The display name, else the description, else the window, else the
    /// identifier, else a stock name.
    pub open spec fn name(self) -> Seq<char> {
        match first_of(
            self.display_name,
            first_of(self.description, first_of(self.window, self.bucket_id)),
        ) {
            Some(name) => name,
            None => "Limit"@,
        }
    }

    /// The bits of the fraction that is left, where it is known.
    pub open spec fn remaining_fraction(self) -> Option<u64> {
        match self.remaining {
            Some(remaining) => Some(remaining.fraction),
            None => None,
        }
    }

    /// The bits of the percentage that is left, where it is known.
    pub open spec fn remaining_percent(self) -> Option<u64> {
        match self.remaining {
            Some(remaining) => Some(remaining.percent),
            None => None,
        }
    }
}

impl QuotaBucket {
    /// Returns the best available display label for the bucket.
    pub fn name(&self) -> (name: String)
        ensures
            name@ == self@.name(),
    {
        let best = match &self.display_name {
            Some(name) => Some(name.clone()),
            None => match &self.description {
                Some(description) => Some(description.clone()),
                None => copy_first(&self.window, &self.bucket_id),
            },
        };
        match best {
            Some(name) => name,
            None => "Limit".to_owned(),
        }
    }

    /// The bits of the fraction of quota remaining.
    pub fn remaining_fraction(&self) -> (bits: Option<u64>)
        ensures
            bits == self@.remaining_fraction(),
    {
        match &self.remaining {
            Some(remaining) => Some(remaining.fraction),
            None => None,
        }
    }

    /// The bits of the percentage of quota remaining.
    pub fn remaining_percent(&self) -> (bits: Option<u64>)
        ensures
            bits == self@.remaining_percent(),
    {
        match &self.remaining {
            Some(remaining) => Some(remaining.percent),
            None => None,
        }
    }
}

/// Normalized structure for JSON output or programmatic consumption.
#[derive(Debug, Clone, PartialEq, Eq)]
pub struct NormalizedQuota {
    pub project: String,
    pub tier: Option<String>,
    pub groups: Vec<NormalizedQuotaGroup>,
}

/// A group of a [`NormalizedQuota`].
#[derive(Debug, Clone, PartialEq, Eq)]
pub struct NormalizedQuotaGroup {
    pub name: String,
    pub buckets: Vec<NormalizedQuotaBucket>,
}

/// A bucket of a [`NormalizedQuotaGroup`]. The numbers are the bits of double
/// precision values.
#[derive(Debug, Clone, PartialEq, Eq)]
pub struct NormalizedQuotaBucket {
    pub name: String,
    pub remaining_fraction: Option<u64>,
    pub remaining_percent: Option<u64>,
    pub reset_time: Option<String>,
    pub window: Option<String>,
    pub bucket_id: Option<String>,
}

/// What a [`NormalizedQuota`] holds.
pub ghost struct NormalizedView {
    pub project: Seq<char>,
    pub tier: Option<Seq<char>>,
    pub groups: Seq<NormalizedGroupView>,
}

/// What a [`NormalizedQuotaGroup`] holds.
pub ghost struct NormalizedGroupView {
    pub name: Seq<char>,
    pub buckets: Seq<NormalizedBucketView>,
}

/// What a [`NormalizedQuotaBucket`] holds.
pub ghost struct NormalizedBucketView {
    pub name: Seq<char>,
    pub remaining_fraction: Option<u64>,
    pub remaining_percent: Option<u64>,
    pub reset_time: Option<Seq<char>>,
    pub window: Option<Seq<char>>,
    pub bucket_id: Option<Seq<char>>,
}

impl View for NormalizedQuota {
    type V = NormalizedView;

    open spec fn view(&self) -> NormalizedView {
        NormalizedView {
            project: self.project@,
            tier: optional_text(self.tier),
            groups: Seq::new(self.groups@.len(), |i: int| self.groups@[i]@),
        }
    }
}

impl View for NormalizedQuotaGroup {
    type V = NormalizedGroupView;

    open spec fn view(&self) -> NormalizedGroupView {
        NormalizedGroupView {
            name: self.name@,
            buckets: Seq::new(self.buckets@.len(), |i: int| self.buckets@[i]@),
        }
    }
}

impl View for NormalizedQuotaBucket {
    type V = NormalizedBucketView;

    open spec fn view(&self) -> NormalizedBucketView {
        NormalizedBucketView {
            name: self.name@,
            remaining_fraction: self.remaining_fraction,
            remaining_percent: self.remaining_percent,
            reset_time: optional_text(self.reset_time),
            window: optional_text(self.window),
            bucket_id: optional_text(self.bucket_id),
        }
    }
}

/// The normalized form of a bucket.
pub open spec fn normalized_bucket(bucket: BucketView) -> NormalizedBucketView {
    NormalizedBucketView {
        name: bucket.name(),
        remaining_fraction: bucket.remaining_fraction(),
        remaining_percent: bucket.remaining_percent(),
        reset_time: bucket.reset_time,
        window: bucket.window,
        bucket_id: bucket.bucket_id,
    }
}

/// The normalized form of a group: its buckets, each normalized, in order.
pub open spec fn normalized_group(group: GroupView) -> NormalizedGroupView {
    NormalizedGroupView {
        name: group.name(),
        buckets: Seq::new(group.buckets.len(), |i: int| normalized_bucket(group.buckets[i])),
    }
}

/// The normalized form of a quota: its groups, each normalized, in order.
pub open spec fn normalized_quota(
    project: Seq<char>,
    tier: Option<Seq<char>>,
    groups: Seq<GroupView>,
) -> NormalizedView {
    NormalizedView {
        project,
        tier,
        groups: Seq::new(groups.len(), |i: int| normalized_group(groups[i])),
    }
}

impl NormalizedQuota {
    /// Normalizes the quota of a project.
    pub fn new(project: &str, tier: Option<String>, groups: &[QuotaGroup]) -> (quota: Self)
        ensures
            quota@ == normalized_quota(project@, optional_text(tier), group_views(groups@)),
    {
        let mut list: Vec<NormalizedQuotaGroup> = Vec::new();
        for i in 0..groups.len()
            invariant
                list@.len() == i,
                forall|j: int|
                    0 <= j < i ==> (#[trigger] list@[j])@ == normalized_group(groups@[j]@),
        {
            list.push(NormalizedQuotaGroup::from_group(&groups[i]));
        }
        let quota = NormalizedQuota { project: project.to_owned(), tier, groups: list };
        assert(quota@.groups =~= normalized_quota(
            project@,
            optional_text(tier),
            group_views(groups@),
        ).groups);
        quota
    }
}

impl NormalizedQuotaGroup {
    /// Normalizes a group.
    pub fn from_group(group: &QuotaGroup) -> (normalized: Self)
        ensures
            normalized@ == normalized_group(group@),
    {
        let mut list: Vec<NormalizedQuotaBucket> = Vec::new();
        for i in 0..group.buckets.len()
            invariant
                list@.len() == i,
                forall|j: int|
                    0 <= j < i ==> (#[trigger] list@[j])@ == normalized_bucket(group.buckets@[j]@),
        {
            list.push(NormalizedQuotaBucket::from_bucket(&group.buckets[i]));
        }
        let normalized = NormalizedQuotaGroup { name: group.name(), buckets: list };
        assert(normalized@.buckets =~= normalized_group(group@).buckets);
        normalized
    }
}

impl NormalizedQuotaBucket {
    /// Normalizes a bucket.
    pub fn from_bucket(bucket: &QuotaBucket) -> (normalized: Self)
        ensures
            normalized@ == normalized_bucket(bucket@),
    {
        NormalizedQuotaBucket {
            name: bucket.name(),
            remaining_fraction: bucket.remaining_fraction(),
            remaining_percent: bucket.remaining_percent(),
            reset_time: copy_optional(&bucket.reset_time),
            window: copy_optional(&bucket.window),
            bucket_id: copy_optional(&bucket.bucket_id),
        }
    }
}

/// A tier is shown by its display name, without one by its name, without either
/// by its identifier.
pub proof fn law_tiers_are_shown_by_their_best_name(tier: TierView)
    ensures
        tier.display_name matches Some(name) ==> tier.shown_name() == Some(name),
        tier.display_name is None ==> (tier.name matches Some(name) ==> tier.shown_name() == Some(
            name,
        )),
        tier.display_name is None && tier.name is None ==> tier.shown_name() == tier.id,
{
}

/// The paid tier names the plan wherever there is one, else the current tier.
pub proof fn law_the_paid_tier_names_the_plan(load: LoadView)
    ensures
        load.paid_tier matches Some(tier) ==> load.tier_name() == tier.shown_name(),
        load.paid_tier is None ==> (load.current_tier matches Some(tier) ==> load.tier_name()
            == tier.shown_name()),
        load.paid_tier is None && load.current_tier is None ==> load.tier_name() is None,
{
}

/// A group is called by its display name, without one by its description,
/// without either `Quota group`.
pub proof fn law_groups_are_called_by_their_best_name(group: GroupView)
    ensures
        group.display_name matches Some(name) ==> group.name() == name,
        group.display_name is None ==> (group.description matches Some(name) ==> group.name()
            == name),
        group.display_name is None && group.description is None ==> group.name()
            == "Quota group"@,
{
}

/// A bucket is called by its display name, without one by its description, then
/// by its window, then by its identifier, and without any of them `Limit`.
pub proof fn law_buckets_are_called_by_their_best_name(bucket: BucketView)
    ensures
        bucket.display_name matches Some(name) ==> bucket.name() == name,
        bucket.display_name is None ==> {
            &&& bucket.description matches Some(name) ==> bucket.name() == name
            &&& bucket.description is None ==> {
                &&& bucket.window matches Some(name) ==> bucket.name() == name
                &&& bucket.window is None ==> {
                    &&& bucket.bucket_id matches Some(name) ==> bucket.name() == name
                    &&& bucket.bucket_id is None ==> bucket.name() == "Limit"@
                }
            }
        },
{
}

/// What is left of a bucket is known where the API says it, and is what the API
/// says.
pub proof fn law_what_is_left_is_handed_on(bucket: BucketView)
    ensures
        bucket.remaining matches Some(remaining) ==> {
            &&& bucket.remaining_fraction() == Some(remaining.fraction)
            &&& bucket.remaining_percent() == Some(remaining.percent)
        },
        bucket.remaining is None ==> bucket.remaining_fraction() is None
            && bucket.remaining_percent() is None,
{
}

/// The normalized quota has the project, the plan and every group in its place,
/// each group its own name and every bucket in its place, and each bucket its
/// own name, fraction, percentage, reset time, window and identifier.
pub proof fn law_normalized_quota_keeps_every_bucket(
    project: Seq<char>,
    tier: Option<Seq<char>>,
    groups: Seq<GroupView>,
)
    ensures
        ({
            let quota = normalized_quota(project, tier, groups);
            &&& quota.project == project
            &&& quota.tier == tier
            &&& quota.groups.len() == groups.len()
            &&& forall|i: int|
                0 <= i < groups.len() ==> {
                    &&& (#[trigger] quota.groups[i]).name == groups[i].name()
                    &&& quota.groups[i].buckets.len() == groups[i].buckets.len()
                }
            &&& forall|i: int, k: int|
                0 <= i < groups.len() && 0 <= k < groups[i].buckets.len() ==> {
                    let bucket = groups[i].buckets[k];
                    let kept = #[trigger] quota.groups[i].buckets[k];
                    &&& kept.name == bucket.name()
                    &&& kept.reset_time == bucket.reset_time
                    &&& kept.window == bucket.window
                    &&& kept.bucket_id == bucket.bucket_id
                    &&& kept.remaining_fraction is Some <==> bucket.remaining is Some
                    &&& kept.remaining_percent is Some <==> bucket.remaining is Some
                    &&& bucket.remaining matches Some(remaining) ==> {
                        &&& kept.remaining_fraction == Some(remaining.fraction)
                        &&& kept.remaining_percent == Some(remaining.percent)
                    }
                }
        }),
{
}

/// Normalizing the groups of two lists one after the other gives the normalized
/// groups of the one, then those of the other.
pub proof fn law_normalizing_keeps_order(
    project: Seq<char>,
    tier: Option<Seq<char>>,
    front: Seq<GroupView>,
    back: Seq<GroupView>,
)
    ensures
        normalized_quota(project, tier, front + back).groups == normalized_quota(
            project,
            tier,
            front,
        ).groups + normalized_quota(project, tier, back).groups,
{
    assert(normalized_quota(project, tier, front + back).groups =~= normalized_quota(
        project,
        tier,
        front,
    ).groups + normalized_quota(project, tier, back).groups);
}

/// The model of a group has each of its fields and every bucket in its place,
/// that of a list of groups every group in its place.
pub proof fn law_models_keep_the_quota(groups: Seq<QuotaGroup>, bucket: QuotaBucket)
    ensures
        group_views(groups).len() == groups.len(),
        forall|i: int| 0 <= i < groups.len() ==> #[trigger] group_views(groups)[i] == groups[i]@,
        forall|i: int|
            0 <= i < groups.len() ==> {
                let group = #[trigger] groups[i];
                &&& group@.display_name == optional_text(group.display_name)
                &&& group@.description == optional_text(group.description)
                &&& group@.buckets.len() == group.buckets@.len()
                &&& forall|k: int|
                    0 <= k < group.buckets@.len() ==> #[trigger] group@.buckets[k]
                        == group.buckets@[k]@
            },
        bucket@.bucket_id == optional_text(bucket.bucket_id),
        bucket@.window == optional_text(bucket.window),
        bucket@.display_name == optional_text(bucket.display_name),
        bucket@.description == optional_text(bucket.description),
        bucket@.reset_time == optional_text(bucket.reset_time),
        bucket.remaining is None <==> bucket@.remaining is None,
        bucket.remaining matches Some(remaining) ==> bucket@.remaining == Some(
            RemainingView {
                fraction: remaining.fraction,
                percent: remaining.percent,
                percent_text: remaining.percent_text@,
            },
        ),
{
}

/// The model of an answer about the project has each of its fields.
pub proof fn law_models_keep_the_project(load: LoadCodeAssistResponse, tier: Tier)
    ensures
        load@.cloudaicompanion_project == optional_text(load.cloudaicompanion_project),
        load.current_tier matches Some(current) ==> load@.current_tier == Some(current@),
        load.current_tier is None ==> load@.current_tier is None,
        load.paid_tier matches Some(paid) ==> load@.paid_tier == Some(paid@),
        load.paid_tier is None ==> load@.paid_tier is None,
        tier@.id == optional_text(tier.id),
        tier@.name == optional_text(tier.name),
        tier@.display_name == optional_text(tier.display_name),
{
}

/// The model of a normalized quota has each of its fields, and everything in
/// its place.
pub proof fn law_models_keep_the_normalized_quota(
    quota: NormalizedQuota,
    group: NormalizedQuotaGroup,
    bucket: NormalizedQuotaBucket,
)
    ensures
        quota@.project == quota.project@,
        quota@.tier == optional_text(quota.tier),
        quota@.groups.len() == quota.groups@.len(),
        forall|i: int|
            0 <= i < quota.groups@.len() ==> #[trigger] quota@.groups[i] == quota.groups@[i]@,
        group@.name == group.name@,
        group@.buckets.len() == group.buckets@.len(),
        forall|k: int|
            0 <= k < group.buckets@.len() ==> #[trigger] group@.buckets[k] == group.buckets@[k]@,
        bucket@.name == bucket.name@,
        bucket@.remaining_fraction == bucket.remaining_fraction,
        bucket@.remaining_percent == bucket.remaining_percent,
        bucket@.reset_time == optional_text(bucket.reset_time),
        bucket@.window == optional_text(bucket.window),
        bucket@.bucket_id == optional_text(bucket.bucket_id),
{
}

} // verus!
