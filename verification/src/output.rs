//! How quota is shown: as a text for people and as a JSON document.
use crate::cli::OutputFormat;
use crate::json::entry_of;
use crate::json::json_string;
use crate::json::laid_out;
use crate::json::law_keys_are_unambiguous;
use crate::json::lay_out_json;
use crate::json::parsed_json;
use crate::json::pretty_json_text;
use crate::json::well_formed;
use crate::json::JsonNumber;
use crate::json::JsonTree;
use crate::json::JsonValue;
use crate::models::copy_optional;
use crate::models::group_views;
use crate::models::normalized_quota;
use crate::models::BucketView;
use crate::models::GroupView;
use crate::models::NormalizedQuota;
use crate::models::NormalizedView;
use crate::models::QuotaBucket;
use crate::models::QuotaGroup;
use crate::text::append_repeated;
use crate::text::begins_with;
use crate::text::blank;
use crate::text::contains_text;
use crate::text::is_blank;
use crate::text::optional_slice;
use crate::text::optional_text;
use crate::text::repeated;
use vstd::prelude::*;
use vstd::string::StrSliceExecFns;
use vstd::string::StringExecFns;

verus! {

/// Whether the bits of a double precision value are those of a number, and
/// not of an infinity or of no number: the exponent is not all ones.
pub open spec fn is_finite(bits: u64) -> bool {
    (bits / 0x10_0000_0000_0000) % 0x800 != 0x7ff
}

/// A JSON number, or null where there is none.
pub open spec fn number_tree(bits: Option<u64>) -> JsonTree {
    match bits {
        Some(b) if is_finite(b) => JsonTree::Number(JsonNumber::Float(b)),
        _ => JsonTree::Null,
    }
}

/// A JSON string, or null where there is none.
pub open spec fn text_tree(text: Option<Seq<char>>) -> JsonTree {
    match text {
        Some(t) => JsonTree::String(t),
        None => JsonTree::Null,
    }
}

/// A bucket as a JSON object.
pub open spec fn bucket_tree(bucket: BucketView) -> JsonTree {
    JsonTree::Object(
        seq![
            ("bucket_id"@, text_tree(bucket.bucket_id)),
            ("name"@, JsonTree::String(bucket.name())),
            ("remaining_fraction"@, number_tree(bucket.remaining_fraction())),
            ("remaining_percent"@, number_tree(bucket.remaining_percent())),
            ("reset_time"@, text_tree(bucket.reset_time)),
            ("window"@, text_tree(bucket.window)),
        ],
    )
}

/// A group as a JSON object.
pub open spec fn group_tree(group: GroupView) -> JsonTree {
    JsonTree::Object(
        seq![
            (
                "buckets"@,
                JsonTree::Array(
                    Seq::new(group.buckets.len(), |i: int| bucket_tree(group.buckets[i])),
                ),
            ),
            ("name"@, JsonTree::String(group.name())),
        ],
    )
}

/// Groups as a JSON array, in order.
pub open spec fn groups_tree(groups: Seq<GroupView>) -> JsonTree {
    JsonTree::Array(Seq::new(groups.len(), |i: int| group_tree(groups[i])))
}

/// Builds a JSON number, or null.
fn number_json(bits: Option<u64>) -> (value: JsonValue)
    ensures
        value@ == number_tree(bits),
{
    match bits {
        Some(b) => {
            if (b / 0x10_0000_0000_0000) % 0x800 != 0x7ff {
                JsonValue::Number(JsonNumber::Float(b))
            } else {
                JsonValue::Null
            }
        },
        None => JsonValue::Null,
    }
}

/// Builds a JSON string, or null.
fn text_json(text: &Option<String>) -> (value: JsonValue)
    ensures
        value@ == text_tree(optional_text(*text)),
{
    match text {
        Some(t) => JsonValue::String(t.clone()),
        None => JsonValue::Null,
    }
}

/// Builds the JSON object of a bucket.
fn bucket_json(bucket: &QuotaBucket) -> (value: JsonValue)
    ensures
        value@ == bucket_tree(bucket@),
{
    let mut entries: Vec<(String, JsonValue)> = Vec::new();
    entries.push(("bucket_id".to_owned(), text_json(&bucket.bucket_id)));
    let name = bucket.name();
    entries.push(("name".to_owned(), json_string(name.as_str())));
    entries.push(("remaining_fraction".to_owned(), number_json(bucket.remaining_fraction())));
    entries.push(("remaining_percent".to_owned(), number_json(bucket.remaining_percent())));
    entries.push(("reset_time".to_owned(), text_json(&bucket.reset_time)));
    entries.push(("window".to_owned(), text_json(&bucket.window)));
    let value = JsonValue::Object(entries);
    assert(value.tree()->Object_0 =~= bucket_tree(bucket@)->Object_0);
    value
}

/// Builds the JSON object of a group.
fn group_json(group: &QuotaGroup) -> (value: JsonValue)
    ensures
        value@ == group_tree(group@),
{
    let mut buckets: Vec<JsonValue> = Vec::new();
    for i in 0..group.buckets.len()
        invariant
            buckets@.len() == i,
            forall|j: int|
                0 <= j < i ==> (#[trigger] buckets@[j])@ == bucket_tree(group.buckets@[j]@),
    {
        buckets.push(bucket_json(&group.buckets[i]));
    }
    let list = JsonValue::Array(buckets);
    assert(list.tree()->Array_0 =~= Seq::new(
        group@.buckets.len(),
        |i: int| bucket_tree(group@.buckets[i]),
    ));
    let mut entries: Vec<(String, JsonValue)> = Vec::new();
    entries.push(("buckets".to_owned(), list));
    let name = group.name();
    entries.push(("name".to_owned(), json_string(name.as_str())));
    let value = JsonValue::Object(entries);
    assert(value.tree()->Object_0 =~= group_tree(group@)->Object_0);
    value
}

/// Normalizes quota groups into a JSON document.
pub fn normalize_groups(groups: &[QuotaGroup]) -> (value: JsonValue)
    ensures
        value@ == groups_tree(group_views(groups@)),
{
    let mut list: Vec<JsonValue> = Vec::new();
    for i in 0..groups.len()
        invariant
            list@.len() == i,
            forall|j: int| 0 <= j < i ==> (#[trigger] list@[j])@ == group_tree(groups@[j]@),
    {
        list.push(group_json(&groups[i]));
    }
    let value = JsonValue::Array(list);
    assert(value.tree()->Array_0 =~= groups_tree(group_views(groups@))->Array_0);
    value
}

/// The line that says how much of a bucket is left.
pub open spec fn remaining_line(bucket: BucketView) -> Seq<char> {
    match bucket.remaining {
        Some(remaining) => bucket.name() + ": "@ + remaining.percent_text + "% remaining\n"@,
        None => bucket.name() + ": remaining quota unknown\n"@,
    }
}

/// The line that says when a bucket is reset, where that is known.
pub open spec fn reset_line(bucket: BucketView) -> Seq<char> {
    match bucket.reset_time {
        Some(reset) if !is_blank(reset) => "  reset: "@ + reset + "\n"@,
        _ => Seq::empty(),
    }
}

/// The lines for several buckets, in order.
pub open spec fn bucket_lines(buckets: Seq<BucketView>) -> Seq<char>
    decreases buckets.len(),
{
    if buckets.len() == 0 {
        Seq::empty()
    } else {
        bucket_lines(buckets.drop_last()) + remaining_line(buckets.last()) + reset_line(
            buckets.last(),
        )
    }
}

/// The heading of a group: an empty line, its name, underlined.
pub open spec fn group_heading(group: GroupView) -> Seq<char> {
    "\n"@ + group.name() + "\n"@ + repeated('-', group.name().len()) + "\n"@
}

/// The lines for several groups, in order.
pub open spec fn group_lines(groups: Seq<GroupView>) -> Seq<char>
    decreases groups.len(),
{
    if groups.len() == 0 {
        Seq::empty()
    } else {
        let group = groups.last();
        group_lines(groups.drop_last()) + group_heading(group) + if group.buckets.len() == 0 {
            "No buckets returned.\n"@
        } else {
            bucket_lines(group.buckets)
        }
    }
}

/// The line that names the plan, where it is known.
pub open spec fn plan_line(tier: Option<Seq<char>>) -> Seq<char> {
    match tier {
        Some(name) => "Plan: "@ + name + "\n"@,
        None => Seq::empty(),
    }
}

/// The summary for people.
pub open spec fn human_summary(
    project: Seq<char>,
    tier: Option<Seq<char>>,
    groups: Seq<GroupView>,
) -> Seq<char> {
    "Antigravity quota\n=================\n"@ + plan_line(tier) + "Project: "@ + project + "\n"@
        + if groups.len() == 0 {
        "\nNo grouped quota buckets were returned.\n"@
    } else {
        group_lines(groups)
    }
}

/// Appends the lines for a bucket.
fn append_bucket(out: &mut String, bucket: &QuotaBucket)
    ensures
        final(out)@ == old(out)@ + remaining_line(bucket@) + reset_line(bucket@),
{
    let ghost before = out@;
    let label = bucket.name();
    out.append(label.as_str());
    match &bucket.remaining {
        Some(remaining) => {
            out.append(": ");
            out.append(remaining.percent_text.as_str());
            out.append("% remaining\n");
        },
        None => {
            out.append(": remaining quota unknown\n");
        },
    }
    assert(out@ =~= before + remaining_line(bucket@));
    if let Some(reset) = &bucket.reset_time {
        if !blank(reset.as_str()) {
            out.append("  reset: ");
            out.append(reset.as_str());
            out.append("\n");
        }
    }
    assert(out@ =~= before + remaining_line(bucket@) + reset_line(bucket@));
}

/// Appends the lines for a group.
fn append_group(out: &mut String, group: &QuotaGroup)
    ensures
        final(out)@ == old(out)@ + group_heading(group@) + if group@.buckets.len() == 0 {
            "No buckets returned.\n"@
        } else {
            bucket_lines(group@.buckets)
        },
{
    let ghost before = out@;
    let name = group.name();
    out.append("\n");
    out.append(name.as_str());
    out.append("\n");
    proof {
        reveal_strlit("-");
    }
    append_repeated(out, "-", name.as_str().unicode_len());
    out.append("\n");
    assert(out@ =~= before + group_heading(group@));
    if group.buckets.len() == 0 {
        out.append("No buckets returned.\n");
        return;
    }
    let ghost headed = out@;
    assert(bucket_lines(group@.buckets.take(0)) == Seq::<char>::empty());
    for i in 0..group.buckets.len()
        invariant
            out@ == headed + bucket_lines(group@.buckets.take(i as int)),
    {
        let ghost views = group@.buckets;
        append_bucket(out, &group.buckets[i]);
        assert(views.take(i + 1).drop_last() =~= views.take(i as int));
        assert(out@ =~= headed + bucket_lines(views.take(i + 1)));
    }
    assert(group@.buckets.take(group@.buckets.len() as int) =~= group@.buckets);
}

/// Formats the human-readable summary of a project's quota.
pub fn write_human(project: &str, tier: Option<&str>, groups: &[QuotaGroup]) -> (summary: String)
    ensures
        summary@ == human_summary(project@, optional_slice(tier), group_views(groups@)),
{
    let mut out = "Antigravity quota\n=================\n".to_owned();
    if let Some(name) = tier {
        out.append("Plan: ");
        out.append(name);
        out.append("\n");
    }
    assert(out@ =~= "Antigravity quota\n=================\n"@ + plan_line(optional_slice(tier)));
    out.append("Project: ");
    out.append(project);
    out.append("\n");
    if groups.len() == 0 {
        out.append("\nNo grouped quota buckets were returned.\n");
        return out;
    }
    let ghost head = out@;
    let ghost views = group_views(groups@);
    assert(group_lines(views.take(0)) == Seq::<char>::empty());
    for i in 0..groups.len()
        invariant
            views == group_views(groups@),
            out@ == head + group_lines(views.take(i as int)),
    {
        append_group(&mut out, &groups[i]);
        assert(views.take(i + 1).drop_last() =~= views.take(i as int));
        assert(out@ =~= head + group_lines(views.take(i + 1)));
    }
    assert(views.take(views.len() as int) =~= views);
    out
}

/// Quota in the form in which it is shown.
#[derive(Debug, PartialEq, Eq)]
pub enum Rendered {
    /// The API's own answer, laid out for reading.
    Raw(String),
    /// The normalized quota, to be written as JSON.
    Json(NormalizedQuota),
    /// The summary for people.
    Human(String),
}

/// What a [`Rendered`] holds.
pub ghost enum RenderedView {
    Raw(Seq<char>),
    Json(NormalizedView),
    Human(Seq<char>),
}

impl View for Rendered {
    type V = RenderedView;

    open spec fn view(&self) -> RenderedView {
        match self {
            Rendered::Raw(text) => RenderedView::Raw(text@),
            Rendered::Json(quota) => RenderedView::Json(quota@),
            Rendered::Human(summary) => RenderedView::Human(summary@),
        }
    }
}

/// What is shown in a given format, or what went wrong. Only raw output can
/// fail: it lays out a text.
pub open spec fn rendered(
    format: OutputFormat,
    project: Seq<char>,
    tier: Option<Seq<char>>,
    groups: Seq<GroupView>,
    raw_quota: Seq<char>,
) -> Result<RenderedView, Seq<char>> {
    match format {
        OutputFormat::Raw => match laid_out(raw_quota) {
            Ok(text) => Ok(RenderedView::Raw(text)),
            Err(message) => Err(message),
        },
        OutputFormat::Json => Ok(RenderedView::Json(normalized_quota(project, tier, groups))),
        OutputFormat::Human => Ok(RenderedView::Human(human_summary(project, tier, groups))),
    }
}

/// Renders quota according to the selected [`OutputFormat`].
///
/// # Errors
///
/// Returns a message where raw output is asked for and the raw quota is no
/// JSON text.
pub fn render_output(
    format: OutputFormat,
    project: &str,
    tier: &Option<String>,
    groups: &[QuotaGroup],
    raw_quota: &str,
) -> (result: Result<Rendered, String>)
    ensures
        match result {
            Ok(output) => rendered(
                format,
                project@,
                optional_text(*tier),
                group_views(groups@),
                raw_quota@,
            ) == Ok::<RenderedView, Seq<char>>(output@),
            Err(message) => rendered(
                format,
                project@,
                optional_text(*tier),
                group_views(groups@),
                raw_quota@,
            ) == Err::<RenderedView, Seq<char>>(message@),
        },
{
    match format {
        OutputFormat::Raw => match lay_out_json(raw_quota) {
            Ok(text) => Ok(Rendered::Raw(text)),
            Err(message) => Err(message),
        },
        OutputFormat::Json => Ok(
            Rendered::Json(NormalizedQuota::new(project, copy_optional(tier), groups)),
        ),
        OutputFormat::Human => {
            let name = match tier {
                Some(name) => Some(name.as_str()),
                None => None,
            };
            Ok(Rendered::Human(write_human(project, name, groups)))
        },
    }
}

/// Whether an object has a value under a key.
pub open spec fn has_entry(tree: JsonTree, key: Seq<char>, value: JsonTree) -> bool {
    tree matches JsonTree::Object(entries) && entry_of(entries, key) == Some(value)
}

/// A number that is there is written as it is, and as null where it is an
/// infinity or no number; a text that is there is written as it is. What is
/// missing is null.
pub proof fn law_missing_values_are_null(bits: u64, text: Seq<char>)
    ensures
        number_tree(None) is Null,
        text_tree(None) is Null,
        text_tree(Some(text)) == JsonTree::String(text),
        (bits >> 52) & 0x7ff == 0x7ff ==> number_tree(Some(bits)) is Null,
        (bits >> 52) & 0x7ff != 0x7ff ==> number_tree(Some(bits)) == JsonTree::Number(
            JsonNumber::Float(bits),
        ),
{
    assert((bits >> 52) & 0x7ff == (bits / 0x10_0000_0000_0000) % 0x800) by (bit_vector);
}

/// The JSON object of a bucket has its name and, under their keys, its fraction,
/// percentage, reset time, window and identifier, and nothing else.
pub proof fn law_bucket_objects_hold_every_field(bucket: BucketView)
    ensures
        has_entry(bucket_tree(bucket), "name"@, JsonTree::String(bucket.name())),
        has_entry(bucket_tree(bucket), "bucket_id"@, text_tree(bucket.bucket_id)),
        has_entry(bucket_tree(bucket), "window"@, text_tree(bucket.window)),
        has_entry(bucket_tree(bucket), "reset_time"@, text_tree(bucket.reset_time)),
        has_entry(
            bucket_tree(bucket),
            "remaining_fraction"@,
            number_tree(
                match bucket.remaining {
                    Some(remaining) => Some(remaining.fraction),
                    None => None,
                },
            ),
        ),
        has_entry(
            bucket_tree(bucket),
            "remaining_percent"@,
            number_tree(
                match bucket.remaining {
                    Some(remaining) => Some(remaining.percent),
                    None => None,
                },
            ),
        ),
        bucket_tree(bucket)->Object_0.len() == 6,
{
    reveal_strlit("bucket_id");
    reveal_strlit("name");
    reveal_strlit("remaining_fraction");
    reveal_strlit("remaining_percent");
    reveal_strlit("reset_time");
    reveal_strlit("window");
    let entries = bucket_tree(bucket)->Object_0;
    assert forall|i: int, j: int| 0 <= i < j < entries.len() implies entries[i].0
        != entries[j].0 by {
        assert(entries[0].0.len() == 9);
        assert(entries[1].0.len() == 4);
        assert(entries[2].0.len() == 18);
        assert(entries[3].0.len() == 17);
        assert(entries[4].0.len() == 10);
        assert(entries[5].0.len() == 6);
    }
    assert forall|i: int| 0 <= i < entries.len() implies well_formed((#[trigger] entries[i]).1) by {
        assert(entries[i].1 !is Array && entries[i].1 !is Object);
    }
    law_keys_are_unambiguous(entries, 0);
    law_keys_are_unambiguous(entries, 1);
    law_keys_are_unambiguous(entries, 2);
    law_keys_are_unambiguous(entries, 3);
    law_keys_are_unambiguous(entries, 4);
    law_keys_are_unambiguous(entries, 5);
}

/// The JSON object of a group has its name and every bucket in its place, and
/// the array of several groups has every group in its place.
pub proof fn law_group_objects_hold_every_bucket(groups: Seq<GroupView>, i: int)
    requires
        0 <= i < groups.len(),
    ensures
        groups_tree(groups) matches JsonTree::Array(items) && items.len() == groups.len() && {
            let group = groups[i];
            &&& has_entry(items[i], "name"@, JsonTree::String(group.name()))
            &&& items[i]->Object_0.len() == 2
            &&& entry_of(items[i]->Object_0, "buckets"@) matches Some(JsonTree::Array(buckets))
            &&& buckets.len() == group.buckets.len()
            &&& forall|k: int|
                0 <= k < buckets.len() ==> #[trigger] buckets[k] == bucket_tree(group.buckets[k])
        },
{
    reveal_strlit("buckets");
    reveal_strlit("name");
    let entries = group_tree(groups[i])->Object_0;
    assert(entries[0].0.len() != entries[1].0.len());
    reveal_with_fuel(entry_of, 3);
    assert(entries.skip(1)[0] == entries[1]);
}

/// The lines for two lists of buckets one after the other are those for the
/// one, then those for the other; one bucket has its own two lines.
pub proof fn law_bucket_lines_keep_order(
    front: Seq<BucketView>,
    back: Seq<BucketView>,
    bucket: BucketView,
)
    ensures
        bucket_lines(front + back) == bucket_lines(front) + bucket_lines(back),
        bucket_lines(seq![bucket]) == remaining_line(bucket) + reset_line(bucket),
        bucket_lines(Seq::empty()) == Seq::<char>::empty(),
    decreases back.len(),
{
    let whole = front + back;
    if back.len() == 0 {
        assert(whole =~= front);
        assert(bucket_lines(front) + bucket_lines(back) =~= bucket_lines(front));
    } else {
        assert(whole.drop_last() =~= front + back.drop_last());
        law_bucket_lines_keep_order(front, back.drop_last(), bucket);
        assert(bucket_lines(whole) =~= bucket_lines(front) + bucket_lines(back));
    }
    let single = seq![bucket];
    assert(bucket_lines(single.drop_last()) =~= Seq::<char>::empty());
    assert(single.last() == bucket);
    assert(bucket_lines(single) =~= remaining_line(bucket) + reset_line(bucket));
}

/// The lines of a bucket name it and say what is left of it, and when it is
/// reset unless that is unknown or blank.
pub proof fn law_bucket_lines_say_what_is_left(bucket: BucketView)
    ensures
        bucket.remaining matches Some(remaining) ==> remaining_line(bucket) == bucket.name()
            + ": "@ + remaining.percent_text + "% remaining\n"@,
        bucket.remaining is None ==> remaining_line(bucket) == bucket.name()
            + ": remaining quota unknown\n"@,
        bucket.reset_time matches Some(reset) ==> {
            &&& !is_blank(reset) ==> reset_line(bucket) == "  reset: "@ + reset + "\n"@
            &&& is_blank(reset) ==> reset_line(bucket).len() == 0
        },
        bucket.reset_time is None ==> reset_line(bucket).len() == 0,
{
}

/// The summary of a group with buckets contains the two lines of each of them.
pub proof fn law_every_bucket_is_shown(buckets: Seq<BucketView>, i: int)
    requires
        0 <= i < buckets.len(),
    ensures
        contains_text(bucket_lines(buckets), remaining_line(buckets[i]) + reset_line(buckets[i])),
        bucket_lines(buckets) == bucket_lines(buckets.take(i)) + remaining_line(buckets[i])
            + reset_line(buckets[i]) + bucket_lines(buckets.skip(i + 1)),
{
    let front = buckets.take(i);
    let own = remaining_line(buckets[i]) + reset_line(buckets[i]);
    let back = buckets.skip(i + 1);
    assert(buckets =~= front + (seq![buckets[i]] + back));
    law_bucket_lines_keep_order(front, seq![buckets[i]] + back, buckets[i]);
    law_bucket_lines_keep_order(seq![buckets[i]], back, buckets[i]);
    let text = bucket_lines(buckets);
    let at = bucket_lines(front).len() as int;
    assert(text =~= bucket_lines(front) + remaining_line(buckets[i]) + reset_line(buckets[i])
        + bucket_lines(back));
    assert(text.skip(at).take(own.len() as int) =~= own);
    assert(begins_with(text.skip(at), own));
}

/// The lines for two lists of groups one after the other are those for the one,
/// then those for the other. One group has an empty line, its name, a rule as
/// long as the name, and then the lines of its buckets, or a line that says
/// that there are none.
pub proof fn law_group_lines_keep_order(
    front: Seq<GroupView>,
    back: Seq<GroupView>,
    group: GroupView,
)
    ensures
        group_lines(front + back) == group_lines(front) + group_lines(back),
        group.buckets.len() == 0 ==> group_lines(seq![group]) == "\n"@ + group.name() + "\n"@
            + repeated('-', group.name().len()) + "\n"@ + "No buckets returned.\n"@,
        group.buckets.len() > 0 ==> group_lines(seq![group]) == "\n"@ + group.name() + "\n"@
            + repeated('-', group.name().len()) + "\n"@ + bucket_lines(group.buckets),
        group_lines(Seq::empty()) == Seq::<char>::empty(),
    decreases back.len(),
{
    let whole = front + back;
    if back.len() == 0 {
        assert(whole =~= front);
        assert(group_lines(front) + group_lines(back) =~= group_lines(front));
    } else {
        assert(whole.drop_last() =~= front + back.drop_last());
        law_group_lines_keep_order(front, back.drop_last(), group);
        assert(group_lines(whole) =~= group_lines(front) + group_lines(back));
    }
    let single = seq![group];
    assert(group_lines(single.drop_last()) =~= Seq::<char>::empty());
    assert(single.last() == group);
    let own = if group.buckets.len() == 0 {
        "No buckets returned.\n"@
    } else {
        bucket_lines(group.buckets)
    };
    assert(group_lines(single) =~= group_heading(group) + own);
}

/// The summary begins with its title, names the plan where it is known, then
/// the project, and then shows the groups, or says that there are none.
pub proof fn law_summary_has_all_its_parts(
    project: Seq<char>,
    plan: Seq<char>,
    groups: Seq<GroupView>,
)
    ensures
        groups.len() > 0 ==> human_summary(project, None, groups)
            == "Antigravity quota\n=================\nProject: "@ + project + "\n"@ + group_lines(
            groups,
        ),
        groups.len() > 0 ==> human_summary(project, Some(plan), groups)
            == "Antigravity quota\n=================\nPlan: "@ + plan + "\nProject: "@ + project
            + "\n"@ + group_lines(groups),
        groups.len() == 0 ==> human_summary(project, None, groups)
            == "Antigravity quota\n=================\nProject: "@ + project
            + "\n\nNo grouped quota buckets were returned.\n"@,
        groups.len() == 0 ==> human_summary(project, Some(plan), groups)
            == "Antigravity quota\n=================\nPlan: "@ + plan + "\nProject: "@ + project
            + "\n\nNo grouped quota buckets were returned.\n"@,
{
    reveal_strlit("\n");
    reveal_strlit("Plan: ");
    reveal_strlit("Project: ");
    reveal_strlit("\nProject: ");
    reveal_strlit("Antigravity quota\n=================\n");
    reveal_strlit("Antigravity quota\n=================\nPlan: ");
    reveal_strlit("Antigravity quota\n=================\nProject: ");
    reveal_strlit("\nNo grouped quota buckets were returned.\n");
    reveal_strlit("\n\nNo grouped quota buckets were returned.\n");
    assert("Antigravity quota\n=================\nPlan: "@
        =~= "Antigravity quota\n=================\n"@ + "Plan: "@);
    assert("Antigravity quota\n=================\nProject: "@
        =~= "Antigravity quota\n=================\n"@ + "Project: "@);
    assert("\nProject: "@ =~= "\n"@ + "Project: "@);
    assert("\n\nNo grouped quota buckets were returned.\n"@ =~= "\n"@
        + "\nNo grouped quota buckets were returned.\n"@);
    let shown = if groups.len() == 0 {
        "\nNo grouped quota buckets were returned.\n"@
    } else {
        group_lines(groups)
    };
    assert(human_summary(project, None, groups)
        =~= "Antigravity quota\n=================\nProject: "@ + project + "\n"@ + shown);
    assert(human_summary(project, Some(plan), groups)
        =~= "Antigravity quota\n=================\nPlan: "@ + plan + "\nProject: "@ + project
        + "\n"@ + shown);
    if groups.len() == 0 {
        assert(human_summary(project, None, groups)
            =~= "Antigravity quota\n=================\nProject: "@ + project
            + "\n\nNo grouped quota buckets were returned.\n"@);
        assert(human_summary(project, Some(plan), groups)
            =~= "Antigravity quota\n=================\nPlan: "@ + plan + "\nProject: "@ + project
            + "\n\nNo grouped quota buckets were returned.\n"@);
    }
}

/// Each format shows its own thing: raw output the answer laid out for reading,
/// JSON the normalized quota, and the default the summary. Only raw output can
/// fail, and does where the answer is no document.
pub proof fn law_formats_show_their_own(
    project: Seq<char>,
    tier: Option<Seq<char>>,
    groups: Seq<GroupView>,
    raw_quota: Seq<char>,
)
    ensures
        rendered(OutputFormat::Json, project, tier, groups, raw_quota) == Ok::<
            RenderedView,
            Seq<char>,
        >(RenderedView::Json(normalized_quota(project, tier, groups))),
        rendered(OutputFormat::Human, project, tier, groups, raw_quota) == Ok::<
            RenderedView,
            Seq<char>,
        >(RenderedView::Human(human_summary(project, tier, groups))),
        parsed_json(raw_quota) matches Ok(tree) ==> rendered(
            OutputFormat::Raw,
            project,
            tier,
            groups,
            raw_quota,
        ) == Ok::<RenderedView, Seq<char>>(RenderedView::Raw(pretty_json_text(tree))),
        parsed_json(raw_quota) matches Err(message) ==> rendered(
            OutputFormat::Raw,
            project,
            tier,
            groups,
            raw_quota,
        ) == Err::<RenderedView, Seq<char>>(message),
{
}

} // verus!
