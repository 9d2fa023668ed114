//! The quota history: what is stored of a lookup, and how what was stored is
//! shown.
use crate::cli::CliError;
use crate::cli::CliFault;
use crate::cli::Location;
use crate::cli::LocationView;
use crate::models::copy_optional;
use crate::models::group_views;
use crate::models::BucketView;
use crate::models::GroupView;
use crate::models::QuotaBucket;
use crate::models::QuotaGroup;
use crate::text::append_padded_left;
use crate::text::append_padded_right;
use crate::text::append_repeated;
use crate::text::byte_len;
use crate::text::lemma_byte_len_covers;
use crate::text::optional_text;
use crate::text::padded_left;
use crate::text::padded_right;
use crate::text::repeated;
use crate::text::texts;
use crate::text::utf8_len;
use vstd::prelude::*;
use vstd::string::StringExecFns;

verus! {

/// Creates the tables of the history database where they are missing.
pub const SCHEMA_SQL: &'static str =
    "PRAGMA journal_mode = WAL;
     PRAGMA foreign_keys = ON;
     CREATE TABLE IF NOT EXISTS quota_snapshots (
       id         INTEGER PRIMARY KEY AUTOINCREMENT,
       timestamp  TEXT    NOT NULL DEFAULT (strftime('%Y-%m-%dT%H:%M:%SZ', 'now')),
       project    TEXT    NOT NULL,
       tier       TEXT
     );
     CREATE TABLE IF NOT EXISTS quota_buckets (
       id                  INTEGER PRIMARY KEY AUTOINCREMENT,
       snapshot_id         INTEGER NOT NULL REFERENCES quota_snapshots(id) ON DELETE CASCADE,
       group_name          TEXT    NOT NULL,
       bucket_name         TEXT    NOT NULL,
       bucket_id           TEXT,
       window              TEXT,
       remaining_fraction  REAL,
       remaining_percent   REAL,
       reset_time          TEXT
     );
     CREATE INDEX IF NOT EXISTS idx_snapshots_timestamp ON quota_snapshots(timestamp);
     CREATE INDEX IF NOT EXISTS idx_buckets_snapshot    ON quota_buckets(snapshot_id);";

/// Adds a snapshot: its project and its tier.
pub const INSERT_SNAPSHOT_SQL: &'static str =
    "INSERT INTO quota_snapshots (project, tier) VALUES (?1, ?2)";

/// Adds a bucket: the number of its snapshot, then the fields of a
/// [`BucketRow`].
pub const INSERT_BUCKET_SQL: &'static str =
    "INSERT INTO quota_buckets
         (snapshot_id, group_name, bucket_name, bucket_id, window, remaining_fraction, remaining_percent, reset_time)
       VALUES (?1, ?2, ?3, ?4, ?5, ?6, ?7, ?8)";

/// Selects the buckets of the last snapshots, newest first: the fields of a
/// [`HistoryRow`].
pub const SELECT_RECENT_SQL: &'static str =
    "SELECT s.timestamp, s.project, s.tier,
              b.group_name, b.bucket_name, b.remaining_percent, b.reset_time
       FROM quota_snapshots s
       JOIN quota_buckets b ON b.snapshot_id = s.id
       WHERE s.id IN (
         SELECT id FROM quota_snapshots ORDER BY id DESC LIMIT ?1
       )
       ORDER BY s.timestamp DESC, b.group_name, b.bucket_name";

/// The steps to the history database.
pub open spec fn db_steps() -> Seq<Seq<char>> {
    seq![".local"@, "share"@, "antigravity-quota"@, "quota_history.db"@]
}

/// Default database path: `~/.local/share/antigravity-quota/quota_history.db`
///
/// # Errors
///
/// [`CliError::HomeNotSet`] where HOME is not set.
pub fn default_db_path(home_is_set: bool) -> (result: Result<Location, CliError>)
    ensures
        match result {
            Ok(location) => home_is_set && location@ == LocationView::UnderHome(db_steps()),
            Err(error) => !home_is_set && error@ == CliFault::HomeNotSet,
        },
{
    if !home_is_set {
        return Err(CliError::HomeNotSet);
    }
    let mut steps: Vec<String> = Vec::new();
    steps.push(".local".to_owned());
    steps.push("share".to_owned());
    steps.push("antigravity-quota".to_owned());
    steps.push("quota_history.db".to_owned());
    assert(texts(steps@) =~= db_steps());
    Ok(Location::UnderHome(steps))
}

/// What is stored of a bucket. The numbers are the bits of double precision
/// values.
#[derive(Debug, PartialEq, Eq)]
pub struct BucketRow {
    pub group_name: String,
    pub bucket_name: String,
    pub bucket_id: Option<String>,
    pub window: Option<String>,
    pub remaining_fraction: Option<u64>,
    pub remaining_percent: Option<u64>,
    pub reset_time: Option<String>,
}

/// What a [`BucketRow`] holds.
pub ghost struct BucketRowView {
    pub group_name: Seq<char>,
    pub bucket_name: Seq<char>,
    pub bucket_id: Option<Seq<char>>,
    pub window: Option<Seq<char>>,
    pub remaining_fraction: Option<u64>,
    pub remaining_percent: Option<u64>,
    pub reset_time: Option<Seq<char>>,
}

impl View for BucketRow {
    type V = BucketRowView;

    open spec fn view(&self) -> BucketRowView {
        BucketRowView {
            group_name: self.group_name@,
            bucket_name: self.bucket_name@,
            bucket_id: optional_text(self.bucket_id),
            window: optional_text(self.window),
            remaining_fraction: self.remaining_fraction,
            remaining_percent: self.remaining_percent,
            reset_time: optional_text(self.reset_time),
        }
    }
}

/// What each row of a list holds.
pub open spec fn row_views(rows: Seq<BucketRow>) -> Seq<BucketRowView> {
    Seq::new(rows.len(), |i: int| rows[i]@)
}

/// The row for a bucket of a group.
pub open spec fn row_of(group: GroupView, bucket: BucketView) -> BucketRowView {
    BucketRowView {
        group_name: group.name(),
        bucket_name: bucket.name(),
        bucket_id: bucket.bucket_id,
        window: bucket.window,
        remaining_fraction: bucket.remaining_fraction(),
        remaining_percent: bucket.remaining_percent(),
        reset_time: bucket.reset_time,
    }
}

/// The rows for a group: one for each bucket, in order.
pub open spec fn rows_of_group(group: GroupView) -> Seq<BucketRowView> {
    Seq::new(group.buckets.len(), |i: int| row_of(group, group.buckets[i]))
}

/// The rows for several groups, one group after the other.
pub open spec fn rows_of(groups: Seq<GroupView>) -> Seq<BucketRowView>
    decreases groups.len(),
{
    if groups.len() == 0 {
        Seq::empty()
    } else {
        rows_of(groups.drop_last()) + rows_of_group(groups.last())
    }
}

/// Builds the row for a bucket.
fn bucket_row(group_name: &str, bucket: &QuotaBucket) -> (row: BucketRow)
    ensures
        row@ == (BucketRowView {
            group_name: group_name@,
            bucket_name: bucket@.name(),
            bucket_id: bucket@.bucket_id,
            window: bucket@.window,
            remaining_fraction: bucket@.remaining_fraction(),
            remaining_percent: bucket@.remaining_percent(),
            reset_time: bucket@.reset_time,
        }),
{
    BucketRow {
        group_name: group_name.to_owned(),
        bucket_name: bucket.name(),
        bucket_id: copy_optional(&bucket.bucket_id),
        window: copy_optional(&bucket.window),
        remaining_fraction: bucket.remaining_fraction(),
        remaining_percent: bucket.remaining_percent(),
        reset_time: copy_optional(&bucket.reset_time),
    }
}

/// The rows that a snapshot of the given groups adds to the history.
pub fn snapshot_rows(groups: &[QuotaGroup]) -> (rows: Vec<BucketRow>)
    ensures
        row_views(rows@) == rows_of(group_views(groups@)),
{
    let mut rows: Vec<BucketRow> = Vec::new();
    let ghost views = group_views(groups@);
    assert(row_views(rows@) =~= rows_of(views.take(0)));
    for i in 0..groups.len()
        invariant
            views == group_views(groups@),
            row_views(rows@) == rows_of(views.take(i as int)),
    {
        let group = &groups[i];
        let name = group.name();
        let ghost before = row_views(rows@);
        assert(before =~= before + rows_of_group(group@).take(0));
        for k in 0..group.buckets.len()
            invariant
                name@ == group@.name(),
                row_views(rows@) == before + rows_of_group(group@).take(k as int),
        {
            let ghost earlier = rows@;
            rows.push(bucket_row(name.as_str(), &group.buckets[k]));
            assert(row_views(rows@) =~= row_views(earlier).push(rows@.last()@));
            assert(row_views(rows@) =~= before + rows_of_group(group@).take(k + 1));
        }
        assert(rows_of_group(group@).take(group@.buckets.len() as int) =~= rows_of_group(group@));
        assert(views.take(i + 1).drop_last() =~= views.take(i as int));
        assert(views.take(i + 1).last() == group@);
    }
    assert(views.take(views.len() as int) =~= views);
    rows
}

/// A row from the history query for display.
#[derive(Debug, Clone, PartialEq, Eq)]
pub struct HistoryRow {
    pub timestamp: String,
    pub project: String,
    pub tier: Option<String>,
    pub group_name: String,
    pub bucket_name: String,
    /// The percentage with one decimal, as it is shown.
    pub remaining_percent: Option<String>,
    pub reset_time: Option<String>,
}

/// The width of the column for timestamps.
pub const TIMESTAMP_WIDTH: usize = 20;

/// The width of the column for percentages.
pub const PERCENT_WIDTH: usize = 10;

/// The width of the column for group names: that of the longest, in bytes,
/// and at least that of its title.
pub open spec fn group_width(rows: Seq<HistoryRow>) -> nat
    decreases rows.len(),
{
    if rows.len() == 0 {
        5
    } else {
        let longest = group_width(rows.drop_last());
        let length = byte_len(rows.last().group_name@);
        if length > longest {
            length
        } else {
            longest
        }
    }
}

/// The width of the column for bucket names: that of the longest, in bytes,
/// and at least that of its title.
pub open spec fn bucket_width(rows: Seq<HistoryRow>) -> nat
    decreases rows.len(),
{
    if rows.len() == 0 {
        6
    } else {
        let longest = bucket_width(rows.drop_last());
        let length = byte_len(rows.last().bucket_name@);
        if length > longest {
            length
        } else {
            longest
        }
    }
}

/// A line of the history table.
pub open spec fn table_line(
    timestamp: Seq<char>,
    group: Seq<char>,
    bucket: Seq<char>,
    percent: Seq<char>,
    group_width: nat,
    bucket_width: nat,
) -> Seq<char> {
    padded_right(timestamp, TIMESTAMP_WIDTH as nat) + "  "@ + padded_right(group, group_width)
        + "  "@ + padded_right(bucket, bucket_width) + "  "@ + padded_left(
        percent,
        PERCENT_WIDTH as nat,
    ) + "\n"@
}

/// How a percentage is shown.
pub open spec fn percent_cell(percent: Option<Seq<char>>) -> Seq<char> {
    match percent {
        Some(text) => text + "%"@,
        None => "N/A"@,
    }
}

/// The lines for several rows, in order.
pub open spec fn row_lines(rows: Seq<HistoryRow>, group_width: nat, bucket_width: nat) -> Seq<char>
    decreases rows.len(),
{
    if rows.len() == 0 {
        Seq::empty()
    } else {
        let row = rows.last();
        row_lines(rows.drop_last(), group_width, bucket_width) + table_line(
            row.timestamp@,
            row.group_name@,
            row.bucket_name@,
            percent_cell(optional_text(row.remaining_percent)),
            group_width,
            bucket_width,
        )
    }
}

/// The history as a table with a title line and a rule.
pub open spec fn history_table(rows: Seq<HistoryRow>) -> Seq<char> {
    if rows.len() == 0 {
        "No quota history records found.\n"@
    } else {
        let groups = group_width(rows);
        let buckets = bucket_width(rows);
        table_line("Timestamp"@, "Group"@, "Bucket"@, "Remaining"@, groups, buckets) + table_line(
            repeated('-', TIMESTAMP_WIDTH as nat),
            repeated('-', groups),
            repeated('-', buckets),
            repeated('-', PERCENT_WIDTH as nat),
            groups,
            buckets,
        ) + row_lines(rows, groups, buckets)
    }
}

/// Appends a line of the history table.
fn append_line(
    out: &mut String,
    timestamp: &str,
    group: &str,
    bucket: &str,
    percent: &str,
    group_width: usize,
    bucket_width: usize,
)
    ensures
        final(out)@ == old(out)@ + table_line(
            timestamp@,
            group@,
            bucket@,
            percent@,
            group_width as nat,
            bucket_width as nat,
        ),
{
    let ghost before = out@;
    append_padded_right(out, timestamp, TIMESTAMP_WIDTH);
    out.append("  ");
    append_padded_right(out, group, group_width);
    out.append("  ");
    append_padded_right(out, bucket, bucket_width);
    out.append("  ");
    append_padded_left(out, percent, PERCENT_WIDTH);
    out.append("\n");
    assert(out@ =~= before + table_line(
        timestamp@,
        group@,
        bucket@,
        percent@,
        group_width as nat,
        bucket_width as nat,
    ));
}

/// A row of hyphens.
fn rule(width: usize) -> (line: String)
    ensures
        line@ == repeated('-', width as nat),
{
    let mut line = String::new();
    proof {
        reveal_strlit("-");
    }
    append_repeated(&mut line, "-", width);
    assert(line@ =~= repeated('-', width as nat));
    line
}

/// Formats history rows as a human-readable table.
pub fn render_history(rows: &[HistoryRow]) -> (table: String)
    ensures
        table@ == history_table(rows@),
{
    if rows.len() == 0 {
        return "No quota history records found.\n".to_owned();
    }
    let mut groups: usize = 5;
    let mut buckets: usize = 6;
    for i in 0..rows.len()
        invariant
            groups == group_width(rows@.take(i as int)),
            buckets == bucket_width(rows@.take(i as int)),
    {
        let row = &rows[i];
        let group_length = utf8_len(row.group_name.as_str());
        let bucket_length = utf8_len(row.bucket_name.as_str());
        assert(rows@.take(i + 1).drop_last() =~= rows@.take(i as int));
        if group_length > groups {
            groups = group_length;
        }
        if bucket_length > buckets {
            buckets = bucket_length;
        }
    }
    assert(rows@.take(rows@.len() as int) =~= rows@);
    let mut out = String::new();
    append_line(&mut out, "Timestamp", "Group", "Bucket", "Remaining", groups, buckets);
    let timestamp_rule = rule(TIMESTAMP_WIDTH);
    let group_rule = rule(groups);
    let bucket_rule = rule(buckets);
    let percent_rule = rule(PERCENT_WIDTH);
    append_line(
        &mut out,
        timestamp_rule.as_str(),
        group_rule.as_str(),
        bucket_rule.as_str(),
        percent_rule.as_str(),
        groups,
        buckets,
    );
    let ghost head = out@;
    assert(row_lines(rows@.take(0), groups as nat, buckets as nat) == Seq::<char>::empty());
    for i in 0..rows.len()
        invariant
            out@ == head + row_lines(rows@.take(i as int), groups as nat, buckets as nat),
    {
        let row = &rows[i];
        let percent = match &row.remaining_percent {
            Some(text) => text.clone().concat("%"),
            None => "N/A".to_owned(),
        };
        assert(percent@ == percent_cell(optional_text(row.remaining_percent)));
        append_line(
            &mut out,
            row.timestamp.as_str(),
            row.group_name.as_str(),
            row.bucket_name.as_str(),
            percent.as_str(),
            groups,
            buckets,
        );
        assert(rows@.take(i + 1).drop_last() =~= rows@.take(i as int));
        assert(out@ =~= head + row_lines(rows@.take(i + 1), groups as nat, buckets as nat));
    }
    assert(Seq::<char>::empty() + table_line(
        "Timestamp"@,
        "Group"@,
        "Bucket"@,
        "Remaining"@,
        groups as nat,
        buckets as nat,
    ) =~= table_line(
        "Timestamp"@,
        "Group"@,
        "Bucket"@,
        "Remaining"@,
        groups as nat,
        buckets as nat,
    ));
    out
}

/// The columns for names are wide enough for every row: each name fills its
/// column exactly once it is padded.
pub proof fn law_names_fit_their_columns(rows: Seq<HistoryRow>, i: int)
    requires
        0 <= i < rows.len(),
    ensures
        padded_right(rows[i].group_name@, group_width(rows)).len() == group_width(rows),
        padded_right(rows[i].bucket_name@, bucket_width(rows)).len() == bucket_width(rows),
{
    lemma_widths_cover(rows, i);
    lemma_byte_len_covers(rows[i].group_name@);
    lemma_byte_len_covers(rows[i].bucket_name@);
}

/// The widths of the columns are no less than the lengths of the names.
proof fn lemma_widths_cover(rows: Seq<HistoryRow>, i: int)
    requires
        0 <= i < rows.len(),
    ensures
        byte_len(rows[i].group_name@) <= group_width(rows),
        byte_len(rows[i].bucket_name@) <= bucket_width(rows),
    decreases rows.len(),
{
    if i < rows.len() - 1 {
        lemma_widths_cover(rows.drop_last(), i);
    }
}

/// The rows for two lists of groups one after the other are those for the one,
/// then those for the other.
pub proof fn law_rows_keep_order(front: Seq<GroupView>, back: Seq<GroupView>)
    ensures
        rows_of(front + back) == rows_of(front) + rows_of(back),
        rows_of(Seq::empty()).len() == 0,
    decreases back.len(),
{
    let whole = front + back;
    if back.len() == 0 {
        assert(whole =~= front);
        assert(rows_of(front) + rows_of(back) =~= rows_of(front));
    } else {
        assert(whole.drop_last() =~= front + back.drop_last());
        law_rows_keep_order(front, back.drop_last());
        assert(rows_of(whole) =~= rows_of(front) + rows_of(back));
    }
}

/// A group has a row for each of its buckets, in order, with the name of the
/// group and the bucket's own name, identifier, window, fraction, percentage
/// and reset time.
pub proof fn law_every_bucket_has_its_row(group: GroupView)
    ensures
        rows_of(seq![group]).len() == group.buckets.len(),
        forall|k: int|
            0 <= k < group.buckets.len() ==> {
                let bucket = group.buckets[k];
                let row = #[trigger] rows_of(seq![group])[k];
                &&& row.group_name == group.name()
                &&& row.bucket_name == bucket.name()
                &&& row.bucket_id == bucket.bucket_id
                &&& row.window == bucket.window
                &&& row.reset_time == bucket.reset_time
                &&& row.remaining_fraction is Some <==> bucket.remaining is Some
                &&& row.remaining_percent is Some <==> bucket.remaining is Some
                &&& bucket.remaining matches Some(remaining) ==> {
                    &&& row.remaining_fraction == Some(remaining.fraction)
                    &&& row.remaining_percent == Some(remaining.percent)
                }
            },
{
    let single = seq![group];
    assert(rows_of(single.drop_last()) =~= Seq::<BucketRowView>::empty());
    assert(single.last() == group);
    assert(rows_of(single) =~= rows_of_group(group));
}

/// The model of a row has each of its fields, that of a list every row in its
/// place.
pub proof fn law_models_keep_the_rows(rows: Seq<BucketRow>)
    ensures
        row_views(rows).len() == rows.len(),
        forall|i: int|
            0 <= i < rows.len() ==> {
                let row = #[trigger] rows[i];
                &&& row_views(rows)[i].group_name == row.group_name@
                &&& row_views(rows)[i].bucket_name == row.bucket_name@
                &&& row_views(rows)[i].bucket_id == optional_text(row.bucket_id)
                &&& row_views(rows)[i].window == optional_text(row.window)
                &&& row_views(rows)[i].remaining_fraction == row.remaining_fraction
                &&& row_views(rows)[i].remaining_percent == row.remaining_percent
                &&& row_views(rows)[i].reset_time == optional_text(row.reset_time)
            },
{
}

/// The columns for names are no wider than they have to be: as wide as their
/// titles, five and six, or as the name of some row is long in bytes.
pub proof fn law_columns_are_no_wider_than_needed(rows: Seq<HistoryRow>)
    ensures
        group_width(rows) >= 5,
        bucket_width(rows) >= 6,
        group_width(rows) == 5 || exists|i: int|
            0 <= i < rows.len() && group_width(rows) == byte_len(
                (#[trigger] rows[i]).group_name@,
            ),
        bucket_width(rows) == 6 || exists|i: int|
            0 <= i < rows.len() && bucket_width(rows) == byte_len(
                (#[trigger] rows[i]).bucket_name@,
            ),
    decreases rows.len(),
{
    if rows.len() > 0 {
        let earlier = rows.drop_last();
        let last = rows.len() - 1;
        law_columns_are_no_wider_than_needed(earlier);
        assert(rows[last] == rows.last());
        if group_width(rows) == group_width(earlier) && group_width(rows) != 5 {
            let i = choose|i: int|
                0 <= i < earlier.len() && group_width(earlier) == byte_len(
                    (#[trigger] earlier[i]).group_name@,
                );
            assert(rows[i] == earlier[i]);
        }
        if bucket_width(rows) == bucket_width(earlier) && bucket_width(rows) != 6 {
            let i = choose|i: int|
                0 <= i < earlier.len() && bucket_width(earlier) == byte_len(
                    (#[trigger] earlier[i]).bucket_name@,
                );
            assert(rows[i] == earlier[i]);
        }
    }
}

/// A percentage is shown with a percent sign, a missing one as `N/A`.
pub proof fn law_percentages_are_marked(percent: Seq<char>)
    ensures
        percent_cell(Some(percent)) == percent + "%"@,
        percent_cell(None) == "N/A"@,
{
}

/// The lines for two lists of rows one after the other are those for the one,
/// then those for the other. The line of a row has its own timestamp, group,
/// bucket and percentage, in this order and two spaces apart: the first three
/// padded behind, the timestamp to 20 characters, the percentage padded in
/// front to 10.
pub proof fn law_every_row_has_its_line(
    front: Seq<HistoryRow>,
    back: Seq<HistoryRow>,
    row: HistoryRow,
    group_width: nat,
    bucket_width: nat,
)
    ensures
        row_lines(front + back, group_width, bucket_width) == row_lines(
            front,
            group_width,
            bucket_width,
        ) + row_lines(back, group_width, bucket_width),
        row_lines(seq![row], group_width, bucket_width) == padded_right(row.timestamp@, 20)
            + "  "@ + padded_right(row.group_name@, group_width) + "  "@ + padded_right(
            row.bucket_name@,
            bucket_width,
        ) + "  "@ + padded_left(
            match row.remaining_percent {
                Some(percent) => percent@ + "%"@,
                None => "N/A"@,
            },
            10,
        ) + "\n"@,
        row_lines(Seq::empty(), group_width, bucket_width) == Seq::<char>::empty(),
    decreases back.len(),
{
    let whole = front + back;
    if back.len() == 0 {
        assert(whole =~= front);
        assert(row_lines(front, group_width, bucket_width) + row_lines(
            back,
            group_width,
            bucket_width,
        ) =~= row_lines(front, group_width, bucket_width));
    } else {
        assert(whole.drop_last() =~= front + back.drop_last());
        assert(whole.last() == back.last());
        law_every_row_has_its_line(front, back.drop_last(), row, group_width, bucket_width);
        assert(row_lines(whole, group_width, bucket_width) =~= row_lines(
            front,
            group_width,
            bucket_width,
        ) + row_lines(back, group_width, bucket_width));
    }
    let single = seq![row];
    assert(row_lines(single.drop_last(), group_width, bucket_width) =~= Seq::<char>::empty());
    assert(single.last() == row);
    assert(row_lines(single, group_width, bucket_width) =~= table_line(
        row.timestamp@,
        row.group_name@,
        row.bucket_name@,
        percent_cell(optional_text(row.remaining_percent)),
        group_width,
        bucket_width,
    ));
}

/// A history with rows is a line of titles, a line of hyphens as wide as the
/// columns, and the lines of the rows; one without says that there are none.
pub proof fn law_history_is_a_table_of_its_rows(rows: Seq<HistoryRow>)
    ensures
        rows.len() == 0 ==> history_table(rows) == "No quota history records found.\n"@,
        rows.len() > 0 ==> {
            let groups = group_width(rows);
            let buckets = bucket_width(rows);
            history_table(rows) == padded_right("Timestamp"@, 20) + "  "@ + padded_right(
                "Group"@,
                groups,
            ) + "  "@ + padded_right("Bucket"@, buckets) + "  "@ + padded_left("Remaining"@, 10)
                + "\n"@ + repeated('-', 20) + "  "@ + repeated('-', groups) + "  "@ + repeated(
                '-',
                buckets,
            ) + "  "@ + repeated('-', 10) + "\n"@ + row_lines(rows, groups, buckets)
        },
{
    if rows.len() > 0 {
        let groups = group_width(rows);
        let buckets = bucket_width(rows);
        assert(padded_right(repeated('-', 20), 20) =~= repeated('-', 20));
        assert(padded_right(repeated('-', groups), groups) =~= repeated('-', groups));
        assert(padded_right(repeated('-', buckets), buckets) =~= repeated('-', buckets));
        assert(padded_left(repeated('-', 10), 10) =~= repeated('-', 10));
        assert(history_table(rows) =~= padded_right("Timestamp"@, 20) + "  "@ + padded_right(
            "Group"@,
            groups,
        ) + "  "@ + padded_right("Bucket"@, buckets) + "  "@ + padded_left("Remaining"@, 10)
            + "\n"@ + repeated('-', 20) + "  "@ + repeated('-', groups) + "  "@ + repeated(
            '-',
            buckets,
        ) + "  "@ + repeated('-', 10) + "\n"@ + row_lines(rows, groups, buckets));
    }
}

/// The history is kept in `.local/share/antigravity-quota/quota_history.db` in
/// the home directory.
pub proof fn law_history_has_its_place()
    ensures
        db_steps().len() == 4,
        db_steps()[0] == ".local"@,
        db_steps()[1] == "share"@,
        db_steps()[2] == "antigravity-quota"@,
        db_steps()[3] == "quota_history.db"@,
{
}

/// The history has a table of snapshots, numbered and stamped with the time in
/// UTC, and one of buckets, each of which belongs to a snapshot. The last
/// snapshots are those with the highest numbers, as many as are asked
/// for. Their buckets come with the snapshot's own timestamp, project and plan,
/// newest first and by name within a snapshot. A snapshot is stored with its
/// project and plan, a bucket with the number of its snapshot and the fields of
/// its row.
pub proof fn law_history_statements()
    ensures
        SCHEMA_SQL@ == "PRAGMA journal_mode = WAL;
     PRAGMA foreign_keys = ON;
     CREATE TABLE IF NOT EXISTS quota_snapshots (
       id         INTEGER PRIMARY KEY AUTOINCREMENT,
       timestamp  TEXT    NOT NULL DEFAULT (strftime('%Y-%m-%dT%H:%M:%SZ', 'now')),
       project    TEXT    NOT NULL,
       tier       TEXT
     );
     CREATE TABLE IF NOT EXISTS quota_buckets (
       id                  INTEGER PRIMARY KEY AUTOINCREMENT,
       snapshot_id         INTEGER NOT NULL REFERENCES quota_snapshots(id) ON DELETE CASCADE,
       group_name          TEXT    NOT NULL,
       bucket_name         TEXT    NOT NULL,
       bucket_id           TEXT,
       window              TEXT,
       remaining_fraction  REAL,
       remaining_percent   REAL,
       reset_time          TEXT
     );
     CREATE INDEX IF NOT EXISTS idx_snapshots_timestamp ON quota_snapshots(timestamp);
     CREATE INDEX IF NOT EXISTS idx_buckets_snapshot    ON quota_buckets(snapshot_id);"@,
        SELECT_RECENT_SQL@ == "SELECT s.timestamp, s.project, s.tier,
              b.group_name, b.bucket_name, b.remaining_percent, b.reset_time
       FROM quota_snapshots s
       JOIN quota_buckets b ON b.snapshot_id = s.id
       WHERE s.id IN (
         SELECT id FROM quota_snapshots ORDER BY id DESC LIMIT ?1
       )
       ORDER BY s.timestamp DESC, b.group_name, b.bucket_name"@,
        INSERT_SNAPSHOT_SQL@ == "INSERT INTO quota_snapshots (project, tier) VALUES (?1, ?2)"@,
        INSERT_BUCKET_SQL@ == "INSERT INTO quota_buckets
         (snapshot_id, group_name, bucket_name, bucket_id, window, remaining_fraction, remaining_percent, reset_time)
       VALUES (?1, ?2, ?3, ?4, ?5, ?6, ?7, ?8)"@,
{
}

} // verus!
