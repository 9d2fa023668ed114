use antigravity_quota::history::{
    default_db_path, render_history, snapshot_rows, BucketRow, HistoryRow,
};
use antigravity_quota::cli::{CliError, Location};
use antigravity_quota::json::{lay_out_json, parse_json, JsonNumber, JsonValue};
use antigravity_quota::models::{NormalizedQuota, NormalizedQuotaBucket, NormalizedQuotaGroup, Remaining};
use antigravity_quota::output::{normalize_groups, render_output, write_human, Rendered};
use antigravity_quota::workflow::check_quota_shape;
use antigravity_quota::{LoadCodeAssistResponse, OutputFormat, QuotaBucket, QuotaGroup, Tier};

fn remaining(fraction: f64) -> Option<Remaining> {
    let percent = (fraction * 100.0).clamp(0.0, 100.0);
    Some(Remaining {
        fraction: fraction.to_bits(),
        percent: percent.to_bits(),
        percent_text: format!("{:.1}", percent),
    })
}

fn bare_bucket() -> QuotaBucket {
    QuotaBucket {
        bucket_id: None,
        window: None,
        display_name: None,
        description: None,
        remaining: None,
        reset_time: None,
    }
}

fn bare_group(buckets: Vec<QuotaBucket>) -> QuotaGroup {
    QuotaGroup { display_name: None, description: None, buckets }
}

fn tier(id: Option<&str>, name: Option<&str>, display_name: Option<&str>) -> Tier {
    Tier {
        id: id.map(|s| s.to_string()),
        name: name.map(|s| s.to_string()),
        display_name: display_name.map(|s| s.to_string()),
    }
}

#[test]
fn missing_quota_groups_is_an_error() {
    let changed = parse_json(r#"{"message": "changed API"}"#).unwrap();
    assert_eq!(check_quota_shape(&changed), Err("missing field `groups`".to_string()));
    let empty = parse_json(r#"{"groups": []}"#).unwrap();
    assert!(check_quota_shape(&empty).is_ok());
}

#[test]
fn only_an_object_can_have_groups() {
    for text in ["[[]]", "null", "7", r#""groups""#, r#"{"Groups": []}"#, r#"[{"groups": []}]"#] {
        let value = parse_json(text).unwrap();
        assert_eq!(check_quota_shape(&value), Err("missing field `groups`".to_string()));
    }
}

#[test]
fn tier_name_prefers_paid_tier() {
    let load = LoadCodeAssistResponse {
        cloudaicompanion_project: None,
        current_tier: Some(Tier {
            id: Some("free".into()),
            name: Some("Free Tier".into()),
            display_name: Some("Free".into()),
        }),
        paid_tier: Some(Tier {
            id: Some("pro".into()),
            name: Some("Pro Tier".into()),
            display_name: Some("Pro".into()),
        }),
    };
    assert_eq!(load.tier_name(), Some("Pro".into()));
}

#[test]
fn tier_falls_back_from_name_to_name() {
    assert_eq!(tier(Some("i"), Some("n"), None).display_name(), Some("n".to_string()));
    assert_eq!(tier(Some("i"), None, None).display_name(), Some("i".to_string()));
    assert_eq!(tier(None, None, None).display_name(), None);
    let load = |paid, current| LoadCodeAssistResponse {
        cloudaicompanion_project: None,
        current_tier: current,
        paid_tier: paid,
    };
    let free = Some(tier(None, Some("Free"), None));
    assert_eq!(load(None, free.clone()).tier_name(), Some("Free".to_string()));
    assert_eq!(load(Some(tier(None, None, None)), free).tier_name(), None);
    assert_eq!(load(None, None).tier_name(), None);
}

#[test]
fn names_fall_back_in_order() {
    let mut bucket = bare_bucket();
    assert_eq!(bucket.name(), "Limit");
    bucket.bucket_id = Some("id".to_string());
    assert_eq!(bucket.name(), "id");
    bucket.window = Some("window".to_string());
    assert_eq!(bucket.name(), "window");
    bucket.description = Some("description".to_string());
    assert_eq!(bucket.name(), "description");
    bucket.display_name = Some("".to_string());
    assert_eq!(bucket.name(), "");
    let mut group = bare_group(vec![]);
    assert_eq!(group.name(), "Quota group");
    group.description = Some("description".to_string());
    assert_eq!(group.name(), "description");
    group.display_name = Some("name".to_string());
    assert_eq!(group.name(), "name");
}

fn gemini(remaining_fraction: f64) -> Vec<QuotaGroup> {
    vec![QuotaGroup {
        display_name: Some("Gemini Models".into()),
        description: None,
        buckets: vec![QuotaBucket {
            bucket_id: Some("weekly".into()),
            window: Some("WEEKLY".into()),
            display_name: Some("Weekly Limit".into()),
            description: None,
            remaining: remaining(remaining_fraction),
            reset_time: Some("2026-10-01T00:00:00Z".into()),
        }],
    }]
}

#[test]
fn normalizes_quota() {
    let value = normalize_groups(&gemini(0.83));
    let group = match &value {
        JsonValue::Array(groups) => &groups[0],
        other => panic!("{:?}", other),
    };
    assert_eq!(group.get("name"), Some(&JsonValue::String("Gemini Models".to_string())));
    let bucket = match group.get("buckets") {
        Some(JsonValue::Array(buckets)) => &buckets[0],
        other => panic!("{:?}", other),
    };
    assert_eq!(
        bucket.get("remaining_percent"),
        Some(&JsonValue::Number(JsonNumber::Float(83.0f64.to_bits())))
    );
}

#[test]
fn normalized_documents_hold_every_field() {
    assert_eq!(
        normalize_groups(&gemini(0.5)),
        parse_json(
            r#"[{"name": "Gemini Models", "buckets": [{"name": "Weekly Limit",
                "remaining_fraction": 0.5, "remaining_percent": 50.0,
                "reset_time": "2026-10-01T00:00:00Z", "window": "WEEKLY",
                "bucket_id": "weekly"}]}]"#
        )
        .unwrap()
    );
    assert_eq!(
        normalize_groups(&[bare_group(vec![bare_bucket()])]),
        parse_json(
            r#"[{"name": "Quota group", "buckets": [{"name": "Limit",
                "remaining_fraction": null, "remaining_percent": null, "reset_time": null,
                "window": null, "bucket_id": null}]}]"#
        )
        .unwrap()
    );
}

#[test]
fn what_is_no_number_is_null() {
    for odd in [f64::NAN, f64::INFINITY, f64::NEG_INFINITY] {
        let mut bucket = bare_bucket();
        bucket.remaining = Some(Remaining {
            fraction: odd.to_bits(),
            percent: f64::MAX.to_bits(),
            percent_text: String::new(),
        });
        let value = normalize_groups(&[bare_group(vec![bucket])]);
        let bucket = match &value {
            JsonValue::Array(groups) => match groups[0].get("buckets") {
                Some(JsonValue::Array(buckets)) => &buckets[0],
                other => panic!("{:?}", other),
            },
            other => panic!("{:?}", other),
        };
        assert_eq!(bucket.get("remaining_fraction"), Some(&JsonValue::Null));
        assert_eq!(
            bucket.get("remaining_percent"),
            Some(&JsonValue::Number(JsonNumber::Float(f64::MAX.to_bits())))
        );
    }
}

#[test]
fn normalized_quota_keeps_order_and_numbers() {
    let quota = NormalizedQuota::new("p", Some("Pro".to_string()), &gemini(0.5));
    assert_eq!(
        quota,
        NormalizedQuota {
            project: "p".to_string(),
            tier: Some("Pro".to_string()),
            groups: vec![NormalizedQuotaGroup {
                name: "Gemini Models".to_string(),
                buckets: vec![NormalizedQuotaBucket {
                    name: "Weekly Limit".to_string(),
                    remaining_fraction: Some(0.5f64.to_bits()),
                    remaining_percent: Some(50.0f64.to_bits()),
                    reset_time: Some("2026-10-01T00:00:00Z".to_string()),
                    window: Some("WEEKLY".to_string()),
                    bucket_id: Some("weekly".to_string()),
                }],
            }],
        }
    );
}

#[test]
fn formats_human_output() {
    let groups = vec![QuotaGroup {
        display_name: Some("Gemini 1.5 Pro".into()),
        description: None,
        buckets: vec![QuotaBucket {
            bucket_id: Some("daily".into()),
            window: Some("DAY".into()),
            display_name: Some("Daily Requests".into()),
            description: None,
            remaining: remaining(0.5),
            reset_time: Some("2026-09-26T00:00:00Z".into()),
        }],
    }];
    let rendered = write_human("my-project", Some("Pro"), &groups);
    assert!(rendered.contains("Plan: Pro"));
    assert!(rendered.contains("Project: my-project"));
    assert!(rendered.contains("Gemini 1.5 Pro"));
    assert!(rendered.contains("Daily Requests: 50.0% remaining"));
    assert!(rendered.contains("reset: 2026-09-26T00:00:00Z"));
}

#[test]
fn human_output_is_exact() {
    let mut blank_reset = bare_bucket();
    blank_reset.reset_time = Some("  ".to_string());
    let mut accented = bare_group(vec![]);
    accented.display_name = Some("\u{e9}t\u{e9}".to_string());
    let groups = vec![bare_group(vec![blank_reset]), accented, gemini(0.25).remove(0)];
    assert_eq!(
        write_human("p", None, &groups),
        "Antigravity quota\n=================\nProject: p\n\
         \nQuota group\n-----------\nLimit: remaining quota unknown\n\
         \n\u{e9}t\u{e9}\n---\nNo buckets returned.\n\
         \nGemini Models\n-------------\nWeekly Limit: 25.0% remaining\n  reset: 2026-10-01T00:00:00Z\n"
    );
    assert_eq!(
        write_human("p", Some("Pro"), &[]),
        "Antigravity quota\n=================\nPlan: Pro\nProject: p\n\nNo grouped quota buckets were returned.\n"
    );
}

#[test]
fn output_follows_the_format() {
    let raw = r#"{"groups": [], "about": {"b": 1.50, "a": null}}"#;
    let tier = Some("Pro".to_string());
    let groups = gemini(0.5);
    assert_eq!(
        render_output(OutputFormat::Raw, "p", &tier, &groups, raw),
        Ok(Rendered::Raw(
            "{\n  \"about\": {\n    \"a\": null,\n    \"b\": 1.5\n  },\n  \"groups\": []\n}".to_string()
        ))
    );
    assert_eq!(
        render_output(OutputFormat::Json, "p", &tier, &groups, raw),
        Ok(Rendered::Json(NormalizedQuota::new("p", tier.clone(), &groups)))
    );
    assert_eq!(
        render_output(OutputFormat::Human, "p", &tier, &groups, raw),
        Ok(Rendered::Human(write_human("p", Some("Pro"), &groups)))
    );
    assert!(render_output(OutputFormat::Raw, "p", &tier, &groups, "{").is_err());
    assert!(render_output(OutputFormat::Human, "p", &tier, &groups, "{").is_ok());
}

#[test]
fn laying_out_gives_the_same_document() {
    let text = r#"{"z":[1,-2,{"k":"v"}],"a":"\u00e9"}"#;
    let pretty = lay_out_json(text).unwrap();
    assert!(pretty.contains("\n  "));
    assert_eq!(parse_json(&pretty), parse_json(text));
    assert_eq!(lay_out_json("[1] 2").err(), parse_json("[1] 2").err());
}

#[test]
fn snapshot_has_a_row_for_each_bucket() {
    let mut groups = gemini(0.5);
    groups.push(bare_group(vec![]));
    groups.push(bare_group(vec![bare_bucket()]));
    assert_eq!(
        snapshot_rows(&groups),
        vec![
            BucketRow {
                group_name: "Gemini Models".to_string(),
                bucket_name: "Weekly Limit".to_string(),
                bucket_id: Some("weekly".to_string()),
                window: Some("WEEKLY".to_string()),
                remaining_fraction: Some(0.5f64.to_bits()),
                remaining_percent: Some(50.0f64.to_bits()),
                reset_time: Some("2026-10-01T00:00:00Z".to_string()),
            },
            BucketRow {
                group_name: "Quota group".to_string(),
                bucket_name: "Limit".to_string(),
                bucket_id: None,
                window: None,
                remaining_fraction: None,
                remaining_percent: None,
                reset_time: None,
            },
        ]
    );
    assert!(snapshot_rows(&[]).is_empty());
}

fn history_row(group: &str, bucket: &str, percent: Option<&str>) -> HistoryRow {
    HistoryRow {
        timestamp: "2026-09-26T00:00:00Z".to_string(),
        project: "p".to_string(),
        tier: None,
        group_name: group.to_string(),
        bucket_name: bucket.to_string(),
        remaining_percent: percent.map(|text| text.to_string()),
        reset_time: None,
    }
}

#[test]
fn history_is_shown_as_a_table() {
    assert_eq!(render_history(&[]), "No quota history records found.\n");
    let rows = [history_row("Gemini", "Day", Some("75.0")), history_row("\u{e9}t\u{e9}", "Weekly", None)];
    assert_eq!(
        render_history(&rows),
        "Timestamp             Group   Bucket   Remaining\n\
         --------------------  ------  ------  ----------\n\
         2026-09-26T00:00:00Z  Gemini  Day          75.0%\n\
         2026-09-26T00:00:00Z  \u{e9}t\u{e9}     Weekly         N/A\n"
    );
}

#[test]
fn columns_are_as_wide_as_the_longest_name_in_bytes() {
    let rows = [history_row("\u{e9}\u{e9}\u{e9}\u{e9}", "b", None)];
    let table = render_history(&rows);
    assert!(table.contains("Group     Bucket"));
    assert!(table.contains("\u{e9}\u{e9}\u{e9}\u{e9}      b     "));
}

#[test]
fn history_database_is_in_the_home_directory() {
    let steps = [".local", "share", "antigravity-quota", "quota_history.db"];
    assert_eq!(
        default_db_path(true),
        Ok(Location::UnderHome(steps.iter().map(|step| step.to_string()).collect()))
    );
    assert_eq!(default_db_path(false), Err(CliError::HomeNotSet));
}
