use task_notify::duration::DurationVal;
use task_notify::merge::consolidate;
use task_notify::record::TaskDetails;
use task_notify::record::TaskError;
use task_notify::record::TaskInfo;

fn record(
    target_id: Option<&str>,
    status: &str,
    kind: &str,
    error: Option<&str>,
    details: Option<TaskDetails>,
    secs: i64,
) -> TaskInfo {
    TaskInfo {
        target_id: target_id.map(|s| s.to_owned()),
        status: status.to_owned(),
        kind: kind.to_owned(),
        error: error.map(|m| TaskError { message: m.to_owned() }),
        details,
        elapsed: DurationVal::new(secs, 0),
    }
}

fn counts(produced: Option<u64>, consumed: Option<u64>) -> Option<TaskDetails> {
    Some(TaskDetails { produced_count: produced, consumed_count: consumed })
}

#[test]
fn count_summation_both_present() {
    let a = record(None, "succeeded", "import", None, counts(Some(5), None), 1);
    let b = record(None, "succeeded", "import", None, counts(Some(7), None), 1);
    let merged = a.merge(b);
    assert_eq!(merged.details.unwrap().produced_count, Some(12));
}

#[test]
fn count_summation_one_absent() {
    let a = record(None, "succeeded", "import", None, counts(Some(5), None), 1);
    let b = record(None, "succeeded", "import", None, counts(None, None), 1);
    let merged = a.merge(b);
    assert_eq!(merged.details.unwrap().produced_count, Some(5));

    let c = record(None, "succeeded", "import", None, None, 1);
    let d = record(None, "succeeded", "import", None, counts(Some(5), Some(3)), 1);
    let merged = c.merge(d);
    assert_eq!(merged.details.unwrap().produced_count, Some(5));
    assert_eq!(merged.details.unwrap().consumed_count, Some(3));
}

#[test]
fn count_summation_saturates() {
    let a = record(None, "succeeded", "import", None, counts(Some(u64::MAX - 1), None), 1);
    let b = record(None, "succeeded", "import", None, counts(Some(7), None), 1);
    let merged = a.merge(b);
    assert_eq!(merged.details.unwrap().produced_count, Some(u64::MAX));
}

#[test]
fn left_bias_target_id() {
    let a = record(Some("A"), "succeeded", "import", None, None, 1);
    let b = record(Some("B"), "succeeded", "import", None, None, 1);
    let merged = a.merge(b);
    assert_eq!(merged.target_id.as_deref(), Some("A"));
}

#[test]
fn left_bias_error() {
    let a = record(None, "failed", "import", Some("first"), None, 1);
    let b = record(None, "failed", "import", Some("second"), None, 1);
    let merged = a.merge(b);
    assert_eq!(merged.error.unwrap().message, "first");

    let c = record(None, "failed", "import", None, None, 1);
    let d = record(None, "failed", "import", Some("later"), None, 1);
    let merged = c.merge(d);
    assert_eq!(merged.error.unwrap().message, "later");
}

#[test]
fn first_record_fields_kept() {
    let records = vec![
        record(None, "succeeded", "import", None, None, 10),
        record(None, "processing", "indexing", None, None, 5),
        record(None, "failed", "settings", None, None, 99),
    ];
    let merged = consolidate(&records).unwrap();
    assert_eq!(merged.status, "succeeded");
    assert_eq!(merged.kind, "import");
    assert_eq!(merged.elapsed, DurationVal::new(10, 0));
}

#[test]
fn consolidate_empty_batch() {
    let records: Vec<TaskInfo> = Vec::new();
    assert!(consolidate(&records).is_none());
}

#[test]
fn consolidate_sums_counts_across_batch() {
    let records = vec![
        record(None, "succeeded", "import", None, counts(Some(1), Some(10)), 1),
        record(None, "succeeded", "import", None, counts(Some(2), None), 1),
        record(None, "succeeded", "import", None, counts(Some(3), Some(30)), 1),
    ];
    let merged = consolidate(&records).unwrap();
    let details = merged.details.unwrap();
    assert_eq!(details.produced_count, Some(6));
    assert_eq!(details.consumed_count, Some(40));
}
