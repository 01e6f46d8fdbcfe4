use task_notify::pipeline::ErrorPolicy;
use task_notify::pipeline::EventMode;
use task_notify::pipeline::Settings;
use task_notify::pipeline::process_batch;
use task_notify::record::DecodeError;
use task_notify::record::ExtractMode;

fn defaults() -> Settings {
    Settings { mode: ExtractMode::Strict, policy: ErrorPolicy::Abort, events: EventMode::All }
}

#[test]
fn scenario_two_imports_without_target() {
    let stream = br#"{"type":"import","status":"succeeded","duration":"PT10S","details":{"indexedDocuments":50}}
{"type":"import","status":"succeeded","duration":"PT5S","details":{"indexedDocuments":25}}"#;
    let n = process_batch(stream, defaults()).unwrap().unwrap();
    assert_eq!(n.title, "Import succeeded");
    assert_eq!(n.body, "A import succeeded in 10s");
}

#[test]
fn scenario_failed_indexing() {
    let stream = br#"{"indexUid":"movies","status":"failed","type":"indexing","duration":"PT3M","error":{"message":"disk full"},"details":{"receivedDocuments":1000}}"#;
    let n = process_batch(stream, defaults()).unwrap().unwrap();
    assert_eq!(n.title, "Index movies failed");
    assert!(n.body.contains("indexing failed indexing 1000 documents in 3m: disk full"));
    assert_eq!(n.body, "A indexing failed indexing 1000 documents in 3m: disk full");
}

#[test]
fn scenario_truncated_stream_aborts() {
    let stream = br#"{"status":"ok""#;
    assert!(matches!(process_batch(stream, defaults()), Err(DecodeError::Syntax)));
}

#[test]
fn empty_stream_reports_nothing() {
    assert!(matches!(process_batch(b"", defaults()), Ok(None)));
    assert!(matches!(process_batch(b"  \n  ", defaults()), Ok(None)));
}

#[test]
fn success_with_throughput() {
    let stream = br#"{"indexUid":"books","type":"import","status":"succeeded","duration":"PT10S","details":{"indexedDocuments":50}}"#;
    let n = process_batch(stream, defaults()).unwrap().unwrap();
    assert_eq!(n.title, "Index books succeeded");
    assert_eq!(n.body, "A import succeeded indexing 50 documents in 10s (5.00 docs/s)");
}

#[test]
fn throughput_omitted_for_zero_duration() {
    let stream = br#"{"indexUid":"books","type":"import","status":"succeeded","duration":"PT0S","details":{"indexedDocuments":100}}"#;
    let n = process_batch(stream, defaults()).unwrap().unwrap();
    assert_eq!(n.body, "A import succeeded indexing 100 documents in 0s");
    assert!(!n.body.contains("docs/s"));
}

#[test]
fn target_without_counts_or_error() {
    let stream = br#"{"indexUid":"books","type":"import","status":"enqueued","duration":"PT10S"}"#;
    let n = process_batch(stream, defaults()).unwrap().unwrap();
    assert_eq!(n.title, "Index books enqueued");
    assert_eq!(n.body, "A import enqueued indexing in 10s");
}

#[test]
fn missing_required_fields_are_errors() {
    let no_status = br#"{"type":"import","duration":"PT1S"}"#;
    assert!(matches!(process_batch(no_status, defaults()), Err(DecodeError::MissingStatus)));
    let no_kind = br#"{"status":"succeeded","duration":"PT1S"}"#;
    assert!(matches!(process_batch(no_kind, defaults()), Err(DecodeError::MissingKind)));
    let no_duration = br#"{"status":"succeeded","type":"import"}"#;
    assert!(matches!(process_batch(no_duration, defaults()), Err(DecodeError::MissingElapsed)));
    let bad_duration = br#"{"status":"succeeded","type":"import","duration":"sideways"}"#;
    assert!(matches!(process_batch(bad_duration, defaults()), Err(DecodeError::BadElapsed)));
    let not_an_object = br#"[1,2,3]"#;
    assert!(matches!(process_batch(not_an_object, defaults()), Err(DecodeError::NotAnObject)));
}

#[test]
fn strict_rejects_ill_shaped_optional_field() {
    let stream = br#"{"indexUid":42,"type":"import","status":"succeeded","duration":"PT1S"}"#;
    assert!(matches!(process_batch(stream, defaults()), Err(DecodeError::BadField)));
}

#[test]
fn tolerant_treats_ill_shaped_optional_field_as_absent() {
    let stream = br#"{"indexUid":42,"type":"import","status":"succeeded","duration":"PT10S"}"#;
    let mut settings = defaults();
    settings.mode = ExtractMode::Tolerant;
    let n = process_batch(stream, settings).unwrap().unwrap();
    assert_eq!(n.title, "Import succeeded");
    assert_eq!(n.body, "A import succeeded in 10s");
}

#[test]
fn skip_policy_keeps_good_records() {
    let stream = br#"{"type":"import","duration":"PT1S"}
{"type":"import","status":"succeeded","duration":"PT10S","details":{"indexedDocuments":50}}"#;
    let mut settings = defaults();
    settings.policy = ErrorPolicy::Skip;
    let n = process_batch(stream, settings).unwrap().unwrap();
    assert_eq!(n.title, "Import succeeded");
    assert_eq!(n.body, "A import succeeded in 10s");
}

#[test]
fn skip_policy_with_nothing_left_reports_nothing() {
    let stream = br#"{"type":"import","duration":"PT1S"}"#;
    let mut settings = defaults();
    settings.policy = ErrorPolicy::Skip;
    assert!(matches!(process_batch(stream, settings), Ok(None)));
}

#[test]
fn first_only_ignores_the_rest_of_the_stream() {
    let stream = br#"{"type":"import","status":"succeeded","duration":"PT10S","details":{"indexedDocuments":50}} this is not json"#;
    let mut settings = defaults();
    settings.events = EventMode::FirstOnly;
    let n = process_batch(stream, settings).unwrap().unwrap();
    assert_eq!(n.body, "A import succeeded in 10s");
    assert!(matches!(process_batch(stream, defaults()), Err(DecodeError::Syntax)));
}

#[test]
fn null_optional_fields_count_as_absent() {
    let stream = br#"{"indexUid":null,"error":null,"details":null,"type":"import","status":"succeeded","duration":"PT10S"}"#;
    let n = process_batch(stream, defaults()).unwrap().unwrap();
    assert_eq!(n.title, "Import succeeded");
}

#[test]
fn friendly_duration_format_is_accepted() {
    let stream = br#"{"type":"import","status":"succeeded","duration":"2h 30m"}"#;
    let n = process_batch(stream, defaults()).unwrap().unwrap();
    assert_eq!(n.body, "A import succeeded in 2h30m");
}
