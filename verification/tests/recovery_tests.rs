use playground_core::recovery::{
    judge_data_size, judge_parse, judge_rendering, MAX_DATA_BYTES, RETENTION_SECS,
};
use playground_core::{
    check_emergency_data, parse_emergency_data, recovery_file_name, render_emergency_data,
    RecoverySweep, SweepAction, SweepEvent,
};
use serde_json::{Number, Value};

fn sample() -> Value {
    let mut fields = serde_json::Map::new();
    fields.insert("title".to_string(), Value::String("draft".to_string()));
    fields.insert("count".to_string(), Value::Number(Number::from(3)));
    Value::Object(fields)
}

fn json() -> SweepEvent {
    SweepEvent::Entry(Some("json".to_string()))
}

#[test]
fn recovery_file_name_appends_the_extension() {
    assert_eq!(recovery_file_name("session"), "session.json");
    assert_eq!(recovery_file_name("notes.bak"), "notes.bak.json");
}

#[test]
fn limits_have_their_documented_values() {
    assert_eq!(MAX_DATA_BYTES, 10 * 1024 * 1024);
    assert_eq!(RETENTION_SECS, 7 * 24 * 60 * 60);
}

#[test]
fn data_size_limit_is_ten_mebibytes() {
    assert_eq!(judge_data_size(Ok("x".repeat(MAX_DATA_BYTES))), Ok(()));
    assert_eq!(
        judge_data_size(Ok("x".repeat(MAX_DATA_BYTES + 1))),
        Err("Data too large (max 10MB)".to_string())
    );
    assert_eq!(judge_data_size(Ok(String::new())), Ok(()));
}

#[test]
fn data_that_cannot_be_written_is_reported() {
    assert_eq!(
        judge_data_size(Err("key must be a string".to_string())),
        Err("Failed to serialize data for size check: key must be a string".to_string())
    );
    assert_eq!(
        judge_rendering(Err("key must be a string".to_string())),
        Err("Failed to serialize data: key must be a string".to_string())
    );
    assert_eq!(judge_rendering(Ok("{}".to_string())), Ok("{}".to_string()));
}

#[test]
fn emergency_data_with_a_valid_name_is_accepted() {
    assert_eq!(check_emergency_data("session", &sample()), Ok(()));
    assert_eq!(check_emergency_data("session.bak", &Value::Null), Ok(()));
}

#[test]
fn emergency_data_with_an_invalid_name_is_rejected() {
    assert_eq!(
        check_emergency_data("", &sample()),
        Err("Filename cannot be empty".to_string())
    );
    assert_eq!(
        check_emergency_data("../session", &sample()),
        Err(
            "Invalid filename: only alphanumeric characters, dashes, underscores, and dots allowed"
                .to_string()
        )
    );
}

#[test]
fn emergency_data_over_the_limit_is_rejected() {
    // The one-line text is the string between two quotes.
    let fits = Value::String("x".repeat(MAX_DATA_BYTES - 2));
    let too_large = Value::String("x".repeat(MAX_DATA_BYTES - 1));
    assert_eq!(check_emergency_data("big", &fits), Ok(()));
    assert_eq!(
        check_emergency_data("big", &too_large),
        Err("Data too large (max 10MB)".to_string())
    );
}

#[test]
fn emergency_data_name_is_judged_before_size() {
    let too_large = Value::String("x".repeat(MAX_DATA_BYTES));
    assert_eq!(
        check_emergency_data("", &too_large),
        Err("Filename cannot be empty".to_string())
    );
}

#[test]
fn rendering_is_the_indented_text() {
    assert_eq!(
        render_emergency_data(&sample()),
        Ok("{\n  \"count\": 3,\n  \"title\": \"draft\"\n}".to_string())
    );
    assert_eq!(render_emergency_data(&Value::Null), Ok("null".to_string()));
}

#[test]
fn stored_text_is_read_back() {
    let text = render_emergency_data(&sample()).unwrap();
    assert_eq!(parse_emergency_data(&text), Ok(sample()));
    assert_eq!(parse_emergency_data("[1, 2]"), Ok(Value::Array(vec![
        Value::Number(Number::from(1)),
        Value::Number(Number::from(2)),
    ])));
}

#[test]
fn text_that_is_not_json_is_reported() {
    let message = parse_emergency_data("{ not json").unwrap_err();
    assert!(message.starts_with("Failed to parse data: "), "{}", message);
    assert!(message.len() > "Failed to parse data: ".len());
    let empty = parse_emergency_data("").unwrap_err();
    assert!(empty.starts_with("Failed to parse data: "), "{}", empty);
}

#[test]
fn text_nested_deeper_than_the_reader_goes_is_refused() {
    let within = format!("{}{}", "[".repeat(127), "]".repeat(127));
    let too_deep = format!("{}{}", "[".repeat(128), "]".repeat(128));
    assert!(parse_emergency_data(&within).is_ok());
    let message = parse_emergency_data(&too_deep).unwrap_err();
    assert!(message.starts_with("Failed to parse data: "), "{}", message);
}

#[test]
fn text_with_more_than_one_value_is_refused() {
    assert!(parse_emergency_data(" {} \n").is_ok());
    assert!(parse_emergency_data("{} {}").is_err());
    assert!(parse_emergency_data("1e999").is_err());
}

#[test]
fn same_text_reads_as_the_same_value() {
    assert_eq!(parse_emergency_data("{\"a\": [1, 2.5, null]}"), parse_emergency_data("{\"a\": [1, 2.5, null]}"));
}

#[test]
fn judge_parse_passes_values_and_prefixes_reasons() {
    assert_eq!(judge_parse(Ok(Value::Bool(true))), Ok(Value::Bool(true)));
    assert_eq!(
        judge_parse(Err("expected value at line 1 column 1".to_string())),
        Err("Failed to parse data: expected value at line 1 column 1".to_string())
    );
}

#[test]
fn sweep_removes_a_stale_json_file_and_counts_it() {
    let now = 1_700_000_000;
    let mut sweep = RecoverySweep::new(now);
    assert_eq!(sweep.removed_count(), 0);
    assert_eq!(sweep.step(json()), SweepAction::ReadModified);
    assert_eq!(sweep.step(SweepEvent::Modified(now - RETENTION_SECS - 1)), SweepAction::Remove);
    assert_eq!(sweep.step(SweepEvent::Removed), SweepAction::NextEntry);
    assert_eq!(sweep.removed_count(), 1);
}

#[test]
fn sweep_keeps_a_file_that_is_exactly_seven_days_old() {
    let now = 1_700_000_000;
    let mut sweep = RecoverySweep::new(now);
    assert_eq!(sweep.step(json()), SweepAction::ReadModified);
    assert_eq!(sweep.step(SweepEvent::Modified(now - RETENTION_SECS)), SweepAction::NextEntry);
    assert_eq!(sweep.step(json()), SweepAction::ReadModified);
    assert_eq!(sweep.step(SweepEvent::Modified(now)), SweepAction::NextEntry);
    assert_eq!(sweep.step(json()), SweepAction::ReadModified);
    assert_eq!(sweep.step(SweepEvent::Modified(now + 60)), SweepAction::NextEntry);
    assert_eq!(sweep.removed_count(), 0);
}

#[test]
fn sweep_skips_files_that_are_not_json() {
    let mut sweep = RecoverySweep::new(1_700_000_000);
    assert_eq!(sweep.step(SweepEvent::Entry(None)), SweepAction::NextEntry);
    assert_eq!(sweep.step(SweepEvent::Entry(Some("tmp".to_string()))), SweepAction::NextEntry);
    assert_eq!(sweep.step(SweepEvent::Entry(Some("JSON".to_string()))), SweepAction::NextEntry);
    assert_eq!(sweep.step(SweepEvent::Entry(Some("".to_string()))), SweepAction::NextEntry);
    assert_eq!(sweep.step(SweepEvent::EntryUnreadable), SweepAction::NextEntry);
    assert_eq!(sweep.removed_count(), 0);
}

#[test]
fn sweep_skips_a_file_whose_time_is_unknown() {
    let mut sweep = RecoverySweep::new(1_700_000_000);
    assert_eq!(sweep.step(json()), SweepAction::ReadModified);
    assert_eq!(sweep.step(SweepEvent::ModifiedUnknown), SweepAction::NextEntry);
    assert_eq!(sweep.step(json()), SweepAction::ReadModified);
    assert_eq!(sweep.removed_count(), 0);
}

#[test]
fn sweep_does_not_count_a_failed_removal() {
    let now = 1_700_000_000;
    let mut sweep = RecoverySweep::new(now);
    assert_eq!(sweep.step(json()), SweepAction::ReadModified);
    assert_eq!(sweep.step(SweepEvent::Modified(0)), SweepAction::Remove);
    assert_eq!(sweep.step(SweepEvent::NotRemoved), SweepAction::NextEntry);
    assert_eq!(sweep.removed_count(), 0);
}

#[test]
fn sweep_counts_every_successful_removal() {
    let now = 1_700_000_000;
    let mut sweep = RecoverySweep::new(now);
    for modified in [0, 1, now - RETENTION_SECS - 1] {
        assert_eq!(sweep.step(json()), SweepAction::ReadModified);
        assert_eq!(sweep.step(SweepEvent::Modified(modified)), SweepAction::Remove);
        assert_eq!(sweep.step(SweepEvent::Removed), SweepAction::NextEntry);
    }
    assert_eq!(sweep.removed_count(), 3);
}

#[test]
fn sweep_ignores_events_that_do_not_belong_to_the_phase() {
    let now = 1_700_000_000;
    let mut sweep = RecoverySweep::new(now);
    // A time or a removal with no entry before it asks for nothing.
    assert_eq!(sweep.step(SweepEvent::Modified(0)), SweepAction::NextEntry);
    assert_eq!(sweep.step(SweepEvent::Removed), SweepAction::NextEntry);
    assert_eq!(sweep.removed_count(), 0);
    // An entry met while dating drops the entry before it.
    assert_eq!(sweep.step(json()), SweepAction::ReadModified);
    assert_eq!(sweep.step(json()), SweepAction::NextEntry);
    assert_eq!(sweep.step(SweepEvent::Modified(0)), SweepAction::NextEntry);
}

#[test]
fn sweep_early_in_the_epoch_finds_nothing_stale() {
    let mut sweep = RecoverySweep::new(RETENTION_SECS - 1);
    assert_eq!(sweep.step(json()), SweepAction::ReadModified);
    assert_eq!(sweep.step(SweepEvent::Modified(0)), SweepAction::NextEntry);
    let mut at_edge = RecoverySweep::new(RETENTION_SECS);
    assert_eq!(at_edge.step(json()), SweepAction::ReadModified);
    assert_eq!(at_edge.step(SweepEvent::Modified(0)), SweepAction::NextEntry);
    let mut past_edge = RecoverySweep::new(RETENTION_SECS + 1);
    assert_eq!(past_edge.step(json()), SweepAction::ReadModified);
    assert_eq!(past_edge.step(SweepEvent::Modified(0)), SweepAction::Remove);
}
