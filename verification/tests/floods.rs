use chatstronomy::clock::Tick;
use chatstronomy::double::Double;
use chatstronomy::event_elision::{
    normalize_elision_log_level, ElidedEventCount, EventElisionReporter, MAX_KEYS,
    NOTICE_INTERVAL_NANOS,
};
use chatstronomy::event_rate_limit::{diagnostic, EventRateLimiter, TokenBucket, MAX_FINGERPRINTS};
use chatstronomy::events::{Event, EventDeliveryScope, EventDetails};
use chatstronomy::json::{JsonField, JsonValue, Number};
use chatstronomy::seen_set::BoundedSeenSet;

const START: Tick = Tick { nanos: 1_000_000_000 };

fn at(seconds: u64) -> Tick {
    Tick { nanos: START.nanos + seconds * 1_000_000_000 }
}

fn counter(count: u64, epoch: &str) -> ElidedEventCount {
    ElidedEventCount {
        event: "SEQUENCE-ENTITY-FAILED".into(),
        level: None,
        count,
        epoch: epoch.into(),
    }
}

fn failed_entity() -> Event {
    Event {
        time: "2026-09-09T00:00:00Z".into(),
        event: "SEQUENCE-ENTITY-FAILED".into(),
        chat_enabled: true,
        details: None,
    }
}

#[test]
fn combines_plugin_deltas_and_hub_drops_without_replaying_snapshots() {
    let mut reporter = EventElisionReporter::new();
    reporter.observe_source(Some(&vec![counter(10, "first")]), true);
    assert_eq!(reporter.take_notice(START), None);
    reporter.observe_source(Some(&vec![counter(30, "first")]), false);
    reporter.dropped_at_hub(&failed_entity());
    assert_eq!(reporter.take_notice(START), Some(21));
    reporter.observe_source(Some(&vec![counter(30, "first")]), false);
    reporter.observe_source(Some(&vec![counter(20, "first")]), false);
    reporter.observe_source(Some(&vec![counter(30, "first")]), false);
    let later = Tick { nanos: START.nanos + NOTICE_INTERVAL_NANOS as u64 };
    assert_eq!(reporter.take_notice(later), None);
    reporter.observe_source(Some(&vec![counter(35, "first")]), false);
    assert_eq!(reporter.take_notice(later), Some(5));
}

#[test]
fn bounds_notice_rate_and_flushes_after_the_flood_stops() {
    let mut reporter = EventElisionReporter::new();
    reporter.dropped_at_hub(&failed_entity());
    assert_eq!(reporter.take_notice(at(0)), Some(1));
    for _ in 0..10_000 {
        reporter.dropped_at_hub(&failed_entity());
    }
    assert_eq!(reporter.take_notice(at(0)), None);
    assert_eq!(reporter.take_notice(at(59)), None);
    assert_eq!(reporter.take_notice(at(60)), Some(10_000));
    assert_eq!(reporter.take_notice(at(60)), None);
}

#[test]
fn revocations_and_new_epochs_clear_pending_counts_without_losing_new_drops() {
    let mut reporter = EventElisionReporter::new();
    reporter.observe_source(Some(&vec![counter(100, "old")]), false);
    reporter.observe_source(None, false);
    reporter.observe_source(Some(&vec![counter(4, "new")]), false);
    assert_eq!(reporter.take_notice(START), Some(4));

    let mut reporter = EventElisionReporter::new();
    reporter.observe_source(Some(&vec![counter(100, "old")]), false);
    reporter.dropped_at_hub(&failed_entity());
    reporter.observe_source(Some(&vec![]), false);
    reporter.dropped_at_hub(&failed_entity());
    assert_eq!(reporter.take_notice(START), None);

    reporter.dropped_at_hub(&failed_entity());
    reporter.revoke_scope(EventDeliveryScope::Sequence);
    assert_eq!(reporter.take_notice(START), None);
}

#[test]
fn bounded_keys_and_saturating_counts_accept_no_raw_diagnostic_text() {
    let mut reporter = EventElisionReporter::new();
    for i in 0..1_000 {
        let mut event = failed_entity();
        event.event = format!("ERROR-{i}");
        reporter.dropped_at_hub(&event);
    }
    assert_eq!(reporter.pending_len(), MAX_KEYS);
    let mut reporter = EventElisionReporter::new();
    reporter.observe_source(Some(&vec![counter(u64::MAX, "first")]), false);
    reporter.dropped_at_hub(&failed_entity());
    assert_eq!(reporter.take_notice(START), Some(u64::MAX));
}

#[test]
fn zero_slots_preserve_hub_only_counts_until_permissions_revoke_them() {
    let mut reporter = EventElisionReporter::new();
    reporter.observe_source(Some(&vec![counter(0, "first")]), true);
    reporter.dropped_at_hub(&failed_entity());
    reporter.observe_source(Some(&vec![counter(0, "first")]), false);
    assert_eq!(reporter.take_notice(START), Some(1));

    let mut reporter = EventElisionReporter::new();
    reporter.dropped_at_hub(&failed_entity());
    reporter.observe_source(Some(&vec![]), false);
    assert_eq!(reporter.take_notice(START), None);

    reporter.observe_source(Some(&vec![counter(0, "first")]), false);
    reporter.dropped_at_hub(&failed_entity());
    reporter.observe_source(Some(&vec![counter(0, "new-permissions")]), false);
    assert_eq!(reporter.take_notice(START), None);
}

#[test]
fn canonical_log_levels_share_source_permission_slots() {
    for (alias, canonical) in [
        ("INFO", "INFORMATION"),
        ("WARN", "WARNING"),
        ("FATAL", "ERROR"),
        ("CRITICAL", "ERROR"),
        ("VERBOSE", "TRACE"),
    ] {
        assert_eq!(normalize_elision_log_level(Some(alias)), canonical);
        let mut reporter = EventElisionReporter::new();
        let source = |epoch: &str| {
            vec![ElidedEventCount {
                event: "NINA-LOG".into(),
                level: Some(canonical.into()),
                count: 0,
                epoch: epoch.into(),
            }]
        };
        reporter.observe_source(Some(&source("old")), true);
        let log = Event {
            time: "2026-09-09T00:00:00Z".into(),
            event: "NINA-LOG".into(),
            chat_enabled: true,
            details: Some(EventDetails::NinaLog {
                level: alias.into(),
                source: "Camera".into(),
                member: "Read".into(),
                line: 1,
                message: "private message".into(),
            }),
        };
        reporter.dropped_at_hub(&log);
        reporter.observe_source(Some(&source("old")), false);
        assert_eq!(reporter.pending_len(), 1);
        reporter.observe_source(Some(&source("new")), false);
        assert_eq!(reporter.take_notice(START), None);
    }
}

fn plain(value: serde_json::Value) -> JsonValue {
    match value {
        serde_json::Value::Null => JsonValue::Null,
        serde_json::Value::Bool(b) => JsonValue::Bool(b),
        serde_json::Value::Number(n) => {
            let x = n.as_f64().unwrap();
            JsonValue::Number(Number {
                value: Double { bits: x.to_bits() },
                whole: n.as_i64().map(|v| v as i128),
            })
        }
        serde_json::Value::String(s) => JsonValue::Text(s),
        serde_json::Value::Array(items) => JsonValue::List(items.into_iter().map(plain).collect()),
        serde_json::Value::Object(map) => JsonValue::Object(
            map.into_iter()
                .map(|(name, value)| JsonField { name, value: plain(value) })
                .collect(),
        ),
    }
}

fn event(text: &str) -> Event {
    Event::from_json(plain(serde_json::from_str(text).unwrap())).expect("an event")
}

fn failure(index: usize) -> Event {
    let entity = if index % 2 == 0 { "TakeExposure" } else { "SetReadoutMode" };
    event(&format!(
        r#"{{"Event": "SEQUENCE-ENTITY-FAILED", "Time": "2026-09-09T04:41:{index}Z",
            "Entity": "{entity}", "EntityType": "Instruction", "Error": "Camera not connected"}}"#
    ))
}

#[test]
fn alternating_failures_ignore_timestamps_and_recover_after_a_minute() {
    let mut limiter = EventRateLimiter::new(at(0));
    let mut allowed: usize = 0;
    for i in 0..10_000 {
        if limiter.allow(&failure(i), at(0)) {
            allowed += 1;
        }
    }
    assert_eq!(allowed, 2);
    assert!(!limiter.allow(&failure(10_000), at(59)));
    assert!(limiter.allow(&failure(10_000), at(60)));
}

#[test]
fn varying_errors_are_bounded_and_batches_do_not_refill_during_slow_delivery() {
    let mut limiter = EventRateLimiter::new(at(0));
    for i in 0..10_000 {
        let mut event = failure(i);
        event.details = Some(EventDetails::SequenceEntityFailed {
            entity: "TakeExposure".into(),
            entity_type: "Instruction".into(),
            error: format!("Camera error {i}"),
        });
        assert_eq!(limiter.allow(&event, at(0)), i < 5);
    }
    assert!(limiter.remembered() <= MAX_FINGERPRINTS);
    assert!(limiter.allow(&failure(0), at(10_000)));
}

#[test]
fn log_floods_do_not_starve_errors_other_telescopes_or_critical_events() {
    let mut limiter = EventRateLimiter::new(START);
    for i in 0..1_000 {
        let log = event(&format!(
            r#"{{"Event": "NINA-LOG", "Time": "now", "Level": "INFO", "Source": "Camera",
                "Member": "Poll", "Line": 1, "Message": "log {i}"}}"#
        ));
        assert_eq!(limiter.allow(&log, START), i < 10);
    }
    assert!(limiter.allow(&failure(0), START));
    assert!(EventRateLimiter::new(START).allow(&failure(0), START));
    for name in [
        "ERROR-AF",
        "ERROR-PLATESOLVE",
        "CAMERA-DOWNLOAD-TIMEOUT",
        "IMAGE-SAVE-FAILED",
    ] {
        let mut event = failure(0);
        event.event = name.into();
        assert!(limiter.allow(&event, START));
        assert!(!limiter.allow(&event, START));
    }
    for name in [
        "SAFETY-CHANGED",
        "CAMERA-CONNECTED",
        "SEQUENCE-FINISHED",
        "AUTOFOCUS-FINISHED",
        "CHATSTRONOMY-COMMAND-FAILED",
    ] {
        let mut event = failure(0);
        event.event = name.into();
        assert!(limiter.allow(&event, START));
        assert!(limiter.allow(&event, START));
    }
}

#[test]
fn warnings_logs_and_popups_share_error_budget_but_disabled_records_do_not() {
    let mut limiter = EventRateLimiter::new(at(0));
    for i in 0..10 {
        let mut event = failure(i);
        event.chat_enabled = false;
        assert!(limiter.allow(&event, at(0)));
    }
    assert_eq!(limiter.remembered(), 0);
    for (i, level) in ["WARN", "warning", "ERROR", "Fatal", " critical ", "ERROR"]
        .iter()
        .enumerate()
    {
        let event = event(&format!(
            r#"{{"Event": "NINA-NOTIFICATION", "Time": "now", "Level": "{level}",
                "Header": "Camera", "Message": "error {i}"}}"#
        ));
        assert_eq!(limiter.allow(&event, at(0)), i < 5);
    }
    assert!(!limiter.allow(&failure(0), at(0)));
    assert!(limiter.allow(&failure(0), at(12)));
    assert!(!limiter.allow(&failure(1), at(12)));
}

#[test]
fn buckets_hold_at_most_their_capacity() {
    let mut bucket = TokenBucket::new(2, 12, at(0));
    assert!(bucket.allow(at(0)));
    assert!(bucket.allow(at(0)));
    assert!(!bucket.allow(at(0)));
    assert!(!bucket.allow(at(11)));
    assert!(bucket.allow(at(12)));
    assert!(bucket.allow(at(1_000)));
    assert!(bucket.allow(at(1_000)));
    assert!(!bucket.allow(at(1_000)));
}

#[test]
fn a_repetition_counts_as_the_latest_sighting() {
    let mut seen = BoundedSeenSet::new(3);
    for key in ["a", "b", "c", "a", "d"] {
        seen.insert(key.to_string());
    }
    assert_eq!(seen.len(), 3);
    assert!(seen.check_and_insert("a".to_string()));
    assert!(seen.check_and_insert("c".to_string()));
    assert!(!seen.check_and_insert("b".to_string()));
}

#[test]
fn a_diagnostic_is_told_by_its_name_and_details() {
    let event = failure(1);
    let first = diagnostic(&event);
    assert_eq!(first.name, "SEQUENCE-ENTITY-FAILED");
    assert!(matches!(
        first.details,
        Some(EventDetails::SequenceEntityFailed { entity, .. }) if entity == "SetReadoutMode"
    ));
}
