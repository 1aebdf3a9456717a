use chatstronomy::calendar::{
    after, format_stamp, format_utc_clock, format_utc_timestamp, format_zoned, now, parse_moment,
    parse_nina_timestamp, parse_nina_timestamp_with_context, rfc3339_moment, since, Moment, Span,
    ZonedMoment, LAST_SECOND,
};
use chatstronomy::chat::{ChatMessage, ChatTarget};
use chatstronomy::clock::{Duration, Tick};
use chatstronomy::colors;
use chatstronomy::double::Double;
use chatstronomy::event_messages::generic_event_message;
use chatstronomy::event_types;
use chatstronomy::events::{
    Event, EventDeliveryScope, EventDetails, FilterInfo, WeatherConditions,
};
use chatstronomy::json::{JsonField, JsonValue, Number};
use chatstronomy::operation_messages::sequence_operation_message;
use chatstronomy::operations::{
    claim_plate_solve_output, output_identity, output_key_name, plate_solve_output_key,
    OperationNote, OperationUpdate,
};
use chatstronomy::sequence::{
    completed_milestone, promote_ambiguous_slew_to_center, CameraInfo, PlateSolveOutput,
    SequenceOperation, SequenceOperationKind, TrackedSequenceOperation,
};
use chatstronomy::seen_set::BoundedSeenSet;
use chatstronomy::source::{RigCapabilities, SharedRigSource};
use chatstronomy::telescope_messages::{
    filterwheel_change_message, focuser_user_focused_message, guider_event_message,
    mount_event_message, rotator_synced_message, target_change_message, ImageMetadata,
    MountSnapshot,
};
use chatstronomy::updater::{
    event_identity, sequence_container_counts, should_process_event, tombstone_identity,
    ChatUpdater, ImageNotice, Notice,
};
use chatstronomy::updater_state::{SafetyState, TargetInfo, TargetSource, UpdaterState};
use std::sync::Arc;

const START: Tick = Tick { nanos: 0 };

fn double(x: f64) -> Double {
    Double { bits: x.to_bits() }
}

fn plain(value: serde_json::Value) -> JsonValue {
    match value {
        serde_json::Value::Null => JsonValue::Null,
        serde_json::Value::Bool(b) => JsonValue::Bool(b),
        serde_json::Value::Number(n) => {
            let x = n.as_f64().unwrap();
            let whole = n
                .as_i64()
                .map(|v| v as i128)
                .or_else(|| n.as_u64().map(|v| v as i128));
            JsonValue::Number(Number { value: double(x), whole })
        }
        serde_json::Value::String(s) => JsonValue::Text(s),
        serde_json::Value::Array(items) => JsonValue::List(items.into_iter().map(plain).collect()),
        serde_json::Value::Object(map) => JsonValue::Object(
            map.into_iter()
                .map(|(name, value)| JsonField { name, value: plain(value) })
                .collect(),
        ),
    }
}

fn event(text: &str) -> Event {
    Event::from_json(plain(serde_json::from_str(text).unwrap())).expect("an event")
}

fn bare(time: &str, name: &str) -> Event {
    Event {
        time: time.to_string(),
        event: name.to_string(),
        chat_enabled: true,
        details: None,
    }
}

fn tombstone(time: &str, name: &str) -> Event {
    Event { chat_enabled: false, ..bare(time, name) }
}

fn moment(text: &str) -> Moment {
    parse_moment(text).expect("a timestamp")
}

fn updater() -> ChatUpdater {
    ChatUpdater::new(
        SharedRigSource { id: 1, capabilities: RigCapabilities::none() },
        "State Test".to_string(),
        ChatTarget::default(),
    )
}

fn live(updater: &mut ChatUpdater, event: Event, tick: Tick) -> Option<ChatMessage> {
    let at = now();
    let items = updater.prepare_events(vec![event]);
    let notice = updater.receive_event(&items, 0, at, tick);
    let event = &items[0].event;
    let name = updater.telescope_name().to_string();
    let target = &updater.state.current_target;
    match notice {
        Notice::Silent => None,
        Notice::Generic => generic_event_message(&name, event, items[0].times, at),
        Notice::TargetStarted { previous, target } => {
            Some(target_change_message(&name, &previous, &target, &None, &None, at))
        }
        Notice::FilterChanged => updater
            .state
            .settle_filter_change(event, None)
            .map(|(old, new)| filterwheel_change_message(&name, event, &old, &new, at)),
        Notice::Mount => Some(mount_event_message(&name, event, target, &None, at)),
        Notice::Guider => Some(guider_event_message(&name, event, target, &None, at)),
        Notice::Sequence => Some(updater.state.sequence_event_message(&name, event, at)),
        Notice::RotatorSynced => Some(rotator_synced_message(&name, event, &None, at)),
        Notice::FocuserFocused => Some(focuser_user_focused_message(&name, event, &None, at)),
    }
}

fn field<'a>(message: &'a ChatMessage, name: &str) -> Option<&'a str> {
    message
        .fields
        .iter()
        .find(|field| field.name == name)
        .map(|field| field.value.as_str())
}

fn wait_event(event_time: &str, wait_end_time: &str) -> Event {
    Event {
        details: Some(EventDetails::WaitStart { wait_end_time: wait_end_time.to_string() }),
        ..bare(event_time, event_types::TS_WAITSTART)
    }
}

fn target_event(name: &str) -> Event {
    Event {
        details: Some(EventDetails::TargetStart {
            target_name: name.to_string(),
            project_name: None,
            rotation: None,
            target_end_time: None,
            coordinates: None,
        }),
        ..bare("2026-08-26T06:00:00Z", event_types::TS_TARGETSTART)
    }
}

fn operation(kind: SequenceOperationKind) -> SequenceOperation {
    SequenceOperation {
        key: "1/0".to_string(),
        name: "Test operation".to_string(),
        status: "RUNNING".to_string(),
        chat_enabled: true,
        kind,
    }
}

fn delivered(notes: Vec<OperationNote>) -> Vec<(ChatMessage, usize)> {
    notes
        .iter()
        .map(|note| {
            let (message, picture) =
                sequence_operation_message("State Test", &note.running, note.update, now());
            (message, if picture.is_some() { 1 } else { 0 })
        })
        .collect()
}

fn reconcile(updater: &mut ChatUpdater, operations: Vec<SequenceOperation>) -> Vec<(ChatMessage, usize)> {
    delivered(updater.reconcile_sequence_operations(operations, &vec![], None, now(), true))
}

#[test]
fn sequencer_plus_wait_lifecycle_and_status_stay_privacy_safe() {
    let mut updater = updater();
    let at = now();
    let condition = TrackedSequenceOperation::new(
        operation(SequenceOperationKind::ConditionWait {
            wait_interval: Some(Span::seconds(17)),
        }),
        at,
        None,
    );
    let mut manual_operation = operation(SequenceOperationKind::ManualWait);
    manual_operation.key = "0/2".to_string();
    let manual = TrackedSequenceOperation::new(manual_operation, at, None);
    let mut disabled = operation(SequenceOperationKind::SafetyWait {
        is_safe: Some(false),
        wait_interval: Some(Span::seconds(5)),
    });
    disabled.key = "0/3".to_string();
    disabled.chat_enabled = false;
    let disabled = TrackedSequenceOperation::new(disabled, at, None);

    let (started, _) =
        sequence_operation_message("Backyard Rig", &condition, OperationUpdate::Started, at);
    let (finished, _) = sequence_operation_message(
        "Backyard Rig",
        &manual,
        OperationUpdate::Finished { attach_output: false },
        at,
    );

    updater.state.board.running.push(condition);
    updater.state.board.running.push(manual);
    updater.state.board.running.push(disabled);
    let status_time = moment("2099-08-26T06:00:00Z");
    let status = updater.state.format_startup_status_at(status_time);
    assert!(status.contains("Waiting for a sequence condition"));
    assert!(status.contains("checks every 17s"));
    assert!(status.contains("Waiting for manual sequence resume"));
    assert!(!status.contains("Waiting for safe conditions"));
    assert!(!updater.state.status_fingerprint(status_time).contains("0/3"));

    assert!(started.title.contains("Waiting for a sequence condition"));
    assert!(started.fields.iter().any(|field| field.name == "Check interval"));
    assert!(finished.title.contains("Sequence manually resumed"));
    let rendered = format!("{started:?}\n{finished:?}\n{status}");
    for private_label in ["Expression", "Predicate", "Reason"] {
        assert!(!rendered.contains(private_label));
    }
}

#[test]
fn disappearing_safety_wait_does_not_claim_conditions_became_safe() {
    let mut updater = updater();
    let wait = TrackedSequenceOperation::new(
        operation(SequenceOperationKind::SafetyWait {
            is_safe: Some(false),
            wait_interval: Some(Span::seconds(5)),
        }),
        now(),
        None,
    );
    updater.state.board.running.push(wait);

    let deliveries = reconcile(&mut updater, vec![]);
    assert_eq!(deliveries.len(), 1);
    assert!(deliveries[0].0.title.contains("Safety wait ended"));
    assert!(!deliveries[0].0.title.contains("Safe conditions reached"));
}

#[test]
fn suppressed_active_safety_wait_is_removed_without_delivery() {
    let mut updater = updater();
    let wait = TrackedSequenceOperation::new(
        operation(SequenceOperationKind::SafetyWait {
            is_safe: Some(false),
            wait_interval: Some(Span::seconds(5)),
        }),
        now(),
        None,
    );
    let key = wait.operation.key.clone();
    updater.state.board.running.push(wait);
    let notes = updater.reconcile_sequence_operations(vec![], &vec![key], None, now(), true);
    assert!(updater.state.board.running.is_empty());
    assert!(notes.is_empty());
}

#[test]
fn suppressed_time_wait_preserves_independent_scheduler_wait_without_delivery() {
    let mut updater = updater();
    let at = now();
    let wait = TrackedSequenceOperation::new(
        operation(SequenceOperationKind::TimeWait {
            target_time: None,
            configured_duration: Some(Span::minutes(5)),
        }),
        at,
        None,
    );
    let key = wait.operation.key.clone();
    updater.state.board.running.push(wait);
    let scheduler_end = after(at, Span::minutes(5));
    updater.state.scheduler_wait = scheduler_end;

    let notes = updater.reconcile_sequence_operations(vec![], &vec![key], None, at, true);

    assert!(updater.state.board.running.is_empty());
    assert_eq!(updater.state.scheduler_wait_end(), scheduler_end);
    assert!(notes.is_empty());
}

#[test]
fn scheduler_and_sequence_waits_with_the_same_endpoint_are_independent() {
    let mut updater = updater();
    let endpoint = moment("2099-08-26T08:00:00Z");
    let first = live(
        &mut updater,
        wait_event("2099-08-26T06:00:00Z", "2099-08-26T08:00:00Z"),
        START,
    )
    .expect("a message");
    let started = reconcile(
        &mut updater,
        vec![operation(SequenceOperationKind::TimeWait {
            target_time: Some(endpoint),
            configured_duration: None,
        })],
    );

    assert_eq!(updater.state.scheduler_wait_end(), Some(endpoint));
    assert_eq!(updater.state.board.running[0].estimated_end, Some(endpoint));
    assert!(first.title.contains("Target Scheduler wait"));
    assert_eq!(started.len(), 1);
    assert!(started[0].0.title.contains("Timed wait started"));

    let status = updater.state.format_startup_status_at(moment("2099-08-26T06:00:00Z"));
    assert!(status.contains("Sequence wait until"));
    assert!(status.contains("Target Scheduler wait until"));
    let elapsed = updater
        .state
        .format_startup_status_at(after(endpoint, Span::seconds(1)).unwrap());
    assert!(elapsed.contains("Sequence wait reached its scheduled time"));
    assert!(elapsed.contains("Target Scheduler reached its scheduled time"));

    let ended = reconcile(&mut updater, vec![]);
    assert!(updater.state.board.running.is_empty());
    assert_eq!(updater.state.scheduler_wait_end(), Some(endpoint));
    assert_eq!(ended.len(), 1);
    assert!(ended[0].0.title.contains("Timed wait ended"));
    assert!(field(&ended[0].0, "Planned until").is_some());
    assert!(field(&ended[0].0, "Countdown").is_none());
}

#[test]
fn scheduler_wait_replacement_and_lifecycle_boundaries_are_explicit() {
    let mut updater = updater();
    let at = now();
    let later_endpoint = moment("2099-08-26T08:00:00Z");
    let first_endpoint = moment("2099-08-26T07:00:00Z");
    let first = || wait_event("2099-08-26T05:00:00Z", "2099-08-26T07:00:00Z");
    let state = &mut updater.state;

    state.apply_event_state(&first(), at);
    state.apply_event_state(&wait_event("2099-08-26T06:00:00Z", "2099-08-26T08:00:00Z"), at);
    state.apply_event_state(&first(), at);
    assert_eq!(state.scheduler_wait_end(), Some(later_endpoint));

    state.apply_event_state(&wait_event("2099-08-26T06:05:00Z", "malformed-endpoint"), at);
    assert!(state.scheduler_wait.is_none());

    state.apply_event_state(&wait_event("2099-08-26T06:10:00Z", "2099-08-26T08:00:00Z"), at);
    let mut target_started = target_event("M42");
    target_started.time = "2099-08-26T06:11:00Z".to_string();
    state.apply_event_state(&target_started, at);
    assert!(state.scheduler_wait.is_none());
    state.apply_event_state(&wait_event("2099-08-26T06:10:00Z", "2099-08-26T08:00:00Z"), at);
    assert!(state.scheduler_wait.is_none());

    state.apply_event_state(&wait_event("2099-08-26T06:20:00Z", "2099-08-26T08:00:00Z"), at);
    state.apply_event_state(&bare("2099-08-26T06:21:00Z", event_types::SEQUENCE_STARTING), at);
    assert!(state.scheduler_wait.is_none());

    state.apply_event_state(&wait_event("2099-08-26T06:30:00Z", "2099-08-26T08:00:00Z"), at);
    state.apply_event_state(&bare("2099-08-26T06:31:00Z", event_types::SEQUENCE_FINISHED), at);
    assert!(state.scheduler_wait.is_none());

    state.apply_event_state(&wait_event("2099-08-26T06:40:00Z", "2099-08-26T08:00:00Z"), at);
    live(&mut updater, tombstone("2099-08-26T06:41:00Z", event_types::TS_WAITSTART), START);
    assert!(updater.state.scheduler_wait.is_none());

    updater.state.apply_event_state(
        &wait_event("2099-08-26T06:50:00Z", "2099-08-26T07:00:00Z"),
        at,
    );
    assert_eq!(updater.state.scheduler_wait_end(), Some(first_endpoint));
    assert!(updater
        .state
        .format_startup_status_at(first_endpoint)
        .contains("reached its scheduled time"));
}

#[test]
fn stale_scheduler_wait_after_terminal_transition_is_not_delivered() {
    let mut updater = updater();
    let at = now();
    updater.state.apply_event_state(
        &wait_event("2099-08-26T06:00:00Z", "2099-08-26T08:00:00Z"),
        at,
    );
    let mut target_started = target_event("M42");
    target_started.time = "2099-08-26T06:10:00Z".to_string();
    updater.state.apply_event_state(&target_started, at);

    let message = live(
        &mut updater,
        wait_event("2099-08-26T05:00:00Z", "2099-08-26T07:00:00Z"),
        START,
    );
    assert!(updater.state.scheduler_wait.is_none());
    assert!(message.is_none());
}

#[test]
fn baseline_scheduler_wait_restores_status_without_replaying_start() {
    let mut updater = updater();
    let endpoint = moment("2099-08-26T08:00:00Z");
    let wait = || wait_event("2099-08-26T06:00:00Z", "2099-08-26T08:00:00Z");
    updater.process_baseline_events(vec![wait()], now());

    assert_eq!(updater.state.scheduler_wait_end(), Some(endpoint));
    assert!(updater
        .state
        .format_startup_status_at(moment("2099-08-26T06:00:00Z"))
        .contains("Target Scheduler wait until"));
    assert!(live(&mut updater, wait(), START).is_none());
}

#[test]
fn scheduler_wait_notification_uses_one_normalized_instant_and_a_countdown() {
    let updater = updater();
    let items = updater.prepare_events(vec![wait_event(
        "2026-09-02T01:55:00.6436653+00:00",
        "2026-09-01T21:25:51.5404816-05:00",
    )]);
    let at = moment("2026-09-02T01:55:00.6436653Z");
    let message =
        generic_event_message("State Test", &items[0].event, items[0].times, at).unwrap();

    assert!(message.title.contains("Target Scheduler wait"));
    assert_eq!(message.matrix_timestamp_label.as_deref(), Some("Started"));
    let occurred_at = chrono::DateTime::parse_from_rfc3339(message.timestamp.as_deref().unwrap())
        .expect("normalized occurrence timestamp");
    assert_eq!(
        occurred_at.with_timezone(&chrono::Utc).to_rfc3339(),
        "2026-09-02T01:55:00.643665300+00:00"
    );
    assert!(field(&message, "Time").is_none());
    assert!(field(&message, "Wait Until").is_none());

    let end = moment("2026-09-02T02:25:51.5404816Z");
    let until = message.fields.iter().find(|field| field.name == "Until").unwrap();
    assert_eq!(until.value, "2026-09-02 02:25:51 UTC");
    assert_eq!(
        until.discord_value.as_deref(),
        Some(format!("<t:{}:F>", end.seconds).as_str())
    );
    let countdown = message.fields.iter().find(|field| field.name == "Countdown").unwrap();
    assert_eq!(countdown.value, "30m 50s remaining");
    assert_eq!(
        countdown.discord_value.as_deref(),
        Some(format!("<t:{}:R>", end.seconds).as_str())
    );
}

#[test]
fn malformed_scheduler_wait_timestamps_remain_visible_without_native_markup() {
    let updater = updater();
    let items = updater.prepare_events(vec![wait_event("legacy-start", "legacy-end")]);
    let message =
        generic_event_message("State Test", &items[0].event, items[0].times, now()).unwrap();
    assert!(message.matrix_timestamp_label.is_none());
    assert!(message.fields.iter().any(|field| {
        field.name == "Started" && field.value == "legacy-start" && field.discord_value.is_none()
    }));
    assert!(message.fields.iter().any(|field| {
        field.name == "Until" && field.value == "legacy-end" && field.discord_value.is_none()
    }));
    assert!(!message.fields.iter().any(|field| field.name == "Countdown"));
}

fn hidden_events() -> Vec<Event> {
    vec![
        Event { chat_enabled: false, ..target_event("Private baseline target") },
        Event {
            chat_enabled: false,
            details: Some(EventDetails::FilterWheelChange {
                new: FilterInfo { name: "Private filter".to_string(), id: 4 },
                previous: FilterInfo { name: "Old private filter".to_string(), id: 3 },
            }),
            ..bare("2026-08-26T06:00:01Z", event_types::FILTERWHEEL_CHANGED)
        },
        Event {
            chat_enabled: false,
            ..wait_event("2026-08-26T06:00:02Z", "2026-08-26T07:00:00Z")
        },
        tombstone("2026-08-26T06:00:03Z", event_types::MOUNT_PARKED),
        tombstone("2026-08-26T06:00:04Z", event_types::GUIDER_START),
        tombstone("2026-08-26T06:00:05Z", event_types::SEQUENCE_STARTING),
    ]
}

fn assert_nothing_shown(updater: &ChatUpdater) {
    assert!(updater.state.current_target.is_none());
    assert!(updater.state.last_filter.is_none());
    assert!(updater.state.scheduler_wait.is_none());
    assert!(updater.state.last_mount_event.is_none());
    assert!(updater.state.last_guider_event.is_none());
    assert!(!updater.state.sequence_running);
}

#[test]
fn hidden_event_details_never_enter_the_state() {
    let mut updater = updater();
    updater.process_baseline_events(hidden_events(), now());
    assert_nothing_shown(&updater);

    for event in hidden_events() {
        assert!(live(&mut updater, event, START).is_none());
    }
    assert_nothing_shown(&updater);

    updater.state.current_target = Some(TargetInfo {
        name: "Previously shared target".to_string(),
        source: TargetSource::TsTargetStart,
        coordinates: None,
        project: None,
        rotation: None,
        target_end_time: None,
    });
    assert!(updater
        .state
        .reconcile_sequence_target(Some(("Private projection".to_string(), false)), now())
        .is_none());
    assert!(updater.state.current_target.is_none());
}

#[test]
fn enabled_sequence_target_still_updates_when_no_scheduler_override_exists() {
    let mut updater = updater();
    let (_, target) = updater
        .state
        .reconcile_sequence_target(Some(("M42".to_string(), true)), now())
        .expect("enabled target should update state");
    assert_eq!(target.name, "M42");
    assert_eq!(
        updater.state.current_target.as_ref().map(|target| target.name.as_str()),
        Some("M42")
    );
}

#[test]
fn new_target_event_reconstructs_target_during_baseline() {
    let mut updater = updater();
    let mut event = target_event("M31");
    event.event = event_types::TS_NEWTARGETSTART.to_string();
    updater.process_baseline_events(vec![event], now());
    assert_eq!(
        updater.state.current_target.as_ref().map(|target| target.name.as_str()),
        Some("M31")
    );
}

#[test]
fn target_scheduler_tombstone_clears_only_scheduler_wait_state() {
    let mut updater = updater();
    let started = now();
    let running = TrackedSequenceOperation::new(
        operation(SequenceOperationKind::TimeWait {
            target_time: None,
            configured_duration: Some(Span::minutes(5)),
        }),
        started,
        None,
    );
    let intrinsic = running.estimated_end;
    assert_eq!(intrinsic, after(started, Span::minutes(5)));
    updater.state.scheduler_wait = after(started, Span::minutes(8 * 60));
    updater.state.board.running.push(running);

    updater.revoke_state_for_disabled_event(event_types::TS_WAITSTART, None);

    assert_eq!(updater.state.board.running[0].estimated_end, intrinsic);
    assert!(updater.state.scheduler_wait.is_none());
}

#[test]
fn sequence_tombstone_preserves_independent_scheduler_wait_state() {
    let mut updater = updater();
    updater.state.apply_event_state(
        &wait_event("2099-08-26T06:00:00Z", "2099-08-26T08:00:00Z"),
        now(),
    );
    let endpoint = updater.state.scheduler_wait_end();
    assert!(endpoint.is_some());

    updater.revoke_state_for_disabled_event(
        event_types::SEQUENCE_STARTING,
        Some("2099-08-26T06:30:00Z"),
    );

    assert_eq!(updater.state.scheduler_wait_end(), endpoint);
}

#[test]
fn malformed_time_privacy_tombstone_still_clears_scheduler_wait() {
    let mut updater = updater();
    updater.state.apply_event_state(
        &wait_event("2099-08-26T06:00:00Z", "2099-08-26T08:00:00Z"),
        now(),
    );

    updater.revoke_state_for_disabled_event(event_types::TS_WAITSTART, Some("malformed"));
    assert!(updater.state.scheduler_wait.is_none());

    updater.state.apply_event_state(
        &wait_event("2099-08-26T05:00:00Z", "2099-08-26T07:00:00Z"),
        now(),
    );
    assert!(updater.state.scheduler_wait.is_none());
}

#[test]
fn new_time_wait_keeps_its_intrinsic_target_over_scheduler_state() {
    let mut updater = updater();
    let intrinsic_end = moment("2099-08-26T04:00:00-07:00");
    updater.state.scheduler_wait = Some(moment("2099-08-26T08:00:00Z"));
    let notes = updater.reconcile_sequence_operations(
        vec![operation(SequenceOperationKind::TimeWait {
            target_time: Some(intrinsic_end),
            configured_duration: None,
        })],
        &vec![],
        None,
        now(),
        false,
    );
    assert!(notes.is_empty());
    assert_eq!(updater.state.board.running[0].estimated_end, Some(intrinsic_end));
}

#[test]
fn nina_timestamps_parse_with_and_without_an_offset() {
    assert!(parse_nina_timestamp("2026-08-17T04:00:00-07:00").is_some());
    assert!(parse_nina_timestamp("2026-08-17T04:00:00").is_some());
    assert!(parse_nina_timestamp("2026-08-17T04:00:00.1234567").is_some());
    assert!(parse_nina_timestamp("not a timestamp").is_none());
}

#[test]
fn fully_offsetless_legacy_scheduler_timestamps_are_deterministic_utc() {
    let parsed = parse_nina_timestamp_with_context(
        "2025-08-17T05:51:20.6380468",
        Some("2025-08-17T05:23:53.1567244"),
    )
    .expect("legacy scheduler timestamp");
    let expected = rfc3339_moment("2025-08-17T05:51:20.6380468Z").expect("expected UTC timestamp");
    assert_eq!(parsed.moment, expected);
    assert_eq!(parsed.offset, 0);
}

#[test]
fn offsetless_nina_timestamps_use_the_event_observatory_offset() {
    let contextual = parse_nina_timestamp_with_context(
        "2026-08-26T04:00:00",
        Some("2026-08-25T23:00:00-07:00"),
    )
    .expect("contextual timestamp");
    assert_eq!(contextual.offset, -7 * 60 * 60);
    assert_eq!(contextual.moment, moment("2026-08-26T04:00:00-07:00"));

    let explicit = parse_nina_timestamp_with_context(
        "2026-08-26T04:00:00+02:00",
        Some("2026-08-25T23:00:00-07:00"),
    )
    .expect("explicit timestamp");
    assert_eq!(explicit.offset, 2 * 60 * 60);
}

#[test]
fn scheduler_wait_uses_event_observatory_offset() {
    let mut updater = updater();
    let event = event(
        r#"{
            "Time": "2099-08-25T23:00:00-07:00",
            "Event": "TS-WAITSTART",
            "WaitEndTime": "2099-08-26T04:00:00"
        }"#,
    );
    updater.state.apply_event_state(&event, now());
    let wait_until = updater.state.scheduler_wait_end().expect("scheduler wait end");
    assert_eq!(wait_until, moment("2099-08-26T11:00:00+00:00"));
}

#[test]
fn bounded_seen_set_evicts_the_oldest_key() {
    let mut seen = BoundedSeenSet::new(2);
    assert!(!seen.check_and_insert("first".to_string()));
    assert!(!seen.check_and_insert("second".to_string()));
    assert!(seen.check_and_insert("first".to_string()));
    assert!(!seen.check_and_insert("third".to_string()));
    assert_eq!(seen.len(), 2);
    assert!(seen.check_and_insert("first".to_string()));
    assert!(!seen.check_and_insert("second".to_string()));
}

#[test]
fn disabled_plate_solve_does_not_consume_its_delivery_key() {
    let mut state = UpdaterState::new();
    let key: u64 = 1;
    let seen = &mut state.board.outputs_seen;
    assert!(!claim_plate_solve_output(seen, false, Some(key)));
    assert!(claim_plate_solve_output(seen, true, Some(key)));
    assert!(!claim_plate_solve_output(seen, true, Some(key)));
    assert!(!claim_plate_solve_output(seen, true, None));
}

fn solve_output(solve_time: &str) -> PlateSolveOutput {
    PlateSolveOutput {
        solve_time: Some(solve_time.to_string()),
        success: Some(true),
        coordinates: None,
        position_angle: None,
        pixel_scale: None,
        radius_degrees: None,
        separation_arcseconds: None,
        ra_error: None,
        dec_error: None,
        ra_pixel_error: None,
        dec_pixel_error: None,
        flipped: None,
        thumbnail: None,
        thumbnail_media_type: None,
    }
}

#[test]
fn plate_solve_dedup_identity_does_not_retain_solve_timestamp() {
    let hasher = std::collections::hash_map::RandomState::new();
    let private_timestamp = "2026-08-26T06:12:34.567-private";
    let operation = operation(SequenceOperationKind::MountCenter {
        coordinates: None,
        rotation: None,
        output: Some(solve_output(private_timestamp)),
    });

    let key = output_key_name(plate_solve_output_key(&hasher, &operation).unwrap());
    assert!(key.starts_with("p:"));
    assert!(!key.contains(private_timestamp));
}

#[test]
fn nina_timestamp_accepts_offset_and_observatory_local_values() {
    let offset = parse_nina_timestamp("2026-08-16T20:00:00-07:00").expect("offset time");
    assert_eq!(offset.offset, -7 * 60 * 60);

    let local = parse_nina_timestamp("2026-08-16T20:00:00.1234567").expect("local time");
    let expected = chrono::NaiveDateTime::parse_from_str(
        "2026-08-16T20:00:00.1234567",
        "%Y-%m-%dT%H:%M:%S%.f",
    )
    .unwrap()
    .and_utc();
    assert_eq!(local.moment.seconds + local.offset as i64, expected.timestamp());
    assert_eq!(local.moment.nanos, expected.timestamp_subsec_nanos());
}

#[test]
fn timed_wait_progress_reaches_notification_milestones() {
    let at = now();
    let running = TrackedSequenceOperation::new(
        operation(SequenceOperationKind::TimeWait {
            target_time: None,
            configured_duration: Some(Span::seconds(100)),
        }),
        at,
        None,
    );

    assert_eq!(running.progress_percent(at), Some(0));
    let later = after(at, Span::seconds(51)).unwrap();
    assert_eq!(running.progress_percent(later), Some(51));
    assert_eq!(running.next_milestone(later), Some(50));
    assert_eq!(completed_milestone(24), 0);
    assert_eq!(completed_milestone(25), 25);
    assert_eq!(completed_milestone(76), 75);
    assert_eq!(completed_milestone(100), 75);
}

fn camera(temperature: f64) -> CameraInfo {
    CameraInfo {
        connected: true,
        can_set_temperature: true,
        cooler_on: true,
        cooler_power: double(80.0),
        temperature: double(temperature),
        temperature_set_point: double(-10.0),
        at_target_temp: false,
        name: "Camera".to_string(),
        display_name: "Camera".to_string(),
    }
}

#[test]
fn cooling_progress_uses_live_camera_temperature() {
    let at = now();
    let mut running = TrackedSequenceOperation::new(
        operation(SequenceOperationKind::CameraCooling {
            target_temperature: double(-10.0),
            minimum_duration: Some(Span::minutes(10)),
        }),
        at,
        Some(camera(10.0)),
    );
    running.camera = Some(camera(0.0));

    assert_eq!(running.progress_percent(at), Some(50));
    assert_eq!(running.next_milestone(at), Some(50));
}

#[test]
fn motion_edge_messages_use_event_time_positions_and_starts_are_not_durable_state() {
    let mut updater = updater();
    updater.state.last_mount_event = Some(event_types::MOUNT_PARKED.to_string());
    let mount_start = event(
        r#"{
            "Time": "2026-08-31T01:00:00Z",
            "Event": "MOUNT-SLEW-STARTED",
            "MotionId": 42,
            "From": {
                "RAString": "01:15:00",
                "DecString": "-12:30:00",
                "Epoch": "J2000",
                "Altitude": 31.25,
                "Azimuth": 127.5
            },
            "Target": {
                "RAString": "03:30:00",
                "DecString": "+22:00:00",
                "Epoch": "J2000"
            }
        }"#,
    );
    let message = live(&mut updater, mount_start, START).expect("mount start");
    assert_eq!(
        updater.state.last_mount_event.as_deref(),
        Some(event_types::MOUNT_PARKED)
    );
    assert!(message.title.contains("Mount Slew Started"));
    let start_position = field(&message, "From position").unwrap();
    assert!(start_position.contains("RA 01:15:00 · Dec -12:30:00 (J2000)"));
    assert!(start_position.contains("Alt 31.25° · Az 127.50°"));
    assert!(field(&message, "Start position").is_none());
    assert!(field(&message, "Requested destination")
        .unwrap()
        .contains("RA 03:30:00 · Dec +22:00:00 (J2000)"));

    let mount_end = event(
        r#"{
            "Time": "2026-08-31T01:00:12Z",
            "Event": "MOUNT-SLEWED",
            "MotionId": 42,
            "From": {
                "RAString": "01:15:00",
                "DecString": "-12:30:00",
                "Epoch": "J2000",
                "Altitude": 31.25,
                "Azimuth": 127.5
            },
            "Target": {
                "RAString": "03:30:00",
                "DecString": "+22:00:00",
                "Epoch": "J2000"
            },
            "To": {
                "RAString": "03:29:59",
                "DecString": "+21:59:58",
                "Epoch": "J2000",
                "Altitude": 52.0,
                "Azimuth": 201.75
            },
            "DurationSeconds": 12.25,
            "EndDetection": "motion_state"
        }"#,
    );
    let message = live(&mut updater, mount_end, START).expect("mount end");
    assert!(message.title.contains("Mount Slew Ended"));
    assert!(!message.title.contains("Completed"));
    assert!(field(&message, "From position").is_some());
    let end_position = field(&message, "To position").unwrap();
    assert!(end_position.contains("RA 03:29:59 · Dec +21:59:58 (J2000)"));
    assert!(end_position.contains("Alt 52.00° · Az 201.75°"));
    assert!(field(&message, "End position").is_none());
    assert_eq!(field(&message, "Observed interval"), Some("12.25 s"));
    assert_eq!(field(&message, "End detected by"), Some("Equipment first reported idle"));

    let rotator_start = event(
        r#"{
            "Time": "2026-08-31T01:01:00Z",
            "Event": "ROTATOR-MOVE-STARTED",
            "MotionId": 43,
            "Position": 12.5,
            "MechanicalPosition": 87.5
        }"#,
    );
    let message = live(&mut updater, rotator_start, START).expect("rotator start");
    assert!(message.title.contains("Rotator move started"));
    assert_eq!(field(&message, "From position"), Some("12.50°"));
    assert_eq!(field(&message, "Mechanical from"), Some("87.50°"));
    assert!(field(&message, "Start position").is_none());
    assert!(field(&message, "Start mechanical position").is_none());

    let rotator_end = event(
        r#"{
            "Time": "2026-08-31T01:01:02Z",
            "Event": "ROTATOR-MOVED-MECHANICAL",
            "MotionId": 43,
            "From": 87.5,
            "To": 90.0,
            "Position": 15.0,
            "MechanicalFrom": 87.5,
            "MechanicalTo": 90.0,
            "DurationSeconds": 2.0,
            "EndDetection": "nina_moved"
        }"#,
    );
    let message = live(&mut updater, rotator_end, START).expect("rotator end");
    assert!(message.title.contains("Rotator mechanical move ended"));
    assert_eq!(field(&message, "To position"), Some("15.00°"));
    assert_eq!(field(&message, "Mechanical from"), Some("87.50°"));
    assert_eq!(field(&message, "Mechanical to"), Some("90.00°"));
    assert!(field(&message, "End position").is_none());
    assert!(field(&message, "Mechanical start").is_none());
    assert!(field(&message, "Mechanical end").is_none());
    assert_eq!(field(&message, "End detected by"), Some("N.I.N.A. move event"));
}

#[test]
fn callback_recovered_motion_starts_have_recovered_titles_without_an_interval() {
    let mut updater = updater();
    let mount_start = event(
        r#"{
            "Time": "2026-08-31T02:00:00Z",
            "Event": "MOUNT-SLEW-STARTED",
            "MotionId": 51,
            "From": {
                "RAString": "05:00:00",
                "DecString": "+10:00:00",
                "Epoch": "J2000"
            },
            "ObservedInProgress": true
        }"#,
    );
    let mount = live(&mut updater, mount_start, START).expect("mount start");
    assert!(mount.title.contains("Mount Slew Recovered"));
    assert!(!mount.title.contains("Mount Slew Started"));
    assert_eq!(field(&mount, "Capture"), Some("Recovered after motion began"));
    assert!(field(&mount, "Observed interval").is_none());
    assert!(field(&mount, "From position").is_some());
    assert!(field(&mount, "Start position").is_none());

    let rotator_start = event(
        r#"{
            "Time": "2026-08-31T02:00:01Z",
            "Event": "ROTATOR-MOVE-STARTED",
            "MotionId": 52,
            "Position": 21.5,
            "MechanicalPosition": 81.5,
            "ObservedInProgress": true
        }"#,
    );
    let rotator = live(&mut updater, rotator_start, START).expect("rotator start");
    assert!(rotator.title.contains("Rotator move recovered"));
    assert!(!rotator.title.contains("Rotator move started"));
    assert_eq!(field(&rotator, "Capture"), Some("Recovered after motion began"));
    assert!(field(&rotator, "Observed interval").is_none());
    assert_eq!(field(&rotator, "From position"), Some("21.50°"));
    assert_eq!(field(&rotator, "Mechanical from"), Some("81.50°"));
    assert!(field(&rotator, "Start position").is_none());
    assert!(field(&rotator, "Start mechanical position").is_none());
}

#[test]
fn astronomical_wait_and_plate_solve_have_lifecycle_and_dedup_delivery() {
    let mut updater = updater();
    let astronomical = || {
        operation(SequenceOperationKind::AstronomicalWait {
            target_altitude_degrees: Some(double(30.0)),
            current_altitude_degrees: Some(double(18.5)),
            comparator: Some("GREATER_THAN".to_string()),
            expected_time: Some("2026-08-26T04:30:00-07:00".to_string()),
        })
    };
    let mut deliveries = reconcile(&mut updater, vec![astronomical()]);
    assert!(updater.state.format_startup_status().contains("🌌 Test operation"));
    assert!(updater
        .state
        .format_startup_status()
        .contains("target GREATER_THAN 30.00°"));
    let mut finished = astronomical();
    finished.status = "FINISHED".to_string();
    deliveries.extend(reconcile(&mut updater, vec![finished]));

    let plate_solve = || {
        operation(SequenceOperationKind::PlateSolve {
            coordinates: None,
            rotation: Some(double(91.5)),
            output: Some(PlateSolveOutput {
                position_angle: Some(double(91.45)),
                pixel_scale: Some(double(1.25)),
                separation_arcseconds: Some(double(2.4)),
                thumbnail: Some(Arc::new(vec![1, 2, 3])),
                thumbnail_media_type: Some("image/jpeg".to_string()),
                ..solve_output("2026-08-26T11:30:00Z")
            }),
        })
    };
    let hidden = updater.reconcile_sequence_operations(
        vec![],
        &vec![plate_solve().key],
        None,
        now(),
        true,
    );
    assert!(hidden.is_empty());
    let first = reconcile(&mut updater, vec![plate_solve()]);
    assert_eq!(first.len(), 2);
    deliveries.extend(first);
    assert!(reconcile(&mut updater, vec![plate_solve()]).is_empty());

    let mut solve_finished = plate_solve();
    solve_finished.status = "FINISHED".to_string();
    deliveries.extend(reconcile(&mut updater, vec![solve_finished]));

    let titled = |text: &str| deliveries.iter().filter(|(m, _)| m.title.contains(text)).count();
    assert_eq!(titled("Astronomical wait started"), 1);
    assert_eq!(titled("Astronomical condition reached"), 1);
    assert_eq!(titled("Plate solve started"), 1);
    assert_eq!(titled("Plate solve result"), 1);
    assert!(deliveries
        .iter()
        .any(|(m, pictures)| m.title.contains("Plate solve result") && *pictures == 1));
    assert!(deliveries
        .iter()
        .any(|(m, pictures)| m.title.contains("Plate solve finished") && *pictures == 0));
    assert!(updater.state.board.running.is_empty());
}

#[test]
fn safety_and_observatory_state_survive_baseline_without_colliding() {
    let mut updater = updater();
    let events = vec![
        event(r#"{"Time": "2026-08-26T00:00:00Z", "Event": "SAFETY-CONNECTED"}"#),
        event(r#"{"Time": "2026-08-26T00:00:01Z", "Event": "SAFETY-CHANGED", "IsSafe": false}"#),
        event(r#"{"Time": "2026-08-26T00:00:02Z", "Event": "DOME-CONNECTED"}"#),
        event(r#"{"Time": "2026-08-26T00:00:03Z", "Event": "DOME-SHUTTER-OPENED"}"#),
        event(
            r#"{"Time": "2026-08-26T00:00:04Z", "Event": "DOME-SLEWED", "FromAzimuth": 20.0, "ToAzimuth": 40.0}"#,
        ),
        event(r#"{"Time": "2026-08-26T00:00:05Z", "Event": "DOME-SYNCED"}"#),
    ];
    updater.process_baseline_events(events, now());
    assert_eq!(updater.state.safety_state, SafetyState::Unsafe);
    assert_eq!(updater.state.dome_connected, Some(true));
    assert_eq!(updater.state.dome_shutter_open, Some(true));
    assert_eq!(updater.state.dome_azimuth, None);
    let status = updater.state.format_startup_status();
    assert!(status.contains("Conditions unsafe"));
    assert!(status.contains("shutter open"));
    assert!(!status.contains("azimuth 40.00°"));
}

#[test]
fn weather_change_and_high_wind_state_have_independent_privacy_scopes() {
    let mut updater = updater();
    let unusable = vec![
        Event {
            details: Some(EventDetails::WeatherChanged {
                changed_fields: "temperature".to_string(),
                summary: None,
                conditions: WeatherConditions::default(),
            }),
            ..bare("2026-08-25T23:59:58Z", event_types::WEATHER_CHANGED)
        },
        Event {
            details: Some(EventDetails::WeatherHighWind {
                is_high_wind: true,
                threshold_meters_per_second: Some(double(9.0)),
                conditions: WeatherConditions::default(),
            }),
            ..bare("2026-08-25T23:59:59Z", event_types::WEATHER_HIGH_WIND)
        },
    ];
    updater.process_baseline_events(unusable, now());
    assert_eq!(updater.state.weather_conditions, None);
    assert_eq!(updater.state.weather_high_wind, None);

    let events = vec![
        event(r#"{"Time": "2026-08-26T00:00:00Z", "Event": "WEATHER-CONNECTED"}"#),
        event(
            r#"{
                "Time": "2026-08-26T00:00:01Z",
                "Event": "WEATHER-CHANGED",
                "ChangedFields": "temperature, humidity",
                "TemperatureCelsius": 9.4,
                "HumidityPercent": 67.0,
                "CloudCoverPercent": 22.0
            }"#,
        ),
        event(
            r#"{
                "Time": "2026-08-26T00:00:02Z",
                "Event": "WEATHER-HIGH-WIND",
                "IsHighWind": true,
                "WindSpeedMetersPerSecond": 9.5,
                "WindGustMetersPerSecond": 13.2,
                "ThresholdMetersPerSecond": 9.0
            }"#,
        ),
    ];
    updater.process_baseline_events(events, now());
    let status = updater.state.format_startup_status();
    assert!(status.contains("Weather · connected, HIGH WIND (limit 9.0 m/s)"));
    assert!(status.contains("wind 9.5 m/s"));
    assert!(status.contains("gust 13.2 m/s"));
    assert!(status.contains("9.4 °C"));

    updater.revoke_state_for_disabled_event(event_types::WEATHER_CHANGED, None);
    assert_eq!(updater.state.weather_conditions, None);
    assert_eq!(updater.state.weather_high_wind, Some(true));
    let high_wind_only = updater.state.format_startup_status();
    assert!(high_wind_only.contains("HIGH WIND"));
    assert!(high_wind_only.contains("wind 9.5 m/s"));
    assert!(!high_wind_only.contains("9.4 °C"));

    updater.revoke_state_for_disabled_event(event_types::WEATHER_HIGH_WIND, None);
    assert_eq!(updater.state.weather_connected, Some(true));
    assert_eq!(updater.state.weather_high_wind, None);
    assert_eq!(updater.state.weather_high_wind_conditions, None);
    assert_eq!(updater.state.weather_high_wind_threshold_meters_per_second, None);
    assert_eq!(updater.state.format_startup_status(), "🌦️ Weather · connected");
}

#[test]
fn weather_notifications_are_compact_and_high_wind_refreshes_are_silent() {
    let mut updater = updater();
    let changed = event(
        r#"{
            "Time": "2026-08-26T00:00:01Z",
            "Event": "WEATHER-CHANGED",
            "ChangedFields": "wind, temperature, humidity",
            "Summary": "Wind increased and humidity fell",
            "WindSpeedMetersPerSecond": 5.2,
            "WindGustMetersPerSecond": 7.8,
            "TemperatureCelsius": 10.4,
            "HumidityPercent": 62.0,
            "PressureHectopascals": 1011.8,
            "CloudCoverPercent": 18.0,
            "RainRateMillimetersPerHour": 0.0
        }"#,
    );
    let wind = |second: u32, high: bool, speed: f64, gust: f64, limit: f64| {
        event(&format!(
            r#"{{"Time": "2026-08-26T00:00:0{second}Z", "Event": "WEATHER-HIGH-WIND",
                "IsHighWind": {high}, "WindSpeedMetersPerSecond": {speed},
                "WindGustMetersPerSecond": {gust}, "ThresholdMetersPerSecond": {limit}}}"#
        ))
    };
    let malformed = event(
        r#"{
            "Time": "2026-08-26T00:00:05Z",
            "Event": "WEATHER-HIGH-WIND",
            "WindSpeedMetersPerSecond": 30.0
        }"#,
    );

    let message = live(&mut updater, changed, START).expect("weather change");
    assert!(message.title.contains("Weather changed"));
    assert_eq!(field(&message, "Changed"), Some("wind, temperature, humidity"));
    assert!(field(&message, "Wind").unwrap().contains("5.2 m/s speed"));
    let atmosphere = field(&message, "Atmosphere").unwrap();
    assert!(atmosphere.contains("10.4 °C"));
    assert!(atmosphere.contains("62% RH"));
    assert!(atmosphere.contains("1011.8 hPa"));

    let message =
        live(&mut updater, wind(2, true, 9.5, 13.2, 9.0), START).expect("high wind");
    assert!(message.title.contains("High wind reported"));
    assert_eq!(message.color, Some(colors::RED));
    updater
        .state
        .apply_event_state(&bare("2026-08-26T00:00:02.5Z", event_types::WEATHER_CONNECTED), now());
    assert_eq!(updater.state.weather_high_wind, Some(true));
    assert!(live(&mut updater, wind(3, true, 9.5, 13.2, 8.5), START).is_none());
    assert_eq!(
        updater.state.weather_high_wind_threshold_meters_per_second,
        Some(double(8.5))
    );
    let message = live(&mut updater, wind(4, false, 4.0, 6.1, 8.5), START).expect("recovery");
    assert!(message.title.contains("Wind conditions recovered"));
    assert_eq!(message.color, Some(colors::GREEN));
    assert!(live(&mut updater, malformed, START).is_none());

    assert_eq!(updater.state.weather_high_wind, Some(false));
    let status = updater.state.format_startup_status();
    assert!(!status.contains("HIGH WIND"));
    assert!(status.contains("wind 4.0 m/s"));
    assert!(!status.contains("10.4 °C"));
}

#[test]
fn weather_reconnect_clears_measurements_but_preserves_latched_alert() {
    let mut updater = updater();
    let state = &mut updater.state;
    state.weather_connected = Some(true);
    state.weather_conditions = Some(WeatherConditions {
        temperature_celsius: Some(double(12.0)),
        ..WeatherConditions::default()
    });
    state.weather_high_wind = Some(true);
    state.weather_high_wind_conditions = Some(WeatherConditions {
        wind_speed_meters_per_second: Some(double(10.0)),
        ..WeatherConditions::default()
    });
    state.weather_high_wind_threshold_meters_per_second = Some(double(9.0));

    state.apply_event_state(
        &bare("2026-08-26T00:01:00Z", event_types::WEATHER_DISCONNECTED),
        now(),
    );

    assert_eq!(state.weather_connected, Some(false));
    assert_eq!(state.weather_conditions, None);
    assert_eq!(state.weather_high_wind, Some(true));
    assert_eq!(
        state
            .weather_high_wind_conditions
            .and_then(|conditions| conditions.wind_speed_meters_per_second),
        Some(double(10.0))
    );
    assert_eq!(state.weather_high_wind_threshold_meters_per_second, Some(double(9.0)));
    assert!(state
        .format_startup_status()
        .contains("Weather · disconnected, HIGH WIND"));

    state.apply_event_state(&bare("2026-08-26T00:02:00Z", event_types::WEATHER_CONNECTED), now());
    assert_eq!(state.weather_connected, Some(true));
    assert_eq!(state.weather_high_wind, Some(true));
    assert!(state.format_startup_status().contains("Weather · connected, HIGH WIND"));

    state.weather_high_wind = Some(false);
    state.weather_high_wind_conditions = Some(WeatherConditions {
        wind_speed_meters_per_second: Some(double(4.0)),
        ..WeatherConditions::default()
    });
    state.weather_high_wind_conditions_at = Some(now());
    state.weather_high_wind_threshold_meters_per_second = Some(double(9.0));
    state.apply_event_state(
        &bare("2026-08-26T00:03:00Z", event_types::WEATHER_DISCONNECTED),
        now(),
    );
    assert_eq!(state.weather_high_wind, None);
    assert_eq!(state.weather_high_wind_conditions, None);
    assert_eq!(state.weather_high_wind_threshold_meters_per_second, None);
}

#[test]
fn weather_status_uses_the_newest_permitted_wind_reading() {
    let mut updater = updater();
    let recovery = event(
        r#"{
            "Time": "2026-08-26T00:00:04Z",
            "Event": "WEATHER-HIGH-WIND",
            "IsHighWind": false,
            "WindSpeedMetersPerSecond": 4.0,
            "ThresholdMetersPerSecond": 8.5
        }"#,
    );
    updater.state.apply_event_state(&recovery, now());
    assert!(updater.state.format_startup_status().contains("wind 4.0 m/s"));

    let later_weather = event(
        r#"{
            "Time": "2026-08-26T00:00:05Z",
            "Event": "WEATHER-CHANGED",
            "ChangedFields": "wind speed",
            "WindSpeedMetersPerSecond": 3.0,
            "TemperatureCelsius": 10.0
        }"#,
    );
    updater.state.apply_event_state(&later_weather, now());
    let status = updater.state.format_startup_status();
    assert!(status.contains("wind 3.0 m/s"));
    assert!(!status.contains("wind 4.0 m/s"));

    let newest_without_wind = event(
        r#"{
            "Time": "2026-08-26T00:00:06Z",
            "Event": "WEATHER-CHANGED",
            "ChangedFields": "temperature",
            "TemperatureCelsius": 11.0
        }"#,
    );
    updater.state.apply_event_state(&newest_without_wind, now());
    let status = updater.state.format_startup_status();
    assert!(status.contains("wind 4.0 m/s"));
    assert!(status.contains("11.0 °C"));
}

#[test]
fn observatory_lifecycle_status_does_not_require_connection_events() {
    let mut state = UpdaterState::new();
    state.dome_shutter_open = Some(true);
    state.dome_parked = Some(true);
    state.flat_cover_state = Some("Closed".to_string());
    state.flat_light_on = Some(true);
    state.flat_brightness = Some(42);

    let status = state.format_startup_status();
    assert!(status.contains("Dome · shutter open, parked"));
    assert!(status.contains("Flat panel · cover Closed, light on, brightness 42"));
    assert!(!status.contains("connected"));
    assert!(!status.contains("disconnected"));
}

#[test]
fn dome_terminal_positions_clear_stale_azimuth_and_sync_preserves_flags() {
    let mut state = UpdaterState::new();
    state.dome_shutter_open = Some(true);
    state.dome_parked = Some(false);
    state.dome_homed = Some(true);
    state.dome_azimuth = Some(double(123.0));

    state.apply_event_state(&bare("2026-08-26T00:00:00Z", event_types::DOME_SYNCED), now());
    assert_eq!(state.dome_azimuth, None);
    assert_eq!(state.dome_shutter_open, Some(true));
    assert_eq!(state.dome_homed, Some(true));
    assert_eq!(state.dome_parked, Some(false));

    state.dome_azimuth = Some(double(90.0));
    state.apply_event_state(&bare("2026-08-26T00:01:00Z", event_types::DOME_PARKED), now());
    assert_eq!(state.dome_azimuth, None);
    assert_eq!(state.dome_parked, Some(true));
    assert_eq!(state.dome_homed, Some(false));

    state.dome_azimuth = Some(double(45.0));
    state.apply_event_state(&bare("2026-08-26T00:02:00Z", event_types::DOME_HOMED), now());
    assert_eq!(state.dome_azimuth, None);
    assert_eq!(state.dome_homed, Some(true));
    assert_eq!(state.dome_parked, Some(false));
}

#[test]
fn unknown_flat_light_payload_clears_stale_state() {
    let mut state = UpdaterState::new();
    for text in [
        r#"{"Time": "2026-08-26T00:00:00Z", "Event": "FLAT-LIGHT-TOGGLED", "On": null}"#,
        r#"{"Time": "2026-08-26T00:01:00Z", "Event": "FLAT-LIGHT-TOGGLED"}"#,
    ] {
        state.flat_light_on = Some(true);
        state.apply_event_state(&event(text), now());
        assert_eq!(state.flat_light_on, None);
    }
}

#[test]
fn observatory_and_connection_tombstones_revoke_only_their_scope() {
    let mut updater = updater();
    updater.state.dome_connected = Some(true);
    updater.state.dome_shutter_open = Some(true);
    updater.state.dome_azimuth = Some(double(30.0));

    updater.revoke_state_for_disabled_event(event_types::DOME_SLEWED, None);
    assert_eq!(updater.state.dome_connected, Some(true));
    assert_eq!(updater.state.dome_shutter_open, None);
    assert_eq!(updater.state.dome_azimuth, None);

    updater.state.dome_shutter_open = Some(false);
    updater.revoke_state_for_disabled_event(event_types::DOME_DISCONNECTED, None);
    assert_eq!(updater.state.dome_connected, None);
    assert_eq!(updater.state.dome_shutter_open, Some(false));
}

#[test]
fn motion_start_tombstones_are_transient_and_legacy_end_tombstones_keep_old_scopes() {
    let mut updater = updater();
    updater.state.last_mount_event = Some(event_types::MOUNT_PARKED.to_string());
    updater.state.last_filter = Some(FilterInfo { name: "L".to_string(), id: 2 });
    let filter = |u: &ChatUpdater| u.state.last_filter.as_ref().map(|f| f.name.clone());

    updater.process_baseline_events(
        vec![tombstone("2026-08-31T02:00:00Z", event_types::MOUNT_SLEW_STARTED)],
        now(),
    );
    assert_eq!(
        updater.state.last_mount_event.as_deref(),
        Some(event_types::MOUNT_PARKED)
    );
    assert_eq!(filter(&updater).as_deref(), Some("L"));

    live(
        &mut updater,
        tombstone("2026-08-31T02:00:01Z", event_types::ROTATOR_MOVE_STARTED),
        START,
    );
    assert_eq!(
        updater.state.last_mount_event.as_deref(),
        Some(event_types::MOUNT_PARKED)
    );
    assert_eq!(filter(&updater).as_deref(), Some("L"));

    updater.state.last_mount_event = Some(event_types::MOUNT_SLEWED.to_string());
    live(
        &mut updater,
        tombstone("2026-08-31T02:00:02Z", event_types::MOUNT_SLEWED),
        START,
    );
    assert!(updater.state.last_mount_event.is_none());

    live(
        &mut updater,
        tombstone("2026-08-31T02:00:03Z", event_types::ROTATOR_MOVED),
        START,
    );
    assert!(updater.state.last_filter.is_none());
}

#[test]
fn dither_and_flip_events_do_not_replace_stable_status_state() {
    let mut state = UpdaterState::new();
    state.last_mount_event = Some(event_types::MOUNT_UNPARKED.to_string());
    state.last_guider_event = Some(event_types::GUIDER_START.to_string());
    for event_type in [
        event_types::MOUNT_BEFORE_FLIP,
        event_types::MOUNT_AFTER_FLIP,
        event_types::GUIDER_DITHER,
    ] {
        state.apply_event_state(&bare("2026-08-26T00:00:00Z", event_type), now());
    }
    assert_eq!(state.last_mount_event.as_deref(), Some(event_types::MOUNT_UNPARKED));
    assert_eq!(state.last_guider_event.as_deref(), Some(event_types::GUIDER_START));
}

#[test]
fn baseline_uses_parsed_target_times_and_retains_scheduled_end() {
    let mut updater = updater();
    let events = vec![
        event(
            r#"{
                "Time": "2026-08-26T00:30:00+01:00",
                "Event": "TS-TARGETSTART",
                "TargetName": "Earlier instant"
            }"#,
        ),
        event(
            r#"{
                "Time": "2026-08-25T23:45:00Z",
                "Event": "TS-TARGETSTART",
                "TargetName": "Later instant",
                "TargetEndTime": "2026-08-26T02:00:00Z"
            }"#,
        ),
    ];
    updater.process_baseline_events(events, now());
    let target = updater.state.current_target.as_ref().unwrap();
    assert_eq!(target.name, "Later instant");
    assert_eq!(target.target_end_time.unwrap().moment.seconds, 1_787_709_600);
}

#[test]
fn target_end_uses_event_offset_and_expiry_releases_sequence_target() {
    let mut updater = updater();
    let event = event(
        r#"{
            "Time": "2099-08-25T23:00:00-07:00",
            "Event": "TS-TARGETSTART",
            "TargetName": "Scheduler target",
            "TargetEndTime": "2099-08-26T04:00:00"
        }"#,
    );
    updater.process_baseline_events(vec![event], now());
    let target_end = updater
        .state
        .current_target
        .as_ref()
        .and_then(|target| target.target_end_time)
        .expect("scheduled target end");
    assert_eq!(target_end.offset, -7 * 60 * 60);
    assert_eq!(target_end.moment, moment("2099-08-26T04:00:00-07:00"));

    let past = after(now(), Span::minutes(-1)).unwrap();
    updater.state.current_target.as_mut().unwrap().target_end_time =
        Some(ZonedMoment { moment: past, offset: -7 * 60 * 60 });
    let reconciliation = updater
        .state
        .reconcile_sequence_target(Some(("Sequence target".to_string(), true)), now())
        .expect("expired scheduler target should release sequence reconciliation");
    assert_eq!(reconciliation.1.name, "Sequence target");
    assert_eq!(
        updater.state.current_target.as_ref().map(|target| target.source),
        Some(TargetSource::Sequence)
    );
}

#[test]
fn typed_sequence_outcome_does_not_claim_legacy_success() {
    let mut state = UpdaterState::new();
    let failed = event(
        r#"{
            "Time": "2026-08-26T00:00:00Z",
            "Event": "SEQUENCE-FINISHED",
            "Outcome": "completed_with_failures",
            "Status": "FINISHED",
            "HadFailures": true
        }"#,
    );
    state.apply_event_state(&failed, now());
    assert!(state.sequence_failure.is_some());
    assert!(state.format_startup_status().contains("failed"));

    state.apply_event_state(&bare("2026-08-26T00:01:00Z", event_types::SEQUENCE_STARTING), now());
    state.apply_event_state(&bare("2026-08-26T00:02:00Z", event_types::SEQUENCE_FINISHED), now());
    assert!(!state.format_startup_status().contains("completed"));
}

#[test]
fn legacy_mount_operation_can_be_promoted_to_center() {
    let mut promoted = operation(SequenceOperationKind::MountSlew {
        coordinates: None,
        may_be_center: true,
    });
    assert!(promote_ambiguous_slew_to_center(&mut promoted));
    assert!(matches!(
        promoted.kind,
        SequenceOperationKind::MountCenter { coordinates: None, rotation: None, output: None }
    ));

    let mut direct_slew = operation(SequenceOperationKind::MountSlew {
        coordinates: None,
        may_be_center: false,
    });
    assert!(!promote_ambiguous_slew_to_center(&mut direct_slew));
    assert!(matches!(direct_slew.kind, SequenceOperationKind::MountSlew { .. }));
}

#[test]
fn events_are_told_of_once_and_hidden_ones_never() {
    let mut updater = updater();
    assert!(!updater.event_baseline_complete());
    let parked = || bare("2026-08-26T00:00:00Z", event_types::MOUNT_PARKED);
    assert!(live(&mut updater, parked(), START).is_some());
    assert!(live(&mut updater, parked(), START).is_none());
    let hidden = || tombstone("2026-08-26T00:00:01Z", event_types::MOUNT_UNPARKED);
    assert!(live(&mut updater, hidden(), START).is_none());
    assert!(updater.state.last_mount_event.is_none());
    let page = vec![
        bare("2026-08-26T00:00:02Z", event_types::MOUNT_HOMED),
        tombstone("2026-08-26T00:00:03Z", event_types::MOUNT_UNPARKED),
    ];
    let items = updater.prepare_events(page);
    assert!(matches!(updater.receive_event(&items, 0, now(), START), Notice::Silent));
    assert!(updater.state.last_mount_event.is_none());
}

#[test]
fn targets_and_filters_change_with_messages() {
    let mut updater = updater();
    let message = live(&mut updater, target_event("M31"), START).expect("target message");
    assert!(message.title.contains("M31") || field(&message, "Target").is_some());
    let change = || {
        event(
            r#"{"Time": "2026-08-26T00:00:00Z", "Event": "FILTERWHEEL-CHANGED",
                "Previous": {"Name": "L", "Id": 0}, "New": {"Name": "R", "Id": 1}}"#,
        )
    };
    assert!(should_process_event(&change()));
    let message = live(&mut updater, change(), START).expect("filter message");
    assert!(message.fields.iter().any(|f| f.value.contains("R")));
    assert_eq!(updater.state.last_filter.as_ref().unwrap().name, "R");
    let same = event(
        r#"{"Time": "2026-08-26T00:00:01Z", "Event": "FILTERWHEEL-CHANGED",
            "Previous": {"Name": "R", "Id": 1}, "New": {"Name": "R", "Id": 1}}"#,
    );
    assert!(!should_process_event(&same));
}

fn image(date: &str) -> ImageMetadata {
    ImageMetadata {
        chat_enabled: true,
        date: date.to_string(),
        image_type: "LIGHT".to_string(),
        camera_name: "Cam".to_string(),
        telescope_name: "Scope".to_string(),
        filter: "L".to_string(),
        rms_text: "0.5".to_string(),
        exposure_time: double(300.0),
        temperature: double(-10.0),
        stars: 1200,
        hfr: double(2.25),
        mean: double(1000.5),
        median: double(998.0),
        st_dev: double(12.5),
    }
}

#[test]
fn images_within_the_cooldown_are_counted_and_passed_over() {
    let mut updater = updater().with_image_cooldown(60);
    let images = vec![image("a"), image("b"), image("c"), image("d"), image("e")];
    let at = |seconds: u64| Tick { nanos: seconds * 1_000_000_000 };
    assert_eq!(
        updater.receive_image(&images, 0, 1, at(0)),
        ImageNotice::Post { skipped: 0 }
    );
    assert_eq!(updater.state.last_image_time, None);
    updater.image_posted(at(5));
    assert_eq!(updater.state.last_image_time, Some(at(5)));
    assert_eq!(updater.receive_image(&images, 0, 1, at(6)), ImageNotice::Silent);
    assert_eq!(
        updater.receive_image(&images, 1, 1, at(60)),
        ImageNotice::Skip { remaining: Duration::from_secs(5) }
    );
    assert_eq!(updater.state.skipped_images_count, 1);
    assert_eq!(
        updater.receive_image(&images, 2, 1, at(65)),
        ImageNotice::Post { skipped: 1 }
    );
    assert_eq!(updater.state.skipped_images_count, 1);
    updater.image_posted(at(66));
    assert_eq!(updater.state.skipped_images_count, 0);
    updater.remember_image(&images, 3);
    assert_eq!(updater.receive_image(&images, 3, 1, at(600)), ImageNotice::Silent);
    assert_eq!(updater.receive_image(&images, 4, 0, at(600)), ImageNotice::Unheard);
    assert_eq!(updater.receive_image(&images, 4, 1, at(700)), ImageNotice::Silent);
    let message = updater.state.image_notification("Rig", &images[0], 1, &None, now());
    assert!(message.fields.iter().any(|f| f.value.contains("300")));
}

#[test]
fn going_offline_takes_three_failures_in_a_row() {
    let mut updater = updater();
    assert!(updater.record_reachability(true, 1, now()).is_some());
    assert!(updater.record_reachability(false, 1, now()).is_none());
    assert!(updater.record_reachability(false, 1, now()).is_none());
    assert!(updater.record_reachability(true, 1, now()).is_none());
    assert!(updater.record_reachability(false, 1, now()).is_none());
    assert!(updater.record_reachability(false, 1, now()).is_none());
    let offline = updater.record_reachability(false, 1, now()).expect("offline");
    assert!(offline.title.contains("State Test"));
    assert!(!updater.state.connected);
    assert!(updater.record_reachability(false, 1, now()).is_none());
    assert!(updater.record_reachability(true, 1, now()).is_some());
    assert!(updater.state.connected);
}

#[test]
fn the_status_is_posted_when_it_changes() {
    let mut updater = updater();
    let at = now();
    assert!(updater.status_due(false, at).is_none());
    let mark = updater.status_due(true, at).expect("first status");
    updater.status_posted(mark);
    assert!(updater.status_due(true, at).is_none());
    updater.state.dome_parked = Some(true);
    assert!(updater.status_due(true, at).is_some());
    let mount = Some(MountSnapshot {
        ra: "1".to_string(),
        dec: "2".to_string(),
        altitude: "3".to_string(),
        azimuth: "4".to_string(),
        side_of_pier: "East".to_string(),
        tracking_enabled: true,
    });
    let message = updater.state.build_status_message("Rig", &None, &mount, at);
    assert!(message.fields.iter().any(|f| f.value.contains("East")));
    let welcome =
        updater.state.welcome_notification("Rig", 2, &None, &mount, "Chatstronomy 1", at);
    assert!(welcome.title.contains("Rig"));
}

#[test]
fn running_containers_are_counted() {
    let statuses: Vec<String> = ["RUNNING", "FINISHED", "Running", "CREATED"]
        .iter()
        .map(|s| s.to_string())
        .collect();
    let (all, running) = sequence_container_counts(&statuses);
    assert_eq!(all, 4);
    assert!(running >= 1);
    let mut updater = updater();
    updater.take_sequence_facts(Some(double(1.5)), &statuses);
    assert_eq!(updater.state.sequence_container_counts, Some((all, running)));
    assert_eq!(updater.state.meridian_flip_time, Some(double(1.5)));
}

#[test]
fn reconnecting_waits_longer_each_time() {
    let updater = updater().with_reconnect_backoff(60, 600);
    let mut delay = updater.reconnect_initial();
    assert_eq!(delay, Duration::from_secs(60));
    for expected in [120, 240, 480, 600, 600] {
        delay = updater.next_reconnect_delay(delay);
        assert_eq!(delay, Duration::from_secs(expected));
    }
}

#[test]
fn a_center_event_turns_a_slew_into_a_center() {
    let mut updater = updater();
    let slew = || {
        operation(SequenceOperationKind::MountSlew { coordinates: None, may_be_center: true })
    };
    let started = reconcile(&mut updater, vec![slew()]);
    assert_eq!(started.len(), 1);
    updater.state.board.center_event_seen_at = Some(now());
    assert!(reconcile(&mut updater, vec![slew()]).is_empty());
    assert!(matches!(
        updater.state.board.running[0].operation.kind,
        SequenceOperationKind::MountCenter { .. }
    ));
    assert!(updater.state.board.center_event_seen_at.is_none());
}

#[test]
fn progress_is_told_of_at_each_milestone_once() {
    let mut updater = updater();
    let start = moment("2099-01-01T00:00:00Z");
    let wait = || {
        operation(SequenceOperationKind::TimeWait {
            target_time: None,
            configured_duration: Some(Span::seconds(100)),
        })
    };
    let mut seen = Vec::new();
    for second in [0i64, 10, 26, 30, 55, 80, 99] {
        let at = after(start, Span::seconds(second)).unwrap();
        for note in updater.reconcile_sequence_operations(vec![wait()], &vec![], None, at, true) {
            seen.push(note.update);
        }
    }
    assert_eq!(
        seen,
        vec![
            OperationUpdate::Started,
            OperationUpdate::Progress(25),
            OperationUpdate::Progress(50),
            OperationUpdate::Progress(75),
        ]
    );
}

#[test]
fn failed_operations_are_told_of_as_failures() {
    let mut updater = updater();
    let manual = |status: &str| SequenceOperation {
        status: status.to_string(),
        ..operation(SequenceOperationKind::ManualWait)
    };
    reconcile(&mut updater, vec![manual("RUNNING")]);
    let notes =
        updater.reconcile_sequence_operations(vec![manual("FAILED")], &vec![], None, now(), true);
    assert_eq!(notes.len(), 1);
    assert!(matches!(notes[0].update, OperationUpdate::Failed { .. }));
}

#[test]
fn moments_print_as_the_calendar_does() {
    let zoned = parse_nina_timestamp("2026-08-17T04:00:00.250-07:00").unwrap();
    assert_eq!(format_zoned(zoned), "2026-08-17 04:00 -07:00");
    assert_eq!(format_utc_timestamp(zoned.moment), "2026-08-17 11:00:00 UTC");
    assert_eq!(format_utc_clock(zoned.moment), "11:00 UTC");
    assert_eq!(format_stamp(zoned.moment), "2026-08-17T11:00:00.250+00:00");
    let later = after(zoned.moment, Span::seconds(90)).unwrap();
    assert_eq!(later.seconds, zoned.moment.seconds + 90);
    assert_eq!(since(later, zoned.moment).num_seconds(), 90);
    let last = Moment { seconds: LAST_SECOND, nanos: 999_999_999 };
    assert!(after(last, Span::seconds(1)).is_none());
}

#[test]
fn a_page_received_a_second_time_is_silent() {
    let mut updater = updater();
    let page = || {
        vec![
            target_event("M31"),
            bare("2026-08-26T06:00:01Z", event_types::MOUNT_PARKED),
            tombstone("2026-08-26T06:00:02Z", event_types::GUIDER_START),
            bare("2026-08-26T06:00:03Z", event_types::SEQUENCE_STARTING),
            wait_event("2099-08-26T06:00:04Z", "2099-08-26T08:00:00Z"),
            bare("2026-08-26T06:00:05Z", event_types::DOME_PARKED),
        ]
    };
    let at = now();
    let mut told = 0;
    let items = updater.prepare_events(page());
    for i in 0..items.len() {
        if !matches!(updater.receive_event(&items, i, at, START), Notice::Silent) {
            told += 1;
        }
    }
    assert_eq!(told, 5);
    let known = updater.state.status_fingerprint(at);
    let items = updater.prepare_events(page());
    for i in 0..items.len() {
        assert!(matches!(updater.receive_event(&items, i, now(), START), Notice::Silent));
    }
    assert_eq!(updater.state.status_fingerprint(at), known);
    assert!(updater.pending_autofocus.is_none());
}

#[test]
fn progress_of_a_timed_wait_never_falls() {
    let start = moment("2099-01-01T00:00:00Z");
    let running = TrackedSequenceOperation::new(
        operation(SequenceOperationKind::TimeWait {
            target_time: None,
            configured_duration: Some(Span::seconds(100)),
        }),
        start,
        None,
    );
    let mut last = 0;
    for millis in (-2_000i64..103_000).step_by(250) {
        let at = after(start, Span { nanos: millis as i128 * 1_000_000 }).unwrap();
        let percent = running.progress_percent(at).unwrap();
        assert!(percent >= last && percent <= 100);
        if millis <= 0 {
            assert_eq!(percent, 0);
        }
        if millis >= 100_000 {
            assert_eq!(percent, 100);
        }
        last = percent;
    }
    let at = after(start, Span::seconds(51)).unwrap();
    assert_eq!(running.progress_percent(at), Some(51));
}

#[test]
fn plate_solve_results_are_told_apart_by_their_identity() {
    let output = || PlateSolveOutput {
        position_angle: Some(double(91.45)),
        separation_arcseconds: Some(double(2.4)),
        thumbnail: Some(Arc::new(vec![1, 2, 3])),
        pixel_scale: Some(double(1.25)),
        ..solve_output("2026-08-26T11:30:00Z")
    };
    let result = output();
    let identity = output_identity(&result);
    assert_eq!(identity.solve_time.as_deref(), Some("2026-08-26T11:30:00Z"));
    assert_eq!(identity.success, Some(true));
    assert_eq!(identity.position_angle, Some(91.45f64.to_bits()));
    assert_eq!(identity.separation_arcseconds, Some(2.4f64.to_bits()));
    assert_eq!(identity.picture_len, Some(3));

    let hasher = std::collections::hash_map::RandomState::new();
    let key = |output: PlateSolveOutput| {
        let solve = operation(SequenceOperationKind::PlateSolve {
            coordinates: None,
            rotation: None,
            output: Some(output),
        });
        plate_solve_output_key(&hasher, &solve).unwrap()
    };
    let same = PlateSolveOutput {
        pixel_scale: None,
        thumbnail: Some(Arc::new(vec![4, 5, 6])),
        ..output()
    };
    assert_eq!(key(output()), key(same));
    for other in [
        PlateSolveOutput { solve_time: None, ..output() },
        PlateSolveOutput { success: Some(false), ..output() },
        PlateSolveOutput { position_angle: Some(double(91.5)), ..output() },
        PlateSolveOutput { separation_arcseconds: None, ..output() },
        PlateSolveOutput { thumbnail: Some(Arc::new(vec![1])), ..output() },
    ] {
        assert_ne!(key(output()), key(other));
    }
}

#[test]
fn events_are_told_apart_by_their_identity() {
    let updater = updater();
    let event = target_event("M31");
    let identity = event_identity(&event);
    assert_eq!(identity.time, "2026-08-26T06:00:00Z");
    assert_eq!(identity.name, event_types::TS_TARGETSTART);
    assert!(matches!(identity.details, Some(EventDetails::TargetStart { .. })));
    assert_eq!(tombstone_identity(&event).time, "2026-08-26T06:00:00Z");
    assert_eq!(tombstone_identity(&event).scope, EventDeliveryScope::TargetScheduler);

    let hidden = Event { chat_enabled: false, ..target_event("M31") };
    let later = Event { time: "2026-08-26T06:00:01Z".to_string(), ..target_event("M31") };
    let renamed = Event {
        event: event_types::TS_NEWTARGETSTART.to_string(),
        ..target_event("M31")
    };
    let items = updater.prepare_events(vec![
        target_event("M31"),
        hidden,
        later,
        renamed,
        target_event("M42"),
    ]);
    assert_eq!(items[0].key, items[1].key);
    for other in 2..5 {
        assert_ne!(items[0].key, items[other].key);
    }
    assert_eq!(items[0].tombstone, items[3].tombstone);
    assert_eq!(items[0].tombstone, items[4].tombstone);
    assert_ne!(items[0].tombstone, items[2].tombstone);
}

#[test]
fn a_page_without_its_hidden_events_ends_alike() {
    let hidden = || bare("2026-08-26T06:00:01Z", event_types::MOUNT_PARKED);
    let rest = || {
        vec![
            bare("2026-08-26T06:00:00Z", event_types::DOME_PARKED),
            tombstone("2026-08-26T06:00:02Z", event_types::MOUNT_UNPARKED),
            bare("2026-08-26T06:00:03Z", event_types::GUIDER_START),
        ]
    };
    let at = now();
    let mut with = rest();
    with.insert(1, hidden());
    let mut first = updater();
    let mut second = updater();
    first.process_baseline_events(with, at);
    second.process_baseline_events(rest(), at);
    assert_eq!(first.state.status_fingerprint(at), second.state.status_fingerprint(at));
    assert_eq!(first.state.events_seen.len(), second.state.events_seen.len());
    assert!(first.state.last_mount_event.is_none());
}

#[test]
fn round_waits_count_their_hundredths() {
    let start = moment("2099-01-01T00:00:00Z");
    for unit in [1i64, 7, 1_000, 36_000, 123_457] {
        let running = TrackedSequenceOperation::new(
            operation(SequenceOperationKind::TimeWait {
                target_time: None,
                configured_duration: Some(Span { nanos: 100_000_000 * unit as i128 }),
            }),
            start,
            None,
        );
        for n in 0..=100u8 {
            let at = after(start, Span { nanos: 1_000_000 * unit as i128 * n as i128 }).unwrap();
            assert_eq!(running.progress_percent(at), Some(n));
        }
    }
}
