use chatstronomy::double::Double;
use chatstronomy::event_types;
use chatstronomy::events::{
    event_delivery_scope, Event, EventDeliveryScope, EventDetails, EventHistoryResponse,
};
use chatstronomy::json::{JsonField, JsonValue, Number};

fn double(x: f64) -> Double {
    Double { bits: x.to_bits() }
}

fn plain(value: serde_json::Value) -> JsonValue {
    match value {
        serde_json::Value::Null => JsonValue::Null,
        serde_json::Value::Bool(b) => JsonValue::Bool(b),
        serde_json::Value::Number(n) => {
            let x = n.as_f64().unwrap();
            let whole = n
                .as_i64()
                .map(|v| v as i128)
                .or_else(|| n.as_u64().map(|v| v as i128));
            JsonValue::Number(Number { value: double(x), whole })
        }
        serde_json::Value::String(s) => JsonValue::Text(s),
        serde_json::Value::Array(items) => JsonValue::List(items.into_iter().map(plain).collect()),
        serde_json::Value::Object(map) => JsonValue::Object(
            map.into_iter()
                .map(|(name, value)| JsonField { name, value: plain(value) })
                .collect(),
        ),
    }
}

fn json(text: &str) -> JsonValue {
    plain(serde_json::from_str(text).unwrap())
}

fn event(text: &str) -> Event {
    Event::from_json(json(text)).expect("an event")
}

#[test]
fn command_failures_preserve_the_operation_and_error_details() {
    let event = event(
        r#"{
            "Time": "2026-08-24T04:00:00Z",
            "Event": "CHATSTRONOMY-COMMAND-FAILED",
            "ChatEnabled": true,
            "Command": "Start sequence",
            "Error": "Sequence validation failed"
        }"#,
    );
    assert_eq!(event.event, event_types::CHATSTRONOMY_COMMAND_FAILED);
    match event.details {
        Some(EventDetails::CommandFailed { command, error }) => {
            assert_eq!(command, "Start sequence");
            assert_eq!(error, "Sequence validation failed");
        }
        details => panic!("command failure was not preserved: {details:?}"),
    }
}

#[test]
fn test_event_parsing() {
    let event = event(
        r#"{
            "Time": "2025-08-06T21:50:56.545923-07:00",
            "Event": "AUTOFOCUS-FINISHED"
        }"#,
    );
    assert_eq!(event.time, "2025-08-06T21:50:56.545923-07:00");
    assert_eq!(event.event, event_types::AUTOFOCUS_FINISHED);
    assert!(event.chat_enabled);
    assert!(event.details.is_none());
}

#[test]
fn native_autofocus_completion_details_parse_without_breaking_legacy_events() {
    let event = event(
        r#"{
            "Time": "2026-08-25T04:15:01Z",
            "Event": "AUTOFOCUS-FINISHED",
            "ChatEnabled": true,
            "Filter": "L",
            "Position": 4068.0,
            "Temperature": -8.5,
            "ReportTimestamp": "2026-08-25T04:15:00Z"
        }"#,
    );
    assert!(matches!(
        event.details,
        Some(EventDetails::AutofocusFinished {
            report_timestamp,
            filter: Some(filter),
            position: Some(position),
            temperature: Some(temperature),
        }) if report_timestamp == "2026-08-25T04:15:00Z"
            && filter == "L"
            && position == double(4068.0)
            && temperature == double(-8.5)
    ));
}

#[test]
fn native_safety_state_details_parse() {
    let event = event(
        r#"{
            "Time": "2026-08-25T04:20:00Z",
            "Event": "SAFETY-CHANGED",
            "ChatEnabled": true,
            "IsSafe": false
        }"#,
    );
    assert!(matches!(
        event.details,
        Some(EventDetails::SafetyChanged { is_safe: false })
    ));
}

#[test]
fn direct_delivery_flag_and_nina_log_details_parse() {
    let event = event(
        r#"{
            "Time": "2026-08-16T12:00:00-07:00",
            "Event": "NINA-LOG",
            "ChatEnabled": false,
            "Level": "WARNING",
            "Source": "CameraVM.cs",
            "Member": "Connect",
            "Line": 42,
            "Message": "Camera connection is slow"
        }"#,
    );
    assert!(!event.chat_enabled);
    assert!(matches!(
        event.details,
        Some(EventDetails::NinaLog { level, source, line: 42, .. })
            if level == "WARNING" && source == "CameraVM.cs"
    ));
}

#[test]
fn test_filterwheel_change_event() {
    let event = event(
        r#"{
            "Time": "2025-08-06T19:18:09.4045633-07:00",
            "New": {"Name": "HA", "Id": 0},
            "Previous": {"Name": "OIII", "Id": 1},
            "Event": "FILTERWHEEL-CHANGED"
        }"#,
    );
    assert_eq!(event.event, event_types::FILTERWHEEL_CHANGED);
    if let Some(EventDetails::FilterWheelChange { new, previous }) = event.details {
        assert_eq!(new.name, "HA");
        assert_eq!(new.id, 0);
        assert_eq!(previous.name, "OIII");
        assert_eq!(previous.id, 1);
    } else {
        panic!("Expected FilterWheelChange details");
    }
}

#[test]
fn filters_read_by_position_too() {
    let event = event(
        r#"{"Time": "t", "New": ["HA", 0], "Previous": ["OIII", 1], "Event": "FILTERWHEEL-CHANGED"}"#,
    );
    match event.details {
        Some(EventDetails::FilterWheelChange { new, previous }) => {
            assert_eq!((new.name.as_str(), new.id), ("HA", 0));
            assert_eq!((previous.name.as_str(), previous.id), ("OIII", 1));
        }
        other => panic!("expected FilterWheelChange, got {other:?}"),
    }
}

#[test]
fn test_event_methods() {
    let camera_connected = Event {
        time: "2025-08-06T18:45:40.1430956-07:00".to_string(),
        event: event_types::CAMERA_CONNECTED.to_string(),
        chat_enabled: true,
        details: None,
    };
    assert!(camera_connected.is_connection_event());

    let mount_disconnected = Event {
        time: "2025-08-06T19:20:35.2068582-07:00".to_string(),
        event: event_types::MOUNT_DISCONNECTED.to_string(),
        chat_enabled: true,
        details: None,
    };
    assert!(mount_disconnected.is_connection_event());
}

#[test]
fn test_event_history_methods() {
    let events = EventHistoryResponse::from_json(json(
        r#"{
            "Response": [
                {
                    "Time": "2025-08-06T19:18:39.2067156-07:00",
                    "Event": "IMAGE-SAVE"
                },
                {
                    "Time": "2025-08-06T19:18:09.4045633-07:00",
                    "New": {"Name": "HA", "Id": 0},
                    "Previous": {"Name": "OIII", "Id": 1},
                    "Event": "FILTERWHEEL-CHANGED"
                },
                {
                    "Time": "2025-08-06T21:50:56.545923-07:00",
                    "Event": "AUTOFOCUS-FINISHED"
                },
                {
                    "Time": "2025-08-06T18:45:40.1430956-07:00",
                    "Event": "CAMERA-CONNECTED"
                }
            ],
            "Error": "",
            "StatusCode": 200,
            "Success": true,
            "Type": "API"
        }"#,
    ))
    .unwrap();
    assert_eq!(events.status_code, 200);
    assert!(events.success);

    let image_saves = events.get_image_saves();
    assert_eq!(image_saves.len(), 1);
    assert_eq!(image_saves[0].event, event_types::IMAGE_SAVE);

    let filter_changes = events.get_filterwheel_changes();
    assert_eq!(filter_changes.len(), 1);
    assert_eq!(filter_changes[0].event, event_types::FILTERWHEEL_CHANGED);

    let connection_events = events.get_connection_events();
    assert_eq!(connection_events.len(), 1);
    assert_eq!(connection_events[0].event, event_types::CAMERA_CONNECTED);

    let autofocus_events = events.get_events_by_type(event_types::AUTOFOCUS_FINISHED);
    assert_eq!(autofocus_events.len(), 1);
    assert_eq!(autofocus_events[0].event, event_types::AUTOFOCUS_FINISHED);

    let counts = events.count_events_by_type();
    assert_eq!(counts.get(event_types::IMAGE_SAVE), Some(&1));
    assert_eq!(counts.get(event_types::FILTERWHEEL_CHANGED), Some(&1));
    assert_eq!(counts.get(event_types::AUTOFOCUS_FINISHED), Some(&1));
    assert_eq!(counts.get(event_types::CAMERA_CONNECTED), Some(&1));
}

#[test]
fn a_malformed_event_spoils_its_page() {
    assert!(EventHistoryResponse::from_json(json(
        r#"{"Response": [{"Event": "IMAGE-SAVE"}], "Error": "", "StatusCode": 200, "Success": true, "Type": "API"}"#
    ))
    .is_none());
    assert!(EventHistoryResponse::from_json(json(r#"{"Response": []}"#)).is_none());
    assert!(EventHistoryResponse::from_json(json("[]")).is_none());
}

#[test]
fn test_ts_targetstart_event() {
    let event = event(
        r#"{
            "TargetEndTime": "2025-08-17T04:10:06.5191486",
            "Time": "2025-08-17T05:21:02.1200663",
            "Event": "TS-TARGETSTART",
            "TargetName": "Pickering Triangle",
            "Rotation": 90,
            "ProjectName": "Pickering Triangle",
            "Coordinates": {
                "RA": 20.822777777777777,
                "Dec": 31.415,
                "RAString": "20:49:22",
                "DecString": "31° 24' 54\"",
                "Epoch": "J2000",
                "RADegrees": 312.34166666666664
            }
        }"#,
    );
    assert_eq!(event.event, event_types::TS_TARGETSTART);
    if let Some(EventDetails::TargetStart {
        target_name,
        project_name,
        coordinates,
        rotation,
        target_end_time,
    }) = event.details
    {
        assert_eq!(target_name, "Pickering Triangle");
        assert_eq!(project_name.as_deref(), Some("Pickering Triangle"));
        assert_eq!(rotation, Some(double(90.0)));
        assert_eq!(target_end_time.as_deref(), Some("2025-08-17T04:10:06.5191486"));
        let coordinates = coordinates.expect("coordinates");
        assert_eq!(coordinates.ra, double(20.822777777777777));
        assert_eq!(coordinates.dec, double(31.415));
        assert_eq!(coordinates.ra_string, "20:49:22");
        assert_eq!(coordinates.dec_string, "31° 24' 54\"");
        assert_eq!(coordinates.epoch, "J2000");
        assert_eq!(coordinates.ra_degrees, double(312.34166666666664));
        assert_eq!(
            coordinates.display().as_deref(),
            Some("RA: 20:49:22\nDec: 31° 24' 54\"")
        );
    } else {
        panic!("Expected TargetStart details");
    }
}

#[test]
fn test_filterwheel_change_empty_arrays() {
    let event = event(
        r#"{
            "Time": "2026-05-18T20:12:14.1465888-07:00",
            "Previous": {"Name": [], "Id": []},
            "New": {"Name": [], "Id": []},
            "Event": "FILTERWHEEL-CHANGED"
        }"#,
    );
    match event.details {
        Some(EventDetails::FilterWheelChange { new, previous }) => {
            assert!(new.is_unknown());
            assert!(previous.is_unknown());
            assert_eq!(new.name, "");
            assert_eq!(new.id, -1);
        }
        other => panic!("expected FilterWheelChange, got {other:?}"),
    }
}

#[test]
fn test_ts_targetstart_with_empty_array_coords() {
    let event = event(
        r#"{
            "Time": "2026-05-19T05:40:29.6220877",
            "Coordinates": {
                "RA": [], "Dec": [], "RAString": [], "DecString": [],
                "Epoch": [], "RADegrees": []
            },
            "TargetEndTime": "2026-05-19T04:00:28.7026313",
            "ProjectName": "Sunflower Galaxy",
            "Event": "TS-TARGETSTART",
            "TargetName": "Sunflower Galaxy",
            "Rotation": 0
        }"#,
    );
    match event.details {
        Some(EventDetails::TargetStart { target_name, project_name, coordinates, .. }) => {
            assert_eq!(target_name, "Sunflower Galaxy");
            assert_eq!(project_name.as_deref(), Some("Sunflower Galaxy"));
            let coordinates = coordinates.expect("coordinates");
            assert!(coordinates.is_unknown());
            assert!(coordinates.ra_string.is_empty());
            assert!(coordinates.display().is_none());
        }
        other => panic!("expected TargetStart, got {other:?}"),
    }
}

#[test]
fn test_ts_targetstart_requires_only_target_name() {
    let event = event(
        r#"{
            "Time": "2026-08-16T20:00:00Z",
            "Event": "TS-NEWTARGETSTART",
            "TargetName": "North America Nebula"
        }"#,
    );
    match event.details {
        Some(EventDetails::TargetStart {
            target_name,
            project_name,
            coordinates,
            rotation,
            target_end_time,
        }) => {
            assert_eq!(target_name, "North America Nebula");
            assert_eq!(project_name, None);
            assert!(coordinates.is_none());
            assert!(rotation.is_none());
            assert_eq!(target_end_time, None);
        }
        other => panic!("expected TargetStart, got {other:?}"),
    }
}

#[test]
fn test_ts_targetstart_tolerates_explicit_nulls() {
    let event = event(
        r#"{
            "Time": "2026-08-16T20:00:00Z",
            "Event": "TS-TARGETSTART",
            "TargetName": "M31",
            "ProjectName": null,
            "Coordinates": null,
            "Rotation": null,
            "TargetEndTime": null
        }"#,
    );
    match event.details {
        Some(EventDetails::TargetStart { target_name, coordinates, rotation, .. }) => {
            assert_eq!(target_name, "M31");
            assert!(coordinates.is_none());
            assert!(rotation.is_none());
        }
        other => panic!("expected TargetStart, got {other:?}"),
    }
}

#[test]
fn target_start_does_not_swallow_unrelated_events() {
    for text in [
        r#"{"Time": "t", "Event": "MOUNT-PARKED"}"#,
        r#"{"Time": "t", "Event": "SEQUENCE-STARTING", "ChatEnabled": false}"#,
        r#"{"Time": "t", "Event": "ROTATOR-MOVED", "From": 0.0, "To": 10.0}"#,
    ] {
        let event = event(text);
        assert!(
            !matches!(event.details, Some(EventDetails::TargetStart { .. })),
            "TargetStart greedily matched {text}"
        );
    }
}

#[test]
fn test_rotator_moved_event() {
    let event = event(
        r#"{
            "To": 104.04,
            "Time": "2026-05-18T22:03:30.0844644-07:00",
            "Event": "ROTATOR-MOVED",
            "From": 0
        }"#,
    );
    assert_eq!(event.event, event_types::ROTATOR_MOVED);
    match event.details {
        Some(EventDetails::RotatorMoved { from, to, .. }) => {
            assert_eq!(from, Some(double(0.0)));
            assert_eq!(to, Some(double(104.04)));
        }
        other => panic!("expected RotatorMoved, got {other:?}"),
    }
}

#[test]
fn test_autofocus_point_added_event() {
    let event = event(
        r#"{
            "Position": 3325,
            "Time": "2026-05-18T22:43:41.8412779-07:00",
            "HFR": 4.3494099367270405,
            "Event": "AUTOFOCUS-POINT-ADDED"
        }"#,
    );
    assert_eq!(event.event, event_types::AUTOFOCUS_POINT_ADDED);
    match event.details {
        Some(EventDetails::AutofocusPointAdded { position, hfr }) => {
            assert_eq!(position, 3325);
            assert_eq!(hfr, double(4.3494099367270405));
        }
        other => panic!("expected AutofocusPointAdded, got {other:?}"),
    }
}

#[test]
fn test_ts_waitstart_event() {
    let event = event(
        r#"{
            "WaitEndTime": "2026-05-18T22:02:21.3561448-07:00",
            "Time": "2026-05-19T03:20:43.4843722",
            "Event": "TS-WAITSTART"
        }"#,
    );
    assert_eq!(event.event, event_types::TS_WAITSTART);
    match event.details {
        Some(EventDetails::WaitStart { wait_end_time }) => {
            assert_eq!(wait_end_time, "2026-05-18T22:02:21.3561448-07:00");
        }
        other => panic!("expected WaitStart, got {other:?}"),
    }
}

#[test]
fn from_to_payloads_are_typed_by_event_name() {
    let rotator = event(
        r#"{"Time": "2026-08-26T01:00:00Z", "Event": "ROTATOR-MOVED", "From": 12.0, "To": 15.5}"#,
    );
    match rotator.details {
        Some(EventDetails::RotatorMoved { from, to, .. }) => {
            assert_eq!(from, Some(double(12.0)));
            assert_eq!(to, Some(double(15.5)));
        }
        details => panic!("rotator move was not typed correctly: {details:?}"),
    }

    let dome = event(
        r#"{"Time": "2026-08-26T01:00:01Z", "Event": "DOME-SLEWED", "FromAzimuth": 180.0, "ToAzimuth": 225.0}"#,
    );
    match dome.details {
        Some(EventDetails::DomeSlewed { from, to }) => {
            assert_eq!(from, double(180.0));
            assert_eq!(to, double(225.0));
        }
        details => panic!("dome slew was not typed correctly: {details:?}"),
    }

    let mount = event(
        r#"{
            "Time": "2026-08-26T01:00:02Z",
            "Event": "MOUNT-SLEWED",
            "From": { "RA": 1.0, "Dec": 2.0, "Epoch": "J2000" },
            "To": { "RA": 3.0, "Dec": 4.0, "Epoch": "J2000" }
        }"#,
    );
    match mount.details {
        Some(EventDetails::MountSlewed { from, to, .. }) => {
            assert_eq!(from.ra, Some(double(1.0)));
            assert_eq!(to.dec, Some(double(4.0)));
            assert_eq!(from.display(), "RA 1.00000 h · Dec 2.00000° (J2000)");
        }
        details => panic!("mount slew was not typed correctly: {details:?}"),
    }
}

#[test]
fn dome_slew_accepts_legacy_numeric_field_names() {
    let event = event(
        r#"{"Time": "2026-08-26T01:00:00Z", "Event": "DOME-SLEWED", "From": 10, "To": 20}"#,
    );
    match event.details {
        Some(EventDetails::DomeSlewed { from, to }) => {
            assert_eq!(from, double(10.0));
            assert_eq!(to, double(20.0));
        }
        details => panic!("dome slew was not typed correctly: {details:?}"),
    }
}

#[test]
fn new_failure_and_flat_payloads_are_typed() {
    let sequence = event(
        r#"{
            "Time": "2026-08-26T01:00:00Z",
            "Event": "SEQUENCE-ENTITY-FAILED",
            "Entity": "Wait until safe",
            "EntityType": "SafetyMonitor",
            "Error": "Monitor disconnected"
        }"#,
    );
    assert!(matches!(
        sequence.details,
        Some(EventDetails::SequenceEntityFailed { ref entity, ref error, .. })
            if entity == "Wait until safe" && error == "Monitor disconnected"
    ));

    let image = event(
        r#"{
            "Time": "2026-08-26T01:00:00Z",
            "Event": "IMAGE-SAVE-FAILED",
            "Stage": "Write",
            "DiskFull": true,
            "Error": "No space left"
        }"#,
    );
    assert!(matches!(
        image.details,
        Some(EventDetails::ImageSaveFailed { disk_full: true, .. })
    ));

    let flat = event(
        r#"{"Time": "2026-08-26T01:00:00Z", "Event": "FLAT-BRIGHTNESS-CHANGED", "Previous": 20, "New": 40}"#,
    );
    assert!(matches!(
        flat.details,
        Some(EventDetails::FlatBrightnessChanged { previous: 20, new: 40 })
    ));

    let finished = event(
        r#"{
            "Time": "2026-08-26T01:00:01Z",
            "Event": "SEQUENCE-FINISHED",
            "Outcome": "completed_with_failures",
            "Status": "FINISHED",
            "HadFailures": true
        }"#,
    );
    assert!(matches!(
        finished.details,
        Some(EventDetails::SequenceFinished { ref outcome, had_failures: true, .. })
            if outcome == "completed_with_failures"
    ));
}

#[test]
fn flat_light_unknown_state_remains_typed_and_clears_stale_state() {
    for (text, expected) in [
        (r#"{"On": true, "Time": "2026-08-26T01:00:00Z", "Event": "FLAT-LIGHT-TOGGLED"}"#, Some(true)),
        (r#"{"On": null, "Time": "2026-08-26T01:00:00Z", "Event": "FLAT-LIGHT-TOGGLED"}"#, None),
        (r#"{"Time": "2026-08-26T01:00:00Z", "Event": "FLAT-LIGHT-TOGGLED"}"#, None),
    ] {
        let event = event(text);
        assert!(matches!(
            event.details,
            Some(EventDetails::FlatLightToggled { on }) if on == expected
        ));
    }
}

#[test]
fn details_that_do_not_fit_are_kept_as_they_came() {
    let misfit = event(r#"{"Time": "t", "Event": "SAFETY-CHANGED", "IsSafe": "no"}"#);
    match misfit.details {
        Some(EventDetails::Unknown(fields)) => {
            assert_eq!(fields.len(), 1);
            assert_eq!(fields[0].name, "IsSafe");
            assert!(matches!(&fields[0].value, JsonValue::Text(t) if t == "no"));
        }
        other => panic!("expected the raw fields, got {other:?}"),
    }
    let future = event(r#"{"Time": "t", "Event": "SOMETHING-NEW", "A": 1, "B": [true]}"#);
    assert!(matches!(future.details, Some(EventDetails::Unknown(fields)) if fields.len() == 2));
    let ambiguous = event(
        r#"{"Time": "t", "Event": "DOME-SLEWED", "From": 1, "FromAzimuth": 1, "To": 2}"#,
    );
    assert!(matches!(ambiguous.details, Some(EventDetails::Unknown(_))));
    assert!(Event::from_json(json(r#"{"Time": "t", "Event": "X", "ChatEnabled": null}"#)).is_none());
    assert!(Event::from_json(json(r#"{"Event": "X"}"#)).is_none());
}

#[test]
fn scopes_separate_observatory_connections_and_failures() {
    assert_eq!(
        event_delivery_scope(event_types::DOME_SLEWED),
        EventDeliveryScope::Observatory
    );
    assert_eq!(
        event_delivery_scope(event_types::FLAT_LIGHT_TOGGLED),
        EventDeliveryScope::Observatory
    );
    assert_eq!(
        event_delivery_scope(event_types::DOME_CONNECTED),
        EventDeliveryScope::EquipmentConnections
    );
    assert_eq!(
        event_delivery_scope(event_types::CAMERA_DOWNLOAD_TIMEOUT),
        EventDeliveryScope::Images
    );
    assert_eq!(
        event_delivery_scope(event_types::FOCUSER_USER_FOCUSED),
        EventDeliveryScope::FilterFocuserRotator
    );
    assert_eq!(
        event_delivery_scope(event_types::CHATSTRONOMY_COMMAND_FAILED),
        EventDeliveryScope::CommandFailures
    );
}

#[test]
fn scopes_of_the_other_events() {
    for (name, scope) in [
        (event_types::NINA_LOG, EventDeliveryScope::NinaLogs),
        (event_types::NINA_NOTIFICATION, EventDeliveryScope::NinaNotifications),
        (event_types::TS_WAITSTART, EventDeliveryScope::TargetScheduler),
        (event_types::SEQUENCE_STARTING, EventDeliveryScope::Sequence),
        (event_types::SAFETY_CONNECTED, EventDeliveryScope::Safety),
        (event_types::AUTOFOCUS_FINISHED, EventDeliveryScope::Autofocus),
        (event_types::ERROR_AF, EventDeliveryScope::Autofocus),
        (event_types::GUIDER_DITHER, EventDeliveryScope::Guiding),
        (event_types::MOUNT_SLEWED, EventDeliveryScope::Mount),
        (event_types::ERROR_PLATESOLVE, EventDeliveryScope::Mount),
        (event_types::MOUNT_SLEW_STARTED, EventDeliveryScope::SlewMotion),
        (event_types::ROTATOR_MOVE_STARTED, EventDeliveryScope::RotatorMotion),
        (event_types::WEATHER_CHANGED, EventDeliveryScope::WeatherChanges),
        (event_types::WEATHER_HIGH_WIND, EventDeliveryScope::HighWindAlerts),
        (event_types::WEATHER_CONNECTED, EventDeliveryScope::EquipmentConnections),
        ("SOMETHING-ELSE", EventDeliveryScope::Other),
    ] {
        assert_eq!(event_delivery_scope(name), scope, "{name}");
    }
}

#[test]
fn what_cannot_be_read_of_a_motion_counts_as_missing() {
    let moved = event(
        r#"{"Time": "t", "Event": "ROTATOR-MOVED", "From": 1.0, "To": 2.0,
            "MotionId": "x", "Position": true, "DurationSeconds": [], "EndDetection": 5,
            "MechanicalTo": 9.5}"#,
    );
    match moved.details {
        Some(EventDetails::RotatorMoved {
            from,
            to,
            position,
            mechanical_to,
            motion_id,
            duration_seconds,
            end_detection,
            ..
        }) => {
            assert_eq!((from, to), (Some(double(1.0)), Some(double(2.0))));
            assert_eq!(mechanical_to, Some(double(9.5)));
            assert_eq!((position, motion_id, duration_seconds), (None, None, None));
            assert_eq!(end_detection, None);
        }
        other => panic!("expected RotatorMoved, got {other:?}"),
    }
    let slewed = event(
        r#"{"Time": "t", "Event": "MOUNT-SLEWED", "From": {"RA": 1.0}, "To": {"RA": 2.0},
            "Target": 7, "ObservedInProgress": "yes"}"#,
    );
    assert!(matches!(
        slewed.details,
        Some(EventDetails::MountSlewed { target: None, observed_in_progress: None, .. })
    ));
    let endless = event(r#"{"Time": "t", "Event": "ROTATOR-MOVED", "From": 1.0, "MotionId": 3}"#);
    assert!(matches!(endless.details, Some(EventDetails::Unknown(_))));
}
