use chatstronomy::autofocus::{
    AutofocusData, AutofocusResponse, BacklashCompensation, Fittings, FocusPoint, Intersections,
    PreviousFocusPoint, RSquares,
};
use chatstronomy::calendar::{after, now, parse_moment, Moment, Span, MAX_SPAN_NANOS};
use chatstronomy::chat::{ChatMessage, ChatTarget};
use chatstronomy::clock::{Duration, Tick};
use chatstronomy::colors;
use chatstronomy::console::autofocus_lines;
use chatstronomy::double::Double;
use chatstronomy::event_elision::{ElidedEventCount, EventElisionReporter, MAX_KEYS};
use chatstronomy::event_messages::generic_event_message;
use chatstronomy::event_types;
use chatstronomy::events::{Event, EventDetails, FilterInfo, WeatherConditions};
use chatstronomy::lifecycle_messages::connectivity_notification;
use chatstronomy::sequence::{SequenceOperation, SequenceOperationKind, TrackedSequenceOperation};
use chatstronomy::source::{RigCapabilities, SharedRigSource};
use chatstronomy::status::format_duration;
use chatstronomy::telescope_messages::{
    filterwheel_change_message, focuser_user_focused_message, guider_event_message,
    mount_event_message, mount_snapshot_wanted, rotator_synced_message, target_change_message,
    FocuserSnapshot, GuiderSnapshot, GuidingError, ImageMetadata, MountSnapshot, RotatorSnapshot,
};
use chatstronomy::updater::{filter_lookup_wanted, ChatUpdater, Notice};
use chatstronomy::updater_state::{TargetInfo, TargetSource, UpdaterState};

fn double(x: f64) -> Double {
    Double { bits: x.to_bits() }
}

fn moment(text: &str) -> Moment {
    parse_moment(text).expect("a timestamp")
}

fn bare(time: &str, name: &str) -> Event {
    Event {
        time: time.to_string(),
        event: name.to_string(),
        chat_enabled: true,
        details: None,
    }
}

fn shown(message: &ChatMessage) -> Vec<(&str, &str, bool)> {
    message
        .fields
        .iter()
        .map(|f| (f.name.as_str(), f.value.as_str(), f.inline))
        .collect()
}

fn updater() -> ChatUpdater {
    ChatUpdater::new(
        SharedRigSource { id: 1, capabilities: RigCapabilities::none() },
        "Rig".to_string(),
        ChatTarget::default(),
    )
}

fn target(name: &str) -> TargetInfo {
    TargetInfo {
        name: name.to_string(),
        source: TargetSource::Sequence,
        coordinates: None,
        project: None,
        rotation: None,
        target_end_time: None,
    }
}

fn mount() -> Option<MountSnapshot> {
    Some(MountSnapshot {
        ra: "01:00".to_string(),
        dec: "+02:00".to_string(),
        altitude: "45".to_string(),
        azimuth: "180".to_string(),
        side_of_pier: "West".to_string(),
        tracking_enabled: false,
    })
}

#[test]
fn mount_messages_show_the_mount_as_it_is() {
    let parked = bare("T", event_types::MOUNT_PARKED);
    assert!(mount_snapshot_wanted(&parked));
    assert!(!mount_snapshot_wanted(&bare("T", event_types::MOUNT_SLEWED)));
    let message = mount_event_message("Rig", &parked, &Some(target("M31")), &mount(), now());
    assert_eq!(message.title, "[Rig] 🅿️ Mount Parked");
    assert_eq!(message.color, Some(colors::YELLOW));
    assert_eq!(
        shown(&message),
        vec![
            ("Event", "MOUNT-PARKED", true),
            ("Time", "T", true),
            ("Current Target", "M31", true),
            ("Mount Position", "RA: 01:00\nDec: +02:00", true),
            ("Alt/Az", "Alt: 45\nAz: 180", true),
            ("Pier Side", "West", true),
            ("Tracking", "❌ Disabled", true),
        ]
    );
}

#[test]
fn guider_messages_show_errors_in_arcseconds() {
    let guider = Some(GuiderSnapshot {
        state: "Guiding".to_string(),
        pixel_scale: double(1.23456),
        rms_error: Some(GuidingError {
            total: double(0.555),
            ra: double(0.4),
            dec: double(0.3849),
        }),
    });
    let message =
        guider_event_message("Rig", &bare("T", event_types::GUIDER_DITHER), &None, &guider, now());
    assert_eq!(message.title, "[Rig] 🎯 Guider Dither");
    assert_eq!(
        shown(&message),
        vec![
            ("Event", "GUIDER-DITHER", true),
            ("Time", "T", true),
            ("State", "Guiding", true),
            ("Pixel Scale", "1.235 arcsec/px", true),
            (
                "RMS Error",
                format!("Total: {:.2}\"\nRA: 0.40\"  Dec: 0.38\"", 0.555).as_str(),
                false
            ),
        ]
    );
    let unscaled = Some(GuiderSnapshot {
        state: "Idle".to_string(),
        pixel_scale: double(0.0),
        rms_error: None,
    });
    let message =
        guider_event_message("Rig", &bare("T", event_types::GUIDER_START), &None, &unscaled, now());
    assert_eq!(message.fields.len(), 3);
}

#[test]
fn rotator_and_focuser_messages_show_their_positions() {
    let rotator = Some(RotatorSnapshot {
        position: double(12.345),
        mechanical_position: double(100.0),
        synced: true,
    });
    let message =
        rotator_synced_message("Rig", &bare("T", event_types::ROTATOR_SYNCED), &rotator, now());
    assert_eq!(message.title, "[Rig] 🧭 Rotator Synced");
    assert_eq!(
        shown(&message)[2..].to_vec(),
        vec![
            ("Position", format!("{:.2}°", 12.345).as_str(), true),
            ("Mechanical", "100.00°", true),
            ("Sync", "✅", true),
        ]
    );
    let focuser = Some(FocuserSnapshot {
        position: -5,
        temperature: double(3.25),
        temp_comp_available: true,
        temp_comp: false,
    });
    let event = bare("T", event_types::FOCUSER_USER_FOCUSED);
    let message = focuser_user_focused_message("Rig", &event, &focuser, now());
    assert_eq!(message.title, "[Rig] 🔧 Focuser User-Focused");
    assert_eq!(
        shown(&message)[2..].to_vec(),
        vec![("Position", "-5", true), ("Temperature", "3.2°C", true), ("Temp comp", "off", true)]
    );
    let cold = Some(FocuserSnapshot {
        position: 1,
        temperature: double(f64::NAN),
        temp_comp_available: false,
        temp_comp: true,
    });
    assert_eq!(focuser_user_focused_message("Rig", &event, &cold, now()).fields.len(), 3);
}

#[test]
fn sequence_messages_tell_how_it_ended() {
    let finished = |outcome: &str, had_failures: bool| Event {
        details: Some(EventDetails::SequenceFinished {
            outcome: outcome.to_string(),
            status: "FINISHED".to_string(),
            had_failures,
        }),
        ..bare("T", event_types::SEQUENCE_FINISHED)
    };
    let mut state = UpdaterState::new();
    state.sequence_container_counts = Some((4, 1));
    let message = state.sequence_event_message("Rig", &finished("completed", false), now());
    assert_eq!(message.title, "[Rig] 🏁 Sequence Completed");
    assert_eq!(
        shown(&message),
        vec![
            ("Event", "SEQUENCE-FINISHED", true),
            ("Time", "T", true),
            ("Containers", "4 total / 1 running", true),
            ("Outcome", "completed", true),
            ("N.I.N.A. status", "FINISHED", true),
            ("Reported failures", "No", true),
        ]
    );
    for (outcome, failures, title) in [
        ("stopped", true, "[Rig] ⏹️ Sequence Stopped"),
        ("cancelled_or_not_started", false, "[Rig] ⏹️ Sequence Cancelled or Not Started"),
        ("other", false, "[Rig] 🏁 Sequence Ended"),
        ("completed", true, "[Rig] 🏁 Sequence Ended"),
    ] {
        let message = state.sequence_event_message("Rig", &finished(outcome, failures), now());
        assert_eq!(message.title, title);
    }
    let failed = Event {
        details: Some(EventDetails::SequenceEntityFailed {
            entity: "Slew".to_string(),
            entity_type: "Mount".to_string(),
            error: "Stuck".to_string(),
        }),
        ..bare("T", event_types::SEQUENCE_ENTITY_FAILED)
    };
    state.apply_event_state(&failed, now());
    let message = state.sequence_event_message("Rig", &finished("other_end", true), now());
    assert_eq!(message.title, "[Rig] ❌ Sequence Ended After a Failure");
    let fields = shown(&message);
    assert!(fields.contains(&("Failed Item", "Slew", true)));
    assert!(fields.contains(&("Error", "Stuck", false)));
    assert!(fields.contains(&("Outcome", "other end", true)));
}

#[test]
fn target_messages_tell_starts_from_changes() {
    let started =
        target_change_message("Rig", &None, &target("M42"), &Some("1h".to_string()), &None, now());
    assert_eq!(started.title, "[Rig] 🎯 Target Started");
    assert_eq!(started.color, Some(colors::GREEN));
    assert_eq!(
        shown(&started),
        vec![("Target", "M42", false), ("Meridian Flip In", "1h", true)]
    );
    let rotated = TargetInfo {
        rotation: Some(double(90.5)),
        project: Some("P".to_string()),
        ..target("M43")
    };
    let changed =
        target_change_message("Rig", &Some(target("M42")), &rotated, &None, &None, now());
    let fields = shown(&changed);
    assert!(fields.iter().any(|f| f.1.contains("M42")));
    assert!(fields.iter().any(|f| f.1.contains("M43")));
    assert!(fields.contains(&("Rotation", "90.5°", true)));
}

#[test]
fn unknown_filters_are_looked_up() {
    let change = |new: FilterInfo, previous: FilterInfo| Event {
        details: Some(EventDetails::FilterWheelChange { new, previous }),
        ..bare("T", event_types::FILTERWHEEL_CHANGED)
    };
    let unknown = || FilterInfo { name: String::new(), id: -1 };
    let filter = |name: &str, id: i32| FilterInfo { name: name.to_string(), id };
    let event = change(unknown(), unknown());
    assert!(filter_lookup_wanted(&event));
    assert!(!filter_lookup_wanted(&change(filter("L", 0), unknown())));
    let mut state = UpdaterState::new();
    state.last_filter = Some(filter("R", 1));
    let (old, new) = state
        .settle_filter_change(&event, Some(filter("G", 2)))
        .expect("a change");
    assert_eq!((old.name.as_str(), new.name.as_str()), ("R", "G"));
    assert_eq!(state.last_filter.as_ref().unwrap().name, "G");
    let message = filterwheel_change_message("Rig", &event, &old, &new, now());
    assert!(shown(&message).iter().any(|f| f.1.contains("G")));
}

#[test]
fn waits_of_the_scheduler_are_recorded_and_cleared() {
    let wait = |time: &str, end: &str| Event {
        details: Some(EventDetails::WaitStart { wait_end_time: end.to_string() }),
        ..bare(time, event_types::TS_WAITSTART)
    };
    let mut state = UpdaterState::new();
    assert!(state.record_scheduler_wait(&wait("2099-01-01T00:00:00Z", "2099-01-01T01:00:00Z")));
    assert_eq!(state.scheduler_wait_end(), Some(moment("2099-01-01T01:00:00Z")));
    assert!(!state.record_scheduler_wait(&wait("2098-01-01T00:00:00Z", "2099-01-01T02:00:00Z")));
    assert_eq!(state.scheduler_wait_end(), Some(moment("2099-01-01T01:00:00Z")));
    state.clear_scheduler_waits_at("2098-01-01T00:00:00Z");
    assert!(state.scheduler_wait_end().is_some());
    state.clear_scheduler_waits_at("2099-01-01T00:30:00Z");
    assert!(state.scheduler_wait_end().is_none());
    assert!(state.record_scheduler_wait(&wait("2099-01-01T00:40:00Z", "2099-01-01T01:00:00Z")));
    state.clear_scheduler_waits_for_privacy("2098-01-01T00:00:00Z");
    assert!(state.scheduler_wait_end().is_none());
    assert!(!state.record_scheduler_wait(&wait("2099-01-01T00:35:00Z", "2099-01-01T01:00:00Z")));
}

#[test]
fn a_tombstone_revokes_once() {
    let mut updater = updater();
    let tick = Tick { nanos: 0 };
    let hidden = || Event {
        chat_enabled: false,
        ..bare("2026-01-01T00:00:00Z", event_types::MOUNT_PARKED)
    };
    let items = updater.prepare_events(vec![hidden()]);
    updater.receive_event(&items, 0, now(), tick);
    let items =
        updater.prepare_events(vec![bare("2026-01-01T00:00:01Z", event_types::MOUNT_HOMED)]);
    assert!(matches!(updater.receive_event(&items, 0, now(), tick), Notice::Mount));
    let items = updater.prepare_events(vec![hidden()]);
    assert!(matches!(updater.receive_event(&items, 0, now(), tick), Notice::Silent));
    assert_eq!(
        updater.state.last_mount_event.as_deref(),
        Some(event_types::MOUNT_HOMED)
    );
}

#[test]
fn wind_updates_keep_the_other_readings() {
    let mut conditions = WeatherConditions {
        temperature_celsius: Some(double(5.0)),
        wind_speed_meters_per_second: Some(double(1.0)),
        ..WeatherConditions::default()
    };
    conditions.merge_available(&WeatherConditions {
        wind_speed_meters_per_second: Some(double(7.5)),
        ..WeatherConditions::default()
    });
    assert_eq!(conditions.temperature_celsius, Some(double(5.0)));
    assert_eq!(conditions.wind_speed_meters_per_second, Some(double(7.5)));
    assert_eq!(conditions.status_summary().as_deref(), Some("wind 7.5 m/s, 5.0 °C"));
    let fields = conditions.chat_fields();
    assert_eq!(fields.len(), 2);
    assert_eq!(fields[0].0, "Wind");
    assert!(WeatherConditions::default().is_empty());
    assert!(!conditions.is_empty());
    assert!(conditions.has_wind_reading());
    assert_eq!(WeatherConditions::default().status_summary(), None);
}

#[test]
fn long_reports_of_elided_events_stay_bounded() {
    let mut reporter = EventElisionReporter::new();
    let report: Vec<ElidedEventCount> = (0..500)
        .map(|i| ElidedEventCount {
            event: format!("ERROR-{i}"),
            level: None,
            count: 1,
            epoch: "e".to_string(),
        })
        .collect();
    reporter.observe_source(Some(&report), false);
    assert_eq!(reporter.pending_len(), MAX_KEYS);
}

#[test]
fn connectivity_messages_bear_the_time() {
    let at = moment("2026-08-17T04:00:00Z");
    let offline = connectivity_notification("Rig", false, 3, at);
    assert_eq!(offline.title, "[Rig] 🔌 Telescope offline");
    assert_eq!(
        shown(&offline),
        vec![(
            "Status",
            "No response after 3 consecutive poll cycles; retrying with backoff.",
            false
        )]
    );
    assert_eq!(offline.footer.as_deref(), Some("2026-08-17 04:00:00 UTC"));
    let online = connectivity_notification("Rig", true, 0, at);
    assert_eq!(online.title, "[Rig] ✅ Telescope back online");
    assert_eq!(online.color, Some(colors::GREEN));
}

#[test]
fn durations_are_written_in_hours_minutes_and_seconds() {
    assert_eq!(format_duration(Span::seconds(59)), "59s");
    assert_eq!(format_duration(Span::seconds(61)), "1m 1s");
    assert_eq!(format_duration(Span::seconds(3_725)), "1h 2m 5s");
    assert_eq!(format_duration(Span::seconds(-5)), "0s");
}

#[test]
fn times_outside_the_calendar_are_noticed() {
    let mut updater = updater();
    let at = now();
    let wait = |span: Span| SequenceOperation {
        key: "k".to_string(),
        name: "n".to_string(),
        status: "RUNNING".to_string(),
        chat_enabled: true,
        kind: SequenceOperationKind::TimeWait {
            target_time: None,
            configured_duration: Some(span),
        },
    };
    assert!(updater.operations_fit(&vec![wait(Span::seconds(10))], &vec![], at));
    assert!(!updater.operations_fit(&vec![wait(Span { nanos: MAX_SPAN_NANOS })], &vec![], at));
    assert!(!updater.operations_fit(&vec![wait(Span { nanos: MAX_SPAN_NANOS + 1 })], &vec![], at));
    let far = || wait(Span { nanos: MAX_SPAN_NANOS });
    let done = SequenceOperation { status: "FINISHED".to_string(), ..far() };
    assert!(updater.operations_fit(&vec![done], &vec![], at));
    assert!(updater.operations_fit(&vec![far()], &vec!["k".to_string()], at));
    let running = TrackedSequenceOperation::new(wait(Span::seconds(10)), at, None);
    updater.state.board.running.push(running);
    assert!(updater.operations_fit(&vec![wait(Span::seconds(10))], &vec![], at));
    assert!(after(at, Span { nanos: MAX_SPAN_NANOS }).is_none());
    let done = SequenceOperation { status: "FINISHED".to_string(), ..far() };
    let notes = updater.reconcile_sequence_operations(vec![done], &vec![], None, at, true);
    assert_eq!(notes.len(), 1);
    assert!(updater.state.board.running.is_empty());
}

#[test]
fn cycles_follow_at_the_interval_or_back_off() {
    let updater = updater().with_reconnect_backoff(10, 30).with_lifecycle_announcements(false);
    let interval = Duration::from_secs(2);
    let delay = Duration::from_secs(20);
    assert_eq!(
        updater.after_cycle(true, interval, delay),
        (interval, Duration::from_secs(10))
    );
    assert_eq!(
        updater.after_cycle(false, interval, delay),
        (delay, Duration::from_secs(30))
    );
    assert!(!updater.wants_welcome(1));
}

#[test]
fn the_console_shows_reports_and_images() {
    let point = |position: f64| FocusPoint {
        position: double(position),
        value: double(2.0),
        error: double(0.0),
    };
    let mut report = AutofocusResponse {
        response: AutofocusData {
            version: 2,
            filter: " ".to_string(),
            auto_focuser_name: "NINA".to_string(),
            star_detector_name: "NINA".to_string(),
            timestamp: "t".to_string(),
            temperature: double(21.34),
            method: "STARHFR".to_string(),
            fitting: "HYPERBOLIC".to_string(),
            initial_focus_point: point(4092.0),
            calculated_focus_point: point(4068.0),
            previous_focus_point: PreviousFocusPoint {
                position: double(0.0),
                value: double(0.0),
                error: double(0.0),
            },
            measure_points: vec![],
            intersections: Intersections {
                trend_line_intersection: None,
                hyperbolic_minimum: None,
                quadratic_minimum: None,
                gaussian_maximum: None,
            },
            fittings: Fittings {
                quadratic: String::new(),
                hyperbolic: String::new(),
                gaussian: String::new(),
                left_trend: String::new(),
                right_trend: String::new(),
            },
            r_squares: RSquares {
                quadratic: double(f64::NAN),
                hyperbolic: double(f64::NAN),
                left_trend: double(f64::NAN),
                right_trend: double(f64::NAN),
            },
            backlash_compensation: BacklashCompensation {
                backlash_compensation_model: String::new(),
                backlash_in: 0,
                backlash_out: 0,
            },
            duration: "00:01:00".to_string(),
            final_hfr: None,
            final_hfr_source: None,
            initial_hfr_measured: None,
            hyperbolic_minimum_std_error: Some(double(0.7)),
            hyperbolic_reduced_chi_squared: None,
            hyperbolic_leave_one_out_std_error: None,
            accepted_star_count_min: None,
            accepted_star_count_max: None,
            hyperbolic_fit_model_chosen: None,
            region: None,
            hocus_focus_algorithm: None,
        },
        error: "broken".to_string(),
        status_code: 200,
        success: true,
        response_type: "API".to_string(),
    };
    assert_eq!(
        autofocus_lines(&report),
        vec![
            "✅ Autofocus Summary",
            "  Filter: No filter",
            "  Mode: Star HFR · Hyperbolic",
            "  Temperature: 21.3°C",
            "  Duration: 00:01:00",
            "  Position Change: -24",
            "  Fit R-squared: n/a",
            "  Focus precision: ±0.70 steps",
        ]
    );
    report.success = false;
    assert_eq!(autofocus_lines(&report), vec!["❌ Autofocus failed: broken"]);

    let mut state = UpdaterState::new();
    state.current_target = Some(target("M1"));
    state.meridian_flip_time = Some(double(1.0));
    let image = ImageMetadata {
        chat_enabled: true,
        date: "d".to_string(),
        image_type: "LIGHT".to_string(),
        camera_name: "Cam".to_string(),
        telescope_name: "Scope".to_string(),
        filter: "L".to_string(),
        rms_text: "0.5".to_string(),
        exposure_time: double(0.5),
        temperature: double(-10.0),
        stars: 1200,
        hfr: double(2.25),
        mean: double(1.0),
        median: double(1.0),
        st_dev: double(1.0),
    };
    assert_eq!(
        state.image_lines(&image, &Some("1h".to_string())),
        vec![
            "[NEW IMAGE] d",
            "  Target: M1",
            "  Meridian flip in: 1h",
            "  Camera: Cam",
            "  Type: LIGHT",
            "  Filter: L",
            "  Exposure: 0.5s",
            "  Temperature: -10.0°C",
            "  Stars: 1200, HFR: 2.25",
            "  RMS: 0.5",
            "",
        ]
    );
}

#[test]
fn a_failed_command_is_told_of() {
    let mut updater = updater();
    let failed = || Event {
        details: Some(EventDetails::CommandFailed {
            command: "Start sequence".to_string(),
            error: "Sequence validation failed".to_string(),
        }),
        ..bare("2026-08-24T04:00:00Z", event_types::CHATSTRONOMY_COMMAND_FAILED)
    };
    let items = updater.prepare_events(vec![failed()]);
    assert!(matches!(
        updater.receive_event(&items, 0, now(), Tick { nanos: 0 }),
        Notice::Generic
    ));
    let message = generic_event_message("Rig", &items[0].event, items[0].times, now()).unwrap();
    assert_eq!(message.title, "[Rig] ❌ Command failed · Start sequence");
    assert_eq!(
        shown(&message),
        vec![
            ("Time", "2026-08-24T04:00:00Z", false),
            ("Command", "Start sequence", true),
            ("Error", "Sequence validation failed", false),
        ]
    );
}

#[test]
fn switched_off_details_leave_no_trace() {
    let page = |name: &str| {
        vec![
            Event {
                chat_enabled: false,
                details: Some(EventDetails::TargetStart {
                    target_name: name.to_string(),
                    project_name: None,
                    rotation: None,
                    target_end_time: None,
                    coordinates: None,
                }),
                ..bare("2026-08-26T06:00:00Z", event_types::TS_TARGETSTART)
            },
            bare("2026-08-26T06:00:01Z", event_types::MOUNT_PARKED),
        ]
    };
    let mut first = updater();
    let mut second = updater();
    let at = now();
    first.process_baseline_events(page("Secret"), at);
    second.process_baseline_events(page("Other"), at);
    assert_eq!(first.state.status_fingerprint(at), second.state.status_fingerprint(at));
    assert!(first.state.current_target.is_none());
    assert_eq!(
        first.state.last_mount_event.as_deref(),
        Some(event_types::MOUNT_PARKED)
    );
}

#[test]
fn a_changed_reading_changes_the_fingerprint() {
    let at = now();
    let mark = |azimuth: Option<f64>| {
        let mut state = UpdaterState::new();
        state.dome_azimuth = azimuth.map(double);
        state.status_fingerprint(at)
    };
    assert_eq!(mark(Some(12.5)), mark(Some(12.5)));
    assert_ne!(mark(Some(12.5)), mark(Some(12.500000000000002)));
    assert_ne!(mark(Some(12.5)), mark(None));
    assert_ne!(mark(Some(0.0)), mark(Some(-0.0)));
    assert_eq!(mark(Some(f64::NAN)), mark(Some(-f64::NAN)));
    assert!(mark(Some(12.5)).contains("|daz=Some(12.5)|"));
    assert!(mark(Some(360.0)).contains("|daz=Some(360.0)|"));
    assert!(mark(None).contains("|daz=None|"));
    let mut state = UpdaterState::new();
    state.weather_conditions = Some(WeatherConditions {
        temperature_celsius: Some(double(9.4)),
        ..WeatherConditions::default()
    });
    assert!(state.status_fingerprint(at).contains(
        "|wx=Some(WeatherConditions { wind_speed_meters_per_second: None, \
         wind_gust_meters_per_second: None, wind_direction_degrees: None, \
         temperature_celsius: Some(9.4), "
    ));
}
