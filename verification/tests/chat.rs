use chatstronomy::api_types::{CommandBody, CommandResponse};
use chatstronomy::backoff::backoff_delay;
use chatstronomy::calendar::{parse_moment, Moment};
use chatstronomy::camera_control::CameraTriggerRules;
use chatstronomy::chat::{
    default_enabled, default_state_file, image_attachments, ChatAttachment, ChatMessage,
    ChatService, ChatServiceManager, ChatTarget, TelescopeChatOverrides,
};
use chatstronomy::clock::Duration;
use chatstronomy::colors;
use chatstronomy::direct::{
    accept_frame, check_line, deadline_at, ensure_supported, query_deadline, DirectFrame,
    QueryKind, RigCommand, MAX_FRAME_BYTES, QUERY_TIMEOUT_SECS,
};
use chatstronomy::error::{ChatError, ChatstronomyError, ServiceError};
use chatstronomy::event_messages::{get_event_color, get_event_title, nina_level_color};
use chatstronomy::event_types;
use chatstronomy::matrix::{format_message, picture_media_type, require_room, MatrixRouting};
use chatstronomy::operation_messages::add_wait_timing_fields;
use chatstronomy::source::{
    retry_resource_not_ready, retry_thumbnail, thumbnail_is_still_preparing, RigCapabilities,
    RigSourceError, RigSourceKind,
};
use chatstronomy::status::{truncate_chat_title, truncate_chat_value};

fn moment(text: &str) -> Moment {
    parse_moment(text).expect("a timestamp")
}

struct Recorder {
    routes: bool,
    edits: bool,
}

impl ChatService for Recorder {
    fn service_name(&self) -> &'static str {
        "recorder"
    }

    fn can_route(&self, _target: &ChatTarget) -> bool {
        self.routes
    }

    fn supports_status_upsert(&self) -> bool {
        self.edits
    }
}

#[test]
fn all_discord_channels_dedupes_and_merges() {
    let target = ChatTarget {
        discord_webhook_url: None,
        matrix_room_id: None,
        discord_channel_id: Some(1),
        discord_channel_ids: vec![2, 1, 3],
    };
    assert_eq!(target.all_discord_channels(), vec![1, 2, 3]);
    let list_only = ChatTarget {
        discord_channel_ids: vec![7],
        ..ChatTarget::default()
    };
    assert_eq!(list_only.all_discord_channels(), vec![7]);
}

#[test]
fn messages_go_to_the_services_that_have_a_destination() {
    let mut manager = ChatServiceManager::new();
    let target = ChatTarget::default();
    assert_eq!(manager.service_count(), 0);
    assert!(!manager.has_status_upsert(&target));
    manager.add_service(Box::new(Recorder { routes: true, edits: false }));
    manager.add_service(Box::new(Recorder { routes: false, edits: true }));
    assert!(!manager.has_status_upsert(&target));
    manager.add_service(Box::new(Recorder { routes: true, edits: true }));
    assert_eq!(manager.service_count(), 3);
    assert!(manager.has_status_upsert(&target));
    assert_eq!(manager.recipients(&target), vec![0, 2]);
    assert_eq!(manager.status_recipients(&target), vec![2]);
}

#[test]
fn overrides_become_targets() {
    let overrides = TelescopeChatOverrides {
        discord_webhook_url: Some("hook".to_string()),
        matrix_room_id: Some("!room:example".to_string()),
        discord_channel_id: Some(5),
    };
    let target = overrides.to_chat_target();
    assert_eq!(target.discord_webhook_url.as_deref(), Some("hook"));
    assert_eq!(target.matrix_room_id.as_deref(), Some("!room:example"));
    assert_eq!(target.all_discord_channels(), vec![5]);
    assert!(default_enabled());
    assert_eq!(default_state_file(), "./chatstronomy-state.json");
}

#[test]
fn messages_bear_the_present_time() {
    let before = chrono::Utc::now();
    let message = ChatMessage::new("Title");
    let after = chrono::Utc::now();
    let stamp = chrono::DateTime::parse_from_rfc3339(message.timestamp.as_deref().unwrap())
        .unwrap()
        .with_timezone(&chrono::Utc);
    assert!(before <= stamp && stamp <= after);
    assert_eq!(message.title, "Title");
    assert!(message.fields.is_empty());
    assert_eq!(message.color, None);
    let message = message.color(7).footer("foot");
    assert_eq!(message.color, Some(7));
    assert_eq!(message.footer.as_deref(), Some("foot"));
}

#[test]
fn matrix_uses_portable_values_and_renders_labeled_occurrence_in_utc() {
    let occurred_at = moment("2026-08-17T04:00:00-07:00");
    let message = ChatMessage::new("Timed wait")
        .occurred_at("Started", occurred_at)
        .field_with_discord_value("Until", "2026-08-17 12:00:00 UTC", "<t:1786968000:F>", false)
        .field("Status", "Waiting", true);

    let formatted = format_message(&message);

    assert!(formatted.contains("**Started**: 2026-08-17 11:00:00 UTC"));
    assert!(formatted.contains("**Until**: 2026-08-17 12:00:00 UTC"));
    assert!(formatted.contains("**Status**: Waiting"));
    assert!(!formatted.contains("<t:"));
    assert_eq!(
        formatted,
        "**Timed wait**\n\n**Started**: 2026-08-17 11:00:00 UTC\n**Until**: 2026-08-17 12:00:00 UTC\n**Status**: Waiting\n\n"
    );
}

#[test]
fn matrix_omits_unlabeled_message_timestamp() {
    let mut message = ChatMessage::new("Ordinary update").field("Status", "Ready", false);
    message.timestamp = Some("2026-08-17T04:00:00-07:00".to_string());

    let formatted = format_message(&message);

    assert!(!formatted.contains("2026-08-17"));
    assert!(!formatted.contains("**Started**:"));
    assert!(formatted.contains("**Status**: Ready"));
}

#[test]
fn matrix_keeps_a_timestamp_that_it_cannot_read() {
    let mut message = ChatMessage::new("T").footer("f");
    message.timestamp = Some("some day".to_string());
    message.matrix_timestamp_label = Some("When".to_string());
    assert_eq!(format_message(&message), "**T**\n\n**When**: some day\n_f_");
}

#[test]
fn matrix_messages_go_to_the_telescopes_own_room_first() {
    let routing = MatrixRouting { default_room_id: Some("!default:x".to_string()) };
    let own = ChatTarget { matrix_room_id: Some("!own:x".to_string()), ..ChatTarget::default() };
    assert_eq!(require_room(&routing, &own).ok().unwrap(), "!own:x");
    assert_eq!(require_room(&routing, &ChatTarget::default()).ok().unwrap(), "!default:x");
    let nowhere = MatrixRouting { default_room_id: None };
    assert!(!nowhere.can_route(&ChatTarget::default()));
    assert!(!nowhere.supports_status_upsert());
    assert_eq!(nowhere.service_name(), "Matrix");
    match require_room(&nowhere, &ChatTarget::default()) {
        Err(ChatError::MessageSend { service_name, reason }) => {
            assert_eq!(service_name, "Matrix");
            assert_eq!(reason, "No Matrix room ID available (no default and no telescope override)");
        }
        _ => panic!("expected an error"),
    }
    assert_eq!(picture_media_type("a.png"), "image/png");
    assert_eq!(picture_media_type("a.jpg"), "image/jpeg");
    assert_eq!(picture_media_type("a"), "image/jpeg");
}

#[test]
fn accepted_commands_are_not_reported_as_completed() {
    let accepted = CommandResponse {
        response: CommandBody::Text("Sequence start requested".to_string()),
        error: "".to_string(),
        status_code: 202,
        success: true,
        response_type: "API".to_string(),
    };
    assert!(accepted.is_pending());
    assert_eq!(accepted.summary(), "Sequence start requested");

    let completed = CommandResponse { status_code: 200, ..accepted.clone() };
    assert!(!completed.is_pending());

    let failed = CommandResponse {
        success: false,
        error: "Mount is not connected".to_string(),
        ..accepted
    };
    assert!(!failed.is_pending());
    assert_eq!(failed.summary(), "failed: Mount is not connected");
}

#[test]
fn answers_are_summarized_by_their_body() {
    let answer = |response| CommandResponse {
        response,
        error: String::new(),
        status_code: 200,
        success: true,
        response_type: "API".to_string(),
    };
    assert_eq!(answer(CommandBody::Null).summary(), "ok");
    assert_eq!(answer(CommandBody::Flag(true)).summary(), "true");
    assert_eq!(answer(CommandBody::Flag(false)).summary(), "false");
    assert_eq!(answer(CommandBody::Text(String::new())).summary(), "\"\"");
    assert_eq!(answer(CommandBody::Other("{\"a\":1}".to_string())).summary(), "{\"a\":1}");
    let silent = CommandResponse { success: false, ..answer(CommandBody::Null) };
    assert_eq!(silent.summary(), "failed");
}

#[test]
fn wait_fields_normalize_offsets_and_include_a_discord_live_countdown() {
    let started = moment("2026-09-02T01:55:00.6436653+00:00");
    let end = moment("2026-09-01T21:25:51.5404816-05:00");

    let message = add_wait_timing_fields(ChatMessage::new("Wait"), end, started);
    let until = message.fields.iter().find(|field| field.name == "Until").expect("Until field");
    let countdown = message
        .fields
        .iter()
        .find(|field| field.name == "Countdown")
        .expect("Countdown field");

    assert_eq!(until.value, "2026-09-02 02:25:51 UTC");
    assert_eq!(
        until.discord_value.as_deref(),
        Some(format!("<t:{}:F>", end.seconds).as_str())
    );
    assert_eq!(countdown.value, "30m 50s remaining");
    assert_eq!(
        countdown.discord_value.as_deref(),
        Some(format!("<t:{}:R>", end.seconds).as_str())
    );
}

#[test]
fn elapsed_wait_is_described_truthfully() {
    let end = moment("2026-09-02T02:25:51Z");
    let now = Moment { seconds: end.seconds + 1, nanos: end.nanos };
    let message = add_wait_timing_fields(ChatMessage::new("Wait"), end, now);
    let countdown = message
        .fields
        .iter()
        .find(|field| field.name == "Countdown")
        .expect("Countdown field");

    assert_eq!(countdown.value, "Scheduled time reached");
    assert_eq!(countdown.discord_value.as_deref(), Some("Scheduled time reached"));
    assert!(!countdown.value.to_ascii_lowercase().contains("success"));
}

#[test]
fn chat_titles_stay_within_the_discord_limit() {
    let header = "E".repeat(4_000);
    let title = format!("🔔 N.I.N.A. · {}", truncate_chat_title(&header));
    assert!(title.chars().count() < 256);
    assert!(get_event_title(&"X".repeat(4_000)).chars().count() < 256);
}

#[test]
fn hardware_command_failures_have_visible_error_presentation() {
    assert_eq!(
        get_event_color(event_types::CHATSTRONOMY_COMMAND_FAILED),
        colors::RED
    );
    assert_eq!(
        get_event_title(event_types::CHATSTRONOMY_COMMAND_FAILED),
        "❌ Telescope command failed"
    );
}

#[test]
fn unknown_events_are_coloured_by_their_names() {
    assert_eq!(get_event_color("SOME-ERROR"), colors::RED);
    assert_eq!(get_event_color("SOME-WARNING"), colors::ORANGE);
    assert_eq!(get_event_color("SOMETHING"), colors::GRAY);
    assert_eq!(nina_level_color("fatal"), colors::RED);
    assert_eq!(nina_level_color("Warn"), colors::ORANGE);
    assert_eq!(nina_level_color("verbose"), colors::GRAY);
    assert_eq!(nina_level_color("odd"), colors::CYAN);
}

#[test]
fn chat_titles_are_bounded_below_discords_limit() {
    let title = truncate_chat_title(&"x".repeat(400));
    assert_eq!(title.chars().count(), 180);
    assert!(title.ends_with('…'));
    assert_eq!(truncate_chat_value(&"é".repeat(1_001)).chars().count(), 1_000);
    assert_eq!(truncate_chat_value("short"), "short");
}

#[test]
fn backoff_doubles_up_to_max() {
    let initial = Duration::from_secs(60);
    let max = Duration::from_secs(600);
    assert_eq!(backoff_delay(initial, initial, max), Duration::from_secs(120));
    assert_eq!(
        backoff_delay(Duration::from_secs(120), initial, max),
        Duration::from_secs(240)
    );
    assert_eq!(
        backoff_delay(Duration::from_secs(240), initial, max),
        Duration::from_secs(480)
    );
    assert_eq!(
        backoff_delay(Duration::from_secs(480), initial, max),
        Duration::from_secs(600)
    );
    assert_eq!(backoff_delay(max, initial, max), Duration::from_secs(600));
}

#[test]
fn backoff_honors_max_above_default() {
    let initial = Duration::from_secs(60);
    let max = Duration::from_secs(3600);
    assert_eq!(
        backoff_delay(Duration::from_secs(600), initial, max),
        Duration::from_secs(1200)
    );
    assert_eq!(
        backoff_delay(Duration::from_secs(2400), initial, max),
        Duration::from_secs(3600)
    );
}

#[test]
fn backoff_never_shrinks_below_initial_when_max_misconfigured() {
    let initial = Duration::from_secs(60);
    let max = Duration::from_secs(10);
    assert_eq!(backoff_delay(initial, initial, max), initial);
    assert_eq!(backoff_delay(Duration::from_secs(120), initial, max), initial);
}

#[test]
fn backoff_reaches_its_ceiling() {
    let initial = Duration { nanos: 1 };
    let max = Duration::from_secs(u32::MAX as u64);
    let mut delay = initial;
    for n in 0..128u32 {
        let doubled = 1u128.checked_shl(n).unwrap();
        assert_eq!(delay.nanos, doubled.min(max.nanos));
        delay = backoff_delay(delay, initial, max);
    }
    assert_eq!(delay, max);
}

#[test]
fn local_hardware_commands_have_deadlines_but_legacy_reads_do_not() {
    let before = chrono::Utc::now().timestamp();
    let command = QueryKind::Command { command: RigCommand::ParkMount };
    let deadline = query_deadline(&command).expect("local commands must expire");
    let after = chrono::Utc::now().timestamp();

    assert!(deadline >= before + QUERY_TIMEOUT_SECS as i64);
    assert!(deadline <= after + QUERY_TIMEOUT_SECS as i64);
    assert_eq!(query_deadline(&QueryKind::MountInfo), None);
    assert_eq!(query_deadline(&QueryKind::EventHistory), None);
    assert_eq!(deadline_at(&command, 100), Some(115));
    assert_eq!(deadline_at(&command, i64::MAX - 1), Some(i64::MAX));
}

#[test]
fn local_target_commands_cannot_bypass_read_only_capabilities() {
    let read_only = RigCapabilities { event_history: true, ..RigCapabilities::none() };
    let slew = QueryKind::Command { command: RigCommand::SlewToTarget };
    match ensure_supported(&slew, read_only) {
        Err(RigSourceError::Unsupported { capability, .. }) => assert_eq!(capability, "commands"),
        other => panic!("expected a refusal, got {other:?}"),
    }
    let old_plugin = RigCapabilities { commands: true, ..RigCapabilities::none() };
    match ensure_supported(&slew, old_plugin) {
        Err(RigSourceError::Unsupported { capability, .. }) => assert_eq!(
            capability,
            "current-target commands (update the Chatstronomy N.I.N.A. plugin)"
        ),
        other => panic!("expected a refusal, got {other:?}"),
    }
    let park = QueryKind::Command { command: RigCommand::ParkMount };
    assert!(ensure_supported(&park, old_plugin).is_ok());
    assert!(ensure_supported(&QueryKind::EventHistory, read_only).is_ok());
    for kind in [
        QueryKind::ImageHistory,
        QueryKind::Sequence,
        QueryKind::Thumbnail { index: 1 },
        QueryKind::LastAutofocus,
        QueryKind::MountInfo,
        QueryKind::GuiderGraph,
    ] {
        assert!(matches!(
            ensure_supported(&kind, read_only),
            Err(RigSourceError::Unsupported { .. })
        ));
    }
}

#[test]
fn only_the_requests_own_answer_is_accepted() {
    let answer = |id| DirectFrame::QueryResult { id, outcome: Ok("{}".to_string()) };
    assert_eq!(accept_frame(5, answer(5)).unwrap(), "{}");
    assert!(matches!(
        accept_frame(5, answer(6)),
        Err(RigSourceError::InvalidResponse { reason, .. })
            if reason == "plugin returned a mismatched query ID"
    ));
    assert!(matches!(
        accept_frame(5, DirectFrame::Other),
        Err(RigSourceError::InvalidResponse { reason, .. })
            if reason == "plugin returned a non-result frame"
    ));
    let refused = DirectFrame::QueryResult {
        id: 5,
        outcome: Err(RigSourceError::Rejected {
            kind: RigSourceKind::NinaDirect,
            reason: "no".to_string(),
        }),
    };
    assert!(matches!(
        accept_frame(5, refused),
        Err(RigSourceError::Rejected { reason, .. }) if reason == "no"
    ));
    assert!(check_line(1).is_ok());
    assert!(check_line(MAX_FRAME_BYTES).is_ok());
    assert!(matches!(
        check_line(0),
        Err(RigSourceError::Unavailable { reason, .. }) if reason == "Direct data pipe closed"
    ));
    assert!(matches!(
        check_line(MAX_FRAME_BYTES + 1),
        Err(RigSourceError::Unavailable { reason, .. })
            if reason == "Direct response exceeds the size limit"
    ));
}

#[test]
fn thumbnails_are_asked_for_again_only_while_they_are_prepared() {
    let kind = RigSourceKind::NinaDirect;
    let not_ready = RigSourceError::NotReady { kind, reason: "wait".to_string() };
    let legacy = RigSourceError::Rejected {
        kind,
        reason: "The Thumbnail is STILL being prepared".to_string(),
    };
    let encoding = RigSourceError::Rejected {
        kind,
        reason: "thumbnail still encoding".to_string(),
    };
    let refused = RigSourceError::Rejected { kind, reason: "thumbnail missing".to_string() };
    let gone = RigSourceError::Unavailable { kind, reason: "thumbnail still prepar".to_string() };
    assert!(thumbnail_is_still_preparing(&not_ready));
    assert!(thumbnail_is_still_preparing(&legacy));
    assert!(thumbnail_is_still_preparing(&encoding));
    assert!(!thumbnail_is_still_preparing(&refused));
    assert!(!thumbnail_is_still_preparing(&gone));
    assert!(retry_thumbnail(5, &not_ready));
    assert!(!retry_thumbnail(6, &not_ready));
    assert!(!retry_thumbnail(1, &refused));
    assert!(retry_resource_not_ready(1, 2, &not_ready));
    assert!(!retry_resource_not_ready(2, 2, &not_ready));
    assert!(!retry_resource_not_ready(1, 0, &not_ready));
    assert!(!retry_resource_not_ready(1, 2, &legacy));
}

#[test]
fn images_go_out_with_what_could_be_had() {
    let graph = ChatAttachment { data: vec![9], filename: "guiding_3.png".to_string() };
    let both = image_attachments(Some(vec![1, 2]), 3, vec![graph.clone()]);
    assert_eq!(both.len(), 2);
    assert_eq!(both[0].filename, "thumbnail_3.jpg");
    assert_eq!(both[0].data, vec![1, 2]);
    assert_eq!(both[1].filename, "guiding_3.png");
    let rest = image_attachments(None, 3, vec![graph]);
    assert_eq!(rest.len(), 1);
    assert_eq!(rest[0].filename, "guiding_3.png");
}

#[test]
fn trigger_rules_have_limits() {
    let rules = CameraTriggerRules {
        interval_minutes: 1440,
        scene_changes: true,
        day_night: false,
        telescope_events: true,
        burst_count: 3,
        spacing_seconds: 600,
    };
    assert!(rules.valid());
    assert!(!CameraTriggerRules { interval_minutes: 1441, ..rules.clone() }.valid());
    assert!(!CameraTriggerRules { burst_count: 0, ..rules.clone() }.valid());
    assert!(!CameraTriggerRules { burst_count: 4, ..rules.clone() }.valid());
    assert!(!CameraTriggerRules { spacing_seconds: 59, ..rules.clone() }.valid());
    assert!(!CameraTriggerRules { spacing_seconds: 601, ..rules }.valid());
}

#[test]
fn errors_convert_into_each_other() {
    assert!(matches!(
        ChatError::from("x".to_string()),
        ChatError::Discord { message } if message == "x"
    ));
    assert!(matches!(
        ServiceError::from("x".to_string()),
        ServiceError::Runtime { reason } if reason == "x"
    ));
    assert!(matches!(
        ChatstronomyError::from("x".to_string()),
        ChatstronomyError::Generic { message } if message == "x"
    ));
    assert!(matches!(
        ChatstronomyError::from(ChatError::from("x".to_string())),
        ChatstronomyError::Chat(ChatError::Discord { .. })
    ));
}
