use chatstronomy::autofocus::{
    AutofocusData, AutofocusRatioRect, AutofocusRegion, AutofocusResponse, BacklashCompensation,
    Fittings, FocusPoint, HocusFocusAlgorithm, HocusHyperbolicFitModel, IntersectionPoint,
    Intersections, PreviousFocusPoint, RSquares,
};
use chatstronomy::autofocus_delivery::{
    autofocus_message, autofocus_report_matches, AutofocusRetryPolicy, ReadOutcome,
};
use chatstronomy::calendar::now;
use chatstronomy::chat::{ChatMessage, ChatTarget};
use chatstronomy::clock::{Duration, Tick};
use chatstronomy::double::Double;
use chatstronomy::event_types;
use chatstronomy::events::{Event, EventDetails};
use chatstronomy::source::{RigCapabilities, RigSourceError, RigSourceKind, SharedRigSource};
use chatstronomy::updater::{AutofocusStep, ChatUpdater, Notice};

fn double(x: f64) -> Double {
    Double { bits: x.to_bits() }
}

fn number(x: Double) -> f64 {
    f64::from_bits(x.bits)
}

fn point(position: f64, value: f64) -> FocusPoint {
    FocusPoint { position: double(position), value: double(value), error: double(0.0) }
}

fn meeting(position: f64, value: f64) -> Option<IntersectionPoint> {
    Some(IntersectionPoint { position: double(position), value: double(value), error: double(0.0) })
}

fn native() -> AutofocusResponse {
    AutofocusResponse {
        response: AutofocusData {
            version: 2,
            filter: "OIII".to_string(),
            auto_focuser_name: "NINA".to_string(),
            star_detector_name: "NINA".to_string(),
            timestamp: "2025-08-11T23:28:30.5478817-07:00".to_string(),
            temperature: double(21.3),
            method: "STARHFR".to_string(),
            fitting: "TRENDHYPERBOLIC".to_string(),
            initial_focus_point: point(4092.0, f64::NAN),
            calculated_focus_point: point(4068.0, 2.90813054456021),
            previous_focus_point: PreviousFocusPoint {
                position: double(4068.0),
                value: double(2.9),
                error: double(0.0),
            },
            measure_points: vec![
                point(4172.0, 5.5),
                point(3992.0, 3.9320351318958195),
                point(4072.0, 3.009),
            ],
            intersections: Intersections {
                trend_line_intersection: meeting(4067.0, 2.8),
                hyperbolic_minimum: meeting(4068.0, 2.9),
                quadratic_minimum: meeting(4070.0, 3.0),
                gaussian_maximum: meeting(4071.0, 3.1),
            },
            fittings: Fittings {
                quadratic: "q".to_string(),
                hyperbolic: "h".to_string(),
                gaussian: "g".to_string(),
                left_trend: "l".to_string(),
                right_trend: "r".to_string(),
            },
            r_squares: RSquares {
                quadratic: double(0.9810757827720883),
                hyperbolic: double(0.9894178774335628),
                left_trend: double(0.97),
                right_trend: double(0.96),
            },
            backlash_compensation: BacklashCompensation {
                backlash_compensation_model: "OVERSHOOT".to_string(),
                backlash_in: 0,
                backlash_out: 20,
            },
            duration: "00:03:00".to_string(),
            final_hfr: None,
            final_hfr_source: None,
            initial_hfr_measured: None,
            hyperbolic_minimum_std_error: None,
            hyperbolic_reduced_chi_squared: None,
            hyperbolic_leave_one_out_std_error: None,
            accepted_star_count_min: None,
            accepted_star_count_max: None,
            hyperbolic_fit_model_chosen: None,
            region: None,
            hocus_focus_algorithm: None,
        },
        error: String::new(),
        status_code: 200,
        success: true,
        response_type: "API".to_string(),
    }
}

fn hocus() -> AutofocusResponse {
    let mut report = native();
    let data = &mut report.response;
    data.filter = "L".to_string();
    data.auto_focuser_name = "Hocus Focus".to_string();
    data.timestamp = "2026-08-27T22:15:42.2500000-07:00".to_string();
    data.calculated_focus_point = point(4188.955065493704, 2.21);
    data.measure_points = vec![point(4196.75, 2.3), point(4056.25, 4.0), point(4076.5, 3.5)];
    data.final_hfr = Some(double(2.22));
    data.final_hfr_source = Some("measured_validation".to_string());
    data.initial_hfr_measured = Some(true);
    data.initial_focus_point = point(4076.0, 5.024422888144213);
    data.hyperbolic_minimum_std_error = Some(double(0.7));
    data.hyperbolic_reduced_chi_squared = Some(double(0.0017));
    data.hyperbolic_leave_one_out_std_error = Some(double(0.57));
    data.accepted_star_count_min = Some(83);
    data.accepted_star_count_max = Some(119);
    data.hyperbolic_fit_model_chosen =
        Some(HocusHyperbolicFitModel::Name("Tilted Hyperbola".to_string()));
    data.region = Some(AutofocusRegion {
        index: 3,
        outer_boundary: AutofocusRatioRect {
            start_x: double(0.25),
            start_y: double(0.25),
            width: double(0.5),
            height: double(0.5),
        },
        inner_crop_boundary: None,
    });
    data.hocus_focus_algorithm = Some(HocusFocusAlgorithm {
        validate_hfr_improvement: Some(true),
        hfr_improvement_threshold: None,
        weighted_hyperbolic_fit_enabled: None,
        configured_hyperbolic_model: None,
        fit_rejection_criterion: Some("Reduced χ²".to_string()),
        reduced_chi_squared_rejection_threshold: Some(double(5.0)),
        max_outlier_rejections: None,
        outlier_rejection_confidence: None,
        r_squared_threshold: None,
        model_psf: None,
        use_optimized_settings: Some(true),
        has_optimized_settings: Some(true),
        detection_binning: Some(2),
        measurement_average: Some("Mean + outlier detection".to_string()),
        star_detection_mode: Some("Optimized".to_string()),
    });
    report
}

fn field<'a>(message: &'a ChatMessage, name: &str) -> Option<&'a str> {
    message
        .fields
        .iter()
        .find(|field| field.name == name)
        .map(|field| field.value.as_str())
}

#[test]
fn reports_are_analyzed() {
    let report = native();
    assert_eq!(report.get_best_r_squared(), Some(double(0.9894178774335628)));
    assert!(report.is_successful());
    let data = &report.response;
    assert_eq!(data.get_focus_range(), (double(3992.0), double(4172.0)));
    assert_eq!(
        data.get_focus_positions(),
        vec![double(3992.0), double(4072.0), double(4172.0)]
    );
    assert_eq!(data.get_best_measured_hfr(), Some(double(3.009)));
    assert_eq!(data.initial_hfr(), None);
    assert!(!data.is_hocus_focus());
    assert!(!data.is_contrast());
    assert_eq!(data.method_summary(), "Star HFR · Trend + hyperbolic");
    assert_eq!(data.accepted_star_count_summary(), None);
}

#[test]
fn nothing_finite_means_no_best_fit() {
    let mut report = native();
    report.response.r_squares = RSquares {
        quadratic: double(f64::NAN),
        hyperbolic: double(f64::INFINITY),
        left_trend: double(f64::NEG_INFINITY),
        right_trend: double(f64::NAN),
    };
    assert_eq!(report.get_best_r_squared(), None);
    assert!(report.is_successful());
    report.response.calculated_focus_point.error = double(f64::INFINITY);
    assert!(!report.is_successful());
    report.response.measure_points = vec![];
    assert_eq!(report.response.get_best_measured_hfr(), None);
    assert_eq!(report.response.get_focus_range(), (double(0.0), double(0.0)));
}

#[test]
fn fit_quality_follows_the_fitting() {
    for (fitting, qualities, markers) in [
        ("TRENDLINES", 2, 1),
        ("PARABOLIC", 1, 1),
        ("TRENDPARABOLIC", 3, 2),
        ("HYPERBOLIC", 1, 1),
        ("TRENDHYPERBOLIC", 3, 2),
    ] {
        let mut report = native();
        report.response.fitting = fitting.to_string();
        assert_eq!(report.response.selected_r_squared_values().len(), qualities, "{fitting}");
        assert_eq!(report.response.selected_fit_points().len(), markers, "{fitting}");
        assert!(report.response.fit_quality_summary().is_some(), "{fitting}");
        assert!(report.is_successful(), "{fitting}");
    }

    let mut contrast = native();
    contrast.response.method = "CONTRASTDETECTION".to_string();
    contrast.response.fitting = "GAUSSIAN".to_string();
    contrast.response.r_squares = RSquares {
        quadratic: double(f64::NAN),
        hyperbolic: double(f64::NAN),
        left_trend: double(f64::NAN),
        right_trend: double(f64::NAN),
    };
    assert!(contrast.response.selected_r_squared_values().is_empty());
    assert_eq!(contrast.response.method_summary(), "Contrast · Gaussian");
    assert_eq!(contrast.response.measurement_name(), "Contrast");
    assert_eq!(contrast.response.selected_fit_points().len(), 1);
    assert!(contrast.is_successful());
}

#[test]
fn enriched_reports_are_told_of_in_full() {
    let report = hocus();
    let data = &report.response;
    assert!(data.is_hocus_focus());
    assert_eq!(
        data.get_focus_positions(),
        vec![double(4056.25), double(4076.5), double(4196.75)]
    );
    assert_eq!(data.get_focus_range(), (double(4056.25), double(4196.75)));
    assert_eq!(data.final_hfr(), Some(double(2.22)));
    assert_eq!(data.accepted_star_count_summary().as_deref(), Some("83–119"));
    assert_eq!(data.final_measurement_label(), "HFR After (measured)");
    assert_eq!(data.fit_acceptance_summary().as_deref(), Some("Reduced χ² ≤ 5.000"));
    assert_eq!(
        data.detection_summary().as_deref(),
        Some("Optimized · Mean + outlier detection · 2× binning")
    );
    assert_eq!(
        data.method_summary(),
        "Star HFR · Trend + hyperbolic · Tilted Hyperbola"
    );
    assert_eq!(data.region_summary().as_deref(), Some("Region 3 · 50% × 50%"));

    let message = autofocus_message("Hocus Rig", &report, now()).expect("a message");
    assert!(message.title.contains("Autofocus Completed"));
    for (name, expected) in [
        ("Mode", "Star HFR · Trend + hyperbolic · Tilted Hyperbola"),
        ("HFR After (measured)", "2.220"),
        ("Accepted stars / point", "83–119"),
        ("Focus precision", "±0.70 steps"),
        ("LOO stability", "0.57 steps"),
        ("Reduced χ²", "0.0017"),
        ("Detection region", "Region 3 · 50% × 50%"),
        ("Acceptance", "Reduced χ² ≤ 5.000"),
        ("Star detection", "Optimized · Mean + outlier detection · 2× binning"),
    ] {
        assert_eq!(field(&message, name), Some(expected), "{name}");
    }
}

#[test]
fn native_reports_carry_no_enrichment() {
    let message = autofocus_message("Backyard Rig", &native(), now()).expect("a message");
    assert_eq!(field(&message, "Mode"), Some("Star HFR · Trend + hyperbolic"));
    for name in [
        "Accepted stars / point",
        "Focus precision",
        "LOO stability",
        "Reduced χ²",
        "Detection region",
        "Acceptance",
        "Star detection",
    ] {
        assert!(field(&message, name).is_none(), "{name}");
    }
}

#[test]
fn estimated_measurements_are_labelled() {
    let mut report = hocus();
    report.response.initial_hfr_measured = Some(false);
    report.response.final_hfr_source = Some("fitted_estimate".to_string());
    report.response.initial_focus_point.value = double(0.0);
    assert_eq!(report.response.initial_hfr(), None);
    assert_eq!(report.response.final_measurement_label(), "HFR After (estimated)");
    assert!(report.is_successful());
    report.response.filter = "  ".to_string();
    assert_eq!(report.response.filter_name(), "No filter");
}

#[test]
fn fit_models_have_names() {
    for (model, name) in [
        (HocusHyperbolicFitModel::Name("Smooth Blend".to_string()), "Smooth Blend"),
        (HocusHyperbolicFitModel::Code(42), "Model 42"),
        (HocusHyperbolicFitModel::Code(-1), "Model -1"),
    ] {
        assert_eq!(model.display_name(), name);
    }
}

#[test]
fn autofocus_v3_identity_requires_the_exact_report_timestamp() {
    let expected = "2026-08-26T22:15:30.1250000-07:00";
    assert!(autofocus_report_matches(Some(expected), expected));
    assert!(autofocus_report_matches(Some(expected), "2026-08-27T05:15:30.1250000Z"));
    assert!(!autofocus_report_matches(
        Some(expected),
        "2026-08-26T22:15:31.1250000-07:00"
    ));
    assert!(autofocus_report_matches(None, "2026-08-26T22:15:31.1250000-07:00"));
}

const REPORT: &str = "2025-08-11T23:28:30.5478817-07:00";

fn completion(time: &str, report: &str, filter: &str) -> Event {
    Event {
        time: time.to_string(),
        event: event_types::AUTOFOCUS_FINISHED.to_string(),
        chat_enabled: true,
        details: Some(EventDetails::AutofocusFinished {
            report_timestamp: report.to_string(),
            filter: Some(filter.to_string()),
            position: Some(double(4068.0)),
            temperature: Some(double(21.3)),
        }),
    }
}

fn policy(
    max_attempts: usize,
    initial: u64,
    max: u64,
    not_ready: u64,
    overall: u64,
) -> AutofocusRetryPolicy {
    AutofocusRetryPolicy {
        max_attempts,
        initial_delay: Duration::from_millis(initial),
        max_delay: Duration::from_millis(max),
        not_ready_timeout: Duration::from_millis(not_ready),
        overall_timeout: Duration::from_millis(overall),
    }
}

fn ms(n: u64) -> Tick {
    Tick { nanos: 1_000_000_000 + n * 1_000_000 }
}

fn updater(retry: AutofocusRetryPolicy) -> ChatUpdater {
    let mut updater = ChatUpdater::new(
        SharedRigSource { id: 1, capabilities: RigCapabilities::none() },
        "Backyard Rig".to_string(),
        ChatTarget::default(),
    );
    updater.autofocus_retry = retry;
    updater
}

fn complete(updater: &mut ChatUpdater, event: Event, tick: Tick) {
    let items = updater.prepare_events(vec![event]);
    assert!(matches!(updater.receive_event(&items, 0, now(), tick), Notice::Silent));
}

fn unavailable() -> ReadOutcome {
    ReadOutcome::Failed(RigSourceError::Unavailable {
        kind: RigSourceKind::NinaDirect,
        reason: "report is still being published".to_string(),
    })
}

fn not_ready() -> ReadOutcome {
    ReadOutcome::Failed(RigSourceError::NotReady {
        kind: RigSourceKind::NinaDirect,
        reason: "report is still being published".to_string(),
    })
}

fn invalid() -> ReadOutcome {
    ReadOutcome::Failed(RigSourceError::InvalidResponse {
        kind: RigSourceKind::NinaDirect,
        reason: "malformed autofocus payload".to_string(),
    })
}

fn read_due(updater: &mut ChatUpdater, tick: Tick) -> bool {
    matches!(updater.poll_autofocus_delivery(tick, 1, now()), AutofocusStep::Read { .. })
}

fn finish(updater: &mut ChatUpdater, outcome: ReadOutcome, tick: Tick) -> AutofocusStep {
    updater.finish_autofocus_read(&outcome, tick, 1, now())
}

fn wait(updater: &ChatUpdater, tick: Tick) -> u64 {
    let next = updater.pending_autofocus.as_ref().unwrap().next_attempt_at;
    (next.nanos - tick.nanos) / 1_000_000
}

fn told_unavailable(step: AutofocusStep) -> bool {
    match step {
        AutofocusStep::GivenUp { message: Some(m) } => m.title.contains("Report Unavailable"),
        _ => false,
    }
}

#[test]
fn autofocus_completion_retries_off_poller_and_delivers_one_graph() {
    let mut u = updater(policy(3, 10, 20, 100, 1_000));
    let event = || completion("2026-08-25T22:30:00Z", REPORT, "OIII");
    complete(&mut u, event(), ms(0));
    complete(&mut u, event(), ms(0));
    assert!(read_due(&mut u, ms(0)));
    assert!(matches!(finish(&mut u, unavailable(), ms(0)), AutofocusStep::Idle));
    assert!(!read_due(&mut u, ms(9)));
    assert!(read_due(&mut u, ms(10)));
    assert!(matches!(
        finish(&mut u, ReadOutcome::Report(REPORT.to_string()), ms(10)),
        AutofocusStep::Deliver
    ));
    assert!(u.pending_autofocus.is_none());
    assert!(!read_due(&mut u, ms(60_010)));
}

#[test]
fn newer_autofocus_completion_silently_supersedes_an_unfetchable_older_report() {
    let mut u = updater(AutofocusRetryPolicy::standard());
    complete(
        &mut u,
        completion("2025-08-11T22:28:30Z", "2025-08-11T15:28:30-07:00", "L"),
        ms(0),
    );
    complete(&mut u, completion("2025-08-12T06:28:30.5478817Z", REPORT, "OIII"), ms(0));
    assert_eq!(
        u.pending_autofocus.as_ref().unwrap().report_timestamp.as_deref(),
        Some(REPORT)
    );
    assert!(read_due(&mut u, ms(0)));
    assert!(matches!(
        finish(&mut u, ReadOutcome::Report(REPORT.to_string()), ms(0)),
        AutofocusStep::Deliver
    ));
    assert!(matches!(
        u.poll_autofocus_delivery(ms(300_000), 1, now()),
        AutofocusStep::Idle
    ));
}

#[test]
fn autofocus_completion_never_delivers_a_different_reports_graph() {
    let mut u = updater(policy(2, 10, 10, 100, 1_000));
    complete(&mut u, completion("2026-08-25T22:30:00Z", "2026-08-25T22:29:59Z", "  "), ms(0));
    assert!(read_due(&mut u, ms(0)));
    assert!(matches!(
        finish(&mut u, ReadOutcome::Report(REPORT.to_string()), ms(0)),
        AutofocusStep::Idle
    ));
    assert!(read_due(&mut u, ms(10)));
    match finish(&mut u, ReadOutcome::Report(REPORT.to_string()), ms(10)) {
        AutofocusStep::GivenUp { message: Some(message) } => {
            assert!(message.title.contains("Report Unavailable"));
            assert_eq!(field(&message, "Filter"), Some("No filter"));
        }
        other => panic!("expected to give up, got {other:?}"),
    }
    assert!(u.pending_autofocus.is_none());
}

#[test]
fn autofocus_outage_does_not_consume_report_attempt_budget() {
    let mut u = updater(policy(1, 10, 10, 100, 100));
    complete(&mut u, completion("2026-08-25T22:30:00Z", REPORT, "OIII"), ms(0));
    for i in 0..5 {
        assert!(read_due(&mut u, ms(i * 10)));
        assert!(matches!(finish(&mut u, unavailable(), ms(i * 10)), AutofocusStep::Idle));
        assert_eq!(u.pending_autofocus.as_ref().unwrap().attempts, 0);
    }
    assert!(read_due(&mut u, ms(50)));
    assert!(matches!(
        finish(&mut u, ReadOutcome::Report(REPORT.to_string()), ms(50)),
        AutofocusStep::Deliver
    ));
    assert!(u.pending_autofocus.is_none());
}

#[test]
fn permanently_unavailable_autofocus_stops_at_overall_deadline() {
    let mut u = updater(policy(1, 10, 20, 100, 50));
    complete(&mut u, completion("2026-08-25T22:30:00Z", REPORT, "OIII"), ms(0));
    let mut at = 0;
    for expected_wait in [10, 20, 20] {
        assert!(read_due(&mut u, ms(at)));
        assert!(matches!(finish(&mut u, unavailable(), ms(at)), AutofocusStep::Idle));
        assert_eq!(u.pending_autofocus.as_ref().unwrap().attempts, 0);
        assert_eq!(wait(&u, ms(at)), expected_wait);
        at += expected_wait;
    }
    assert!(told_unavailable(u.poll_autofocus_delivery(ms(at), 1, now())));
    assert!(u.pending_autofocus.is_none());
    assert!(!read_due(&mut u, ms(at + 1_000)));
}

#[test]
fn in_flight_autofocus_read_cannot_outlive_overall_deadline() {
    let mut u = updater(policy(1, 10, 20, 100, 25));
    complete(&mut u, completion("2026-08-25T22:30:00Z", REPORT, "OIII"), ms(0));
    match u.poll_autofocus_delivery(ms(0), 1, now()) {
        AutofocusStep::Read { timeout } => assert_eq!(timeout, Duration::from_millis(25)),
        other => panic!("expected a read, got {other:?}"),
    }
    assert!(told_unavailable(finish(&mut u, ReadOutcome::TimedOut, ms(25))));
    assert!(u.pending_autofocus.is_none());
}

#[test]
fn autofocus_not_ready_preserves_attempt_budget_until_report_arrives() {
    let mut u = updater(policy(1, 10, 20, 100, 1_000));
    complete(&mut u, completion("2026-08-25T22:30:00Z", REPORT, "OIII"), ms(0));
    let mut at = 0;
    for _ in 0..3 {
        assert!(read_due(&mut u, ms(at)));
        assert!(matches!(finish(&mut u, not_ready(), ms(at)), AutofocusStep::Idle));
        assert_eq!(u.pending_autofocus.as_ref().unwrap().attempts, 0);
        at += wait(&u, ms(at));
    }
    assert!(read_due(&mut u, ms(at)));
    assert!(matches!(
        finish(&mut u, ReadOutcome::Report(REPORT.to_string()), ms(at)),
        AutofocusStep::Deliver
    ));
}

#[test]
fn autofocus_not_ready_stops_at_elapsed_deadline() {
    let mut u = updater(policy(1, 10, 10, 25, 1_000));
    complete(&mut u, completion("2026-08-25T22:30:00Z", REPORT, "OIII"), ms(0));
    let mut at = 0;
    for _ in 0..3 {
        assert!(read_due(&mut u, ms(at)));
        assert!(matches!(finish(&mut u, not_ready(), ms(at)), AutofocusStep::Idle));
        assert_eq!(u.pending_autofocus.as_ref().unwrap().attempts, 0);
        at += wait(&u, ms(at));
    }
    assert_eq!(at, 25);
    assert!(read_due(&mut u, ms(at)));
    assert!(told_unavailable(finish(&mut u, not_ready(), ms(at))));
    assert!(u.pending_autofocus.is_none());
    assert!(!read_due(&mut u, ms(at + 1_000)));
}

#[test]
fn malformed_autofocus_report_exhausts_attempt_budget() {
    let mut u = updater(policy(2, 10, 10, 100, 1_000));
    complete(&mut u, completion("2026-08-25T22:30:00Z", REPORT, "OIII"), ms(0));
    assert!(read_due(&mut u, ms(0)));
    assert!(matches!(finish(&mut u, invalid(), ms(0)), AutofocusStep::Idle));
    assert!(read_due(&mut u, ms(10)));
    assert!(told_unavailable(finish(&mut u, invalid(), ms(10))));
    assert!(u.pending_autofocus.is_none());
}

#[test]
fn the_baseline_queues_no_report() {
    let mut u = updater(AutofocusRetryPolicy::standard());
    u.process_baseline_events(vec![], now());
    assert!(u.event_baseline_complete());
    assert!(u.pending_autofocus.is_none());
    complete(&mut u, completion("2026-08-25T22:30:00Z", REPORT, "OIII"), ms(0));
    assert!(u.pending_autofocus.is_some());
    u.revoke_state_for_disabled_event(event_types::AUTOFOCUS_FINISHED, None);
    assert!(u.pending_autofocus.is_none());
}

#[test]
fn the_best_measurement_is_the_least() {
    let data = native().response;
    let least = data
        .measure_points
        .iter()
        .map(|p| number(p.value))
        .fold(f64::INFINITY, f64::min);
    assert_eq!(number(data.get_best_measured_hfr().unwrap()), least);
}
