//! What the messages about autofocus runs and about operations of the sequence promise: each figure
//! stands under its own name.

use vstd::prelude::*;
use crate::autofocus::{AutofocusData, AutofocusResponse};
use crate::autofocus_delivery::{
    report_extras, report_fields, report_message, unavailable_message, PendingAutofocusDelivery,
};
use crate::calendar::{span_between, utc_text, Moment, Span};
use crate::chat::{message_at, MessageView};
use crate::colors;
use crate::detail_laws::measure;
use crate::double::{nearest, rounding_keeps_doubles, signed, units, Double};
use crate::double_order::rounding_keeps_order;
use crate::events::EventCoordinates;
use crate::message_laws::{group_fields, shown, shown_on_discord};
use crate::operation_messages::{
    heading_text, operation_message, picture_of, stage_of, titled_text, update_color, with_output,
    with_particulars, Stage,
};
use crate::operations::OperationUpdate;
use crate::sequence::{
    class_of, output_of, PlateSolveOutput, SequenceOperationKind,
    TrackedSequenceOperation,
};
use crate::status::duration_text;
use crate::text::{dec, dec_int, joined, same_ignoring_case, trimmed, truncated};

verus! {

/// A number in words, or that there is none.
pub open spec fn figure(value: Option<Double>, places: nat) -> Seq<char> {
    match value {
        Some(v) => v.fixed_text(places),
        None => "n/a"@,
    }
}

/// The name of a filter in words.
pub open spec fn filter_words(name: Seq<char>) -> Seq<char> {
    if trimmed(name).len() == 0 {
        "No filter"@
    } else {
        trimmed(name)
    }
}

/// The names under which the measurements before and after a run stand.
#[verifier::spinoff_prover]
proof fn lemma_labels(a: AutofocusData)
    ensures
        a.measurement_text() + " Before"@ == (if same_ignoring_case(
            a.method@,
            "CONTRASTDETECTION"@,
        ) {
            "Contrast Before"@
        } else {
            "HFR Before"@
        }),
        a.final_label_text() == after_label(a),
{
    reveal_strlit("HFR");
    reveal_strlit("Contrast");
    reveal_strlit(" Before");
    reveal_strlit(" After");
    reveal_strlit(" After (measured)");
    reveal_strlit(" After (estimated)");
    reveal_strlit("HFR Before");
    reveal_strlit("Contrast Before");
    reveal_strlit("HFR After");
    reveal_strlit("Contrast After");
    reveal_strlit("HFR After (measured)");
    reveal_strlit("Contrast After (measured)");
    reveal_strlit("HFR After (estimated)");
    reveal_strlit("Contrast After (estimated)");
    assert("HFR"@ + " Before"@ =~= "HFR Before"@);
    assert("HFR"@ + " After"@ =~= "HFR After"@);
    assert("HFR"@ + " After (measured)"@ =~= "HFR After (measured)"@);
    assert("HFR"@ + " After (estimated)"@ =~= "HFR After (estimated)"@);
    assert("Contrast"@ + " Before"@ =~= "Contrast Before"@);
    assert("Contrast"@ + " After"@ =~= "Contrast After"@);
    assert("Contrast"@ + " After (measured)"@ =~= "Contrast After (measured)"@);
    assert("Contrast"@ + " After (estimated)"@ =~= "Contrast After (estimated)"@);
}

/// The name under which the measurement after a run stands: it says where the measurement is from,
/// where that is known.
pub open spec fn after_label(a: AutofocusData) -> Seq<char> {
    let contrast = same_ignoring_case(a.method@, "CONTRASTDETECTION"@);
    let measured = a.final_hfr_source matches Some(s) && s@ == "measured_validation"@;
    let estimated = a.final_hfr_source matches Some(s) && s@ == "fitted_estimate"@;
    if contrast {
        if measured {
            "Contrast After (measured)"@
        } else if estimated {
            "Contrast After (estimated)"@
        } else {
            "Contrast After"@
        }
    } else if measured {
        "HFR After (measured)"@
    } else if estimated {
        "HFR After (estimated)"@
    } else {
        "HFR After"@
    }
}

/// What only some reports have leaves the other fields.
#[verifier::spinoff_prover]
proof fn lemma_extras_apart(
    before: MessageView,
    a: AutofocusData,
    name: Seq<char>,
)
    requires
        name != "Accepted stars / point"@,
        name != "Focus precision"@,
        name != "LOO stability"@,
        name != "Reduced χ²"@,
        name != "Detection region"@,
        name != "Acceptance"@,
        name != "Star detection"@,
    ensures
        shown(report_extras(before, a), name) == shown(before, name),
        report_extras(before, a).footer == before.footer,
        report_extras(before, a).title == before.title,
        report_extras(before, a).color == before.color,
{
    broadcast use group_fields;
}

/// What every report has.
#[verifier::spinoff_prover]
proof fn lemma_figures(
    before: MessageView,
    a: AutofocusData,
)
    ensures
        ({
            let m = report_fields(before, a);
            &&& shown(m, "Filter"@) == Some(filter_words(a.filter@))
            &&& shown(m, "Mode"@) == Some(a.method_text())
            &&& shown(m, "Duration"@) == Some(a.duration@)
            &&& (a.temperature.finite() ==> shown(m, "Temperature"@)
                == Some(a.temperature.fixed_text(1) + "°C"@))
            &&& (!a.temperature.finite() ==> shown(m, "Temperature"@) == Some("n/a"@))
            &&& shown(m, "Focus Position"@) == Some(a.calculated_focus_point.position.fixed_text(0))
            &&& shown(m, "Position Change"@) == Some(crate::autofocus_delivery::move_text(a))
            &&& shown(m, "Measurements"@) == Some(dec(a.measure_points@.len()))
            &&& (a.fit_quality_text() matches Some(t) ==> shown(m, "Fit R²"@) == Some(t))
            &&& (a.fit_quality_text() is None ==> shown(m, "Fit R²"@) == Some("n/a"@))
            &&& m.footer == Some("Focuser: "@ + a.auto_focuser_name@)
            &&& m.title == before.title
            &&& m.color == before.color
        }),
{
    broadcast use group_fields;
    reveal_strlit("Filter");
    reveal_strlit("Mode");
    reveal_strlit("Duration");
    reveal_strlit("Temperature");
    reveal_strlit("Focus Position");
    reveal_strlit("Position Change");
    reveal_strlit("Fit R²");
    reveal_strlit("Measurements");
    reveal_strlit("HFR Before");
    reveal_strlit("Contrast Before");
    reveal_strlit("HFR After");
    reveal_strlit("Contrast After");
    reveal_strlit("HFR After (measured)");
    reveal_strlit("Contrast After (measured)");
    reveal_strlit("HFR After (estimated)");
    reveal_strlit("Contrast After (estimated)");
    assert("Filter"@.len() == 6);
    assert("Mode"@.len() == 4);
    assert("Duration"@.len() == 8);
    assert("Temperature"@.len() == 11);
    assert("Focus Position"@.len() == 14);
    assert("Position Change"@.len() == 15);
    assert("Fit R²"@.len() == 6);
    assert("Measurements"@.len() == 12);
    assert("HFR Before"@.len() == 10);
    assert("Contrast Before"@.len() == 15);
    assert("HFR After"@.len() == 9);
    assert("Contrast After"@.len() == 14);
    assert("HFR After (measured)"@.len() == 20);
    assert("Contrast After (measured)"@.len() == 25);
    assert("HFR After (estimated)"@.len() == 21);
    assert("Contrast After (estimated)"@.len() == 26);
    assert("Filter"@[2] == 'l');
    assert("Fit R²"@[2] == 't');
    assert("Focus Position"@[0] == 'F');
    assert("Contrast After"@[0] == 'C');
    assert("Position Change"@[0] == 'P');
    assert("Contrast Before"@[0] == 'C');
    lemma_labels(a);
}

/// What every report says of the measurements before and after the run.
#[verifier::spinoff_prover]
proof fn lemma_measurements(
    before: MessageView,
    a: AutofocusData,
)
    ensures
        ({
            let m = report_fields(before, a);
            &&& (!same_ignoring_case(a.method@, "CONTRASTDETECTION"@)
                ==> shown(m, "HFR Before"@) == Some(figure(a.hfr_before(), 3)))
            &&& (same_ignoring_case(a.method@, "CONTRASTDETECTION"@)
                ==> shown(m, "Contrast Before"@) == Some(figure(a.hfr_before(), 3)))
            &&& shown(m, after_label(a)) == Some(figure(a.hfr_after(), 3))
        }),
{
    broadcast use group_fields;
    reveal_strlit("Filter");
    reveal_strlit("Mode");
    reveal_strlit("Duration");
    reveal_strlit("Temperature");
    reveal_strlit("Focus Position");
    reveal_strlit("Position Change");
    reveal_strlit("Fit R²");
    reveal_strlit("Measurements");
    reveal_strlit("HFR Before");
    reveal_strlit("Contrast Before");
    reveal_strlit("HFR After");
    reveal_strlit("Contrast After");
    reveal_strlit("HFR After (measured)");
    reveal_strlit("Contrast After (measured)");
    reveal_strlit("HFR After (estimated)");
    reveal_strlit("Contrast After (estimated)");
    assert("Filter"@.len() == 6);
    assert("Mode"@.len() == 4);
    assert("Duration"@.len() == 8);
    assert("Temperature"@.len() == 11);
    assert("Focus Position"@.len() == 14);
    assert("Position Change"@.len() == 15);
    assert("Fit R²"@.len() == 6);
    assert("Measurements"@.len() == 12);
    assert("HFR Before"@.len() == 10);
    assert("Contrast Before"@.len() == 15);
    assert("HFR After"@.len() == 9);
    assert("Contrast After"@.len() == 14);
    assert("HFR After (measured)"@.len() == 20);
    assert("Contrast After (measured)"@.len() == 25);
    assert("HFR After (estimated)"@.len() == 21);
    assert("Contrast After (estimated)"@.len() == 26);
    assert("Filter"@[2] == 'l');
    assert("Fit R²"@[2] == 't');
    assert("Focus Position"@[0] == 'F');
    assert("Contrast After"@[0] == 'C');
    assert("Position Change"@[0] == 'P');
    assert("Contrast Before"@[0] == 'C');
    lemma_labels(a);
}

/// The message about an autofocus run shows the filter, the time it took, the temperature, the
/// focus position that the run calculated, in whole steps, and how many points were measured.
#[verifier::spinoff_prover]
pub proof fn reports_show_the_calculated_focus(
    telescope: Seq<char>,
    r: AutofocusResponse,
    now: Moment,
)
    requires
        r.success,
    ensures
        ({
            let m = report_message(telescope, r, now)->0;
            &&& shown(m, "Filter"@) == Some(filter_words(r.response.filter@))
            &&& shown(m, "Mode"@) == Some(r.response.method_text())
            &&& shown(m, "Duration"@) == Some(r.response.duration@)
            &&& (r.response.temperature.finite()
                ==> shown(m, "Temperature"@) == Some(r.response.temperature.fixed_text(1) + "°C"@))
            &&& (!r.response.temperature.finite() ==> shown(m, "Temperature"@) == Some("n/a"@))
            &&& shown(m, "Focus Position"@)
                == Some(r.response.calculated_focus_point.position.fixed_text(0))
            &&& shown(m, "Measurements"@) == Some(dec(r.response.measure_points@.len()))
            &&& (r.response.fit_quality_text() matches Some(t) ==> shown(m, "Fit R²"@) == Some(t))
            &&& (r.response.fit_quality_text() is None ==> shown(m, "Fit R²"@) == Some("n/a"@))
            &&& m.footer == Some("Focuser: "@ + r.response.auto_focuser_name@)
        }),
{
    broadcast use group_fields;
    reveal_strlit("Filter");
    reveal_strlit("Mode");
    reveal_strlit("Duration");
    reveal_strlit("Temperature");
    reveal_strlit("Focus Position");
    reveal_strlit("Position Change");
    reveal_strlit("Fit R²");
    reveal_strlit("Measurements");
    reveal_strlit("Accepted stars / point");
    reveal_strlit("Focus precision");
    reveal_strlit("LOO stability");
    reveal_strlit("Reduced χ²");
    reveal_strlit("Detection region");
    reveal_strlit("Acceptance");
    reveal_strlit("Star detection");
    assert("Filter"@.len() == 6);
    assert("Mode"@.len() == 4);
    assert("Duration"@.len() == 8);
    assert("Temperature"@.len() == 11);
    assert("Focus Position"@.len() == 14);
    assert("Position Change"@.len() == 15);
    assert("Fit R²"@.len() == 6);
    assert("Measurements"@.len() == 12);
    assert("Accepted stars / point"@.len() == 22);
    assert("Focus precision"@.len() == 15);
    assert("LOO stability"@.len() == 13);
    assert("Reduced χ²"@.len() == 10);
    assert("Detection region"@.len() == 16);
    assert("Acceptance"@.len() == 10);
    assert("Star detection"@.len() == 14);
    assert("Filter"@[2] == 'l');
    assert("Fit R²"@[2] == 't');
    assert("Focus Position"@[0] == 'F');
    assert("Star detection"@[0] == 'S');
    assert("Position Change"@[0] == 'P');
    assert("Focus precision"@[0] == 'F');
    assert("Reduced χ²"@[0] == 'R');
    assert("Acceptance"@[0] == 'A');
    let a = r.response;
    let good = crate::autofocus_delivery::successful(r);
    let title = "["@ + telescope + "] "@ + (if good { "✅"@ } else { "⚠️"@ })
        + " Autofocus Completed"@;
    let head = message_at(title, now).colored(if good { colors::GREEN } else { colors::ORANGE });
    let b = report_fields(head, a);
    assert(report_message(telescope, r, now) == Some(report_extras(b, a)));
    lemma_figures(head, a);
    lemma_extras_apart(b, a, "Filter"@);
    lemma_extras_apart(b, a, "Mode"@);
    lemma_extras_apart(b, a, "Duration"@);
    lemma_extras_apart(b, a, "Temperature"@);
    lemma_extras_apart(b, a, "Focus Position"@);
    lemma_extras_apart(b, a, "Position Change"@);
    lemma_extras_apart(b, a, "Fit R²"@);
    lemma_extras_apart(b, a, "Measurements"@);
}

/// Two reports show the same focus position exactly where the runs calculated the same one, to
/// whole steps: the position before the run and all else has no part in it.
#[verifier::spinoff_prover]
pub proof fn the_focus_position_is_the_calculated_one(
    telescope: Seq<char>,
    r: AutofocusResponse,
    q: AutofocusResponse,
    now: Moment,
    later: Moment,
)
    requires
        r.success,
        q.success,
    ensures
        shown(report_message(telescope, r, now)->0, "Focus Position"@)
            == shown(report_message(telescope, q, later)->0, "Focus Position"@)
            <==> r.response.calculated_focus_point.position.fixed_text(0)
            == q.response.calculated_focus_point.position.fixed_text(0),
{
    broadcast use group_fields;
    reports_show_the_calculated_focus(telescope, r, now);
    reports_show_the_calculated_focus(telescope, q, later);
}

/// A difference is positive exactly where the first number is above the second.
#[verifier::spinoff_prover]
proof fn lemma_sign_of_difference(a: Double, b: Double)
    requires
        a.finite() && b.finite(),
    ensures
        (Double { bits: 0 }).lt(a.difference(b)) == (a.value() > b.value()),
{
    let n = b.negated();
    assert(units(0) == 0);
    assert(n.magnitude() == b.magnitude() && n.value() == -b.value());
    let exact = a.value() + n.value();
    if exact != 0 {
        let size: nat = if exact < 0 {
            (-exact) as nat
        } else {
            exact as nat
        };
        rounding_keeps_order(1, size, 1);
        rounding_keeps_doubles(1);
        assert(units(1) == 1);
        let m = nearest(size, 1);
        assert(1 <= m <= 0x7ff0_0000_0000_0000);
        let d = signed(exact < 0, m);
        assert(d.magnitude() == m);
        assert(a.difference(b) == d);
    }
}

/// The message about an autofocus run shows how far the focus has moved: the calculated position
/// less the one before, with a plus in front exactly where it has moved outward.
#[verifier::spinoff_prover]
pub proof fn position_changes_bear_their_sign(
    telescope: Seq<char>,
    r: AutofocusResponse,
    now: Moment,
)
    requires
        r.success,
        r.response.calculated_focus_point.position.finite(),
        r.response.initial_focus_point.position.finite(),
    ensures
        ({
            let m = report_message(telescope, r, now)->0;
            &&& (r.response.calculated_focus_point.position.value() > r.response.initial_focus_point.position.value()
                ==> shown(m, "Position Change"@)
                == Some("+"@
                + r.response.calculated_focus_point.position.difference(r.response.initial_focus_point.position).fixed_text(0)))
            &&& (r.response.calculated_focus_point.position.value() <= r.response.initial_focus_point.position.value()
                ==> shown(m, "Position Change"@)
                == Some(r.response.calculated_focus_point.position.difference(r.response.initial_focus_point.position).fixed_text(0)))
        }),
{
    broadcast use group_fields;
    reveal_strlit("Position Change");
    reveal_strlit("Accepted stars / point");
    reveal_strlit("Focus precision");
    reveal_strlit("LOO stability");
    reveal_strlit("Reduced χ²");
    reveal_strlit("Detection region");
    reveal_strlit("Acceptance");
    reveal_strlit("Star detection");
    assert("Position Change"@.len() == 15);
    assert("Accepted stars / point"@.len() == 22);
    assert("Focus precision"@.len() == 15);
    assert("LOO stability"@.len() == 13);
    assert("Reduced χ²"@.len() == 10);
    assert("Detection region"@.len() == 16);
    assert("Acceptance"@.len() == 10);
    assert("Star detection"@.len() == 14);
    assert("Position Change"@[0] == 'P');
    assert("Focus precision"@[0] == 'F');
    assert("Reduced χ²"@[0] == 'R');
    assert("Acceptance"@[0] == 'A');
    let a = r.response;
    let good = crate::autofocus_delivery::successful(r);
    let title = "["@ + telescope + "] "@ + (if good { "✅"@ } else { "⚠️"@ })
        + " Autofocus Completed"@;
    let head = message_at(title, now).colored(if good { colors::GREEN } else { colors::ORANGE });
    let b = report_fields(head, a);
    assert(report_message(telescope, r, now) == Some(report_extras(b, a)));
    lemma_sign_of_difference(a.calculated_focus_point.position, a.initial_focus_point.position);
    lemma_figures(head, a);
    lemma_extras_apart(b, a, "Position Change"@);
}

/// The message about an autofocus run shows the measurement at the first position: none where it
/// was not measured, else the value of the first focus point where that is a number.
#[verifier::spinoff_prover]
pub proof fn reports_show_the_measurement_before(
    telescope: Seq<char>,
    r: AutofocusResponse,
    now: Moment,
)
    requires
        r.success,
    ensures
        ({
            let m = report_message(telescope, r, now)->0;
            &&& (r.response.initial_hfr_measured == Some(false)
                && !same_ignoring_case(r.response.method@, "CONTRASTDETECTION"@)
                ==> shown(m, "HFR Before"@) == Some("n/a"@))
            &&& (r.response.initial_hfr_measured == Some(false)
                && same_ignoring_case(r.response.method@, "CONTRASTDETECTION"@)
                ==> shown(m, "Contrast Before"@) == Some("n/a"@))
            &&& (r.response.initial_hfr_measured != Some(false)
                && r.response.initial_focus_point.value.finite()
                && !same_ignoring_case(r.response.method@, "CONTRASTDETECTION"@)
                ==> shown(m, "HFR Before"@)
                == Some(r.response.initial_focus_point.value.fixed_text(3)))
            &&& (r.response.initial_hfr_measured != Some(false)
                && r.response.initial_focus_point.value.finite()
                && same_ignoring_case(r.response.method@, "CONTRASTDETECTION"@)
                ==> shown(m, "Contrast Before"@)
                == Some(r.response.initial_focus_point.value.fixed_text(3)))
        }),
{
    broadcast use group_fields;
    reveal_strlit("HFR Before");
    reveal_strlit("Contrast Before");
    reveal_strlit("Accepted stars / point");
    reveal_strlit("Focus precision");
    reveal_strlit("LOO stability");
    reveal_strlit("Reduced χ²");
    reveal_strlit("Detection region");
    reveal_strlit("Acceptance");
    reveal_strlit("Star detection");
    assert("HFR Before"@.len() == 10);
    assert("Contrast Before"@.len() == 15);
    assert("Accepted stars / point"@.len() == 22);
    assert("Focus precision"@.len() == 15);
    assert("LOO stability"@.len() == 13);
    assert("Reduced χ²"@.len() == 10);
    assert("Detection region"@.len() == 16);
    assert("Acceptance"@.len() == 10);
    assert("Star detection"@.len() == 14);
    assert("HFR Before"@[0] == 'H');
    assert("Reduced χ²"@[0] == 'R');
    assert("Acceptance"@[0] == 'A');
    assert("Contrast Before"@[0] == 'C');
    assert("Focus precision"@[0] == 'F');
    let a = r.response;
    let good = crate::autofocus_delivery::successful(r);
    let title = "["@ + telescope + "] "@ + (if good { "✅"@ } else { "⚠️"@ })
        + " Autofocus Completed"@;
    let head = message_at(title, now).colored(if good { colors::GREEN } else { colors::ORANGE });
    let b = report_fields(head, a);
    assert(report_message(telescope, r, now) == Some(report_extras(b, a)));
    lemma_measurements(head, a);
    lemma_extras_apart(b, a, "HFR Before"@);
    lemma_extras_apart(b, a, "Contrast Before"@);
}

/// The message about an autofocus run shows the final measurement, and where there is none the
/// value of the calculated focus point where that is a number.
#[verifier::spinoff_prover]
pub proof fn reports_show_the_measurement_after(
    telescope: Seq<char>,
    r: AutofocusResponse,
    now: Moment,
)
    requires
        r.success,
    ensures
        ({
            let m = report_message(telescope, r, now)->0;
            &&& (r.response.final_hfr matches Some(v)
                ==> shown(m, after_label(r.response)) == Some(v.fixed_text(3)))
            &&& (r.response.final_hfr is None && r.response.calculated_focus_point.value.finite()
                ==> shown(m, after_label(r.response))
                == Some(r.response.calculated_focus_point.value.fixed_text(3)))
            &&& (r.response.final_hfr is None && !r.response.calculated_focus_point.value.finite()
                ==> shown(m, after_label(r.response)) == Some("n/a"@))
        }),
{
    broadcast use group_fields;
    reveal_strlit("HFR Before");
    reveal_strlit("Contrast Before");
    reveal_strlit("HFR After");
    reveal_strlit("Contrast After");
    reveal_strlit("HFR After (measured)");
    reveal_strlit("Contrast After (measured)");
    reveal_strlit("HFR After (estimated)");
    reveal_strlit("Contrast After (estimated)");
    reveal_strlit("Accepted stars / point");
    reveal_strlit("Focus precision");
    reveal_strlit("LOO stability");
    reveal_strlit("Reduced χ²");
    reveal_strlit("Detection region");
    reveal_strlit("Acceptance");
    reveal_strlit("Star detection");
    assert("HFR Before"@.len() == 10);
    assert("Contrast Before"@.len() == 15);
    assert("HFR After"@.len() == 9);
    assert("Contrast After"@.len() == 14);
    assert("HFR After (measured)"@.len() == 20);
    assert("Contrast After (measured)"@.len() == 25);
    assert("HFR After (estimated)"@.len() == 21);
    assert("Contrast After (estimated)"@.len() == 26);
    assert("Accepted stars / point"@.len() == 22);
    assert("Focus precision"@.len() == 15);
    assert("LOO stability"@.len() == 13);
    assert("Reduced χ²"@.len() == 10);
    assert("Detection region"@.len() == 16);
    assert("Acceptance"@.len() == 10);
    assert("Star detection"@.len() == 14);
    assert("HFR Before"@[0] == 'H');
    assert("Reduced χ²"@[0] == 'R');
    assert("Acceptance"@[0] == 'A');
    assert("Contrast Before"@[0] == 'C');
    assert("Focus precision"@[0] == 'F');
    assert("Contrast After"@[0] == 'C');
    assert("Star detection"@[0] == 'S');
    let a = r.response;
    let good = crate::autofocus_delivery::successful(r);
    let title = "["@ + telescope + "] "@ + (if good { "✅"@ } else { "⚠️"@ })
        + " Autofocus Completed"@;
    let head = message_at(title, now).colored(if good { colors::GREEN } else { colors::ORANGE });
    let b = report_fields(head, a);
    assert(report_message(telescope, r, now) == Some(report_extras(b, a)));
    lemma_measurements(head, a);
    lemma_extras_apart(b, a, after_label(a));
}

/// A run is told of where its report was read. Its message is green where the error of the
/// calculated focus is zero, and orange everywhere else.
#[verifier::spinoff_prover]
pub proof fn reports_tell_success_apart(
    telescope: Seq<char>,
    r: AutofocusResponse,
    now: Moment,
)
    ensures
        ({
            let m = report_message(telescope, r, now)->0;
            &&& (report_message(telescope, r, now) is Some <==> r.success)
            &&& (r.success && r.response.calculated_focus_point.error.magnitude() == 0
                ==> m.color == Some(colors::GREEN) && m.title == "["@ + telescope + "] "@ + "✅"@
                + " Autofocus Completed"@)
            &&& (r.success && r.response.calculated_focus_point.error.magnitude() != 0
                ==> m.color == Some(colors::ORANGE) && m.title == "["@ + telescope + "] "@ + "⚠️"@
                + " Autofocus Completed"@)
        }),
{
    broadcast use group_fields;
    reveal_strlit("Filter");
    reveal_strlit("Accepted stars / point");
    reveal_strlit("Focus precision");
    reveal_strlit("LOO stability");
    reveal_strlit("Reduced χ²");
    reveal_strlit("Detection region");
    reveal_strlit("Acceptance");
    reveal_strlit("Star detection");
    assert("Filter"@.len() == 6);
    assert("Accepted stars / point"@.len() == 22);
    assert("Focus precision"@.len() == 15);
    assert("LOO stability"@.len() == 13);
    assert("Reduced χ²"@.len() == 10);
    assert("Detection region"@.len() == 16);
    assert("Acceptance"@.len() == 10);
    assert("Star detection"@.len() == 14);
    assert("Reduced χ²"@[0] == 'R');
    assert("Acceptance"@[0] == 'A');
    if r.success {
        let a = r.response;
        let good = crate::autofocus_delivery::successful(r);
        let title = "["@ + telescope + "] "@ + (if good { "✅"@ } else { "⚠️"@ })
            + " Autofocus Completed"@;
        let head = message_at(title,
            now).colored(if good { colors::GREEN } else { colors::ORANGE });
        let b = report_fields(head, a);
        assert(report_message(telescope, r, now) == Some(report_extras(b, a)));
        lemma_figures(head, a);
        lemma_extras_apart(b, a, "Filter"@);
    }
}

/// The message about an autofocus run shows the quality figures that the run provides, each under
/// its own name, and none that it does not.
#[verifier::spinoff_prover]
pub proof fn reports_show_what_the_run_provides(
    before: MessageView,
    a: AutofocusData,
)
    requires
        shown(before, "Accepted stars / point"@) is None,
        shown(before, "Focus precision"@) is None,
        shown(before, "LOO stability"@) is None,
        shown(before, "Reduced χ²"@) is None,
        shown(before, "Detection region"@) is None,
        shown(before, "Acceptance"@) is None,
        shown(before, "Star detection"@) is None,
    ensures
        ({
            let m = report_extras(before, a);
            &&& (a.hyperbolic_minimum_std_error matches Some(v)
                ==> shown(m, "Focus precision"@) == Some("±"@ + v.fixed_text(2) + " steps"@))
            &&& (a.hyperbolic_minimum_std_error is None ==> shown(m, "Focus precision"@) is None)
            &&& shown(m, "LOO stability"@) == measure(a.hyperbolic_leave_one_out_std_error, 2,
                " steps"@)
            &&& shown(m, "Reduced χ²"@) == measure(a.hyperbolic_reduced_chi_squared, 4, ""@)
            &&& shown(m, "Accepted stars / point"@) == a.star_count_text()
            &&& shown(m, "Detection region"@) == a.region_text()
            &&& shown(m, "Acceptance"@) == a.fit_acceptance_text()
            &&& (a.detection_parts().len() == 0 ==> shown(m, "Star detection"@) is None)
            &&& (a.detection_parts().len() > 0
                ==> shown(m, "Star detection"@) == Some(joined(a.detection_parts(), " · "@)))
        }),
{
    broadcast use group_fields;
    reveal_strlit("Accepted stars / point");
    reveal_strlit("Focus precision");
    reveal_strlit("LOO stability");
    reveal_strlit("Reduced χ²");
    reveal_strlit("Detection region");
    reveal_strlit("Acceptance");
    reveal_strlit("Star detection");
    assert("Accepted stars / point"@.len() == 22);
    assert("Focus precision"@.len() == 15);
    assert("LOO stability"@.len() == 13);
    assert("Reduced χ²"@.len() == 10);
    assert("Detection region"@.len() == 16);
    assert("Acceptance"@.len() == 10);
    assert("Star detection"@.len() == 14);
    assert("Reduced χ²"@[0] == 'R');
    assert("Acceptance"@[0] == 'A');
}

/// The message about a run whose report is missing shows what the event told of the run.
#[verifier::spinoff_prover]
pub proof fn missing_reports_show_what_the_event_told(
    telescope: Seq<char>,
    d: PendingAutofocusDelivery,
    now: Moment,
)
    ensures
        ({
            let m = unavailable_message(telescope, d, now);
            &&& shown(m, "Time"@) == Some(d.event_time@)
            &&& (d.filter is None ==> shown(m, "Filter"@) is None)
            &&& (d.filter matches Some(f) ==> shown(m, "Filter"@) == Some(filter_words(f@)))
            &&& shown(m, "Position"@) == measure(d.position, 0, ""@)
            &&& shown(m, "Temperature"@) == measure(d.temperature, 1, " °C"@)
            &&& m.color == Some(colors::ORANGE)
        }),
{
    broadcast use group_fields;
    reveal_strlit("Time");
    reveal_strlit("Report");
    reveal_strlit("Filter");
    reveal_strlit("Position");
    reveal_strlit("Temperature");
    assert("Time"@.len() == 4);
    assert("Report"@.len() == 6);
    assert("Filter"@.len() == 6);
    assert("Position"@.len() == 8);
    assert("Temperature"@.len() == 11);
    assert("Report"@[0] == 'R');
    assert("Filter"@[0] == 'F');
}

/// A plate solve leaves the other fields.
#[verifier::spinoff_prover]
proof fn lemma_output_apart(
    before: MessageView,
    s: PlateSolveOutput,
    name: Seq<char>,
)
    requires
        name != "Plate solve"@,
        name != "Solved position"@,
        name != "Position angle"@,
        name != "Image scale"@,
        name != "Solve radius"@,
        name != "Pointing error"@,
        name != "Axis error"@,
        name != "Pixel error"@,
        name != "Orientation"@,
    ensures
        shown(with_output(before, s), name) == shown(before, name),
        with_output(before, s).title == before.title,
        with_output(before, s).color == before.color,
{
    broadcast use group_fields;
}

/// A plate solve is shown by whether it succeeded, by the position it found and by whether the
/// image was flipped.
#[verifier::spinoff_prover]
pub proof fn plate_solves_show_their_outcome(
    before: MessageView,
    s: PlateSolveOutput,
)
    requires
        shown(before, "Plate solve"@) is None,
        shown(before, "Solved position"@) is None,
        shown(before, "Position angle"@) is None,
        shown(before, "Image scale"@) is None,
        shown(before, "Solve radius"@) is None,
        shown(before, "Pointing error"@) is None,
        shown(before, "Axis error"@) is None,
        shown(before, "Pixel error"@) is None,
        shown(before, "Orientation"@) is None,
    ensures
        ({
            let m = with_output(before, s);
            &&& (s.success == Some(true) ==> shown(m, "Plate solve"@) == Some("Succeeded"@))
            &&& (s.success == Some(false) ==> shown(m, "Plate solve"@) == Some("Failed"@))
            &&& (s.success is None ==> shown(m, "Plate solve"@) is None)
            &&& (s.coordinates is None ==> shown(m, "Solved position"@) is None)
            &&& (s.coordinates matches Some(c)
                ==> shown(m, "Solved position"@) == Some(c.display_text()))
            &&& (s.flipped == Some(true) <==> shown(m, "Orientation"@) is Some)
        }),
{
    broadcast use group_fields;
    reveal_strlit("Plate solve");
    reveal_strlit("Solved position");
    reveal_strlit("Position angle");
    reveal_strlit("Image scale");
    reveal_strlit("Solve radius");
    reveal_strlit("Pointing error");
    reveal_strlit("Axis error");
    reveal_strlit("Pixel error");
    reveal_strlit("Orientation");
    assert("Plate solve"@.len() == 11);
    assert("Solved position"@.len() == 15);
    assert("Position angle"@.len() == 14);
    assert("Image scale"@.len() == 11);
    assert("Solve radius"@.len() == 12);
    assert("Pointing error"@.len() == 14);
    assert("Axis error"@.len() == 10);
    assert("Pixel error"@.len() == 11);
    assert("Orientation"@.len() == 11);
    assert("Plate solve"@[0] == 'P');
    assert("Image scale"@[0] == 'I');
    assert("Plate solve"@[1] == 'l');
    assert("Pixel error"@[1] == 'i');
    assert("Orientation"@[0] == 'O');
    assert("Position angle"@[2] == 's');
    assert("Pointing error"@[2] == 'i');
    assert("Pixel error"@[0] == 'P');
}

/// A plate solve is shown by the angle, the scale and the radius of the field and by the pointing
/// error, each under its own name with its own unit.
#[verifier::spinoff_prover]
pub proof fn plate_solves_measure_the_field(
    before: MessageView,
    s: PlateSolveOutput,
)
    requires
        shown(before, "Plate solve"@) is None,
        shown(before, "Solved position"@) is None,
        shown(before, "Position angle"@) is None,
        shown(before, "Image scale"@) is None,
        shown(before, "Solve radius"@) is None,
        shown(before, "Pointing error"@) is None,
        shown(before, "Axis error"@) is None,
        shown(before, "Pixel error"@) is None,
        shown(before, "Orientation"@) is None,
    ensures
        ({
            let m = with_output(before, s);
            &&& shown(m, "Position angle"@) == measure(s.position_angle, 2, "°"@)
            &&& shown(m, "Image scale"@) == measure(s.pixel_scale, 2, " arcsec/px"@)
            &&& shown(m, "Solve radius"@) == measure(s.radius_degrees, 2, "°"@)
            &&& shown(m, "Pointing error"@) == measure(s.separation_arcseconds, 1, " arcsec"@)
        }),
{
    broadcast use group_fields;
    reveal_strlit("Plate solve");
    reveal_strlit("Solved position");
    reveal_strlit("Position angle");
    reveal_strlit("Image scale");
    reveal_strlit("Solve radius");
    reveal_strlit("Pointing error");
    reveal_strlit("Axis error");
    reveal_strlit("Pixel error");
    reveal_strlit("Orientation");
    assert("Plate solve"@.len() == 11);
    assert("Solved position"@.len() == 15);
    assert("Position angle"@.len() == 14);
    assert("Image scale"@.len() == 11);
    assert("Solve radius"@.len() == 12);
    assert("Pointing error"@.len() == 14);
    assert("Axis error"@.len() == 10);
    assert("Pixel error"@.len() == 11);
    assert("Orientation"@.len() == 11);
    assert("Plate solve"@[0] == 'P');
    assert("Image scale"@[0] == 'I');
    assert("Plate solve"@[1] == 'l');
    assert("Pixel error"@[1] == 'i');
    assert("Orientation"@[0] == 'O');
    assert("Position angle"@[2] == 's');
    assert("Pointing error"@[2] == 'i');
    assert("Pixel error"@[0] == 'P');
}

/// A plate solve shows its errors by axis, right ascension before declination.
#[verifier::spinoff_prover]
pub proof fn plate_solves_show_errors_by_axis(
    before: MessageView,
    s: PlateSolveOutput,
)
    requires
        shown(before, "Plate solve"@) is None,
        shown(before, "Solved position"@) is None,
        shown(before, "Position angle"@) is None,
        shown(before, "Image scale"@) is None,
        shown(before, "Solve radius"@) is None,
        shown(before, "Pointing error"@) is None,
        shown(before, "Axis error"@) is None,
        shown(before, "Pixel error"@) is None,
        shown(before, "Orientation"@) is None,
    ensures
        ({
            let m = with_output(before, s);
            &&& (s.ra_error is None && s.dec_error is None ==> shown(m, "Axis error"@) is None)
            &&& (s.ra_error matches Some(r) ==> (s.dec_error matches Some(d)
                ==> shown(m, "Axis error"@) == Some("RA "@ + r@ + " · Dec "@ + d@)))
            &&& (s.ra_error matches Some(r) ==> (s.dec_error is None
                ==> shown(m, "Axis error"@) == Some("RA "@ + r@ + " · Dec "@ + "--"@)))
            &&& (s.dec_error matches Some(d) ==> (s.ra_error is None
                ==> shown(m, "Axis error"@) == Some("RA "@ + "--"@ + " · Dec "@ + d@)))
            &&& (s.ra_pixel_error is None && s.dec_pixel_error is None
                ==> shown(m, "Pixel error"@) is None)
            &&& (s.ra_pixel_error matches Some(r)
                ==> (s.dec_pixel_error matches Some(d) ==> shown(m, "Pixel error"@)
                == Some("RA "@ + (r.fixed_text(2) + " px"@) + " · Dec "@
                + (d.fixed_text(2) + " px"@))))
        }),
{
    broadcast use group_fields;
    reveal_strlit("Plate solve");
    reveal_strlit("Solved position");
    reveal_strlit("Position angle");
    reveal_strlit("Image scale");
    reveal_strlit("Solve radius");
    reveal_strlit("Pointing error");
    reveal_strlit("Axis error");
    reveal_strlit("Pixel error");
    reveal_strlit("Orientation");
    assert("Plate solve"@.len() == 11);
    assert("Solved position"@.len() == 15);
    assert("Position angle"@.len() == 14);
    assert("Image scale"@.len() == 11);
    assert("Solve radius"@.len() == 12);
    assert("Pointing error"@.len() == 14);
    assert("Axis error"@.len() == 10);
    assert("Pixel error"@.len() == 11);
    assert("Orientation"@.len() == 11);
    assert("Plate solve"@[0] == 'P');
    assert("Image scale"@[0] == 'I');
    assert("Plate solve"@[1] == 'l');
    assert("Pixel error"@[1] == 'i');
    assert("Orientation"@[0] == 'O');
    assert("Position angle"@[2] == 's');
    assert("Pointing error"@[2] == 'i');
    assert("Pixel error"@[0] == 'P');
}

/// A span in words, where there is one.
pub open spec fn span_words(span: Option<Span>) -> Option<Seq<char>> {
    match span {
        Some(s) => Some(duration_text(s)),
        None => None,
    }
}

/// A position in words, where there is one.
pub open spec fn position_words(position: Option<EventCoordinates>) -> Option<Seq<char>> {
    match position {
        Some(c) => Some(c.display_text()),
        None => None,
    }
}

/// The particulars of an operation leave the other fields.
#[verifier::spinoff_prover]
proof fn lemma_particulars_apart(
    before: MessageView,
    t: TrackedSequenceOperation,
    stage: Stage,
    now: Moment,
    name: Seq<char>,
)
    requires
        name != "Target temperature"@,
        name != "Minimum time"@,
        name != "Current temperature"@,
        name != "Cooler power"@,
        name != "Until"@,
        name != "Countdown"@,
        name != "Planned until"@,
        name != "Target altitude"@,
        name != "Current altitude"@,
        name != "Expected"@,
        name != "Safety monitor"@,
        name != "Check interval"@,
        name != "Destination"@,
        name != "Target"@,
        name != "Target rotation"@,
        name != "Requested position"@,
        name != "Requested rotation"@,
    ensures
        shown(with_particulars(before, t, stage, now), name) == shown(before, name),
        with_particulars(before, t, stage, now).title == before.title,
        with_particulars(before, t, stage, now).color == before.color,
{
    broadcast use group_fields;
    match t.operation.kind {
        SequenceOperationKind::TimeWait { .. } => {},
        SequenceOperationKind::CameraCooling { .. } => {},
        SequenceOperationKind::CameraWarming { .. } => {},
        SequenceOperationKind::MountSlew { .. } => {},
        SequenceOperationKind::MountCenter { .. } => {},
        SequenceOperationKind::PlateSolve { .. } => {},
        SequenceOperationKind::AstronomicalWait { .. } => {},
        SequenceOperationKind::SafetyWait { .. } => {},
        SequenceOperationKind::ConditionWait { .. } => {},
        SequenceOperationKind::ManualWait => {},
    }
}

/// Cooling is shown by the temperature that is aimed at, the camera's own temperature and the
/// cooler's power, as far as they are numbers.
#[verifier::spinoff_prover]
pub proof fn cooling_shows_target_and_present(
    before: MessageView,
    t: TrackedSequenceOperation,
    stage: Stage,
    now: Moment,
    target_temperature: Double,
    minimum_duration: Option<Span>,
)
    requires
        t.operation.kind == (SequenceOperationKind::CameraCooling { target_temperature,
            minimum_duration }),
        shown(before, "Target temperature"@) is None,
        shown(before, "Minimum time"@) is None,
        shown(before, "Current temperature"@) is None,
        shown(before, "Cooler power"@) is None,
    ensures
        ({
            let m = with_particulars(before, t, stage, now);
            &&& shown(m, "Target temperature"@) == Some(target_temperature.fixed_text(1) + " °C"@)
            &&& shown(m, "Minimum time"@) == span_words(minimum_duration)
            &&& (t.camera is None ==> shown(m, "Current temperature"@) is None
                && shown(m, "Cooler power"@) is None)
            &&& (t.camera matches Some(c) ==> (c.temperature.finite()
                ==> shown(m, "Current temperature"@) == Some(c.temperature.fixed_text(1) + " °C"@)))
            &&& (t.camera matches Some(c) ==> (!c.temperature.finite()
                ==> shown(m, "Current temperature"@) is None))
            &&& (t.camera matches Some(c) ==> (c.cooler_power.finite()
                ==> shown(m, "Cooler power"@) == Some(c.cooler_power.fixed_text(0) + "%"@)))
            &&& (t.camera matches Some(c) ==> (!c.cooler_power.finite()
                ==> shown(m, "Cooler power"@) is None))
        }),
{
    broadcast use group_fields;
    reveal_strlit("Target temperature");
    reveal_strlit("Minimum time");
    reveal_strlit("Current temperature");
    reveal_strlit("Cooler power");
    assert("Target temperature"@.len() == 18);
    assert("Minimum time"@.len() == 12);
    assert("Current temperature"@.len() == 19);
    assert("Cooler power"@.len() == 12);
    assert("Minimum time"@[0] == 'M');
    assert("Cooler power"@[0] == 'C');
}

/// Warming is shown by its least duration and the camera's own temperature.
#[verifier::spinoff_prover]
pub proof fn warming_shows_time_and_present(
    before: MessageView,
    t: TrackedSequenceOperation,
    stage: Stage,
    now: Moment,
    minimum_duration: Option<Span>,
)
    requires
        t.operation.kind == (SequenceOperationKind::CameraWarming { minimum_duration }),
        shown(before, "Minimum time"@) is None,
        shown(before, "Current temperature"@) is None,
    ensures
        ({
            let m = with_particulars(before, t, stage, now);
            &&& shown(m, "Minimum time"@) == span_words(minimum_duration)
            &&& (t.camera is None ==> shown(m, "Current temperature"@) is None)
            &&& (t.camera matches Some(c) ==> (c.temperature.finite()
                ==> shown(m, "Current temperature"@) == Some(c.temperature.fixed_text(1) + " °C"@)))
            &&& (t.camera matches Some(c) ==> (!c.temperature.finite()
                ==> shown(m, "Current temperature"@) is None))
        }),
{
    broadcast use group_fields;
    reveal_strlit("Minimum time");
    reveal_strlit("Current temperature");
    assert("Minimum time"@.len() == 12);
    assert("Current temperature"@.len() == 19);
}

/// A timed wait is shown by its reckoned end, with a countdown while it is under way.
#[verifier::spinoff_prover]
pub proof fn waits_show_their_end(
    before: MessageView,
    t: TrackedSequenceOperation,
    stage: Stage,
    now: Moment,
    target_time: Option<Moment>,
    configured_duration: Option<Span>,
)
    requires
        t.operation.kind == (SequenceOperationKind::TimeWait { target_time, configured_duration }),
        shown(before, "Until"@) is None,
        shown(before, "Countdown"@) is None,
        shown(before, "Planned until"@) is None,
    ensures
        ({
            let m = with_particulars(before, t, stage, now);
            &&& (t.estimated_end is None ==> shown(m, "Until"@) is None
                && shown(m, "Countdown"@) is None && shown(m, "Planned until"@) is None)
            &&& (t.estimated_end matches Some(end)
                ==> ((stage is Started || stage is Progress) ==> shown(m, "Until"@)
                == Some(utc_text(end)) && shown(m, "Planned until"@) is None
                && shown_on_discord(m, "Until"@)
                == Some("<t:"@ + dec_int(end.seconds as int) + ":F>"@)))
            &&& (t.estimated_end matches Some(end)
                ==> (!(stage is Started || stage is Progress) ==> shown(m, "Planned until"@)
                == Some(utc_text(end)) && shown(m, "Until"@) is None
                && shown(m, "Countdown"@) is None))
            &&& (t.estimated_end matches Some(end)
                ==> ((stage is Started || stage is Progress) && now.earlier(end)
                ==> shown(m, "Countdown"@) == Some(duration_text(span_between(now, end))
                + " remaining"@)))
            &&& (t.estimated_end matches Some(end)
                ==> ((stage is Started || stage is Progress) && !now.earlier(end)
                ==> shown(m, "Countdown"@) == Some("Scheduled time reached"@)))
        }),
{
    broadcast use group_fields;
    reveal_strlit("Until");
    reveal_strlit("Countdown");
    reveal_strlit("Planned until");
    assert("Until"@.len() == 5);
    assert("Countdown"@.len() == 9);
    assert("Planned until"@.len() == 13);
}

/// A wait for an altitude is shown by the altitude that is waited for, the present one and the
/// expected time.
#[verifier::spinoff_prover]
pub proof fn astronomical_waits_show_both_altitudes(
    before: MessageView,
    t: TrackedSequenceOperation,
    stage: Stage,
    now: Moment,
    target_altitude_degrees: Option<Double>,
    current_altitude_degrees: Option<Double>,
    comparator: Option<String>,
    expected_time: Option<String>,
)
    requires
        t.operation.kind == (SequenceOperationKind::AstronomicalWait { target_altitude_degrees,
            current_altitude_degrees, comparator, expected_time }),
        shown(before, "Target altitude"@) is None,
        shown(before, "Current altitude"@) is None,
        shown(before, "Expected"@) is None,
    ensures
        ({
            let m = with_particulars(before, t, stage, now);
            &&& (target_altitude_degrees is None ==> shown(m, "Target altitude"@) is None)
            &&& (target_altitude_degrees matches Some(v)
                ==> (comparator matches Some(c) ==> shown(m, "Target altitude"@)
                == Some(c@ + " "@ + v.fixed_text(2) + "°"@)))
            &&& (target_altitude_degrees matches Some(v)
                ==> (comparator is None ==> shown(m, "Target altitude"@)
                == Some(""@ + v.fixed_text(2) + "°"@)))
            &&& shown(m, "Current altitude"@) == measure(current_altitude_degrees, 2, "°"@)
            &&& (expected_time is None ==> shown(m, "Expected"@) is None)
            &&& (expected_time matches Some(e)
                ==> shown(m, "Expected"@) == Some(truncated(e@, 1000)))
        }),
{
    broadcast use group_fields;
    reveal_strlit("Target altitude");
    reveal_strlit("Current altitude");
    reveal_strlit("Expected");
    assert("Target altitude"@.len() == 15);
    assert("Current altitude"@.len() == 16);
    assert("Expected"@.len() == 8);
}

/// A wait for safety is shown by what the safety monitor says and how often it is asked.
#[verifier::spinoff_prover]
pub proof fn safety_waits_show_the_monitor(
    before: MessageView,
    t: TrackedSequenceOperation,
    stage: Stage,
    now: Moment,
    is_safe: Option<bool>,
    wait_interval: Option<Span>,
)
    requires
        t.operation.kind == (SequenceOperationKind::SafetyWait { is_safe, wait_interval }),
        shown(before, "Safety monitor"@) is None,
        shown(before, "Check interval"@) is None,
    ensures
        ({
            let m = with_particulars(before, t, stage, now);
            &&& (is_safe == Some(true) ==> shown(m, "Safety monitor"@) == Some("Safe"@))
            &&& (is_safe == Some(false) ==> shown(m, "Safety monitor"@) == Some("Unsafe"@))
            &&& (is_safe is None ==> shown(m, "Safety monitor"@) == Some("Monitor disconnected"@))
            &&& shown(m, "Check interval"@) == span_words(wait_interval)
        }),
{
    broadcast use group_fields;
    reveal_strlit("Safety monitor");
    reveal_strlit("Check interval");
    assert("Safety monitor"@.len() == 14);
    assert("Check interval"@.len() == 14);
    assert("Safety monitor"@[0] == 'S');
    assert("Check interval"@[0] == 'C');
}

/// A wait for a condition is shown by how often the condition is looked at.
#[verifier::spinoff_prover]
pub proof fn condition_waits_show_the_interval(
    before: MessageView,
    t: TrackedSequenceOperation,
    stage: Stage,
    now: Moment,
    wait_interval: Option<Span>,
)
    requires
        t.operation.kind == (SequenceOperationKind::ConditionWait { wait_interval }),
        shown(before, "Check interval"@) is None,
    ensures
        ({
            let m = with_particulars(before, t, stage, now);
            &&& shown(m, "Check interval"@) == span_words(wait_interval)
        }),
{
    broadcast use group_fields;
    reveal_strlit("Check interval");
    assert("Check interval"@.len() == 14);
}

/// A slew is shown by its destination.
#[verifier::spinoff_prover]
pub proof fn slews_show_their_destination(
    before: MessageView,
    t: TrackedSequenceOperation,
    stage: Stage,
    now: Moment,
    coordinates: Option<EventCoordinates>,
    may_be_center: bool,
)
    requires
        t.operation.kind == (SequenceOperationKind::MountSlew { coordinates, may_be_center }),
        shown(before, "Destination"@) is None,
    ensures
        ({
            let m = with_particulars(before, t, stage, now);
            &&& shown(m, "Destination"@) == position_words(coordinates)
        }),
{
    broadcast use group_fields;
    reveal_strlit("Destination");
    assert("Destination"@.len() == 11);
}

/// A centering is shown by its target and the rotation that is asked for.
#[verifier::spinoff_prover]
pub proof fn centerings_show_their_target(
    before: MessageView,
    t: TrackedSequenceOperation,
    stage: Stage,
    now: Moment,
    coordinates: Option<EventCoordinates>,
    rotation: Option<Double>,
    output: Option<PlateSolveOutput>,
)
    requires
        t.operation.kind == (SequenceOperationKind::MountCenter { coordinates, rotation, output }),
        shown(before, "Target"@) is None,
        shown(before, "Target rotation"@) is None,
    ensures
        ({
            let m = with_particulars(before, t, stage, now);
            &&& shown(m, "Target"@) == position_words(coordinates)
            &&& shown(m, "Target rotation"@) == measure(rotation, 1, "°"@)
        }),
{
    broadcast use group_fields;
    reveal_strlit("Target");
    reveal_strlit("Target rotation");
    assert("Target"@.len() == 6);
    assert("Target rotation"@.len() == 15);
}

/// A plate solve is shown by the position and the rotation that were asked for.
#[verifier::spinoff_prover]
pub proof fn solve_requests_show_what_was_asked(
    before: MessageView,
    t: TrackedSequenceOperation,
    stage: Stage,
    now: Moment,
    coordinates: Option<EventCoordinates>,
    rotation: Option<Double>,
    output: Option<PlateSolveOutput>,
)
    requires
        t.operation.kind == (SequenceOperationKind::PlateSolve { coordinates, rotation, output }),
        shown(before, "Requested position"@) is None,
        shown(before, "Requested rotation"@) is None,
    ensures
        ({
            let m = with_particulars(before, t, stage, now);
            &&& shown(m, "Requested position"@) == position_words(coordinates)
            &&& shown(m, "Requested rotation"@) == measure(rotation, 1, "°"@)
        }),
{
    broadcast use group_fields;
    reveal_strlit("Requested position");
    reveal_strlit("Requested rotation");
    assert("Requested position"@.len() == 18);
    assert("Requested rotation"@.len() == 18);
    assert("Requested position"@[10] == 'p');
    assert("Requested rotation"@[10] == 'r');
}

/// The message about an operation names the item of the sequence and, where it is about progress,
/// shows how far the operation has come.
#[verifier::spinoff_prover]
pub proof fn operation_messages_show_the_item_and_its_progress(
    telescope: Seq<char>,
    t: TrackedSequenceOperation,
    update: OperationUpdate,
    now: Moment,
)
    ensures
        ({
            let m = operation_message(telescope, t, update, now);
            &&& shown(m, "Sequence item"@) == Some(t.operation.name@)
            &&& (update matches OperationUpdate::Progress(p)
                ==> shown(m, "Progress"@) == Some(dec(p as nat) + "%"@))
            &&& (!(update is Progress) ==> shown(m, "Progress"@) is None)
            &&& (update is Finished ==> m.color == Some(colors::GREEN))
            &&& (update is Failed ==> m.color == Some(colors::RED))
            &&& (update is Ended ==> m.color == Some(colors::GRAY))
            &&& (update is Started || update is Progress ==> m.color == Some(colors::YELLOW))
        }),
{
    broadcast use group_fields;
    reveal_strlit("Sequence item");
    reveal_strlit("Progress");
    reveal_strlit("Operation");
    reveal_strlit("Target temperature");
    reveal_strlit("Minimum time");
    reveal_strlit("Current temperature");
    reveal_strlit("Cooler power");
    reveal_strlit("Until");
    reveal_strlit("Countdown");
    reveal_strlit("Planned until");
    reveal_strlit("Target altitude");
    reveal_strlit("Current altitude");
    reveal_strlit("Expected");
    reveal_strlit("Safety monitor");
    reveal_strlit("Check interval");
    reveal_strlit("Destination");
    reveal_strlit("Target");
    reveal_strlit("Target rotation");
    reveal_strlit("Requested position");
    reveal_strlit("Requested rotation");
    reveal_strlit("Plate solve");
    reveal_strlit("Solved position");
    reveal_strlit("Position angle");
    reveal_strlit("Image scale");
    reveal_strlit("Solve radius");
    reveal_strlit("Pointing error");
    reveal_strlit("Axis error");
    reveal_strlit("Pixel error");
    reveal_strlit("Orientation");
    assert("Sequence item"@.len() == 13);
    assert("Progress"@.len() == 8);
    assert("Operation"@.len() == 9);
    assert("Target temperature"@.len() == 18);
    assert("Minimum time"@.len() == 12);
    assert("Current temperature"@.len() == 19);
    assert("Cooler power"@.len() == 12);
    assert("Until"@.len() == 5);
    assert("Countdown"@.len() == 9);
    assert("Planned until"@.len() == 13);
    assert("Target altitude"@.len() == 15);
    assert("Current altitude"@.len() == 16);
    assert("Expected"@.len() == 8);
    assert("Safety monitor"@.len() == 14);
    assert("Check interval"@.len() == 14);
    assert("Destination"@.len() == 11);
    assert("Target"@.len() == 6);
    assert("Target rotation"@.len() == 15);
    assert("Requested position"@.len() == 18);
    assert("Requested rotation"@.len() == 18);
    assert("Plate solve"@.len() == 11);
    assert("Solved position"@.len() == 15);
    assert("Position angle"@.len() == 14);
    assert("Image scale"@.len() == 11);
    assert("Solve radius"@.len() == 12);
    assert("Pointing error"@.len() == 14);
    assert("Axis error"@.len() == 10);
    assert("Pixel error"@.len() == 11);
    assert("Orientation"@.len() == 11);
    assert("Sequence item"@[0] == 'S');
    assert("Planned until"@[0] == 'P');
    assert("Progress"@[0] == 'P');
    assert("Expected"@[0] == 'E');
    assert("Operation"@[0] == 'O');
    assert("Countdown"@[0] == 'C');
    assert("Target temperature"@[0] == 'T');
    assert("Requested position"@[0] == 'R');
    assert("Requested rotation"@[0] == 'R');
    assert("Minimum time"@[0] == 'M');
    assert("Cooler power"@[0] == 'C');
    assert("Solve radius"@[0] == 'S');
    assert("Target altitude"@[7] == 'a');
    assert("Target rotation"@[7] == 'r');
    assert("Target altitude"@[0] == 'T');
    assert("Solved position"@[0] == 'S');
    assert("Safety monitor"@[0] == 'S');
    assert("Check interval"@[0] == 'C');
    assert("Position angle"@[0] == 'P');
    assert("Pointing error"@[0] == 'P');
    assert("Destination"@[0] == 'D');
    assert("Plate solve"@[0] == 'P');
    assert("Image scale"@[0] == 'I');
    assert("Pixel error"@[0] == 'P');
    assert("Orientation"@[0] == 'O');
    assert("Target rotation"@[0] == 'T');
    assert("Requested position"@[10] == 'p');
    assert("Requested rotation"@[10] == 'r');
    assert("Plate solve"@[1] == 'l');
    assert("Pixel error"@[1] == 'i');
    assert("Position angle"@[2] == 's');
    assert("Pointing error"@[2] == 'i');
    let stage = stage_of(update);
    let (name, title) = heading_text(class_of(t.operation.kind), stage);
    let a = message_at(titled_text(telescope, title),
        now).colored(update_color(t.operation.kind, stage)).with("Operation"@, name,
        true).with("Sequence item"@, t.operation.name@, true);
    let b = match update {
        OperationUpdate::Progress(percent) => a.with("Progress"@, dec(percent as nat) + "%"@, true),
        _ => a,
    };
    let c = with_particulars(b, t, stage, now);
    lemma_particulars_apart(b, t, stage, now, "Sequence item"@);
    lemma_particulars_apart(b, t, stage, now, "Progress"@);
    if output_of(t.operation.kind) is Some {
        lemma_output_apart(c, output_of(t.operation.kind)->0, "Sequence item"@);
        lemma_output_apart(c, output_of(t.operation.kind)->0, "Progress"@);
    }
}

/// Each stage of each operation has the title that says what has happened to it.
#[verifier::spinoff_prover]
pub proof fn operations_have_their_titles(
    telescope: Seq<char>,
    t: TrackedSequenceOperation,
    update: OperationUpdate,
    now: Moment,
)
    ensures
        ({
            let m = operation_message(telescope, t, update, now);
            &&& (t.operation.kind is CameraCooling && update is Started
                ==> m.title == "["@ + telescope + "] "@ + "❄️ Camera cooling started"@
                && shown(m, "Operation"@) == Some("Camera cooling"@))
            &&& (t.operation.kind is CameraCooling && update is Progress
                ==> m.title == "["@ + telescope + "] "@ + "❄️ Camera cooling update"@
                && shown(m, "Operation"@) == Some("Camera cooling"@))
            &&& (t.operation.kind is CameraCooling && update is Finished
                ==> m.title == "["@ + telescope + "] "@ + "✅ Camera cooling finished"@
                && shown(m, "Operation"@) == Some("Camera cooling"@))
            &&& (t.operation.kind is CameraCooling && update is Ended
                ==> m.title == "["@ + telescope + "] "@ + "Camera cooling ended"@
                && shown(m, "Operation"@) == Some("Camera cooling"@))
            &&& (t.operation.kind is CameraCooling && update is Failed
                ==> m.title == "["@ + telescope + "] "@ + "❌ Camera cooling failed"@
                && shown(m, "Operation"@) == Some("Camera cooling"@))
            &&& (t.operation.kind is CameraWarming && update is Started
                ==> m.title == "["@ + telescope + "] "@ + "🌡️ Camera warming started"@
                && shown(m, "Operation"@) == Some("Camera warming"@))
            &&& (t.operation.kind is CameraWarming && update is Progress
                ==> m.title == "["@ + telescope + "] "@ + "🌡️ Camera warming update"@
                && shown(m, "Operation"@) == Some("Camera warming"@))
            &&& (t.operation.kind is CameraWarming && update is Finished
                ==> m.title == "["@ + telescope + "] "@ + "✅ Camera warming finished"@
                && shown(m, "Operation"@) == Some("Camera warming"@))
            &&& (t.operation.kind is CameraWarming && update is Ended
                ==> m.title == "["@ + telescope + "] "@ + "Camera warming ended"@
                && shown(m, "Operation"@) == Some("Camera warming"@))
            &&& (t.operation.kind is CameraWarming && update is Failed
                ==> m.title == "["@ + telescope + "] "@ + "❌ Camera warming failed"@
                && shown(m, "Operation"@) == Some("Camera warming"@))
            &&& (t.operation.kind is TimeWait && update is Started
                ==> m.title == "["@ + telescope + "] "@ + "⏳ Timed wait started"@
                && shown(m, "Operation"@) == Some("Timed wait"@))
            &&& (t.operation.kind is TimeWait && update is Progress
                ==> m.title == "["@ + telescope + "] "@ + "⏳ Timed wait update"@
                && shown(m, "Operation"@) == Some("Timed wait"@))
            &&& (t.operation.kind is TimeWait && update is Finished
                ==> m.title == "["@ + telescope + "] "@ + "✅ Timed wait finished"@
                && shown(m, "Operation"@) == Some("Timed wait"@))
            &&& (t.operation.kind is TimeWait && update is Ended
                ==> m.title == "["@ + telescope + "] "@ + "Timed wait ended"@
                && shown(m, "Operation"@) == Some("Timed wait"@))
            &&& (t.operation.kind is TimeWait && update is Failed
                ==> m.title == "["@ + telescope + "] "@ + "❌ Timed wait failed"@
                && shown(m, "Operation"@) == Some("Timed wait"@))
            &&& (t.operation.kind is AstronomicalWait && update is Started
                ==> m.title == "["@ + telescope + "] "@ + "🌌 Astronomical wait started"@
                && shown(m, "Operation"@) == Some("Astronomical wait"@))
            &&& (t.operation.kind is AstronomicalWait && update is Finished
                ==> m.title == "["@ + telescope + "] "@ + "✅ Astronomical condition reached"@
                && shown(m, "Operation"@) == Some("Astronomical wait"@))
            &&& (t.operation.kind is AstronomicalWait && update is Ended
                ==> m.title == "["@ + telescope + "] "@ + "Astronomical wait ended"@
                && shown(m, "Operation"@) == Some("Astronomical wait"@))
            &&& (t.operation.kind is AstronomicalWait && update is Failed
                ==> m.title == "["@ + telescope + "] "@ + "❌ Astronomical wait failed"@
                && shown(m, "Operation"@) == Some("Astronomical wait"@))
            &&& (t.operation.kind is SafetyWait && update is Started
                ==> m.title == "["@ + telescope + "] "@ + "🛡️ Waiting for safe conditions"@
                && shown(m, "Operation"@) == Some("Safety wait"@))
            &&& (t.operation.kind is SafetyWait && update is Finished
                ==> m.title == "["@ + telescope + "] "@ + "✅ Safe conditions reached"@
                && shown(m, "Operation"@) == Some("Safety wait"@))
            &&& (t.operation.kind is SafetyWait && update is Ended
                ==> m.title == "["@ + telescope + "] "@ + "Safety wait ended"@
                && shown(m, "Operation"@) == Some("Safety wait"@))
            &&& (t.operation.kind is SafetyWait && update is Failed
                ==> m.title == "["@ + telescope + "] "@ + "❌ Safety wait failed"@
                && shown(m, "Operation"@) == Some("Safety wait"@))
            &&& (t.operation.kind is ConditionWait && update is Started
                ==> m.title == "["@ + telescope + "] "@ + "⏳ Waiting for a sequence condition"@
                && shown(m, "Operation"@) == Some("Condition wait"@))
            &&& (t.operation.kind is ConditionWait && update is Finished
                ==> m.title == "["@ + telescope + "] "@ + "✅ Sequence condition reached"@
                && shown(m, "Operation"@) == Some("Condition wait"@))
            &&& (t.operation.kind is ConditionWait && update is Ended
                ==> m.title == "["@ + telescope + "] "@ + "Sequence condition wait ended"@
                && shown(m, "Operation"@) == Some("Condition wait"@))
            &&& (t.operation.kind is ConditionWait && update is Failed
                ==> m.title == "["@ + telescope + "] "@ + "❌ Sequence condition wait failed"@
                && shown(m, "Operation"@) == Some("Condition wait"@))
            &&& (t.operation.kind is ManualWait && update is Started
                ==> m.title == "["@ + telescope + "] "@ + "⏸️ Waiting for manual sequence resume"@
                && shown(m, "Operation"@) == Some("Manual wait"@))
            &&& (t.operation.kind is ManualWait && update is Finished
                ==> m.title == "["@ + telescope + "] "@ + "▶️ Sequence manually resumed"@
                && shown(m, "Operation"@) == Some("Manual wait"@))
            &&& (t.operation.kind is ManualWait && update is Ended
                ==> m.title == "["@ + telescope + "] "@ + "Manual sequence wait ended"@
                && shown(m, "Operation"@) == Some("Manual wait"@))
            &&& (t.operation.kind is ManualWait && update is Failed
                ==> m.title == "["@ + telescope + "] "@ + "❌ Manual sequence wait failed"@
                && shown(m, "Operation"@) == Some("Manual wait"@))
            &&& (t.operation.kind is MountSlew && update is Started
                ==> m.title == "["@ + telescope + "] "@ + "🔭 Mount slew started"@
                && shown(m, "Operation"@) == Some("Mount slew"@))
            &&& (t.operation.kind is MountSlew && update is Finished
                ==> m.title == "["@ + telescope + "] "@ + "✅ Mount slew finished"@
                && shown(m, "Operation"@) == Some("Mount slew"@))
            &&& (t.operation.kind is MountSlew && update is Ended
                ==> m.title == "["@ + telescope + "] "@ + "Mount slew ended"@
                && shown(m, "Operation"@) == Some("Mount slew"@))
            &&& (t.operation.kind is MountSlew && update is Failed
                ==> m.title == "["@ + telescope + "] "@ + "❌ Mount slew failed"@
                && shown(m, "Operation"@) == Some("Mount slew"@))
            &&& (t.operation.kind is MountCenter && update is Started
                ==> m.title == "["@ + telescope + "] "@ + "🎯 Centering started"@
                && shown(m, "Operation"@) == Some("Center"@))
            &&& (t.operation.kind is MountCenter && update is Output
                ==> m.title == "["@ + telescope + "] "@ + "🔎 Plate solve result"@
                && shown(m, "Operation"@) == Some("Center"@))
            &&& (t.operation.kind is MountCenter && update is Finished
                ==> m.title == "["@ + telescope + "] "@ + "✅ Centering finished"@
                && shown(m, "Operation"@) == Some("Center"@))
            &&& (t.operation.kind is MountCenter && update is Ended
                ==> m.title == "["@ + telescope + "] "@ + "Centering ended"@
                && shown(m, "Operation"@) == Some("Center"@))
            &&& (t.operation.kind is MountCenter && update is Failed
                ==> m.title == "["@ + telescope + "] "@ + "❌ Centering failed"@
                && shown(m, "Operation"@) == Some("Center"@))
            &&& (t.operation.kind is PlateSolve && update is Started
                ==> m.title == "["@ + telescope + "] "@ + "🔎 Plate solve started"@
                && shown(m, "Operation"@) == Some("Plate solve"@))
            &&& (t.operation.kind is PlateSolve && update is Output
                ==> m.title == "["@ + telescope + "] "@ + "🔎 Plate solve result"@
                && shown(m, "Operation"@) == Some("Plate solve"@))
            &&& (t.operation.kind is PlateSolve && update is Finished
                ==> m.title == "["@ + telescope + "] "@ + "✅ Plate solve finished"@
                && shown(m, "Operation"@) == Some("Plate solve"@))
            &&& (t.operation.kind is PlateSolve && update is Ended
                ==> m.title == "["@ + telescope + "] "@ + "Plate solve ended"@
                && shown(m, "Operation"@) == Some("Plate solve"@))
            &&& (t.operation.kind is PlateSolve && update is Failed
                ==> m.title == "["@ + telescope + "] "@ + "❌ Plate solve failed"@
                && shown(m, "Operation"@) == Some("Plate solve"@))
        }),
{
    broadcast use group_fields;
    reveal_strlit("Sequence item");
    reveal_strlit("Progress");
    reveal_strlit("Operation");
    reveal_strlit("Target temperature");
    reveal_strlit("Minimum time");
    reveal_strlit("Current temperature");
    reveal_strlit("Cooler power");
    reveal_strlit("Until");
    reveal_strlit("Countdown");
    reveal_strlit("Planned until");
    reveal_strlit("Target altitude");
    reveal_strlit("Current altitude");
    reveal_strlit("Expected");
    reveal_strlit("Safety monitor");
    reveal_strlit("Check interval");
    reveal_strlit("Destination");
    reveal_strlit("Target");
    reveal_strlit("Target rotation");
    reveal_strlit("Requested position");
    reveal_strlit("Requested rotation");
    reveal_strlit("Plate solve");
    reveal_strlit("Solved position");
    reveal_strlit("Position angle");
    reveal_strlit("Image scale");
    reveal_strlit("Solve radius");
    reveal_strlit("Pointing error");
    reveal_strlit("Axis error");
    reveal_strlit("Pixel error");
    reveal_strlit("Orientation");
    assert("Sequence item"@.len() == 13);
    assert("Progress"@.len() == 8);
    assert("Operation"@.len() == 9);
    assert("Target temperature"@.len() == 18);
    assert("Minimum time"@.len() == 12);
    assert("Current temperature"@.len() == 19);
    assert("Cooler power"@.len() == 12);
    assert("Until"@.len() == 5);
    assert("Countdown"@.len() == 9);
    assert("Planned until"@.len() == 13);
    assert("Target altitude"@.len() == 15);
    assert("Current altitude"@.len() == 16);
    assert("Expected"@.len() == 8);
    assert("Safety monitor"@.len() == 14);
    assert("Check interval"@.len() == 14);
    assert("Destination"@.len() == 11);
    assert("Target"@.len() == 6);
    assert("Target rotation"@.len() == 15);
    assert("Requested position"@.len() == 18);
    assert("Requested rotation"@.len() == 18);
    assert("Plate solve"@.len() == 11);
    assert("Solved position"@.len() == 15);
    assert("Position angle"@.len() == 14);
    assert("Image scale"@.len() == 11);
    assert("Solve radius"@.len() == 12);
    assert("Pointing error"@.len() == 14);
    assert("Axis error"@.len() == 10);
    assert("Pixel error"@.len() == 11);
    assert("Orientation"@.len() == 11);
    assert("Sequence item"@[0] == 'S');
    assert("Planned until"@[0] == 'P');
    assert("Progress"@[0] == 'P');
    assert("Expected"@[0] == 'E');
    assert("Operation"@[0] == 'O');
    assert("Countdown"@[0] == 'C');
    assert("Target temperature"@[0] == 'T');
    assert("Requested position"@[0] == 'R');
    assert("Requested rotation"@[0] == 'R');
    assert("Minimum time"@[0] == 'M');
    assert("Cooler power"@[0] == 'C');
    assert("Solve radius"@[0] == 'S');
    assert("Target altitude"@[7] == 'a');
    assert("Target rotation"@[7] == 'r');
    assert("Target altitude"@[0] == 'T');
    assert("Solved position"@[0] == 'S');
    assert("Safety monitor"@[0] == 'S');
    assert("Check interval"@[0] == 'C');
    assert("Position angle"@[0] == 'P');
    assert("Pointing error"@[0] == 'P');
    assert("Destination"@[0] == 'D');
    assert("Plate solve"@[0] == 'P');
    assert("Image scale"@[0] == 'I');
    assert("Pixel error"@[0] == 'P');
    assert("Orientation"@[0] == 'O');
    assert("Target rotation"@[0] == 'T');
    assert("Requested position"@[10] == 'p');
    assert("Requested rotation"@[10] == 'r');
    assert("Plate solve"@[1] == 'l');
    assert("Pixel error"@[1] == 'i');
    assert("Position angle"@[2] == 's');
    assert("Pointing error"@[2] == 'i');
    let stage = stage_of(update);
    let (name, title) = heading_text(class_of(t.operation.kind), stage);
    let a = message_at(titled_text(telescope, title),
        now).colored(update_color(t.operation.kind, stage)).with("Operation"@, name,
        true).with("Sequence item"@, t.operation.name@, true);
    let b = match update {
        OperationUpdate::Progress(percent) => a.with("Progress"@, dec(percent as nat) + "%"@, true),
        _ => a,
    };
    let c = with_particulars(b, t, stage, now);
    lemma_particulars_apart(b, t, stage, now, "Operation"@);
    if output_of(t.operation.kind) is Some {
        lemma_output_apart(c, output_of(t.operation.kind)->0, "Operation"@);
    }
}

/// The picture of a plate solve goes with a message about its result and with the last message
/// about the operation where that is to carry it, and never with another one. It is called by its
/// own format.
pub proof fn pictures_go_with_results(t: TrackedSequenceOperation, update: OperationUpdate)
    ensures
        update is Started || update is Progress ==> picture_of(t, update) is None,
        output_of(t.operation.kind) is None ==> picture_of(t, update) is None,
        output_of(t.operation.kind) matches Some(s) ==> {
            let carries = update is Output || update == (OperationUpdate::Finished {
                attach_output: true,
            }) || update == (OperationUpdate::Ended { attach_output: true }) || update == (
            OperationUpdate::Failed { attach_output: true });
            &&& !carries ==> picture_of(t, update) is None
            &&& s.thumbnail is None ==> picture_of(t, update) is None
            &&& carries ==> (s.thumbnail matches Some(picture) ==> {
                &&& picture_of(t, update) is Some
                &&& picture_of(t, update)->0 matches (bytes, _) && bytes == picture@
                &&& picture_of(t, update)->0 matches (_, name) && name
                    == (if s.thumbnail_media_type matches Some(kind)
                    && kind@ == "image/png"@ {
                    "plate_solve.png"@
                } else {
                    "plate_solve.jpg"@
                })
            })
        },
{
}

/// The message about the result of a plate solve is red where the solve failed, and only there.
#[verifier::spinoff_prover]
pub proof fn failed_solves_are_red(
    telescope: Seq<char>,
    t: TrackedSequenceOperation,
    now: Moment,
)
    ensures
        ({
            let m = operation_message(telescope, t, OperationUpdate::Output, now);
            &&& m.color == Some(if output_of(t.operation.kind) matches Some(s) && s.success
                == Some(false) { colors::RED } else { colors::CYAN })
        }),
{
    broadcast use group_fields;
    reveal_strlit("Sequence item");
    reveal_strlit("Progress");
    reveal_strlit("Operation");
    reveal_strlit("Target temperature");
    reveal_strlit("Minimum time");
    reveal_strlit("Current temperature");
    reveal_strlit("Cooler power");
    reveal_strlit("Until");
    reveal_strlit("Countdown");
    reveal_strlit("Planned until");
    reveal_strlit("Target altitude");
    reveal_strlit("Current altitude");
    reveal_strlit("Expected");
    reveal_strlit("Safety monitor");
    reveal_strlit("Check interval");
    reveal_strlit("Destination");
    reveal_strlit("Target");
    reveal_strlit("Target rotation");
    reveal_strlit("Requested position");
    reveal_strlit("Requested rotation");
    reveal_strlit("Plate solve");
    reveal_strlit("Solved position");
    reveal_strlit("Position angle");
    reveal_strlit("Image scale");
    reveal_strlit("Solve radius");
    reveal_strlit("Pointing error");
    reveal_strlit("Axis error");
    reveal_strlit("Pixel error");
    reveal_strlit("Orientation");
    assert("Sequence item"@.len() == 13);
    assert("Progress"@.len() == 8);
    assert("Operation"@.len() == 9);
    assert("Target temperature"@.len() == 18);
    assert("Minimum time"@.len() == 12);
    assert("Current temperature"@.len() == 19);
    assert("Cooler power"@.len() == 12);
    assert("Until"@.len() == 5);
    assert("Countdown"@.len() == 9);
    assert("Planned until"@.len() == 13);
    assert("Target altitude"@.len() == 15);
    assert("Current altitude"@.len() == 16);
    assert("Expected"@.len() == 8);
    assert("Safety monitor"@.len() == 14);
    assert("Check interval"@.len() == 14);
    assert("Destination"@.len() == 11);
    assert("Target"@.len() == 6);
    assert("Target rotation"@.len() == 15);
    assert("Requested position"@.len() == 18);
    assert("Requested rotation"@.len() == 18);
    assert("Plate solve"@.len() == 11);
    assert("Solved position"@.len() == 15);
    assert("Position angle"@.len() == 14);
    assert("Image scale"@.len() == 11);
    assert("Solve radius"@.len() == 12);
    assert("Pointing error"@.len() == 14);
    assert("Axis error"@.len() == 10);
    assert("Pixel error"@.len() == 11);
    assert("Orientation"@.len() == 11);
    assert("Sequence item"@[0] == 'S');
    assert("Planned until"@[0] == 'P');
    assert("Progress"@[0] == 'P');
    assert("Expected"@[0] == 'E');
    assert("Operation"@[0] == 'O');
    assert("Countdown"@[0] == 'C');
    assert("Target temperature"@[0] == 'T');
    assert("Requested position"@[0] == 'R');
    assert("Requested rotation"@[0] == 'R');
    assert("Minimum time"@[0] == 'M');
    assert("Cooler power"@[0] == 'C');
    assert("Solve radius"@[0] == 'S');
    assert("Target altitude"@[7] == 'a');
    assert("Target rotation"@[7] == 'r');
    assert("Target altitude"@[0] == 'T');
    assert("Solved position"@[0] == 'S');
    assert("Safety monitor"@[0] == 'S');
    assert("Check interval"@[0] == 'C');
    assert("Position angle"@[0] == 'P');
    assert("Pointing error"@[0] == 'P');
    assert("Destination"@[0] == 'D');
    assert("Plate solve"@[0] == 'P');
    assert("Image scale"@[0] == 'I');
    assert("Pixel error"@[0] == 'P');
    assert("Orientation"@[0] == 'O');
    assert("Target rotation"@[0] == 'T');
    assert("Requested position"@[10] == 'p');
    assert("Requested rotation"@[10] == 'r');
    assert("Plate solve"@[1] == 'l');
    assert("Pixel error"@[1] == 'i');
    assert("Position angle"@[2] == 's');
    assert("Pointing error"@[2] == 'i');
    let update = OperationUpdate::Output;
    let stage = stage_of(update);
    let (name, title) = heading_text(class_of(t.operation.kind), stage);
    let a = message_at(titled_text(telescope, title),
        now).colored(update_color(t.operation.kind, stage)).with("Operation"@, name,
        true).with("Sequence item"@, t.operation.name@, true);
    let b = match update {
        OperationUpdate::Progress(percent) => a.with("Progress"@, dec(percent as nat) + "%"@, true),
        _ => a,
    };
    let c = with_particulars(b, t, stage, now);
    lemma_particulars_apart(b, t, stage, now, "Progress"@);
    if output_of(t.operation.kind) is Some {
        lemma_output_apart(c, output_of(t.operation.kind)->0, "Progress"@);
    }
}

} // verus!
