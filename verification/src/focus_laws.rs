//! What is promised of autofocus runs: how they are put into words, and how long a report is asked
//! for.

use vstd::prelude::*;
use crate::autofocus::{
    least_value, measured_at, quality_texts, AutofocusData, FocusPoint, HocusHyperbolicFitModel,
    NamedView,
};
use crate::autofocus_delivery::{
    report_matches_at, DueAction, PendingAutofocusDelivery, ReadOutcome, Resolution,
};
use crate::calendar::Moment;
use crate::clock::Tick;
use crate::double::{signed, Double, EPSILON, HUNDRED, ONE};
use crate::source::RigSourceError;
use crate::text::{ascii_upper, dec_int, has_part, joined, same_ignoring_case, trimmed};

verus! {

/// What a run measured and how it was fitted, in words.
pub open spec fn method_words(a: AutofocusData) -> Seq<char> {
    if same_ignoring_case(a.method@, "CONTRASTDETECTION"@) {
        "Contrast"@
    } else if same_ignoring_case(a.method@, "STARHFR"@) {
        "Star HFR"@
    } else {
        a.method@
    }
}

/// A fit is told of by what was measured and by the curve that was fitted; one by a hyperbola also
/// by the model that was chosen, where one was.
#[verifier::spinoff_prover]
pub proof fn modes_name_method_and_curve(a: AutofocusData)
    ensures
        ({
            let upper = ascii_upper(a.fitting@);
            let plain = a.hyperbolic_fit_model_chosen is None || !has_part(upper, "HYPERBOLIC"@);
            let m = method_words(a) + " · "@;
            &&& plain && upper == "TRENDLINES"@ ==> a.method_text() == m + "Trend lines"@
            &&& plain && upper == "PARABOLIC"@ ==> a.method_text() == m + "Parabolic"@
            &&& plain && upper == "TRENDPARABOLIC"@ ==> a.method_text() == m + "Trend + parabolic"@
            &&& plain && upper == "HYPERBOLIC"@ ==> a.method_text() == m + "Hyperbolic"@
            &&& plain && upper == "TRENDHYPERBOLIC"@ ==> a.method_text() == m
                + "Trend + hyperbolic"@
            &&& plain && upper == "GAUSSIAN"@ ==> a.method_text() == m + "Gaussian"@
            &&& !plain && upper == "HYPERBOLIC"@ ==> a.method_text() == m + "Hyperbolic"@ + " · "@
                + a.hyperbolic_fit_model_chosen->0.display_text()
            &&& !plain && upper == "TRENDHYPERBOLIC"@ ==> a.method_text() == m
                + "Trend + hyperbolic"@ + " · "@ + a.hyperbolic_fit_model_chosen->0.display_text()
        }),
{
    lemma_fittings();
}

proof fn lemma_fittings()
    ensures
        "TRENDLINES"@.len() == 10,
        "PARABOLIC"@.len() == 9,
        "TRENDPARABOLIC"@.len() == 14,
        "HYPERBOLIC"@.len() == 10,
        "TRENDHYPERBOLIC"@.len() == 15,
        "GAUSSIAN"@.len() == 8,
        "TRENDLINES"@[0] == 'T',
        "HYPERBOLIC"@[0] == 'H',
{
    reveal_strlit("TRENDLINES");
    reveal_strlit("PARABOLIC");
    reveal_strlit("TRENDPARABOLIC");
    reveal_strlit("HYPERBOLIC");
    reveal_strlit("TRENDHYPERBOLIC");
    reveal_strlit("GAUSSIAN");
}

/// A number that is finite, under a name, as the only one of a list.
pub open spec fn when_known(name: Seq<char>, value: Double) -> Seq<NamedView> {
    if value.finite() {
        seq![NamedView { name, value }]
    } else {
        Seq::empty()
    }
}

/// The quality of a fit is told by the curves that were fitted and by no others, as far as they are
/// finite: a hyperbola by its own figure, trend lines by the two sides.
#[verifier::spinoff_prover]
pub proof fn quality_is_told_by_the_fitted_curves(a: AutofocusData)
    ensures
        ({
            let upper = ascii_upper(a.fitting@);
            let r = a.r_squares;
            let sides = when_known("Left"@, r.left_trend) + when_known("Right"@, r.right_trend);
            &&& upper == "TRENDLINES"@ ==> a.selected_r_squared() =~= sides
            &&& upper == "PARABOLIC"@ ==> a.selected_r_squared() =~= when_known(
                "Parabolic"@,
                r.quadratic,
            )
            &&& upper == "TRENDPARABOLIC"@ ==> a.selected_r_squared() =~= when_known(
                "Parabolic"@,
                r.quadratic,
            ) + sides
            &&& upper == "HYPERBOLIC"@ ==> a.selected_r_squared() =~= when_known(
                "Hyperbolic"@,
                r.hyperbolic,
            )
            &&& upper == "TRENDHYPERBOLIC"@ ==> a.selected_r_squared() =~= when_known(
                "Hyperbolic"@,
                r.hyperbolic,
            ) + sides
            &&& upper == "GAUSSIAN"@ ==> a.selected_r_squared().len() == 0
        }),
{
    lemma_fittings();
}

/// The quality of a fit in words: nothing where no figure is finite, the figure alone where there
/// is one, and each with its name where there are several.
pub proof fn quality_is_told_in_four_places(a: AutofocusData)
    ensures
        ({
            let v = a.selected_r_squared();
            &&& v.len() == 0 ==> a.fit_quality_text() is None
            &&& v.len() == 1 ==> a.fit_quality_text() == Some(v[0].value.fixed_text(4))
            &&& v.len() > 1 ==> a.fit_quality_text() == Some(joined(quality_texts(v), " · "@))
            &&& forall|i: int|
                0 <= i < v.len() ==> #[trigger] quality_texts(v)[i] == v[i].name + " "@
                    + v[i].value.fixed_text(4)
        }),
{
}

/// How many stars were accepted is told as a range where the least and the most differ, and as one
/// number where they do not or where only one of them is known. Negative counts are none.
pub proof fn star_counts_are_ranges(a: AutofocusData, least: i32, most: i32)
    requires
        least >= 0,
        most >= 0,
    ensures
        a.accepted_star_count_min == Some(least) && a.accepted_star_count_max == Some(most) && least
            != most ==> a.star_count_text() == Some(
            dec_int(least as int) + "–"@ + dec_int(most as int),
        ),
        a.accepted_star_count_min == Some(least) && a.accepted_star_count_max == Some(most) && least
            == most ==> a.star_count_text() == Some(dec_int(least as int)),
        a.accepted_star_count_min == Some(least) && (a.accepted_star_count_max matches Some(n)
            ==> n < 0) ==> a.star_count_text() == Some(dec_int(least as int)),
        (a.accepted_star_count_min matches Some(n) ==> n < 0) && a.accepted_star_count_max == Some(
            most,
        ) ==> a.star_count_text() == Some(dec_int(most as int)),
        (a.accepted_star_count_min matches Some(n) ==> n < 0)
            && (a.accepted_star_count_max matches Some(
            n,
        ) ==> n < 0) ==> a.star_count_text() is None,
{
}

/// A fit is told to have been accepted by the threshold of the criterion that was applied, and of
/// no other.
#[verifier::spinoff_prover]
pub proof fn acceptance_is_told_by_its_criterion(a: AutofocusData)
    ensures
        a.hocus_focus_algorithm is None ==> a.fit_acceptance_text() is None,
        a.hocus_focus_algorithm matches Some(h) ==> {
            &&& h.fit_rejection_criterion is None ==> a.fit_acceptance_text() is None
            &&& h.fit_rejection_criterion matches Some(c) ==> {
                &&& c@ == "Reduced χ²"@ ==> (match h.reduced_chi_squared_rejection_threshold {
                    Some(t) => a.fit_acceptance_text() == Some("Reduced χ² ≤ "@ + t.fixed_text(3)),
                    None => a.fit_acceptance_text() is None,
                })
                &&& c@ == "R²"@ ==> (match h.r_squared_threshold {
                    Some(t) => a.fit_acceptance_text() == Some("R² ≥ "@ + t.fixed_text(3)),
                    None => a.fit_acceptance_text() is None,
                })
                &&& c@ != "Reduced χ²"@ && c@ != "R²"@ ==> a.fit_acceptance_text() == Some(c@)
            }
        },
{
    reveal_strlit("Reduced χ²");
    reveal_strlit("R²");
    assert("Reduced χ²"@.len() == 10 && "R²"@.len() == 2);
}

/// The models of a hyperbola go by these names.
pub proof fn models_have_names(code: i32, name: String)
    ensures
        HocusHyperbolicFitModel::Name(name).display_text() == name@,
        HocusHyperbolicFitModel::Code(0).display_text() == "Symmetric"@,
        HocusHyperbolicFitModel::Code(1).display_text() == "Uneven Blend"@,
        HocusHyperbolicFitModel::Code(2).display_text() == "Tilted Hyperbola"@,
        HocusHyperbolicFitModel::Code(3).display_text() == "Smooth Blend"@,
        HocusHyperbolicFitModel::Code(4).display_text() == "Hybrid (Best Fit)"@,
        code < 0 || code > 4 ==> HocusHyperbolicFitModel::Code(code).display_text() == "Model "@
            + dec_int(code as int),
{
}

/// The measurement at a position is that of the first point there; there is none where no point is.
pub proof fn measurements_are_found_by_position(points: Seq<FocusPoint>, position: Double)
    ensures
        match measured_at(points, position) {
            Some(v) => exists|i: int|
                0 <= i < points.len() && (#[trigger] points[i]).position.same_number(position)
                    && points[i].value == v && (forall|j: int|
                    0 <= j < i ==> !(#[trigger] points[j]).position.same_number(position)),
            None => forall|i: int|
                0 <= i < points.len() ==> !(#[trigger] points[i]).position.same_number(position),
        },
    decreases points.len(),
{
    if points.len() > 0 && !points[0].position.same_number(position) {
        let rest = points.subrange(1, points.len() as int);
        measurements_are_found_by_position(rest, position);
        match measured_at(rest, position) {
            Some(v) => {
                let k = choose|i: int|
                    0 <= i < rest.len() && (#[trigger] rest[i]).position.same_number(position)
                        && rest[i].value == v && (forall|j: int|
                        0 <= j < i ==> !(#[trigger] rest[j]).position.same_number(position));
                assert(points[k + 1] == rest[k]);
                assert forall|j: int| 0 <= j < k + 1 implies !(
                #[trigger] points[j]).position.same_number(position) by {
                    if j > 0 {
                        assert(points[j] == rest[j - 1]);
                    }
                }
            },
            None => {
                assert forall|i: int| 0 <= i < points.len() implies !(
                #[trigger] points[i]).position.same_number(position) by {
                    if i > 0 {
                        assert(points[i] == rest[i - 1]);
                    }
                }
            },
        }
    } else if points.len() > 0 {
        assert(points[0].position.same_number(position));
    }
}

/// The best measurement of a run is one of its finite values, and none of them is below it; there
/// is none only where no value is finite.
pub proof fn the_best_measurement_is_the_least(points: Seq<FocusPoint>)
    ensures
        match least_value(points, None) {
            Some(v) => {
                &&& v.finite()
                &&& exists|i: int| 0 <= i < points.len() && (#[trigger] points[i]).value == v
                &&& forall|i: int|
                    0 <= i < points.len() && (#[trigger] points[i]).value.finite()
                        ==> v.total_rank() <= points[i].value.total_rank()
            },
            None => forall|i: int| 0 <= i < points.len() ==> !(#[trigger] points[i]).value.finite(),
        },
{
    lemma_least(points, None);
}

proof fn lemma_least(points: Seq<FocusPoint>, best: Option<Double>)
    requires
        best matches Some(b) ==> b.finite(),
    ensures
        match least_value(points, best) {
            Some(v) => {
                &&& v.finite()
                &&& best == Some(v) || exists|i: int|
                    0 <= i < points.len() && (#[trigger] points[i]).value == v
                &&& best matches Some(b) ==> v.total_rank() <= b.total_rank()
                &&& forall|i: int|
                    0 <= i < points.len() && (#[trigger] points[i]).value.finite()
                        ==> v.total_rank() <= points[i].value.total_rank()
            },
            None => best is None && forall|i: int|
                0 <= i < points.len() ==> !(#[trigger] points[i]).value.finite(),
        },
    decreases points.len(),
{
    if points.len() > 0 {
        let v = points[0].value;
        let next = if !v.finite() {
            best
        } else {
            match best {
                Some(b) => if v.total_rank() < b.total_rank() {
                    Some(v)
                } else {
                    Some(b)
                },
                None => Some(v),
            }
        };
        let rest = points.subrange(1, points.len() as int);
        lemma_least(rest, next);
        let r = least_value(points, best);
        assert(r == least_value(rest, next));
        assert forall|i: int| 0 <= i < points.len() && (#[trigger] points[i]).value.finite()
            && r is Some implies (r->0).total_rank() <= points[i].value.total_rank() by {
            if i > 0 {
                assert(rest[i - 1] == points[i]);
            }
        }
        if r is Some && best != r {
            if next == r && next != best {
                assert(points[0].value == r->0);
            } else {
                let k = choose|k: int| 0 <= k < rest.len() && (#[trigger] rest[k]).value == r->0;
                assert(points[k + 1] == rest[k]);
            }
        }
        if r is None {
            assert forall|i: int| 0 <= i < points.len() implies !(
            #[trigger] points[i]).value.finite() by {
                if i > 0 {
                    assert(rest[i - 1] == points[i]);
                }
            }
        }
    }
}

/// A report is the one that is waited for where both timestamps name the same time, however they
/// are written, and is not where they name different ones. Texts that name no time must be the same
/// but for spaces around them. Where no report is named, any will do.
pub proof fn reports_match_by_time(
    expected: Seq<char>,
    actual: Seq<char>,
    a: Moment,
    b: Moment,
    at: Option<Moment>,
)
    ensures
        report_matches_at(Some(expected), actual, Some(a), Some(b)) == (a == b),
        report_matches_at(Some(expected), actual, None, at) == (trimmed(expected) == trimmed(
            actual,
        )),
        report_matches_at(Some(expected), actual, at, None) == (trimmed(expected) == trimmed(
            actual,
        )),
        report_matches_at(None, actual, None, at),
{
}

/// A report is waited for until its next attempt is due; then it is read while the delivery lives,
/// for what is left of its life, and given up after.
pub proof fn reports_are_read_when_due(d: PendingAutofocusDelivery, now: Tick)
    requires
        d.queued_at.nanos <= now.nanos,
    ensures
        now.nanos < d.next_attempt_at.nanos ==> d.due_action(now) == DueAction::Wait,
        now.nanos >= d.next_attempt_at.nanos && now.nanos - d.queued_at.nanos
            >= d.retry.overall_timeout.nanos ==> d.due_action(now) == DueAction::GiveUp,
        now.nanos >= d.next_attempt_at.nanos && now.nanos - d.queued_at.nanos
            < d.retry.overall_timeout.nanos ==> (d.due_action(now) matches DueAction::Read {
            timeout,
        } && timeout.nanos == d.retry.overall_timeout.nanos - (now.nanos - d.queued_at.nanos)),
{
}

/// A failed attempt is counted, and the report is given up with the last attempt that is allowed.
/// Until then it is asked for again after the present delay, held within the life of the delivery,
/// and the delay doubles up to its limit.
pub proof fn failed_attempts_are_counted(
    d: PendingAutofocusDelivery,
    error: RigSourceError,
    now: Tick,
)
    requires
        d.wf(),
        d.queued_at.nanos <= now.nanos,
        d.can_wait(now),
        !(error is Unavailable) && !(error is NotReady),
        d.attempts < 1000,
        d.retry.max_attempts > 0,
    ensures
        ({
            let r = d.resolved(ReadOutcome::Failed(error), now);
            let alive = now.nanos - d.queued_at.nanos < d.retry.overall_timeout.nanos;
            &&& d.attempts + 1 >= d.retry.max_attempts ==> r is Unavailable
            &&& !alive ==> r is Unavailable
            &&& d.attempts + 1 < d.retry.max_attempts && alive ==> (r matches Resolution::Retry(
                next,
            ) && next.attempts == d.attempts + 1 && next.queued_at == d.queued_at
                && next.event_time == d.event_time && next.report_timestamp == d.report_timestamp
                && next.next_attempt_at.nanos <= now.nanos + d.retry_delay.nanos
                && next.next_attempt_at.nanos <= d.queued_at.nanos
                + d.retry.overall_timeout.nanos && (now.nanos + d.retry_delay.nanos
                <= d.queued_at.nanos + d.retry.overall_timeout.nanos
                ==> next.next_attempt_at.nanos == now.nanos + d.retry_delay.nanos))
            &&& r matches Resolution::Retry(next) ==> d.retry.initial_delay.nanos
                <= d.retry_delay.nanos <= d.retry.max_delay.nanos && now.nanos
                + d.retry_delay.nanos <= d.queued_at.nanos + d.retry.overall_timeout.nanos
                ==> next.retry_delay.nanos == (if 2 * d.retry_delay.nanos
                <= d.retry.max_delay.nanos {
                2 * d.retry_delay.nanos
            } else {
                d.retry.max_delay.nanos as int
            })
        }),
{
}

/// A report in preparation spends no attempt and is given up only when it has been in preparation
/// for as long as is allowed, counted from when that was first heard, or when the delivery's life
/// is over.
pub proof fn preparation_is_waited_for(
    d: PendingAutofocusDelivery,
    error: RigSourceError,
    now: Tick,
)
    requires
        d.wf(),
        d.queued_at.nanos <= now.nanos,
        d.can_wait(now),
        error is NotReady,
        d.not_ready_since matches Some(t) ==> t.nanos <= now.nanos,
    ensures
        ({
            let r = d.resolved(ReadOutcome::Failed(error), now);
            let since = match d.not_ready_since {
                Some(t) => t,
                None => now,
            };
            let over = now.nanos - since.nanos >= d.retry.not_ready_timeout.nanos || now.nanos
                - d.queued_at.nanos >= d.retry.overall_timeout.nanos;
            &&& over ==> r is Unavailable
            &&& !over ==> (r matches Resolution::Retry(next) && next.attempts == d.attempts
                && next.not_ready_since == Some(since) && next.next_attempt_at.nanos <= now.nanos
                + d.retry_delay.nanos)
        }),
{
}

/// A source that cannot be reached spends no attempt, and a reading that takes too long ends the
/// delivery.
pub proof fn outages_spend_no_attempt(d: PendingAutofocusDelivery, error: RigSourceError, now: Tick)
    requires
        d.wf(),
        d.queued_at.nanos <= now.nanos,
        d.can_wait(now),
        error is Unavailable,
    ensures
        now.nanos - d.queued_at.nanos >= d.retry.overall_timeout.nanos ==> d.resolved(
            ReadOutcome::Failed(error),
            now,
        ) is Unavailable,
        now.nanos - d.queued_at.nanos < d.retry.overall_timeout.nanos ==> (d.resolved(
            ReadOutcome::Failed(error),
            now,
        ) matches Resolution::Retry(next) && next.attempts == d.attempts && next.queued_at
            == d.queued_at && next.not_ready_since == d.not_ready_since
            && next.next_attempt_at.nanos <= d.queued_at.nanos + d.retry.overall_timeout.nanos
            && next.next_attempt_at.nanos > now.nanos),
        d.resolved(ReadOutcome::TimedOut, now) is Unavailable,
{
}

/// The region in which stars were looked for is told by its number and its share of the frame,
/// width before height, unless it is the whole frame. A crop inside is no whole frame.
pub proof fn regions_are_told_by_their_share(a: AutofocusData)
    ensures
        a.region is None ==> a.region_text() is None,
        a.region matches Some(r) ==> (r.inner_crop_boundary is Some ==> a.region_text() == Some(
            "Region "@ + dec_int(r.index as int) + " · "@ + r.outer_boundary.width.product(
                Double { bits: HUNDRED },
            ).fixed_text(0) + "% × "@ + r.outer_boundary.height.product(
                Double { bits: HUNDRED },
            ).fixed_text(0) + "%"@,
        )),
        a.region is Some ==> a.region_text() is Some,
{
}

/// The whole frame is told as such: it starts at the corner and has the full width and height.
#[verifier::spinoff_prover]
pub proof fn whole_frames_are_told_as_such(a: AutofocusData)
    requires
        a.region matches Some(r) && r.inner_crop_boundary is None && r.outer_boundary.start_x == (
        Double { bits: 0 }) && r.outer_boundary.start_y == (Double { bits: 0 })
            && r.outer_boundary.width == (Double { bits: ONE }) && r.outer_boundary.height == (
        Double { bits: ONE }),
    ensures
        a.region_text() == Some("Full frame"@),
{
    let one = Double { bits: ONE };
    let minus = one.negated();
    assert(minus.magnitude() == one.magnitude() && minus.negative());
    assert(minus.value() == -one.value());
    let d = one.difference(one);
    assert(d == signed(false, 0));
    assert(d.absolute() == (Double { bits: 0 }));
    assert((Double { bits: EPSILON }).magnitude() == EPSILON);
    assert((Double { bits: 0 }).lt(Double { bits: EPSILON }));
}

/// How stars were detected is told by the mode, the average and the binning, in this order, as far
/// as they are known.
pub proof fn detection_is_told_in_order(a: AutofocusData)
    ensures
        a.hocus_focus_algorithm is None ==> a.detection_parts().len() == 0,
        a.hocus_focus_algorithm matches Some(h) ==> a.detection_parts() =~= (
        match h.star_detection_mode {
            Some(mode) => seq![mode@],
            None => Seq::empty(),
        }) + (match h.measurement_average {
            Some(average) => seq![average@],
            None => Seq::empty(),
        }) + (match h.detection_binning {
            Some(n) => seq![dec_int(n as int) + "× binning"@],
            None => Seq::empty(),
        }),
{
}

/// A run is one of the Hocus Focus plugin by its name, in any case of letters, or by what only that
/// plugin reports.
pub proof fn plugin_runs_are_told_apart(a: AutofocusData)
    ensures
        a.hocus_focus() <==> same_ignoring_case(a.auto_focuser_name@, "Hocus Focus"@)
            || a.final_hfr is Some || a.hyperbolic_fit_model_chosen is Some,
{
}

} // verus!
