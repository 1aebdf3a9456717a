//! The lines that the program prints for whoever watches its console.

use vstd::prelude::*;
use crate::autofocus::{AutofocusData, AutofocusResponse};
use crate::autofocus_delivery::successful;
use crate::double::Double;
use crate::telescope_messages::ImageMetadata;
use crate::text::{
    cat2, cat3, cat4, dec_int, decimal_int, no_texts, opt_view, push_text, trimmed, views,
};
use crate::updater_state::{StateView, UpdaterState};

verus! {

/// One more line, where there is anything to print.
pub open spec fn with_line(lines: Seq<Seq<char>>, label: Seq<char>, text: Option<Seq<char>>) -> Seq<
    Seq<char>,
> {
    match text {
        Some(t) => lines.push(label + t),
        None => lines,
    }
}

/// One more line with a number in front of a unit, where there is a number.
pub open spec fn with_number(
    lines: Seq<Seq<char>>,
    label: Seq<char>,
    value: Option<Double>,
    places: nat,
    unit: Seq<char>,
) -> Seq<Seq<char>> {
    match value {
        Some(v) => lines.push(label + v.fixed_text(places) + unit),
        None => lines,
    }
}

fn add_line(lines: &mut Vec<String>, label: &str, text: &Option<String>)
    ensures
        views(final(lines)@) == with_line(views(old(lines)@), label@, opt_view(*text)),
{
    if let Some(t) = text {
        push_text(lines, cat2(label, t.as_str()));
    }
}

fn add_number(lines: &mut Vec<String>, label: &str, value: Option<Double>, places: usize, unit: &str)
    requires
        places <= 8,
    ensures
        views(final(lines)@) == with_number(
            views(old(lines)@),
            label@,
            value,
            places as nat,
            unit@,
        ),
{
    if let Some(v) = value {
        push_text(lines, cat3(label, v.fixed(places).as_str(), unit));
    }
}

/// The lines that every run has.
pub open spec fn run_head(a: AutofocusData, good: bool) -> Seq<Seq<char>> {
    seq![
        (if good {
            "✅"@
        } else {
            "⚠️"@
        }) + " Autofocus Summary"@,
        "  Filter: "@ + (if trimmed(a.filter@).len() == 0 {
            "No filter"@
        } else {
            trimmed(a.filter@)
        }),
        "  Mode: "@ + a.method_text(),
        if a.temperature.finite() {
            "  Temperature: "@ + a.temperature.fixed_text(1) + "°C"@
        } else {
            "  Temperature: n/a"@
        },
        "  Duration: "@ + a.duration@,
        "  Position Change: "@ + a.calculated_focus_point.position.difference(
            a.initial_focus_point.position,
        ).fixed_text(0),
        match a.fit_quality_text() {
            Some(t) => "  Fit R-squared: "@ + t,
            None => "  Fit R-squared: n/a"@,
        },
    ]
}

/// The lines about a run whose report came.
pub open spec fn run_text(a: AutofocusData, good: bool) -> Seq<Seq<char>> {
    let b = with_line(run_head(a, good), "  Accepted stars per point: "@, a.star_count_text());
    let c = with_number(b, "  Focus precision: ±"@, a.hyperbolic_minimum_std_error, 2, " steps"@);
    let d = with_number(
        c,
        "  Leave-one-out stability: "@,
        a.hyperbolic_leave_one_out_std_error,
        2,
        " steps"@,
    );
    let e = with_number(d, "  Reduced chi-squared: "@, a.hyperbolic_reduced_chi_squared, 4, ""@);
    with_line(e, "  Detection region: "@, a.region_text())
}

/// The lines about an autofocus report.
pub open spec fn autofocus_text(r: AutofocusResponse) -> Seq<Seq<char>> {
    if !r.success {
        seq!["❌ Autofocus failed: "@ + r.error@]
    } else {
        run_text(r.response, successful(r))
    }
}

pub fn autofocus_lines(report: &AutofocusResponse) -> (r: Vec<String>)
    ensures
        views(r@) == autofocus_text(*report),
{
    let mut lines: Vec<String> = no_texts();
    if !report.success {
        push_text(&mut lines, cat2("❌ Autofocus failed: ", report.error.as_str()));
        assert(views(lines@) =~= autofocus_text(*report));
        return lines;
    }
    let a = &report.response;
    let mark: &str = if report.is_successful() {
        "✅"
    } else {
        "⚠️"
    };
    push_text(&mut lines, cat2(mark, " Autofocus Summary"));
    push_text(&mut lines, cat2("  Filter: ", a.filter_name().as_str()));
    push_text(&mut lines, cat2("  Mode: ", a.method_summary().as_str()));
    if a.temperature.is_finite() {
        push_text(&mut lines, cat3("  Temperature: ", a.temperature.fixed(1).as_str(), "°C"));
    } else {
        push_text(&mut lines, String::from_str("  Temperature: n/a"));
    }
    push_text(&mut lines, cat2("  Duration: ", a.duration.as_str()));
    let change: Double = a.calculated_focus_point.position.minus(a.initial_focus_point.position);
    push_text(&mut lines, cat2("  Position Change: ", change.fixed(0).as_str()));
    match a.fit_quality_summary() {
        Some(t) => push_text(&mut lines, cat2("  Fit R-squared: ", t.as_str())),
        None => push_text(&mut lines, String::from_str("  Fit R-squared: n/a")),
    }
    assert(views(lines@) =~= run_head(*a, successful(*report)));
    add_line(&mut lines, "  Accepted stars per point: ", &a.accepted_star_count_summary());
    add_number(&mut lines, "  Focus precision: ±", a.hyperbolic_minimum_std_error, 2, " steps");
    add_number(
        &mut lines,
        "  Leave-one-out stability: ",
        a.hyperbolic_leave_one_out_std_error,
        2,
        " steps",
    );
    add_number(&mut lines, "  Reduced chi-squared: ", a.hyperbolic_reduced_chi_squared, 4, "");
    add_line(&mut lines, "  Detection region: ", &a.region_summary());
    lines
}

/// The lines about a new image. `flip` is how long it is until the meridian flip.
pub open spec fn image_text(s: StateView, image: ImageMetadata, flip: Option<Seq<char>>) -> Seq<
    Seq<char>,
> {
    let a = seq!["[NEW IMAGE] "@ + image.date@];
    let b = with_line(
        a,
        "  Target: "@,
        match s.current_target {
            Some(t) => Some(t.name@),
            None => None,
        },
    );
    let c = with_line(
        b,
        "  Meridian flip in: "@,
        if s.meridian_flip_time is Some {
            flip
        } else {
            None
        },
    );
    c.push("  Camera: "@ + image.camera_name@).push("  Type: "@ + image.image_type@).push(
        "  Filter: "@ + image.filter@,
    ).push("  Exposure: "@ + image.exposure_time.plain_text() + "s"@).push(
        "  Temperature: "@ + image.temperature.fixed_text(1) + "°C"@,
    ).push("  Stars: "@ + dec_int(image.stars as int) + ", HFR: "@ + image.hfr.fixed_text(2)).push(
        "  RMS: "@ + image.rms_text@,
    ).push(""@)
}

impl UpdaterState {
    pub fn image_lines(&self, image: &ImageMetadata, flip: &Option<String>) -> (r: Vec<String>)
        ensures
            views(r@) == image_text(self@, *image, opt_view(*flip)),
    {
        let mut lines: Vec<String> = no_texts();
        push_text(&mut lines, cat2("[NEW IMAGE] ", image.date.as_str()));
        assert(views(lines@) =~= seq!["[NEW IMAGE] "@ + image.date@]);
        if let Some(t) = &self.current_target {
            push_text(&mut lines, cat2("  Target: ", t.name.as_str()));
        }
        if self.meridian_flip_time.is_some() {
            add_line(&mut lines, "  Meridian flip in: ", flip);
        }
        push_text(&mut lines, cat2("  Camera: ", image.camera_name.as_str()));
        push_text(&mut lines, cat2("  Type: ", image.image_type.as_str()));
        push_text(&mut lines, cat2("  Filter: ", image.filter.as_str()));
        push_text(&mut lines, cat3("  Exposure: ", image.exposure_time.plain().as_str(), "s"));
        push_text(&mut lines, cat3("  Temperature: ", image.temperature.fixed(1).as_str(), "°C"));
        push_text(
            &mut lines,
            cat4(
                "  Stars: ",
                decimal_int(image.stars as i128).as_str(),
                ", HFR: ",
                image.hfr.fixed(2).as_str(),
            ),
        );
        push_text(&mut lines, cat2("  RMS: ", image.rms_text.as_str()));
        push_text(&mut lines, String::from_str(""));
        lines
    }
}

} // verus!
