//! Autofocus reports and what they say.

use vstd::prelude::*;
use crate::double::{Double, EPSILON, HUNDRED, ONE};
use crate::text::{
    ascii_upper, cat2, cat3, cat4, contains, dec_int, decimal_int, eq_ignore_ascii_case, has_part,
    join, joined, lemma_views_push, same, same_ignoring_case, to_ascii_upper, trim,
    trimmed, views,
};

verus! {

/// A measurement of focus at a position of the focuser.
#[derive(Clone, Copy, Debug, PartialEq, Eq, Structural)]
pub struct FocusPoint {
    pub position: Double,
    pub value: Double,
    pub error: Double,
}

/// The focus point before the run.
#[derive(Clone, Copy, Debug, PartialEq, Eq, Structural)]
pub struct PreviousFocusPoint {
    pub position: Double,
    pub value: Double,
    pub error: Double,
}

/// The extremum of a fitted curve.
#[derive(Clone, Copy, Debug, PartialEq, Eq, Structural)]
pub struct IntersectionPoint {
    pub position: Double,
    pub value: Double,
    pub error: Double,
}

#[derive(Clone, Copy, Debug, PartialEq, Eq, Structural)]
pub struct Intersections {
    pub trend_line_intersection: Option<IntersectionPoint>,
    pub hyperbolic_minimum: Option<IntersectionPoint>,
    pub quadratic_minimum: Option<IntersectionPoint>,
    pub gaussian_maximum: Option<IntersectionPoint>,
}

/// The formulas of the fitted curves.
#[derive(Clone, Debug)]
pub struct Fittings {
    pub quadratic: String,
    pub hyperbolic: String,
    pub gaussian: String,
    pub left_trend: String,
    pub right_trend: String,
}

/// How well the curves fit.
#[derive(Clone, Copy, Debug, PartialEq, Eq, Structural)]
pub struct RSquares {
    pub quadratic: Double,
    pub hyperbolic: Double,
    pub left_trend: Double,
    pub right_trend: Double,
}

#[derive(Clone, Debug)]
pub struct BacklashCompensation {
    pub backlash_compensation_model: String,
    pub backlash_in: i32,
    pub backlash_out: i32,
}

/// The hyperbolic model of a Hocus Focus run, by name or by number.
#[derive(Clone, Debug)]
pub enum HocusHyperbolicFitModel {
    Name(String),
    Code(i32),
}

impl HocusHyperbolicFitModel {
    pub open spec fn display_text(&self) -> Seq<char> {
        match self {
            HocusHyperbolicFitModel::Name(name) => name@,
            HocusHyperbolicFitModel::Code(code) => if *code == 0 {
                "Symmetric"@
            } else if *code == 1 {
                "Uneven Blend"@
            } else if *code == 2 {
                "Tilted Hyperbola"@
            } else if *code == 3 {
                "Smooth Blend"@
            } else if *code == 4 {
                "Hybrid (Best Fit)"@
            } else {
                "Model "@ + dec_int(*code as int)
            },
        }
    }

    pub fn display_name(&self) -> (r: String)
        ensures
            r@ == self.display_text(),
    {
        match self {
            HocusHyperbolicFitModel::Name(name) => name.clone(),
            HocusHyperbolicFitModel::Code(code) => if *code == 0 {
                String::from_str("Symmetric")
            } else if *code == 1 {
                String::from_str("Uneven Blend")
            } else if *code == 2 {
                String::from_str("Tilted Hyperbola")
            } else if *code == 3 {
                String::from_str("Smooth Blend")
            } else if *code == 4 {
                String::from_str("Hybrid (Best Fit)")
            } else {
                cat2("Model ", decimal_int(*code as i128).as_str())
            },
        }
    }
}

/// A part of the frame, in fractions of it.
#[derive(Clone, Copy, Debug, PartialEq, Eq, Structural)]
pub struct AutofocusRatioRect {
    pub start_x: Double,
    pub start_y: Double,
    pub width: Double,
    pub height: Double,
}

/// The part of the frame that was measured.
#[derive(Clone, Copy, Debug, PartialEq, Eq, Structural)]
pub struct AutofocusRegion {
    pub index: i32,
    pub outer_boundary: AutofocusRatioRect,
    pub inner_crop_boundary: Option<AutofocusRatioRect>,
}

/// The settings of a Hocus Focus run.
#[derive(Clone, Debug)]
pub struct HocusFocusAlgorithm {
    pub validate_hfr_improvement: Option<bool>,
    pub hfr_improvement_threshold: Option<Double>,
    pub weighted_hyperbolic_fit_enabled: Option<bool>,
    pub configured_hyperbolic_model: Option<String>,
    pub fit_rejection_criterion: Option<String>,
    pub reduced_chi_squared_rejection_threshold: Option<Double>,
    pub max_outlier_rejections: Option<i32>,
    pub outlier_rejection_confidence: Option<Double>,
    pub r_squared_threshold: Option<Double>,
    pub model_psf: Option<bool>,
    pub use_optimized_settings: Option<bool>,
    pub has_optimized_settings: Option<bool>,
    pub detection_binning: Option<i32>,
    pub measurement_average: Option<String>,
    pub star_detection_mode: Option<String>,
}

/// A saved autofocus report.
#[derive(Clone, Debug)]
pub struct AutofocusData {
    pub version: i32,
    pub filter: String,
    pub auto_focuser_name: String,
    pub star_detector_name: String,
    pub timestamp: String,
    pub temperature: Double,
    pub method: String,
    pub fitting: String,
    pub initial_focus_point: FocusPoint,
    pub calculated_focus_point: FocusPoint,
    pub previous_focus_point: PreviousFocusPoint,
    pub measure_points: Vec<FocusPoint>,
    pub intersections: Intersections,
    pub fittings: Fittings,
    pub r_squares: RSquares,
    pub backlash_compensation: BacklashCompensation,
    pub duration: String,
    pub final_hfr: Option<Double>,
    pub final_hfr_source: Option<String>,
    pub initial_hfr_measured: Option<bool>,
    pub hyperbolic_minimum_std_error: Option<Double>,
    pub hyperbolic_reduced_chi_squared: Option<Double>,
    pub hyperbolic_leave_one_out_std_error: Option<Double>,
    pub accepted_star_count_min: Option<i32>,
    pub accepted_star_count_max: Option<i32>,
    pub hyperbolic_fit_model_chosen: Option<HocusHyperbolicFitModel>,
    pub region: Option<AutofocusRegion>,
    pub hocus_focus_algorithm: Option<HocusFocusAlgorithm>,
}

/// The answer to a request for the last report.
#[derive(Clone, Debug)]
pub struct AutofocusResponse {
    pub response: AutofocusData,
    pub error: String,
    pub status_code: i32,
    pub success: bool,
    pub response_type: String,
}

/// The greater of two candidates in the total order of doubles; the later one where they tie.
pub open spec fn greater(a: Option<Double>, b: Double) -> Option<Double> {
    if !b.finite() {
        a
    } else {
        match a {
            Some(x) => if x.total_rank() <= b.total_rank() {
                Some(b)
            } else {
                Some(x)
            },
            None => Some(b),
        }
    }
}

fn greater_of(a: Option<Double>, b: Double) -> (r: Option<Double>)
    ensures
        r == greater(a, b),
{
    if !b.is_finite() {
        return a;
    }
    match a {
        Some(x) => if b.total_less(x) {
            Some(x)
        } else {
            Some(b)
        },
        None => Some(b),
    }
}

impl AutofocusResponse {
    /// The best finite R² of the four fits.
    pub open spec fn best_r_squared(&self) -> Option<Double> {
        let r = self.response.r_squares;
        greater(greater(greater(greater(None, r.quadratic), r.hyperbolic), r.left_trend), r.right_trend)
    }

    pub fn get_best_r_squared(&self) -> (r: Option<Double>)
        ensures
            r == self.best_r_squared(),
    {
        let s: RSquares = self.response.r_squares;
        let a: Option<Double> = greater_of(None, s.quadratic);
        let b: Option<Double> = greater_of(a, s.hyperbolic);
        let c: Option<Double> = greater_of(b, s.left_trend);
        greater_of(c, s.right_trend)
    }

    /// The run counts as successful.
    pub fn is_successful(&self) -> (r: bool)
        ensures
            r == (self.success && self.response.calculated_focus_point.error.same_number(
                Double { bits: 0 },
            )),
    {
        self.success && self.response.calculated_focus_point.error.equals(Double { bits: 0 })
    }
}

/// The best R² is finite, is one of the four, and no finite one of them exceeds it; there is none
/// only where none of the four is finite.
pub proof fn best_r_squared_is_the_greatest(a: &AutofocusResponse)
    ensures
        ({
            let r = a.response.r_squares;
            let all = seq![r.quadratic, r.hyperbolic, r.left_trend, r.right_trend];
            match a.best_r_squared() {
                Some(best) => {
                    &&& best.finite()
                    &&& all.contains(best)
                    &&& forall|i: int|
                        0 <= i < 4 && (#[trigger] all[i]).finite() ==> all[i].total_rank()
                            <= best.total_rank()
                },
                None => forall|i: int| 0 <= i < 4 ==> !(#[trigger] all[i]).finite(),
            }
        }),
{
    let r = a.response.r_squares;
    let all = seq![r.quadratic, r.hyperbolic, r.left_trend, r.right_trend];
    assert(all[0] == r.quadratic && all[1] == r.hyperbolic && all[2] == r.left_trend && all[3]
        == r.right_trend);
}

/// The curves that a report's fitting names.
#[derive(Clone, Copy, Debug, PartialEq, Eq, Structural)]
pub enum FitKind {
    TrendLines,
    Parabolic,
    TrendParabolic,
    Hyperbolic,
    TrendHyperbolic,
    Gaussian,
    Other,
}

pub open spec fn fit_kind_of(fitting: Seq<char>) -> FitKind {
    let upper = ascii_upper(fitting);
    if upper == "TRENDLINES"@ {
        FitKind::TrendLines
    } else if upper == "PARABOLIC"@ {
        FitKind::Parabolic
    } else if upper == "TRENDPARABOLIC"@ {
        FitKind::TrendParabolic
    } else if upper == "HYPERBOLIC"@ {
        FitKind::Hyperbolic
    } else if upper == "TRENDHYPERBOLIC"@ {
        FitKind::TrendHyperbolic
    } else if upper == "GAUSSIAN"@ {
        FitKind::Gaussian
    } else {
        FitKind::Other
    }
}

pub fn fit_kind(fitting: &str) -> (r: FitKind)
    ensures
        r == fit_kind_of(fitting@),
{
    let text = to_ascii_upper(fitting);
    let upper = text.as_str();
    if same(upper, "TRENDLINES") {
        FitKind::TrendLines
    } else if same(upper, "PARABOLIC") {
        FitKind::Parabolic
    } else if same(upper, "TRENDPARABOLIC") {
        FitKind::TrendParabolic
    } else if same(upper, "HYPERBOLIC") {
        FitKind::Hyperbolic
    } else if same(upper, "TRENDHYPERBOLIC") {
        FitKind::TrendHyperbolic
    } else if same(upper, "GAUSSIAN") {
        FitKind::Gaussian
    } else {
        FitKind::Other
    }
}

/// A named number.
pub struct NamedView {
    pub name: Seq<char>,
    pub value: Double,
}

pub open spec fn named_views(s: Seq<(&'static str, Double)>) -> Seq<NamedView> {
    s.map_values(|p: (&'static str, Double)| NamedView { name: p.0@, value: p.1 })
}

/// `s` with one more number, unless it is not finite.
pub open spec fn with_finite(s: Seq<NamedView>, name: Seq<char>, value: Double) -> Seq<NamedView> {
    if value.finite() {
        s.push(NamedView { name, value })
    } else {
        s
    }
}

fn push_finite(s: &mut Vec<(&'static str, Double)>, name: &'static str, value: Double)
    ensures
        named_views(final(s)@) == with_finite(named_views(old(s)@), name@, value),
{
    if value.is_finite() {
        let ghost before = s@;
        s.push((name, value));
        assert(named_views(s@) =~= named_views(before).push(NamedView { name: name@, value }));
    }
}

/// Each number with its name, or the number alone where there is but one.
pub open spec fn quality_texts(s: Seq<NamedView>) -> Seq<Seq<char>> {
    s.map_values(|v: NamedView| v.name + " "@ + v.value.fixed_text(4))
}

/// The first measurement at a position.
pub open spec fn measured_at(points: Seq<FocusPoint>, position: Double) -> Option<Double>
    decreases points.len(),
{
    if points.len() == 0 {
        None
    } else if points[0].position.same_number(position) {
        Some(points[0].value)
    } else {
        measured_at(points.subrange(1, points.len() as int), position)
    }
}

pub open spec fn when_finite(v: Option<Double>) -> Option<Double> {
    match v {
        Some(x) => if x.finite() {
            Some(x)
        } else {
            None
        },
        None => None,
    }
}

/// The least of a candidate and the finite values of the points; the earlier one where they tie.
pub open spec fn least_value(points: Seq<FocusPoint>, best: Option<Double>) -> Option<Double>
    decreases points.len(),
{
    if points.len() == 0 {
        best
    } else {
        let v = points[0].value;
        let next = if !v.finite() {
            best
        } else {
            match best {
                Some(b) => if v.total_rank() < b.total_rank() {
                    Some(v)
                } else {
                    Some(b)
                },
                None => Some(v),
            }
        };
        least_value(points.subrange(1, points.len() as int), next)
    }
}

/// Doubles in ascending total order with one more in its place.
pub open spec fn inserted(s: Seq<Double>, x: Double) -> Seq<Double>
    decreases s.len(),
{
    if s.len() == 0 || s.last().total_rank() <= x.total_rank() {
        s.push(x)
    } else {
        inserted(s.drop_last(), x).push(s.last())
    }
}

/// The positions of the points in ascending total order.
pub open spec fn sorted_positions(points: Seq<FocusPoint>) -> Seq<Double>
    decreases points.len(),
{
    if points.len() == 0 {
        Seq::empty()
    } else {
        inserted(sorted_positions(points.drop_last()), points.last().position)
    }
}

pub open spec fn ascending(s: Seq<Double>) -> bool {
    forall|i: int, j: int| 0 <= i <= j < s.len() ==> s[i].total_rank() <= s[j].total_rank()
}

proof fn lemma_inserted(s: Seq<Double>, x: Double)
    requires
        ascending(s),
    ensures
        ascending(inserted(s, x)),
        inserted(s, x).to_multiset() =~= s.to_multiset().insert(x),
        inserted(s, x).len() == s.len() + 1,
        forall|i: int|
            0 <= i < inserted(s, x).len() ==> (#[trigger] inserted(s, x)[i]) == x || s.contains(
                inserted(s, x)[i],
            ),
    decreases s.len(),
{
    broadcast use vstd::seq_lib::group_to_multiset_ensures;

    if s.len() == 0 || s.last().total_rank() <= x.total_rank() {
        let t = s.push(x);
        assert forall|i: int| 0 <= i < t.len() implies (#[trigger] t[i]) == x || s.contains(t[i]) by {
            if i < s.len() {
                assert(t[i] == s[i]);
            }
        }
    } else {
        let front = s.drop_last();
        lemma_inserted(front, x);
        let t = inserted(front, x);
        let all = t.push(s.last());
        assert(s =~= front.push(s.last()));
        assert forall|i: int| 0 <= i < all.len() implies (#[trigger] all[i]) == x || s.contains(
            all[i],
        ) by {
            if i < t.len() {
                assert(all[i] == t[i]);
                if t[i] != x {
                    let j = choose|j: int| 0 <= j < front.len() && front[j] == t[i];
                    assert(s[j] == t[i]);
                }
            } else {
                assert(s[s.len() - 1] == all[i]);
            }
        }
        assert forall|i: int, j: int| 0 <= i <= j < all.len() implies all[i].total_rank()
            <= all[j].total_rank() by {
            if j == t.len() && i < t.len() {
                assert(all[i] == t[i]);
                if t[i] != x {
                    let k = choose|k: int| 0 <= k < front.len() && front[k] == t[i];
                    assert(s[k].total_rank() <= s[s.len() - 1].total_rank());
                }
            }
        }
    }
}

/// The positions come out in ascending order, and they are those of the points.
pub proof fn positions_are_sorted(points: Seq<FocusPoint>)
    ensures
        ascending(sorted_positions(points)),
        sorted_positions(points).to_multiset() =~= points.map_values(
            |p: FocusPoint| p.position,
        ).to_multiset(),
    decreases points.len(),
{
    broadcast use vstd::seq_lib::group_to_multiset_ensures;

    let all = points.map_values(|p: FocusPoint| p.position);
    if points.len() > 0 {
        let front = points.drop_last();
        positions_are_sorted(front);
        lemma_inserted(sorted_positions(front), points.last().position);
        assert(all =~= front.map_values(|p: FocusPoint| p.position).push(points.last().position));
    } else {
        assert(all =~= Seq::<Double>::empty());
    }
}

impl AutofocusData {
    pub fn filter_name(&self) -> (r: String)
        ensures
            r@ == (if trimmed(self.filter@).len() == 0 {
                "No filter"@
            } else {
                trimmed(self.filter@)
            }),
    {
        let name = trim(self.filter.as_str());
        if name.as_str().is_empty() {
            String::from_str("No filter")
        } else {
            name
        }
    }

    pub open spec fn contrast(&self) -> bool {
        same_ignoring_case(self.method@, "CONTRASTDETECTION"@)
    }

    pub fn is_contrast(&self) -> (r: bool)
        ensures
            r == self.contrast(),
    {
        eq_ignore_ascii_case(self.method.as_str(), "CONTRASTDETECTION")
    }

    pub open spec fn measurement_text(&self) -> Seq<char> {
        if self.contrast() {
            "Contrast"@
        } else {
            "HFR"@
        }
    }

    pub fn measurement_name(&self) -> (r: &'static str)
        ensures
            r@ == self.measurement_text(),
    {
        if self.is_contrast() {
            "Contrast"
        } else {
            "HFR"
        }
    }

    pub open spec fn method_text(&self) -> Seq<char> {
        let method = if self.contrast() {
            "Contrast"@
        } else if same_ignoring_case(self.method@, "STARHFR"@) {
            "Star HFR"@
        } else {
            self.method@
        };
        let fitting = match fit_kind_of(self.fitting@) {
            FitKind::TrendLines => "Trend lines"@,
            FitKind::Parabolic => "Parabolic"@,
            FitKind::TrendParabolic => "Trend + parabolic"@,
            FitKind::Hyperbolic => "Hyperbolic"@,
            FitKind::TrendHyperbolic => "Trend + hyperbolic"@,
            FitKind::Gaussian => "Gaussian"@,
            FitKind::Other => self.fitting@,
        };
        let summary = method + " · "@ + fitting;
        match self.hyperbolic_fit_model_chosen {
            Some(model) => if has_part(ascii_upper(self.fitting@), "HYPERBOLIC"@) {
                summary + " · "@ + model.display_text()
            } else {
                summary
            },
            None => summary,
        }
    }

    /// The method and the fitting in words.
    pub fn method_summary(&self) -> (r: String)
        ensures
            r@ == self.method_text(),
    {
        let method: &str = if self.is_contrast() {
            "Contrast"
        } else if eq_ignore_ascii_case(self.method.as_str(), "STARHFR") {
            "Star HFR"
        } else {
            self.method.as_str()
        };
        let fitting: &str = match fit_kind(self.fitting.as_str()) {
            FitKind::TrendLines => "Trend lines",
            FitKind::Parabolic => "Parabolic",
            FitKind::TrendParabolic => "Trend + parabolic",
            FitKind::Hyperbolic => "Hyperbolic",
            FitKind::TrendHyperbolic => "Trend + hyperbolic",
            FitKind::Gaussian => "Gaussian",
            FitKind::Other => self.fitting.as_str(),
        };
        let summary = cat3(method, " · ", fitting);
        match &self.hyperbolic_fit_model_chosen {
            Some(model) => if contains(
                to_ascii_upper(self.fitting.as_str()).as_str(),
                "HYPERBOLIC",
            ) {
                cat3(summary.as_str(), " · ", model.display_name().as_str())
            } else {
                summary
            },
            None => summary,
        }
    }

    /// The finite R² values of the curves that the fitting names.
    pub open spec fn selected_r_squared(&self) -> Seq<NamedView> {
        let none = Seq::<NamedView>::empty();
        let r = self.r_squares;
        match fit_kind_of(self.fitting@) {
            FitKind::TrendLines => with_finite(
                with_finite(none, "Left"@, r.left_trend),
                "Right"@,
                r.right_trend,
            ),
            FitKind::Parabolic => with_finite(none, "Parabolic"@, r.quadratic),
            FitKind::TrendParabolic => with_finite(
                with_finite(
                    with_finite(none, "Parabolic"@, r.quadratic),
                    "Left"@,
                    r.left_trend,
                ),
                "Right"@,
                r.right_trend,
            ),
            FitKind::Hyperbolic => with_finite(none, "Hyperbolic"@, r.hyperbolic),
            FitKind::TrendHyperbolic => with_finite(
                with_finite(
                    with_finite(none, "Hyperbolic"@, r.hyperbolic),
                    "Left"@,
                    r.left_trend,
                ),
                "Right"@,
                r.right_trend,
            ),
            FitKind::Gaussian => none,
            FitKind::Other => with_finite(
                with_finite(
                    with_finite(
                        with_finite(none, "Quadratic"@, r.quadratic),
                        "Hyperbolic"@,
                        r.hyperbolic,
                    ),
                    "Left"@,
                    r.left_trend,
                ),
                "Right"@,
                r.right_trend,
            ),
        }
    }

    pub fn selected_r_squared_values(&self) -> (r: Vec<(&'static str, Double)>)
        ensures
            named_views(r@) == self.selected_r_squared(),
    {
        let mut out: Vec<(&'static str, Double)> = Vec::new();
        assert(named_views(out@) =~= Seq::<NamedView>::empty());
        let s: RSquares = self.r_squares;
        match fit_kind(self.fitting.as_str()) {
            FitKind::TrendLines => {
                push_finite(&mut out, "Left", s.left_trend);
                push_finite(&mut out, "Right", s.right_trend);
            },
            FitKind::Parabolic => {
                push_finite(&mut out, "Parabolic", s.quadratic);
            },
            FitKind::TrendParabolic => {
                push_finite(&mut out, "Parabolic", s.quadratic);
                push_finite(&mut out, "Left", s.left_trend);
                push_finite(&mut out, "Right", s.right_trend);
            },
            FitKind::Hyperbolic => {
                push_finite(&mut out, "Hyperbolic", s.hyperbolic);
            },
            FitKind::TrendHyperbolic => {
                push_finite(&mut out, "Hyperbolic", s.hyperbolic);
                push_finite(&mut out, "Left", s.left_trend);
                push_finite(&mut out, "Right", s.right_trend);
            },
            FitKind::Gaussian => {},
            FitKind::Other => {
                push_finite(&mut out, "Quadratic", s.quadratic);
                push_finite(&mut out, "Hyperbolic", s.hyperbolic);
                push_finite(&mut out, "Left", s.left_trend);
                push_finite(&mut out, "Right", s.right_trend);
            },
        }
        out
    }

    pub open spec fn fit_quality_text(&self) -> Option<Seq<char>> {
        let values = self.selected_r_squared();
        if values.len() == 0 {
            None
        } else if values.len() == 1 {
            Some(values[0].value.fixed_text(4))
        } else {
            Some(joined(quality_texts(values), " · "@))
        }
    }

    pub fn fit_quality_summary(&self) -> (r: Option<String>)
        ensures
            crate::text::opt_view(r) == self.fit_quality_text(),
    {
        let values = self.selected_r_squared_values();
        let ghost shown = named_views(values@);
        if values.len() == 0 {
            return None;
        }
        if values.len() == 1 {
            assert(shown[0].value == values@[0].1);
            return Some(values[0].1.fixed(4));
        }
        let mut parts: Vec<String> = Vec::new();
        let mut i: usize = 0;
        while i < values.len()
            invariant
                i <= values@.len(),
                shown == named_views(values@),
                parts@.len() == i,
                forall|j: int| 0 <= j < i ==> (#[trigger] parts@[j])@ == quality_texts(shown)[j],
            decreases values@.len() - i,
        {
            let number = values[i].1.fixed(4);
            parts.push(cat3(values[i].0, " ", number.as_str()));
            i += 1;
        }
        assert(views(parts@) =~= quality_texts(shown));
        Some(join(&parts, " · "))
    }

    /// The points of the curves that the fitting names.
    pub fn selected_fit_points(&self) -> (r: Vec<(&'static str, IntersectionPoint)>)
        ensures
            ({
                let fitting = ascii_upper(self.fitting@);
                let none = Seq::<(Seq<char>, IntersectionPoint)>::empty();
                let a = with_point_if(
                    none,
                    has_part(fitting, "TREND"@),
                    "Trend intersection"@,
                    self.intersections.trend_line_intersection,
                );
                let b = with_point_if(
                    a,
                    has_part(fitting, "PARABOLIC"@),
                    "Parabolic minimum"@,
                    self.intersections.quadratic_minimum,
                );
                let c = with_point_if(
                    b,
                    has_part(fitting, "HYPERBOLIC"@),
                    "Hyperbolic minimum"@,
                    self.intersections.hyperbolic_minimum,
                );
                point_views(r@) == with_point_if(
                    c,
                    fitting == "GAUSSIAN"@,
                    "Gaussian maximum"@,
                    self.intersections.gaussian_maximum,
                )
            }),
    {
        let mut out: Vec<(&'static str, IntersectionPoint)> = Vec::new();
        assert(point_views(out@) =~= Seq::<(Seq<char>, IntersectionPoint)>::empty());
        let text = to_ascii_upper(self.fitting.as_str());
        let fitting = text.as_str();
        push_point(
            &mut out,
            contains(fitting, "TREND"),
            "Trend intersection",
            self.intersections.trend_line_intersection,
        );
        push_point(
            &mut out,
            contains(fitting, "PARABOLIC"),
            "Parabolic minimum",
            self.intersections.quadratic_minimum,
        );
        push_point(
            &mut out,
            contains(fitting, "HYPERBOLIC"),
            "Hyperbolic minimum",
            self.intersections.hyperbolic_minimum,
        );
        push_point(
            &mut out,
            same(fitting, "GAUSSIAN"),
            "Gaussian maximum",
            self.intersections.gaussian_maximum,
        );
        out
    }

    pub open spec fn hocus_focus(&self) -> bool {
        same_ignoring_case(self.auto_focuser_name@, "Hocus Focus"@) || self.final_hfr is Some
            || self.hyperbolic_fit_model_chosen is Some
    }

    pub fn is_hocus_focus(&self) -> (r: bool)
        ensures
            r == self.hocus_focus(),
    {
        eq_ignore_ascii_case(self.auto_focuser_name.as_str(), "Hocus Focus")
            || self.final_hfr.is_some() || self.hyperbolic_fit_model_chosen.is_some()
    }

    pub open spec fn star_count_text(&self) -> Option<Seq<char>> {
        let least = match self.accepted_star_count_min {
            Some(n) => if n >= 0 {
                Some(n)
            } else {
                None
            },
            None => None,
        };
        let most = match self.accepted_star_count_max {
            Some(n) => if n >= 0 {
                Some(n)
            } else {
                None
            },
            None => None,
        };
        match (least, most) {
            (Some(a), Some(b)) => if a != b {
                Some(dec_int(a as int) + "–"@ + dec_int(b as int))
            } else {
                Some(dec_int(a as int))
            },
            (Some(a), None) => Some(dec_int(a as int)),
            (None, Some(b)) => Some(dec_int(b as int)),
            (None, None) => None,
        }
    }

    pub fn accepted_star_count_summary(&self) -> (r: Option<String>)
        ensures
            crate::text::opt_view(r) == self.star_count_text(),
    {
        let least: Option<i32> = match self.accepted_star_count_min {
            Some(n) => if n >= 0 {
                Some(n)
            } else {
                None
            },
            None => None,
        };
        let most: Option<i32> = match self.accepted_star_count_max {
            Some(n) => if n >= 0 {
                Some(n)
            } else {
                None
            },
            None => None,
        };
        match (least, most) {
            (Some(a), Some(b)) => if a != b {
                let low = decimal_int(a as i128);
                let high = decimal_int(b as i128);
                Some(cat3(low.as_str(), "–", high.as_str()))
            } else {
                Some(decimal_int(a as i128))
            },
            (Some(a), None) => Some(decimal_int(a as i128)),
            (None, Some(b)) => Some(decimal_int(b as i128)),
            (None, None) => None,
        }
    }

    pub open spec fn region_text(&self) -> Option<Seq<char>> {
        match self.region {
            None => None,
            Some(region) => {
                let outer = region.outer_boundary;
                let one = Double { bits: ONE };
                let tiny = Double { bits: EPSILON };
                let hundred = Double { bits: HUNDRED };
                let full = outer.start_x.absolute().lt(tiny) && outer.start_y.absolute().lt(tiny)
                    && outer.width.difference(one).absolute().lt(tiny) && outer.height.difference(
                    one,
                ).absolute().lt(tiny) && region.inner_crop_boundary is None;
                if full {
                    Some("Full frame"@)
                } else {
                    Some(
                        "Region "@ + dec_int(region.index as int) + " · "@ + outer.width.product(
                            hundred,
                        ).fixed_text(0) + "% × "@ + outer.height.product(hundred).fixed_text(0)
                            + "%"@,
                    )
                }
            },
        }
    }

    pub fn region_summary(&self) -> (r: Option<String>)
        ensures
            crate::text::opt_view(r) == self.region_text(),
    {
        let region: AutofocusRegion = match self.region {
            Some(region) => region,
            None => {
                return None;
            },
        };
        let outer: AutofocusRatioRect = region.outer_boundary;
        let one: Double = Double { bits: ONE };
        let tiny: Double = Double { bits: EPSILON };
        let hundred: Double = Double { bits: HUNDRED };
        let full: bool = outer.start_x.abs().less(tiny) && outer.start_y.abs().less(tiny)
            && outer.width.minus(one).abs().less(tiny) && outer.height.minus(one).abs().less(tiny)
            && region.inner_crop_boundary.is_none();
        if full {
            Some(String::from_str("Full frame"))
        } else {
            let index = decimal_int(region.index as i128);
            let width = outer.width.times(hundred).fixed(0);
            let height = outer.height.times(hundred).fixed(0);
            let mut out = cat4("Region ", index.as_str(), " · ", width.as_str());
            out.append("% × ");
            out.append(height.as_str());
            out.append("%");
            Some(out)
        }
    }

    /// HFR before the run: the initial focus point where it was measured, else the measurement at
    /// the initial position.
    pub open spec fn hfr_before(&self) -> Option<Double> {
        if self.initial_hfr_measured == Some(false) {
            None
        } else if self.initial_focus_point.value.finite() {
            Some(self.initial_focus_point.value)
        } else {
            when_finite(measured_at(self.measure_points@, self.initial_focus_point.position))
        }
    }

    pub fn initial_hfr(&self) -> (r: Option<Double>)
        ensures
            r == self.hfr_before(),
    {
        if let Some(measured) = self.initial_hfr_measured {
            if !measured {
                return None;
            }
        }
        if self.initial_focus_point.value.is_finite() {
            return Some(self.initial_focus_point.value);
        }
        let position: Double = self.initial_focus_point.position;
        let mut i: usize = 0;
        let ghost all = self.measure_points@;
        assert(all.subrange(0, all.len() as int) =~= all);
        while i < self.measure_points.len()
            invariant
                i <= self.measure_points@.len(),
                all == self.measure_points@,
                self.hfr_before() == when_finite(measured_at(all, position)),
                measured_at(all.subrange(i as int, all.len() as int), position) == measured_at(
                    all,
                    position,
                ),
            decreases self.measure_points@.len() - i,
        {
            proof {
                let rest = all.subrange(i as int, all.len() as int);
                assert(rest.subrange(1, rest.len() as int) =~= all.subrange(
                    i + 1,
                    all.len() as int,
                ));
            }
            if self.measure_points[i].position.equals(position) {
                let value: Double = self.measure_points[i].value;
                return if value.is_finite() {
                    Some(value)
                } else {
                    None
                };
            }
            i += 1;
        }
        None
    }

    /// HFR after the run: the measurement after the move where there is one, else the fitted
    /// value.
    pub open spec fn hfr_after(&self) -> Option<Double> {
        match self.final_hfr {
            Some(v) => Some(v),
            None => when_finite(Some(self.calculated_focus_point.value)),
        }
    }

    pub fn final_hfr(&self) -> (r: Option<Double>)
        ensures
            r == self.hfr_after(),
    {
        match self.final_hfr {
            Some(v) => Some(v),
            None => if self.calculated_focus_point.value.is_finite() {
                Some(self.calculated_focus_point.value)
            } else {
                None
            },
        }
    }

    pub open spec fn final_label_text(&self) -> Seq<char> {
        match self.final_hfr_source {
            Some(source) => if source@ == "measured_validation"@ {
                self.measurement_text() + " After (measured)"@
            } else if source@ == "fitted_estimate"@ {
                self.measurement_text() + " After (estimated)"@
            } else {
                self.measurement_text() + " After"@
            },
            None => self.measurement_text() + " After"@,
        }
    }

    pub fn final_measurement_label(&self) -> (r: String)
        ensures
            r@ == self.final_label_text(),
    {
        match &self.final_hfr_source {
            Some(source) => if same(source.as_str(), "measured_validation") {
                cat2(self.measurement_name(), " After (measured)")
            } else if same(source.as_str(), "fitted_estimate") {
                cat2(self.measurement_name(), " After (estimated)")
            } else {
                cat2(self.measurement_name(), " After")
            },
            None => cat2(self.measurement_name(), " After"),
        }
    }

    pub open spec fn fit_acceptance_text(&self) -> Option<Seq<char>> {
        match self.hocus_focus_algorithm {
            None => None,
            Some(algorithm) => match algorithm.fit_rejection_criterion {
                None => None,
                Some(criterion) => if criterion@ == "Reduced χ²"@ {
                    match algorithm.reduced_chi_squared_rejection_threshold {
                        Some(t) => Some("Reduced χ² ≤ "@ + t.fixed_text(3)),
                        None => None,
                    }
                } else if criterion@ == "R²"@ {
                    match algorithm.r_squared_threshold {
                        Some(t) => Some("R² ≥ "@ + t.fixed_text(3)),
                        None => None,
                    }
                } else {
                    Some(criterion@)
                },
            },
        }
    }

    pub fn fit_acceptance_summary(&self) -> (r: Option<String>)
        ensures
            crate::text::opt_view(r) == self.fit_acceptance_text(),
    {
        match &self.hocus_focus_algorithm {
            None => None,
            Some(algorithm) => match &algorithm.fit_rejection_criterion {
                None => None,
                Some(criterion) => if same(criterion.as_str(), "Reduced χ²") {
                    match algorithm.reduced_chi_squared_rejection_threshold {
                        Some(t) => Some(cat2("Reduced χ² ≤ ", t.fixed(3).as_str())),
                        None => None,
                    }
                } else if same(criterion.as_str(), "R²") {
                    match algorithm.r_squared_threshold {
                        Some(t) => Some(cat2("R² ≥ ", t.fixed(3).as_str())),
                        None => None,
                    }
                } else {
                    Some(criterion.clone())
                },
            },
        }
    }

    pub open spec fn detection_parts(&self) -> Seq<Seq<char>> {
        match self.hocus_focus_algorithm {
            None => Seq::empty(),
            Some(algorithm) => {
                let a = match algorithm.star_detection_mode {
                    Some(mode) => seq![mode@],
                    None => Seq::empty(),
                };
                let b = match algorithm.measurement_average {
                    Some(average) => a.push(average@),
                    None => a,
                };
                match algorithm.detection_binning {
                    Some(n) => b.push(dec_int(n as int) + "× binning"@),
                    None => b,
                }
            },
        }
    }

    pub fn detection_summary(&self) -> (r: Option<String>)
        ensures
            crate::text::opt_view(r) == (if self.detection_parts().len() == 0 {
                None::<Seq<char>>
            } else {
                Some(joined(self.detection_parts(), " · "@))
            }),
    {
        let algorithm = match &self.hocus_focus_algorithm {
            Some(algorithm) => algorithm,
            None => {
                return None;
            },
        };
        let mut parts: Vec<String> = Vec::new();
        assert(views(parts@) =~= Seq::<Seq<char>>::empty());
        if let Some(mode) = &algorithm.star_detection_mode {
            let text = mode.clone();
            proof {
                lemma_views_push(parts@, text);
            }
            parts.push(text);
            assert(views(parts@) =~= seq![mode@]);
        }
        if let Some(average) = &algorithm.measurement_average {
            let text = average.clone();
            proof {
                lemma_views_push(parts@, text);
            }
            parts.push(text);
        }
        if let Some(n) = algorithm.detection_binning {
            let text = cat2(decimal_int(n as i128).as_str(), "× binning");
            proof {
                lemma_views_push(parts@, text);
            }
            parts.push(text);
        }
        assert(views(parts@) == self.detection_parts());
        if parts.len() == 0 {
            None
        } else {
            Some(join(&parts, " · "))
        }
    }

    /// The positions measured, in ascending order.
    pub fn get_focus_positions(&self) -> (r: Vec<Double>)
        ensures
            r@ == sorted_positions(self.measure_points@),
    {
        let mut out: Vec<Double> = Vec::new();
        let mut i: usize = 0;
        let ghost all = self.measure_points@;
        assert(all.subrange(0, 0) =~= Seq::<FocusPoint>::empty());
        while i < self.measure_points.len()
            invariant
                i <= self.measure_points@.len(),
                all == self.measure_points@,
                out@ == sorted_positions(all.subrange(0, i as int)),
            decreases self.measure_points@.len() - i,
        {
            proof {
                let now = all.subrange(0, i + 1);
                assert(now.drop_last() =~= all.subrange(0, i as int));
            }
            insert_double(&mut out, self.measure_points[i].position);
            i += 1;
        }
        assert(all.subrange(0, i as int) =~= all);
        out
    }

    /// The least and the greatest position measured; zeros where nothing was.
    pub fn get_focus_range(&self) -> (r: (Double, Double))
        ensures
            ({
                let s = sorted_positions(self.measure_points@);
                r == (if s.len() == 0 {
                    (Double { bits: 0 }, Double { bits: 0 })
                } else {
                    (s[0], s[s.len() - 1])
                })
            }),
    {
        let positions = self.get_focus_positions();
        let n: usize = positions.len();
        if n == 0 {
            (Double { bits: 0 }, Double { bits: 0 })
        } else {
            (positions[0], positions[n - 1])
        }
    }

    /// The least finite value measured.
    pub fn get_best_measured_hfr(&self) -> (r: Option<Double>)
        ensures
            r == least_value(self.measure_points@, None),
    {
        let mut best: Option<Double> = None;
        let mut i: usize = 0;
        let ghost all = self.measure_points@;
        assert(all.subrange(0, all.len() as int) =~= all);
        while i < self.measure_points.len()
            invariant
                i <= self.measure_points@.len(),
                all == self.measure_points@,
                least_value(all.subrange(i as int, all.len() as int), best) == least_value(
                    all,
                    None,
                ),
            decreases self.measure_points@.len() - i,
        {
            proof {
                let rest = all.subrange(i as int, all.len() as int);
                assert(rest.subrange(1, rest.len() as int) =~= all.subrange(
                    i + 1,
                    all.len() as int,
                ));
            }
            let v: Double = self.measure_points[i].value;
            if v.is_finite() {
                best = match best {
                    Some(b) => if v.total_less(b) {
                        Some(v)
                    } else {
                        Some(b)
                    },
                    None => Some(v),
                };
            }
            i += 1;
        }
        best
    }
}

pub open spec fn point_views(s: Seq<(&'static str, IntersectionPoint)>) -> Seq<
    (Seq<char>, IntersectionPoint),
> {
    s.map_values(|p: (&'static str, IntersectionPoint)| (p.0@, p.1))
}

/// `s` with a named point, where it is wanted and there.
pub open spec fn with_point_if(
    s: Seq<(Seq<char>, IntersectionPoint)>,
    wanted: bool,
    name: Seq<char>,
    point: Option<IntersectionPoint>,
) -> Seq<(Seq<char>, IntersectionPoint)> {
    match point {
        Some(p) => if wanted {
            s.push((name, p))
        } else {
            s
        },
        None => s,
    }
}

fn push_point(
    s: &mut Vec<(&'static str, IntersectionPoint)>,
    wanted: bool,
    name: &'static str,
    point: Option<IntersectionPoint>,
)
    ensures
        point_views(final(s)@) == with_point_if(point_views(old(s)@), wanted, name@, point),
{
    if wanted {
        if let Some(p) = point {
            let ghost before = s@;
            s.push((name, p));
            assert(point_views(s@) =~= point_views(before).push((name@, p)));
        }
    }
}

fn insert_double(s: &mut Vec<Double>, x: Double)
    ensures
        final(s)@ == inserted(old(s)@, x),
    decreases old(s)@.len(),
{
    let n: usize = s.len();
    let ghost before = s@;
    if n == 0 || !x.total_less(s[n - 1]) {
        s.push(x);
        return;
    }
    match s.pop() {
        Some(last) => {
            assert(s@ =~= before.drop_last());
            insert_double(s, x);
            s.push(last);
        },
        None => {
            s.push(x);
        },
    }
}

} // verus!
