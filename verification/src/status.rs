//! The state of a telescope in words.

use vstd::prelude::*;
use crate::calendar::{
    elapsed_nanos, format_utc_clock, format_zoned, since, span_between, utc_clock_text, zoned_text,
    Moment, Span,
};
use crate::double::Double;
use crate::event_types::{event_kind, kind_of, EventKind};
use crate::events::{EventCoordinates, WeatherConditions};
use crate::sequence::{CameraInfo, PlateSolveOutput, SequenceOperationKind, TrackedSequenceOperation};
use crate::text::{
    cat2, cat3, cat4, cat5, dec_int, decimal_int, is_blank, join, joined, no_texts, opt_view,
    precedes, precedes_text, push_text, same, trimmed, truncate_to, truncated, views,
};
use crate::updater_state::{StateView, UpdaterState};
use crate::weather::push_reading;

verus! {

/// The longest value of a field that is kept whole.
pub const VALUE_LIMIT: usize = 1_000;

/// The longest title that is kept whole, before the telescope's name is put in front of it.
pub const TITLE_LIMIT: usize = 180;

pub fn truncate_chat_value(value: &str) -> (r: String)
    ensures
        r@ == truncated(value@, VALUE_LIMIT as nat),
        r@.len() <= VALUE_LIMIT,
{
    truncate_to(value, VALUE_LIMIT)
}

pub fn truncate_chat_title(value: &str) -> (r: String)
    ensures
        r@ == truncated(value@, TITLE_LIMIT as nat),
        r@.len() <= TITLE_LIMIT,
{
    truncate_to(value, TITLE_LIMIT)
}

/// A span in hours, minutes and seconds; a negative one counts as none.
pub open spec fn duration_text(span: Span) -> Seq<char> {
    let all = span.whole_seconds();
    let seconds = if all < 0 {
        0
    } else {
        all
    };
    let h = seconds / 3600;
    let m = (seconds % 3600) / 60;
    let s = seconds % 60;
    if h > 0 {
        dec_int(h) + "h "@ + dec_int(m) + "m "@ + dec_int(s) + "s"@
    } else if m > 0 {
        dec_int(m) + "m "@ + dec_int(s) + "s"@
    } else {
        dec_int(s) + "s"@
    }
}

pub fn format_duration(span: Span) -> (r: String)
    requires
        span.wf(),
    ensures
        r@ == duration_text(span),
{
    let all: i64 = span.num_seconds();
    let seconds: i64 = if all < 0 {
        0
    } else {
        all
    };
    let h: i64 = seconds / 3600;
    let m: i64 = (seconds % 3600) / 60;
    let s: i64 = seconds % 60;
    let ms = decimal_int(m as i128);
    let ss = decimal_int(s as i128);
    if h > 0 {
        let hs = decimal_int(h as i128);
        let head = cat4(hs.as_str(), "h ", ms.as_str(), "m ");
        cat3(head.as_str(), ss.as_str(), "s")
    } else if m > 0 {
        cat4(ms.as_str(), "m ", ss.as_str(), "s")
    } else {
        cat2(ss.as_str(), "s")
    }
}

/// The camera's state on the way to a temperature.
pub open spec fn cooling_text(camera: Option<CameraInfo>, target: Double) -> Seq<char> {
    let goal = target.fixed_text(1) + " °C"@;
    match camera {
        Some(c) => if c.temperature.finite() {
            c.temperature.fixed_text(1) + " → "@ + goal + (if c.cooler_power.finite() {
                ", cooler "@ + c.cooler_power.fixed_text(0) + "%"@
            } else {
                ""@
            })
        } else {
            "target "@ + goal
        },
        None => "target "@ + goal,
    }
}

fn cooling_detail(camera: &Option<CameraInfo>, target: Double) -> (r: String)
    ensures
        r@ == cooling_text(*camera, target),
{
    let goal = cat2(target.fixed(1).as_str(), " °C");
    match camera {
        Some(c) => if c.temperature.is_finite() {
            let power = if c.cooler_power.is_finite() {
                cat3(", cooler ", c.cooler_power.fixed(0).as_str(), "%")
            } else {
                String::from_str("")
            };
            cat4(c.temperature.fixed(1).as_str(), " → ", goal.as_str(), power.as_str())
        } else {
            cat2("target ", goal.as_str())
        },
        None => cat2("target ", goal.as_str()),
    }
}

pub open spec fn warming_text(camera: Option<CameraInfo>, minimum: Option<Span>) -> Seq<char> {
    let now = match camera {
        Some(c) => if c.temperature.finite() {
            c.temperature.fixed_text(1) + " °C"@
        } else {
            "temperature unavailable"@
        },
        None => "temperature unavailable"@,
    };
    match minimum {
        Some(span) => now + ", minimum "@ + duration_text(span),
        None => now,
    }
}

fn warming_detail(camera: &Option<CameraInfo>, minimum: Option<Span>) -> (r: String)
    requires
        minimum matches Some(s) ==> s.wf(),
    ensures
        r@ == warming_text(*camera, minimum),
{
    let now = match camera {
        Some(c) => if c.temperature.is_finite() {
            cat2(c.temperature.fixed(1).as_str(), " °C")
        } else {
            String::from_str("temperature unavailable")
        },
        None => String::from_str("temperature unavailable"),
    };
    match minimum {
        Some(span) => cat3(now.as_str(), ", minimum ", format_duration(span).as_str()),
        None => now,
    }
}

/// A wait as long as it lasts.
pub open spec fn remaining_text(
    end: Moment,
    now: Moment,
    before: Seq<char>,
    reached: Seq<char>,
) -> Seq<char> {
    if elapsed_nanos(now, end) > 0 {
        before + utc_clock_text(end) + " ("@ + duration_text(span_between(now, end))
            + " remaining)"@
    } else {
        reached
    }
}

fn remaining(end: Moment, now: Moment, before: &str, reached: &str) -> (r: String)
    requires
        end.wf(),
        now.wf(),
    ensures
        r@ == remaining_text(end, now, before@, reached@),
{
    let span: Span = since(end, now);
    if span.nanos > 0 {
        cat5(
            before,
            format_utc_clock(end).as_str(),
            " (",
            format_duration(span).as_str(),
            " remaining)",
        )
    } else {
        String::from_str(reached)
    }
}

/// A comparison and a space, where there is one.
pub open spec fn comparison_text(comparator: Option<String>) -> Seq<char> {
    match comparator {
        Some(c) => c@ + " "@,
        None => ""@,
    }
}

pub fn comparison(comparator: &Option<String>) -> (r: String)
    ensures
        r@ == comparison_text(*comparator),
{
    match comparator {
        Some(c) => cat2(c.as_str(), " "),
        None => String::from_str(""),
    }
}

pub open spec fn astronomical_parts(
    current: Option<Double>,
    target: Option<Double>,
    comparator: Option<String>,
    expected: Option<String>,
) -> Seq<Seq<char>> {
    let a = match current {
        Some(v) => seq!["current "@ + v.fixed_text(2) + "°"@],
        None => Seq::empty(),
    };
    let b = match target {
        Some(v) => a.push("target "@ + comparison_text(comparator) + v.fixed_text(2) + "°"@),
        None => a,
    };
    match expected {
        Some(e) => b.push("expected "@ + e@),
        None => b,
    }
}

fn astronomical_details(
    current: Option<Double>,
    target: Option<Double>,
    comparator: &Option<String>,
    expected: &Option<String>,
) -> (r: Vec<String>)
    ensures
        views(r@) == astronomical_parts(current, target, *comparator, *expected),
{
    let mut parts = no_texts();
    if let Some(v) = current {
        push_text(&mut parts, cat3("current ", v.fixed(2).as_str(), "°"));
        assert(views(parts@) =~= seq![views(parts@)[0]]);
    }
    if let Some(v) = target {
        push_text(
            &mut parts,
            cat4("target ", comparison(comparator).as_str(), v.fixed(2).as_str(), "°"),
        );
    }
    if let Some(e) = expected {
        push_text(&mut parts, cat2("expected ", e.as_str()));
    }
    parts
}

pub open spec fn interval_text(interval: Option<Span>) -> Seq<char> {
    match interval {
        Some(span) => ", checks every "@ + duration_text(span),
        None => ""@,
    }
}

fn check_interval(wait: Option<Span>) -> (r: String)
    requires
        wait matches Some(s) ==> s.wf(),
    ensures
        r@ == interval_text(wait),
{
    match wait {
        Some(span) => cat2(", checks every ", format_duration(span).as_str()),
        None => String::from_str(""),
    }
}

/// A position with a word before it, where it is known.
pub open spec fn place_text(before: Seq<char>, position: Option<EventCoordinates>) -> Seq<char> {
    match position {
        Some(c) => before + c.display_text(),
        None => ""@,
    }
}

fn place(before: &str, position: &Option<EventCoordinates>) -> (r: String)
    ensures
        r@ == place_text(before@, *position),
{
    match position {
        Some(c) => cat2(before, c.display().as_str()),
        None => String::from_str(""),
    }
}

/// One of two texts by the success of a plate solve, where that is known.
pub open spec fn solve_text(
    output: Option<PlateSolveOutput>,
    good: Seq<char>,
    bad: Seq<char>,
) -> Seq<char> {
    match output {
        Some(o) => match o.success {
            Some(true) => good,
            Some(false) => bad,
            None => ""@,
        },
        None => ""@,
    }
}

fn solve(output: &Option<PlateSolveOutput>, good: &str, bad: &str) -> (r: String)
    ensures
        r@ == solve_text(*output, good@, bad@),
{
    match output {
        Some(o) => match o.success {
            Some(success) => if success {
                String::from_str(good)
            } else {
                String::from_str(bad)
            },
            None => String::from_str(""),
        },
        None => String::from_str(""),
    }
}

/// A running operation on one line.
pub open spec fn operation_text(t: TrackedSequenceOperation, now: Moment) -> Seq<char> {
    match t.operation.kind {
        SequenceOperationKind::CameraCooling { target_temperature, .. } => "❄️ Camera cooling ("@
            + cooling_text(t.camera, target_temperature) + ")"@,
        SequenceOperationKind::CameraWarming { minimum_duration } => "🌡️ Camera warming ("@
            + warming_text(t.camera, minimum_duration) + ")"@,
        SequenceOperationKind::TimeWait { .. } => match t.estimated_end {
            Some(end) => remaining_text(
                end,
                now,
                "⏳ Sequence wait until "@,
                "⏳ Sequence wait reached its scheduled time"@,
            ),
            None => "⏳ Timed wait in progress"@,
        },
        SequenceOperationKind::AstronomicalWait {
            target_altitude_degrees,
            current_altitude_degrees,
            comparator,
            expected_time,
        } => {
            let details = joined(
                astronomical_parts(
                    current_altitude_degrees,
                    target_altitude_degrees,
                    comparator,
                    expected_time,
                ),
                ", "@,
            );
            if details.len() == 0 {
                "🌌 "@ + t.operation.name@
            } else {
                "🌌 "@ + t.operation.name@ + " ("@ + details + ")"@
            }
        },
        SequenceOperationKind::SafetyWait { is_safe, wait_interval } => {
            let state = match is_safe {
                Some(true) => "safe; resolving"@,
                Some(false) => "unsafe"@,
                None => "monitor disconnected"@,
            };
            "🛡️ Waiting for safe conditions ("@ + state + interval_text(wait_interval) + ")"@
        },
        SequenceOperationKind::ConditionWait { wait_interval } => {
            "⏳ Waiting for a sequence condition"@ + interval_text(wait_interval)
        },
        SequenceOperationKind::ManualWait => "⏸️ Waiting for manual sequence resume"@,
        SequenceOperationKind::MountSlew { coordinates, .. } => match coordinates {
            Some(c) => "🔭 Slewing to "@ + c.display_text(),
            None => "🔭 Mount slew in progress"@,
        },
        SequenceOperationKind::MountCenter { coordinates, output, .. } => "🎯 Centering"@
            + place_text(" on "@, coordinates) + solve_text(
            output,
            "; latest plate solve succeeded"@,
            "; latest plate solve failed"@,
        ),
        SequenceOperationKind::PlateSolve { coordinates, output, .. } => "🔎 Plate solving"@
            + place_text(" near "@, coordinates) + solve_text(
            output,
            "; latest result succeeded"@,
            "; latest result failed"@,
        ),
    }
}

fn operation_line(t: &TrackedSequenceOperation, now: Moment) -> (r: String)
    requires
        t.wf(),
        now.wf(),
    ensures
        r@ == operation_text(*t, now),
{
    match &t.operation.kind {
        SequenceOperationKind::CameraCooling { target_temperature, .. } => cat3(
            "❄️ Camera cooling (",
            cooling_detail(&t.camera, *target_temperature).as_str(),
            ")",
        ),
        SequenceOperationKind::CameraWarming { minimum_duration } => cat3(
            "🌡️ Camera warming (",
            warming_detail(&t.camera, *minimum_duration).as_str(),
            ")",
        ),
        SequenceOperationKind::TimeWait { .. } => match t.estimated_end {
            Some(end) => remaining(
                end,
                now,
                "⏳ Sequence wait until ",
                "⏳ Sequence wait reached its scheduled time",
            ),
            None => String::from_str("⏳ Timed wait in progress"),
        },
        SequenceOperationKind::AstronomicalWait {
            target_altitude_degrees,
            current_altitude_degrees,
            comparator,
            expected_time,
        } => {
            let parts = astronomical_details(
                *current_altitude_degrees,
                *target_altitude_degrees,
                comparator,
                expected_time,
            );
            let details = join(&parts, ", ");
            if details.as_str().is_empty() {
                cat2("🌌 ", t.operation.name.as_str())
            } else {
                cat5("🌌 ", t.operation.name.as_str(), " (", details.as_str(), ")")
            }
        },
        SequenceOperationKind::SafetyWait { is_safe, wait_interval } => {
            let state: &str = match is_safe {
                Some(safe) => if *safe {
                    "safe; resolving"
                } else {
                    "unsafe"
                },
                None => "monitor disconnected",
            };
            cat4(
                "🛡️ Waiting for safe conditions (",
                state,
                check_interval(*wait_interval).as_str(),
                ")",
            )
        },
        SequenceOperationKind::ConditionWait { wait_interval } => cat2(
            "⏳ Waiting for a sequence condition",
            check_interval(*wait_interval).as_str(),
        ),
        SequenceOperationKind::ManualWait => String::from_str(
            "⏸️ Waiting for manual sequence resume",
        ),
        SequenceOperationKind::MountSlew { coordinates, .. } => match coordinates {
            Some(c) => cat2("🔭 Slewing to ", c.display().as_str()),
            None => String::from_str("🔭 Mount slew in progress"),
        },
        SequenceOperationKind::MountCenter { coordinates, output, .. } => cat3(
            "🎯 Centering",
            place(" on ", coordinates).as_str(),
            solve(
                output,
                "; latest plate solve succeeded",
                "; latest plate solve failed",
            ).as_str(),
        ),
        SequenceOperationKind::PlateSolve { coordinates, output, .. } => cat3(
            "🔎 Plate solving",
            place(" near ", coordinates).as_str(),
            solve(output, "; latest result succeeded", "; latest result failed").as_str(),
        ),
    }
}

/// A line for a list of details, behind a heading.
pub open spec fn detail_line(head: Seq<char>, details: Seq<Seq<char>>) -> Option<Seq<char>> {
    if details.len() == 0 {
        None
    } else {
        Some(head + joined(details, ", "@))
    }
}

fn detail(head: &str, details: &Vec<String>) -> (r: Option<String>)
    ensures
        opt_view(r) == detail_line(head@, views(details@)),
{
    if details.len() == 0 {
        None
    } else {
        Some(cat2(head, join(details, ", ").as_str()))
    }
}

/// `parts` with a text by a truth value, where that is known.
pub open spec fn with_flag(
    parts: Seq<Seq<char>>,
    flag: Option<bool>,
    yes: Seq<char>,
    no: Seq<char>,
) -> Seq<Seq<char>> {
    match flag {
        Some(true) => parts.push(yes),
        Some(false) => parts.push(no),
        None => parts,
    }
}

fn push_flag(parts: &mut Vec<String>, flag: Option<bool>, yes: &str, no: &str)
    ensures
        views(final(parts)@) == with_flag(views(old(parts)@), flag, yes@, no@),
{
    if let Some(on) = flag {
        push_text(
            parts,
            String::from_str(
                if on {
                    yes
                } else {
                    no
                },
            ),
        );
    }
}

pub open spec fn with_line(parts: Seq<Seq<char>>, line: Option<Seq<char>>) -> Seq<Seq<char>> {
    match line {
        Some(text) => parts.push(text),
        None => parts,
    }
}

fn push_line(parts: &mut Vec<String>, line: Option<String>)
    ensures
        views(final(parts)@) == with_line(views(old(parts)@), opt_view(line)),
{
    if let Some(text) = line {
        push_text(parts, text);
    }
}

/// Operations in the order of their keys with one more in its place.
pub open spec fn placed_operation(
    list: Seq<TrackedSequenceOperation>,
    t: TrackedSequenceOperation,
) -> Seq<TrackedSequenceOperation>
    decreases list.len(),
{
    if list.len() == 0 || !precedes(t.operation.key@, list.last().operation.key@) {
        list.push(t)
    } else {
        placed_operation(list.drop_last(), t).push(list.last())
    }
}

/// The operations that are delivered, in the order of their keys.
pub open spec fn shown_operations(
    running: Seq<TrackedSequenceOperation>,
) -> Seq<TrackedSequenceOperation>
    decreases running.len(),
{
    if running.len() == 0 {
        running
    } else if running.last().operation.chat_enabled {
        placed_operation(shown_operations(running.drop_last()), running.last())
    } else {
        shown_operations(running.drop_last())
    }
}

spec fn picks(list: Seq<usize>, running: Seq<TrackedSequenceOperation>) -> Seq<
    TrackedSequenceOperation,
> {
    list.map_values(|i: usize| running[i as int])
}

spec fn all_below(list: Seq<usize>, n: int) -> bool {
    forall|j: int| 0 <= j < list.len() ==> (#[trigger] list[j]) < n
}

fn place_operation(list: &mut Vec<usize>, running: &Vec<TrackedSequenceOperation>, i: usize)
    requires
        i < running@.len(),
        all_below(old(list)@, running@.len() as int),
    ensures
        all_below(final(list)@, running@.len() as int),
        picks(final(list)@, running@) == placed_operation(
            picks(old(list)@, running@),
            running@[i as int],
        ),
    decreases old(list)@.len(),
{
    let n: usize = list.len();
    let ghost before = list@;
    if n > 0 {
        let last: usize = list[n - 1];
        assert(last < running@.len());
        if precedes_text(
            running[i].operation.key.as_str(),
            running[last].operation.key.as_str(),
        ) {
            list.pop();
            proof {
                assert(list@ =~= before.drop_last());
                assert(picks(list@, running@) =~= picks(before, running@).drop_last());
                assert(picks(before, running@).last() == running@[last as int]);
                assert forall|j: int| 0 <= j < list@.len() implies (#[trigger] list@[j])
                    < running@.len() by {
                    assert(list@[j] == before[j]);
                }
            }
            place_operation(list, running, i);
            let ghost middle = list@;
            list.push(last);
            assert(picks(list@, running@) =~= picks(middle, running@).push(running@[last as int]));
            return;
        }
    }
    list.push(i);
    proof {
        assert(picks(list@, running@) =~= picks(before, running@).push(running@[i as int]));
        assert(n > 0 ==> picks(before, running@).last() == running@[before.last() as int]);
    }
}

/// Positions of the operations that are delivered, in the order of their keys.
fn shown_places(running: &Vec<TrackedSequenceOperation>) -> (r: Vec<usize>)
    ensures
        all_below(r@, running@.len() as int),
        picks(r@, running@) == shown_operations(running@),
{
    let mut list: Vec<usize> = Vec::new();
    let mut i: usize = 0;
    assert(picks(list@, running@) =~= running@.subrange(0, 0));
    while i < running.len()
        invariant
            i <= running@.len(),
            all_below(list@, running@.len() as int),
            picks(list@, running@) == shown_operations(running@.subrange(0, i as int)),
        decreases running@.len() - i,
    {
        proof {
            let now = running@.subrange(0, i + 1);
            assert(now.drop_last() =~= running@.subrange(0, i as int));
            assert(now.last() == running@[i as int]);
        }
        if running[i].operation.chat_enabled {
            place_operation(&mut list, running, i);
        }
        i += 1;
    }
    assert(running@.subrange(0, i as int) =~= running@);
    list
}

/// The lines of operations.
pub open spec fn operation_lines(list: Seq<TrackedSequenceOperation>, now: Moment) -> Seq<
    Seq<char>,
> {
    list.map_values(|t: TrackedSequenceOperation| operation_text(t, now))
}

pub open spec fn target_line(s: StateView) -> Option<Seq<char>> {
    match s.current_target {
        Some(t) => match t.target_end_time {
            Some(end) => Some("🎯 Target scheduled until "@ + zoned_text(end)),
            None => None,
        },
        None => None,
    }
}

pub open spec fn wait_line(s: StateView, now: Moment) -> Option<Seq<char>> {
    match s.scheduler_wait {
        Some(end) => Some(
            remaining_text(
                end,
                now,
                "⏳ Target Scheduler wait until "@,
                "⏳ Target Scheduler reached its scheduled time; awaiting its next transition"@,
            ),
        ),
        None => None,
    }
}

pub open spec fn sequence_line(s: StateView) -> Option<Seq<char>> {
    if s.sequence_running {
        Some("▶️ Sequence running"@)
    } else if s.sequence_failure is None {
        match s.sequence_outcome {
            Some(outcome) => if outcome == "completed"@ {
                Some("🏁 Sequence completed"@)
            } else if outcome == "stopped"@ {
                Some("⏹️ Sequence stopped"@)
            } else if outcome == "cancelled_or_not_started"@ {
                Some("⏹️ Sequence cancelled or not started"@)
            } else if outcome == "ended"@ {
                Some("🏁 Sequence ended"@)
            } else {
                None
            },
            None => None,
        }
    } else {
        None
    }
}

pub open spec fn failure_line(s: StateView) -> Option<Seq<char>> {
    match s.sequence_failure {
        Some(f) => {
            let entity = if trimmed(f.entity).len() == 0 {
                "Sequence item"@
            } else {
                f.entity
            };
            Some(
                "❌ "@ + truncated(entity, TITLE_LIMIT as nat) + " failed: "@ + truncated(
                    f.error,
                    VALUE_LIMIT as nat,
                ),
            )
        },
        None => None,
    }
}

pub open spec fn dome_parts(s: StateView) -> Seq<Seq<char>> {
    let a = with_flag(Seq::empty(), s.dome_connected, "connected"@, "disconnected"@);
    let b = with_flag(a, s.dome_shutter_open, "shutter open"@, "shutter closed"@);
    let c = if s.dome_parked == Some(true) {
        b.push("parked"@)
    } else if s.dome_homed == Some(true) {
        b.push("homed"@)
    } else {
        b
    };
    crate::weather::with_reading(c, s.dome_azimuth, "azimuth "@, 2, "°"@)
}

pub open spec fn dome_line(s: StateView) -> Option<Seq<char>> {
    detail_line(
        (if s.dome_connected == Some(false) {
            "⚠️"@
        } else {
            "🏠"@
        }) + " Dome · "@,
        dome_parts(s),
    )
}

pub open spec fn flat_parts(s: StateView) -> Seq<Seq<char>> {
    let a = with_flag(Seq::empty(), s.flat_connected, "connected"@, "disconnected"@);
    let b = match s.flat_cover_state {
        Some(cover) => a.push("cover "@ + cover),
        None => a,
    };
    let c = with_flag(b, s.flat_light_on, "light on"@, "light off"@);
    match s.flat_brightness {
        Some(n) => c.push("brightness "@ + dec_int(n as int)),
        None => c,
    }
}

pub open spec fn flat_line(s: StateView) -> Option<Seq<char>> {
    detail_line(
        (if s.flat_connected == Some(false) {
            "⚠️"@
        } else {
            "💡"@
        }) + " Flat panel · "@,
        flat_parts(s),
    )
}

/// The readings of the last alert are at least as new as those of the last report.
pub open spec fn alert_is_current(s: StateView) -> bool {
    let weather_has_wind = s.weather_conditions matches Some(w) && w.has_wind();
    let alert_has_wind = s.weather_high_wind_conditions matches Some(w) && w.has_wind();
    alert_has_wind && (!weather_has_wind || match (
        s.weather_conditions_at,
        s.weather_high_wind_conditions_at,
    ) {
        (Some(weather), Some(alert)) => !alert.earlier(weather),
        (None, Some(_)) => true,
        (Some(_), None) => false,
        (None, None) => s.weather_high_wind == Some(true),
    })
}

/// No reading at all.
pub open spec fn no_readings() -> WeatherConditions {
    WeatherConditions {
        wind_speed_meters_per_second: None,
        wind_gust_meters_per_second: None,
        wind_direction_degrees: None,
        temperature_celsius: None,
        dew_point_celsius: None,
        humidity_percent: None,
        pressure_hectopascals: None,
        cloud_cover_percent: None,
        rain_rate_millimeters_per_hour: None,
        sky_temperature_celsius: None,
        sky_brightness_lux: None,
        sky_quality_magnitudes_per_square_arcsecond: None,
        star_fwhm_arcseconds: None,
    }
}

/// The latest readings: the last report's, with those of the last alert where they are current.
pub open spec fn current_weather(s: StateView) -> WeatherConditions {
    let base = match s.weather_conditions {
        Some(w) => w,
        None => no_readings(),
    };
    match s.weather_high_wind_conditions {
        Some(alert) => if alert_is_current(s) {
            base.merged(alert)
        } else {
            base
        },
        None => base,
    }
}

pub open spec fn weather_parts(s: StateView) -> Seq<Seq<char>> {
    let a = with_flag(Seq::empty(), s.weather_connected, "connected"@, "disconnected"@);
    let b = if s.weather_high_wind == Some(true) {
        a.push(
            match s.weather_high_wind_threshold_meters_per_second {
                Some(limit) => "HIGH WIND (limit "@ + limit.fixed_text(1) + " m/s)"@,
                None => "HIGH WIND"@,
            },
        )
    } else {
        a
    };
    match current_weather(s).summary_text() {
        Some(summary) => b.push("last report: "@ + summary),
        None => b,
    }
}

pub open spec fn weather_line(s: StateView) -> Option<Seq<char>> {
    detail_line(
        (if s.weather_connected == Some(false) || s.weather_high_wind == Some(true) {
            "⚠️"@
        } else {
            "🌦️"@
        }) + " Weather · "@,
        weather_parts(s),
    )
}

pub open spec fn switch_line(s: StateView) -> Option<Seq<char>> {
    match s.switch_connected {
        Some(true) => Some("🔌"@ + " Switch device "@ + "connected"@),
        Some(false) => Some("⚠️"@ + " Switch device "@ + "disconnected"@),
        None => None,
    }
}

pub open spec fn mount_line(s: StateView) -> Option<Seq<char>> {
    match s.last_mount_event {
        Some(name) => Some(
            match kind_of(name) {
                EventKind::MountParked => "🅿️ Mount parked"@,
                EventKind::MountUnparked => "🔭 Mount unparked"@,
                EventKind::MountHomed => "🏠 Mount homed"@,
                EventKind::MountBeforeFlip => "🔄 Mount pre-flip"@,
                EventKind::MountAfterFlip => "✅ Mount post-flip"@,
                EventKind::MountCenter => "🎯 Centering started"@,
                EventKind::MountSlewed => "🔭 Mount slew ended"@,
                _ => "🔭 Mount active"@,
            },
        ),
        None => None,
    }
}

pub open spec fn guider_line(s: StateView) -> Option<Seq<char>> {
    match s.last_guider_event {
        Some(name) => Some(
            match kind_of(name) {
                EventKind::GuiderStart => "🎯 Guiding"@,
                EventKind::GuiderDither => "🎯 Dithering"@,
                EventKind::GuiderStop => "🛑 Guider stopped"@,
                _ => "🎯 Guider active"@,
            },
        ),
        None => None,
    }
}

/// All that is known, line by line.
pub open spec fn status_lines(s: StateView, now: Moment) -> Seq<Seq<char>> {
    let a = with_line(Seq::empty(), target_line(s)) + operation_lines(
        shown_operations(s.board.running),
        now,
    );
    let b = with_line(a, wait_line(s, now));
    let c = with_line(b, sequence_line(s));
    let d = with_line(c, failure_line(s));
    let e = with_line(d, s.safety_state.text());
    let f = with_line(e, dome_line(s));
    let g = with_line(f, flat_line(s));
    let h = with_line(g, weather_line(s));
    let i = with_line(h, switch_line(s));
    let j = with_line(i, mount_line(s));
    with_line(j, guider_line(s))
}

/// All that is known.
pub open spec fn status_text(s: StateView, now: Moment) -> Seq<char> {
    joined(status_lines(s, now), "\n"@)
}

fn is_set(flag: Option<bool>, value: bool) -> (r: bool)
    ensures
        r == (flag == Some(value)),
{
    match flag {
        Some(v) => v == value,
        None => false,
    }
}

impl UpdaterState {
    fn sequence_status(&self) -> (r: Option<String>)
        ensures
            opt_view(r) == sequence_line(self@),
    {
        if self.sequence_running {
            return Some(String::from_str("▶️ Sequence running"));
        }
        if self.sequence_failure.is_some() {
            return None;
        }
        match &self.sequence_outcome {
            Some(outcome) => {
                let o = outcome.as_str();
                if same(o, "completed") {
                    Some(String::from_str("🏁 Sequence completed"))
                } else if same(o, "stopped") {
                    Some(String::from_str("⏹️ Sequence stopped"))
                } else if same(o, "cancelled_or_not_started") {
                    Some(String::from_str("⏹️ Sequence cancelled or not started"))
                } else if same(o, "ended") {
                    Some(String::from_str("🏁 Sequence ended"))
                } else {
                    None
                }
            },
            None => None,
        }
    }

    fn failure_status(&self) -> (r: Option<String>)
        ensures
            opt_view(r) == failure_line(self@),
    {
        match &self.sequence_failure {
            Some(f) => {
                let entity: &str = if is_blank(f.entity.as_str()) {
                    "Sequence item"
                } else {
                    f.entity.as_str()
                };
                Some(
                    cat4(
                        "❌ ",
                        truncate_chat_title(entity).as_str(),
                        " failed: ",
                        truncate_chat_value(f.error.as_str()).as_str(),
                    ),
                )
            },
            None => None,
        }
    }

    fn dome_status(&self) -> (r: Option<String>)
        ensures
            opt_view(r) == dome_line(self@),
    {
        let mut parts = no_texts();
        push_flag(&mut parts, self.dome_connected, "connected", "disconnected");
        push_flag(&mut parts, self.dome_shutter_open, "shutter open", "shutter closed");
        if is_set(self.dome_parked, true) {
            push_text(&mut parts, String::from_str("parked"));
        } else if is_set(self.dome_homed, true) {
            push_text(&mut parts, String::from_str("homed"));
        }
        push_reading(&mut parts, self.dome_azimuth, "azimuth ", 2, "°");
        let icon: &str = if is_set(self.dome_connected, false) {
            "⚠️"
        } else {
            "🏠"
        };
        detail(cat2(icon, " Dome · ").as_str(), &parts)
    }

    fn flat_status(&self) -> (r: Option<String>)
        ensures
            opt_view(r) == flat_line(self@),
    {
        let mut parts = no_texts();
        push_flag(&mut parts, self.flat_connected, "connected", "disconnected");
        if let Some(cover) = &self.flat_cover_state {
            push_text(&mut parts, cat2("cover ", cover.as_str()));
        }
        push_flag(&mut parts, self.flat_light_on, "light on", "light off");
        if let Some(n) = self.flat_brightness {
            push_text(&mut parts, cat2("brightness ", decimal_int(n as i128).as_str()));
        }
        let icon: &str = if is_set(self.flat_connected, false) {
            "⚠️"
        } else {
            "💡"
        };
        detail(cat2(icon, " Flat panel · ").as_str(), &parts)
    }

    /// The latest weather readings.
    pub fn latest_weather(&self) -> (r: WeatherConditions)
        ensures
            r == current_weather(self@),
    {
        let mut latest: WeatherConditions = match self.weather_conditions {
            Some(w) => w,
            None => WeatherConditions::none(),
        };
        let weather_has_wind: bool = match &self.weather_conditions {
            Some(w) => w.has_wind_reading(),
            None => false,
        };
        if let Some(alert) = &self.weather_high_wind_conditions {
            let current: bool = alert.has_wind_reading() && (!weather_has_wind || match (
                self.weather_conditions_at,
                self.weather_high_wind_conditions_at,
            ) {
                (Some(weather), Some(high_wind)) => !high_wind.before(weather),
                (None, Some(_)) => true,
                (Some(_), None) => false,
                (None, None) => is_set(self.weather_high_wind, true),
            });
            if current {
                latest.merge_available(alert);
            }
        }
        latest
    }

    fn weather_status(&self) -> (r: Option<String>)
        ensures
            opt_view(r) == weather_line(self@),
    {
        let mut parts = no_texts();
        push_flag(&mut parts, self.weather_connected, "connected", "disconnected");
        if is_set(self.weather_high_wind, true) {
            let text = match self.weather_high_wind_threshold_meters_per_second {
                Some(limit) => cat3("HIGH WIND (limit ", limit.fixed(1).as_str(), " m/s)"),
                None => String::from_str("HIGH WIND"),
            };
            push_text(&mut parts, text);
        }
        if let Some(summary) = self.latest_weather().status_summary() {
            push_text(&mut parts, cat2("last report: ", summary.as_str()));
        }
        let icon: &str = if is_set(self.weather_connected, false) || is_set(
            self.weather_high_wind,
            true,
        ) {
            "⚠️"
        } else {
            "🌦️"
        };
        detail(cat2(icon, " Weather · ").as_str(), &parts)
    }

    fn switch_status(&self) -> (r: Option<String>)
        ensures
            opt_view(r) == switch_line(self@),
    {
        match self.switch_connected {
            Some(connected) => if connected {
                Some(cat3("🔌", " Switch device ", "connected"))
            } else {
                Some(cat3("⚠️", " Switch device ", "disconnected"))
            },
            None => None,
        }
    }

    fn mount_status(&self) -> (r: Option<String>)
        ensures
            opt_view(r) == mount_line(self@),
    {
        match &self.last_mount_event {
            Some(name) => Some(
                String::from_str(
                    match event_kind(name.as_str()) {
                        EventKind::MountParked => "🅿️ Mount parked",
                        EventKind::MountUnparked => "🔭 Mount unparked",
                        EventKind::MountHomed => "🏠 Mount homed",
                        EventKind::MountBeforeFlip => "🔄 Mount pre-flip",
                        EventKind::MountAfterFlip => "✅ Mount post-flip",
                        EventKind::MountCenter => "🎯 Centering started",
                        EventKind::MountSlewed => "🔭 Mount slew ended",
                        _ => "🔭 Mount active",
                    },
                ),
            ),
            None => None,
        }
    }

    fn guider_status(&self) -> (r: Option<String>)
        ensures
            opt_view(r) == guider_line(self@),
    {
        match &self.last_guider_event {
            Some(name) => Some(
                String::from_str(
                    match event_kind(name.as_str()) {
                        EventKind::GuiderStart => "🎯 Guiding",
                        EventKind::GuiderDither => "🎯 Dithering",
                        EventKind::GuiderStop => "🛑 Guider stopped",
                        _ => "🎯 Guider active",
                    },
                ),
            ),
            None => None,
        }
    }

    /// All that is known of the telescope now, line by line.
    pub fn format_startup_status(&self) -> (r: String)
        requires
            self.wf(),
        ensures
            exists|now: Moment| now.wf() && r@ == #[trigger] status_text(self@, now),
    {
        let now: Moment = crate::calendar::now();
        self.format_startup_status_at(now)
    }

    /// All that is known of the telescope at some time, line by line.
    pub fn format_startup_status_at(&self, now: Moment) -> (r: String)
        requires
            self.wf(),
            now.wf(),
        ensures
            r@ == status_text(self@, now),
    {
        let mut parts = no_texts();
        let target: Option<String> = match &self.current_target {
            Some(t) => match t.target_end_time {
                Some(end) => Some(
                    cat2("🎯 Target scheduled until ", format_zoned(end).as_str()),
                ),
                None => None,
            },
            None => None,
        };
        push_line(&mut parts, target);
        let ghost head = views(parts@);
        let places = shown_places(&self.board.running);
        let ghost shown = shown_operations(self.board.running@);
        let mut i: usize = 0;
        while i < places.len()
            invariant
                i <= places@.len(),
                self.wf(),
                now.wf(),
                all_below(places@, self.board.running@.len() as int),
                picks(places@, self.board.running@) == shown,
                views(parts@) == head + operation_lines(shown, now).subrange(0, i as int),
            decreases places@.len() - i,
        {
            let place: usize = places[i];
            assert(place < self.board.running@.len());
            assert(self.board.running@[place as int].wf());
            let text = operation_line(&self.board.running[place], now);
            proof {
                assert(shown[i as int] == self.board.running@[place as int]);
                let lines = operation_lines(shown, now);
                assert(lines[i as int] == text@);
                assert((head + lines.subrange(0, i as int)).push(text@) =~= head + lines.subrange(
                    0,
                    i + 1,
                ));
            }
            push_text(&mut parts, text);
            i += 1;
        }
        proof {
            let lines = operation_lines(shown, now);
            assert(lines.len() == places@.len());
            assert(lines.subrange(0, i as int) =~= lines);
        }
        let wait: Option<String> = match self.scheduler_wait {
            Some(end) => Some(
                remaining(
                    end,
                    now,
                    "⏳ Target Scheduler wait until ",
                    "⏳ Target Scheduler reached its scheduled time; awaiting its next transition",
                ),
            ),
            None => None,
        };
        push_line(&mut parts, wait);
        push_line(&mut parts, self.sequence_status());
        push_line(&mut parts, self.failure_status());
        let safety: Option<String> = match self.safety_state.status_text() {
            Some(text) => Some(String::from_str(text)),
            None => None,
        };
        push_line(&mut parts, safety);
        push_line(&mut parts, self.dome_status());
        push_line(&mut parts, self.flat_status());
        push_line(&mut parts, self.weather_status());
        push_line(&mut parts, self.switch_status());
        push_line(&mut parts, self.mount_status());
        push_line(&mut parts, self.guider_status());
        join(&parts, "\n")
    }
}

} // verus!
