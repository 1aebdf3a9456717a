//! What is promised of the mark that tells whether the status message is due anew, and of what is
//! printed.

use vstd::prelude::*;
use crate::autofocus::AutofocusResponse;
use crate::calendar::{span_between, Moment};
use crate::console::{autofocus_text, image_text};
use crate::double::Double;
use crate::fingerprint::{
    bool_mark, bucket_mark, marks, opt_bool_mark, opt_double_mark, safety_mark, wait_mark,
};
use crate::sequence::TrackedSequenceOperation;
use crate::telescope_messages::ImageMetadata;
use crate::text::dec_int;
use crate::updater_state::{SafetyState, StateView};

verus! {

proof fn lemma_cancel(p: Seq<char>, x: Seq<char>, y: Seq<char>)
    requires
        p + x == p + y,
    ensures
        x == y,
{
    assert((p + x).len() == (p + y).len());
    assert(x =~= (p + x).subrange(p.len() as int, (p + x).len() as int));
    assert(y =~= (p + y).subrange(p.len() as int, (p + y).len() as int));
}

proof fn lemma_flags(a: Option<bool>, b: Option<bool>)
    requires
        opt_bool_mark(a) == opt_bool_mark(b),
    ensures
        a == b,
{
    reveal_strlit("Some(");
    reveal_strlit(")");
    reveal_strlit("None");
    reveal_strlit("true");
    reveal_strlit("false");
    assert("Some("@.len() == 5 && ")"@.len() == 1 && "None"@.len() == 4);
    assert("true"@.len() == 4 && "false"@.len() == 5);
    assert(opt_bool_mark(Some(true)).len() == 10);
    assert(opt_bool_mark(Some(false)).len() == 11);
    assert(opt_bool_mark(None).len() == 4);
    assert(a == Some(true) || a == Some(false) || a is None);
    assert(b == Some(true) || b == Some(false) || b is None);
}

proof fn lemma_flag(a: bool, b: bool)
    requires
        bool_mark(a) == bool_mark(b),
    ensures
        a == b,
{
    reveal_strlit("true");
    reveal_strlit("false");
    assert("true"@.len() == 4 && "false"@.len() == 5);
}

proof fn lemma_safety(a: SafetyState, b: SafetyState)
    requires
        safety_mark(a) == safety_mark(b),
    ensures
        a == b,
{
    reveal_strlit("Unknown");
    reveal_strlit("ConnectedUnknown");
    reveal_strlit("Safe");
    reveal_strlit("Unsafe");
    reveal_strlit("Disconnected");
    assert("Unknown"@.len() == 7 && "ConnectedUnknown"@.len() == 16 && "Safe"@.len() == 4);
    assert("Unsafe"@.len() == 6 && "Disconnected"@.len() == 12);
}

proof fn lemma_numbers(a: Option<Double>, b: Option<Double>)
    requires
        opt_double_mark(a) == opt_double_mark(b),
    ensures
        a is Some && b is Some ==> a->0.shortest_text() == b->0.shortest_text(),
{
    if a is Some && b is Some {
        let (x, y) = (a->0.shortest_text(), b->0.shortest_text());
        assert("Some("@ + x + ")"@ =~= "Some("@ + (x + ")"@));
        assert("Some("@ + y + ")"@ =~= "Some("@ + (y + ")"@));
        lemma_cancel("Some("@, x + ")"@, y + ")"@);
        assert(x =~= (x + ")"@).subrange(0, (x + ")"@).len() - ")"@.len()));
        assert(y =~= (y + ")"@).subrange(0, (y + ")"@).len() - ")"@.len()));
    }
}

/// The marks of a state, held together.
#[verifier::opaque]
spec fn held(s: StateView, now: Moment) -> Seq<Seq<char>> {
    marks(s, now)
}

proof fn lemma_held(a: StateView, b: StateView, now: Moment)
    requires
        marks(a, now) == marks(b, now),
    ensures
        held(a, now) == held(b, now),
{
    reveal(held);
}

#[verifier::spinoff_prover]
proof fn lemma_entry_dc(s: StateView, now: Moment)
    ensures
        held(s, now)[10] == "dc="@ + opt_bool_mark(s.dome_connected),
{
    reveal(held);
}

#[verifier::spinoff_prover]
proof fn lemma_mark_dc(a: StateView, b: StateView, now: Moment)
    requires
        held(a, now) == held(b, now),
    ensures
        opt_bool_mark(a.dome_connected) == opt_bool_mark(b.dome_connected),
{
    lemma_entry_dc(a, now);
    lemma_entry_dc(b, now);
    lemma_cancel("dc="@, opt_bool_mark(a.dome_connected), opt_bool_mark(b.dome_connected));
}

#[verifier::spinoff_prover]
proof fn lemma_entry_dso(s: StateView, now: Moment)
    ensures
        held(s, now)[11] == "dso="@ + opt_bool_mark(s.dome_shutter_open),
{
    reveal(held);
}

#[verifier::spinoff_prover]
proof fn lemma_mark_dso(a: StateView, b: StateView, now: Moment)
    requires
        held(a, now) == held(b, now),
    ensures
        opt_bool_mark(a.dome_shutter_open) == opt_bool_mark(b.dome_shutter_open),
{
    lemma_entry_dso(a, now);
    lemma_entry_dso(b, now);
    lemma_cancel("dso="@, opt_bool_mark(a.dome_shutter_open), opt_bool_mark(b.dome_shutter_open));
}

#[verifier::spinoff_prover]
proof fn lemma_entry_dp(s: StateView, now: Moment)
    ensures
        held(s, now)[13] == "dp="@ + opt_bool_mark(s.dome_parked),
{
    reveal(held);
}

#[verifier::spinoff_prover]
proof fn lemma_mark_dp(a: StateView, b: StateView, now: Moment)
    requires
        held(a, now) == held(b, now),
    ensures
        opt_bool_mark(a.dome_parked) == opt_bool_mark(b.dome_parked),
{
    lemma_entry_dp(a, now);
    lemma_entry_dp(b, now);
    lemma_cancel("dp="@, opt_bool_mark(a.dome_parked), opt_bool_mark(b.dome_parked));
}

#[verifier::spinoff_prover]
proof fn lemma_entry_dh(s: StateView, now: Moment)
    ensures
        held(s, now)[14] == "dh="@ + opt_bool_mark(s.dome_homed),
{
    reveal(held);
}

#[verifier::spinoff_prover]
proof fn lemma_mark_dh(a: StateView, b: StateView, now: Moment)
    requires
        held(a, now) == held(b, now),
    ensures
        opt_bool_mark(a.dome_homed) == opt_bool_mark(b.dome_homed),
{
    lemma_entry_dh(a, now);
    lemma_entry_dh(b, now);
    lemma_cancel("dh="@, opt_bool_mark(a.dome_homed), opt_bool_mark(b.dome_homed));
}

#[verifier::spinoff_prover]
proof fn lemma_entry_fc(s: StateView, now: Moment)
    ensures
        held(s, now)[15] == "fc="@ + opt_bool_mark(s.flat_connected),
{
    reveal(held);
}

#[verifier::spinoff_prover]
proof fn lemma_mark_fc(a: StateView, b: StateView, now: Moment)
    requires
        held(a, now) == held(b, now),
    ensures
        opt_bool_mark(a.flat_connected) == opt_bool_mark(b.flat_connected),
{
    lemma_entry_fc(a, now);
    lemma_entry_fc(b, now);
    lemma_cancel("fc="@, opt_bool_mark(a.flat_connected), opt_bool_mark(b.flat_connected));
}

#[verifier::spinoff_prover]
proof fn lemma_entry_fl(s: StateView, now: Moment)
    ensures
        held(s, now)[17] == "fl="@ + opt_bool_mark(s.flat_light_on),
{
    reveal(held);
}

#[verifier::spinoff_prover]
proof fn lemma_mark_fl(a: StateView, b: StateView, now: Moment)
    requires
        held(a, now) == held(b, now),
    ensures
        opt_bool_mark(a.flat_light_on) == opt_bool_mark(b.flat_light_on),
{
    lemma_entry_fl(a, now);
    lemma_entry_fl(b, now);
    lemma_cancel("fl="@, opt_bool_mark(a.flat_light_on), opt_bool_mark(b.flat_light_on));
}

#[verifier::spinoff_prover]
proof fn lemma_entry_wc(s: StateView, now: Moment)
    ensures
        held(s, now)[19] == "wc="@ + opt_bool_mark(s.weather_connected),
{
    reveal(held);
}

#[verifier::spinoff_prover]
proof fn lemma_mark_wc(a: StateView, b: StateView, now: Moment)
    requires
        held(a, now) == held(b, now),
    ensures
        opt_bool_mark(a.weather_connected) == opt_bool_mark(b.weather_connected),
{
    lemma_entry_wc(a, now);
    lemma_entry_wc(b, now);
    lemma_cancel("wc="@, opt_bool_mark(a.weather_connected), opt_bool_mark(b.weather_connected));
}

#[verifier::spinoff_prover]
proof fn lemma_entry_wh(s: StateView, now: Moment)
    ensures
        held(s, now)[21] == "wh="@ + opt_bool_mark(s.weather_high_wind),
{
    reveal(held);
}

#[verifier::spinoff_prover]
proof fn lemma_mark_wh(a: StateView, b: StateView, now: Moment)
    requires
        held(a, now) == held(b, now),
    ensures
        opt_bool_mark(a.weather_high_wind) == opt_bool_mark(b.weather_high_wind),
{
    lemma_entry_wh(a, now);
    lemma_entry_wh(b, now);
    lemma_cancel("wh="@, opt_bool_mark(a.weather_high_wind), opt_bool_mark(b.weather_high_wind));
}

#[verifier::spinoff_prover]
proof fn lemma_entry_sw(s: StateView, now: Moment)
    ensures
        held(s, now)[24] == "sw="@ + opt_bool_mark(s.switch_connected),
{
    reveal(held);
}

#[verifier::spinoff_prover]
proof fn lemma_mark_sw(a: StateView, b: StateView, now: Moment)
    requires
        held(a, now) == held(b, now),
    ensures
        opt_bool_mark(a.switch_connected) == opt_bool_mark(b.switch_connected),
{
    lemma_entry_sw(a, now);
    lemma_entry_sw(b, now);
    lemma_cancel("sw="@, opt_bool_mark(a.switch_connected), opt_bool_mark(b.switch_connected));
}

#[verifier::spinoff_prover]
proof fn lemma_entry_sr(s: StateView, now: Moment)
    ensures
        held(s, now)[6] == "sr="@ + bool_mark(s.sequence_running),
{
    reveal(held);
}

#[verifier::spinoff_prover]
proof fn lemma_mark_sr(a: StateView, b: StateView, now: Moment)
    requires
        held(a, now) == held(b, now),
    ensures
        bool_mark(a.sequence_running) == bool_mark(b.sequence_running),
{
    lemma_entry_sr(a, now);
    lemma_entry_sr(b, now);
    lemma_cancel("sr="@, bool_mark(a.sequence_running), bool_mark(b.sequence_running));
}

#[verifier::spinoff_prover]
proof fn lemma_entry_safe(s: StateView, now: Moment)
    ensures
        held(s, now)[9] == "safe="@ + safety_mark(s.safety_state),
{
    reveal(held);
}

#[verifier::spinoff_prover]
proof fn lemma_mark_safe(a: StateView, b: StateView, now: Moment)
    requires
        held(a, now) == held(b, now),
    ensures
        safety_mark(a.safety_state) == safety_mark(b.safety_state),
{
    lemma_entry_safe(a, now);
    lemma_entry_safe(b, now);
    lemma_cancel("safe="@, safety_mark(a.safety_state), safety_mark(b.safety_state));
}

#[verifier::spinoff_prover]
proof fn lemma_entry_daz(s: StateView, now: Moment)
    ensures
        held(s, now)[12] == "daz="@ + opt_double_mark(s.dome_azimuth),
{
    reveal(held);
}

#[verifier::spinoff_prover]
proof fn lemma_mark_daz(a: StateView, b: StateView, now: Moment)
    requires
        held(a, now) == held(b, now),
    ensures
        opt_double_mark(a.dome_azimuth) == opt_double_mark(b.dome_azimuth),
{
    lemma_entry_daz(a, now);
    lemma_entry_daz(b, now);
    lemma_cancel("daz="@, opt_double_mark(a.dome_azimuth), opt_double_mark(b.dome_azimuth));
}

#[verifier::spinoff_prover]
proof fn lemma_entry_wht(s: StateView, now: Moment)
    ensures
        held(s, now)[23] == "wht="@
            + opt_double_mark(s.weather_high_wind_threshold_meters_per_second),
{
    reveal(held);
}

#[verifier::spinoff_prover]
proof fn lemma_mark_wht(a: StateView, b: StateView, now: Moment)
    requires
        held(a, now) == held(b, now),
    ensures
        opt_double_mark(a.weather_high_wind_threshold_meters_per_second)
            == opt_double_mark(b.weather_high_wind_threshold_meters_per_second),
{
    lemma_entry_wht(a, now);
    lemma_entry_wht(b, now);
    lemma_cancel("wht="@, opt_double_mark(a.weather_high_wind_threshold_meters_per_second),
        opt_double_mark(b.weather_high_wind_threshold_meters_per_second));
}

#[verifier::spinoff_prover]
proof fn lemma_entry_t(s: StateView, now: Moment)
    ensures
        held(s, now)[0] == "t="@ + crate::fingerprint::target_name_mark(s),
{
    reveal(held);
}

#[verifier::spinoff_prover]
proof fn lemma_mark_t(a: StateView, b: StateView, now: Moment)
    requires
        held(a, now) == held(b, now),
    ensures
        crate::fingerprint::target_name_mark(a) == crate::fingerprint::target_name_mark(b),
{
    lemma_entry_t(a, now);
    lemma_entry_t(b, now);
    lemma_cancel("t="@, crate::fingerprint::target_name_mark(a),
        crate::fingerprint::target_name_mark(b));
}

#[verifier::spinoff_prover]
proof fn lemma_entry_f(s: StateView, now: Moment)
    ensures
        held(s, now)[2] == "f="@ + (match s.last_filter {
            Some(f) => f.name@,
            None => ""@,
        }),
{
    reveal(held);
}

#[verifier::spinoff_prover]
proof fn lemma_mark_f(a: StateView, b: StateView, now: Moment)
    requires
        held(a, now) == held(b, now),
    ensures
        (match a.last_filter {
            Some(f) => f.name@,
            None => ""@,
        }) == (match b.last_filter {
            Some(f) => f.name@,
            None => ""@,
        }),
{
    lemma_entry_f(a, now);
    lemma_entry_f(b, now);
    lemma_cancel("f="@, (match a.last_filter {
            Some(f) => f.name@,
            None => ""@,
        }), (match b.last_filter {
            Some(f) => f.name@,
            None => ""@,
        }));
}

#[verifier::spinoff_prover]
proof fn lemma_entry_m(s: StateView, now: Moment)
    ensures
        held(s, now)[3] == "m="@ + crate::fingerprint::opt_or(s.last_mount_event, ""@),
{
    reveal(held);
}

#[verifier::spinoff_prover]
proof fn lemma_mark_m(a: StateView, b: StateView, now: Moment)
    requires
        held(a, now) == held(b, now),
    ensures
        crate::fingerprint::opt_or(a.last_mount_event, ""@)
            == crate::fingerprint::opt_or(b.last_mount_event, ""@),
{
    lemma_entry_m(a, now);
    lemma_entry_m(b, now);
    lemma_cancel("m="@, crate::fingerprint::opt_or(a.last_mount_event, ""@),
        crate::fingerprint::opt_or(b.last_mount_event, ""@));
}

#[verifier::spinoff_prover]
proof fn lemma_entry_g(s: StateView, now: Moment)
    ensures
        held(s, now)[4] == "g="@ + crate::fingerprint::opt_or(s.last_guider_event, ""@),
{
    reveal(held);
}

#[verifier::spinoff_prover]
proof fn lemma_mark_g(a: StateView, b: StateView, now: Moment)
    requires
        held(a, now) == held(b, now),
    ensures
        crate::fingerprint::opt_or(a.last_guider_event, ""@)
            == crate::fingerprint::opt_or(b.last_guider_event, ""@),
{
    lemma_entry_g(a, now);
    lemma_entry_g(b, now);
    lemma_cancel("g="@, crate::fingerprint::opt_or(a.last_guider_event, ""@),
        crate::fingerprint::opt_or(b.last_guider_event, ""@));
}

#[verifier::spinoff_prover]
proof fn lemma_entry_sf(s: StateView, now: Moment)
    ensures
        held(s, now)[7] == "sf="@ + (match s.sequence_failure {
            Some(f) => f.error,
            None => ""@,
        }),
{
    reveal(held);
}

#[verifier::spinoff_prover]
proof fn lemma_mark_sf(a: StateView, b: StateView, now: Moment)
    requires
        held(a, now) == held(b, now),
    ensures
        (match a.sequence_failure {
            Some(f) => f.error,
            None => ""@,
        }) == (match b.sequence_failure {
            Some(f) => f.error,
            None => ""@,
        }),
{
    lemma_entry_sf(a, now);
    lemma_entry_sf(b, now);
    lemma_cancel("sf="@, (match a.sequence_failure {
            Some(f) => f.error,
            None => ""@,
        }), (match b.sequence_failure {
            Some(f) => f.error,
            None => ""@,
        }));
}

#[verifier::spinoff_prover]
proof fn lemma_entry_w(s: StateView, now: Moment)
    ensures
        held(s, now)[5] == "w="@ + wait_mark(s, now),
{
    reveal(held);
}

#[verifier::spinoff_prover]
proof fn lemma_mark_w(a: StateView, b: StateView, now: Moment)
    requires
        held(a, now) == held(b, now),
    ensures
        wait_mark(a, now) == wait_mark(b, now),
{
    lemma_entry_w(a, now);
    lemma_entry_w(b, now);
    lemma_cancel("w="@, wait_mark(a, now), wait_mark(b, now));
}

/// States with the same marks look the same: they agree in what is connected, open, parked, at home
/// and lit, in the safety monitor, in high wind, in the sequence, in the names of the target, of
/// the filter and of the last events, and in the dome's azimuth. So a change in any of these is
/// worth a new status message.
#[verifier::spinoff_prover]
pub proof fn marks_tell_states_apart(a: StateView, b: StateView, now: Moment)
    requires
        marks(a, now) == marks(b, now),
    ensures
        a.dome_connected == b.dome_connected,
        a.dome_shutter_open == b.dome_shutter_open,
        a.dome_parked == b.dome_parked,
        a.dome_homed == b.dome_homed,
        a.flat_connected == b.flat_connected,
        a.flat_light_on == b.flat_light_on,
        a.weather_connected == b.weather_connected,
        a.weather_high_wind == b.weather_high_wind,
        a.switch_connected == b.switch_connected,
        a.sequence_running == b.sequence_running,
        a.safety_state == b.safety_state,
        a.dome_azimuth is Some && b.dome_azimuth is Some ==> a.dome_azimuth->0.shortest_text()
            == b.dome_azimuth->0.shortest_text(),
        a.weather_high_wind_threshold_meters_per_second is Some
            && b.weather_high_wind_threshold_meters_per_second is Some
            ==> a.weather_high_wind_threshold_meters_per_second->0.shortest_text()
            == b.weather_high_wind_threshold_meters_per_second->0.shortest_text(),
        a.current_target is Some && b.current_target is Some ==> a.current_target->0.name@
            == b.current_target->0.name@,
        a.last_filter is Some && b.last_filter is Some ==> a.last_filter->0.name@
            == b.last_filter->0.name@,
        a.last_mount_event is Some && b.last_mount_event is Some ==> a.last_mount_event
            == b.last_mount_event,
        a.last_guider_event is Some && b.last_guider_event is Some ==> a.last_guider_event
            == b.last_guider_event,
        a.sequence_failure is Some && b.sequence_failure is Some ==> a.sequence_failure->0.error
            == b.sequence_failure->0.error,
        wait_mark(a, now) == wait_mark(b, now),
{
    lemma_held(a, b, now);
    lemma_mark_dc(a, b, now);
    lemma_mark_dso(a, b, now);
    lemma_mark_dp(a, b, now);
    lemma_mark_dh(a, b, now);
    lemma_mark_fc(a, b, now);
    lemma_mark_fl(a, b, now);
    lemma_mark_wc(a, b, now);
    lemma_mark_wh(a, b, now);
    lemma_mark_sw(a, b, now);
    lemma_mark_sr(a, b, now);
    lemma_mark_safe(a, b, now);
    lemma_mark_daz(a, b, now);
    lemma_mark_wht(a, b, now);
    lemma_mark_t(a, b, now);
    lemma_mark_f(a, b, now);
    lemma_mark_m(a, b, now);
    lemma_mark_g(a, b, now);
    lemma_mark_sf(a, b, now);
    lemma_mark_w(a, b, now);
    lemma_flags(a.dome_connected, b.dome_connected);
    lemma_flags(a.dome_shutter_open, b.dome_shutter_open);
    lemma_flags(a.dome_parked, b.dome_parked);
    lemma_flags(a.dome_homed, b.dome_homed);
    lemma_flags(a.flat_connected, b.flat_connected);
    lemma_flags(a.flat_light_on, b.flat_light_on);
    lemma_flags(a.weather_connected, b.weather_connected);
    lemma_flags(a.weather_high_wind, b.weather_high_wind);
    lemma_flags(a.switch_connected, b.switch_connected);
    lemma_flag(a.sequence_running, b.sequence_running);
    lemma_safety(a.safety_state, b.safety_state);
    lemma_numbers(a.dome_azimuth, b.dome_azimuth);
    lemma_numbers(
        a.weather_high_wind_threshold_meters_per_second,
        b.weather_high_wind_threshold_meters_per_second,
    );
}

/// Waits are worth a new status message once a minute, and temperatures once in half a degree.
#[verifier::spinoff_prover]
pub proof fn waits_count_by_the_minute(
    t: TrackedSequenceOperation,
    now: Moment,
    later: Moment,
    end: Moment,
)
    requires
        t.operation.kind is TimeWait,
        t.estimated_end == Some(end),
        span_between(now, end).whole_minutes() == span_between(later, end).whole_minutes(),
    ensures
        bucket_mark(t, now) == bucket_mark(t, later),
        bucket_mark(t, now) == "wait:"@ + dec_int(span_between(now, end).whole_minutes()),
{
}

/// What is printed of an image shows each of its readings on the line of that reading.
#[verifier::spinoff_prover]
pub proof fn printed_images_show_the_image(s: StateView, image: ImageMetadata,
    flip: Option<Seq<char>>)
    ensures
        ({
            let lines = image_text(s, image, flip);
            let k: int = (if s.current_target is Some {
                1int
            } else {
                0
            }) + (if s.meridian_flip_time is Some && flip is Some {
                1int
            } else {
                0
            });
            &&& lines.len() == k + 9
            &&& lines[0] == "[NEW IMAGE] "@ + image.date@
            &&& s.current_target matches Some(t) ==> lines[1] == "  Target: "@ + t.name@
            &&& s.meridian_flip_time is Some && flip is Some ==> lines[k]
                == "  Meridian flip in: "@ + flip->0
            &&& lines[k + 1] == "  Camera: "@ + image.camera_name@
            &&& lines[k + 2] == "  Type: "@ + image.image_type@
            &&& lines[k + 3] == "  Filter: "@ + image.filter@
            &&& lines[k + 4] == "  Exposure: "@ + image.exposure_time.plain_text() + "s"@
            &&& lines[k + 5] == "  Temperature: "@ + image.temperature.fixed_text(1) + "°C"@
            &&& lines[k + 6] == "  Stars: "@ + dec_int(image.stars as int) + ", HFR: "@
                + image.hfr.fixed_text(2)
            &&& lines[k + 7] == "  RMS: "@ + image.rms_text@
            &&& lines[k + 8].len() == 0
        }),
{
    reveal_strlit("");
    assert(""@.len() == 0);
}

/// What is printed of an autofocus run shows its figures on lines of their own, or why there is
/// none.
#[verifier::spinoff_prover]
pub proof fn printed_runs_show_the_run(r: AutofocusResponse)
    ensures
        !r.success ==> autofocus_text(r) =~= seq!["❌ Autofocus failed: "@ + r.error@],
        r.success ==> {
            let lines = autofocus_text(r);
            let a = r.response;
            &&& lines.len() >= 7
            &&& lines[0] == (if r.response.calculated_focus_point.error.magnitude() == 0 {
                "✅"@
            } else {
                "⚠️"@
            }) + " Autofocus Summary"@
            &&& lines[2] == "  Mode: "@ + a.method_text()
            &&& a.temperature.finite() ==> lines[3] == "  Temperature: "@
                + a.temperature.fixed_text(1) + "°C"@
            &&& lines[4] == "  Duration: "@ + a.duration@
            &&& lines[5] == "  Position Change: "@ + a.calculated_focus_point.position.difference(
                a.initial_focus_point.position,
            ).fixed_text(0)
            &&& a.fit_quality_text() matches Some(t) ==> lines[6] == "  Fit R-squared: "@ + t
            &&& a.star_count_text() matches Some(t) ==> lines[7] == "  Accepted stars per point: "@
                + t
            &&& a.star_count_text() is None ==> (a.hyperbolic_minimum_std_error matches Some(v)
                ==> lines[7] == "  Focus precision: ±"@ + v.fixed_text(2) + " steps"@)
            &&& a.region_text() matches Some(t) ==> lines.last() == "  Detection region: "@ + t
        },
{
}

} // verus!
