//! What is promised of telescopes and channels, of requests, of times and of what a chat shows.

use vstd::prelude::*;
use crate::api_types::{CommandBody, CommandResponse};
use crate::calendar::{
    elapsed_nanos, rfc3339_parts, timestamp_in, timestamp_of, utc_text, Moment, Span, FIRST_SECOND,
    LAST_SECOND,
};
use crate::chat::{routing, status_routing, ChatService, ChatTarget, MessageView};
use crate::direct::{deadline, needed, QueryKind, RigCommand};
use crate::events::{connection_name, scope_of, Event, EventDeliveryScope, EventDetails};
use crate::matrix::{body, field_lines, matrix_text, time_line};
use crate::rig_resolver::{source_named, CommandContext, RigResolver, StaticRigResolver};
use crate::source::{still_preparing, RigCapabilities, RigSourceError};
use crate::text::{
    ascii_lower, has_part, has_prefix, has_suffix, is_space, trim_end, trimmed, truncated,
};
use crate::updater_state::times_of;

verus! {

/// A command goes to the telescope that its channel belongs to, whether it names that telescope or
/// none, and to no other.
pub proof fn commands_go_to_the_channels_telescope(
    r: &StaticRigResolver,
    invocation: CommandContext,
    name: Option<Seq<char>>,
)
    ensures
        r.resolution(invocation, name) matches Ok(p) ==> r.routed(invocation.channel_id) == Some(
            p.0,
        ) && (name matches Some(n) ==> n == p.0) && (name is Some ==> source_named(
            r.rig_sources@,
            p.0,
        ) == Some(p.1)),
        r.routed(invocation.channel_id) is None ==> r.resolution(invocation, name) is Err,
        r.routed(invocation.channel_id) matches Some(mapped) ==> (source_named(
            r.rig_sources@,
            mapped,
        ) matches Some(source) ==> {
            &&& r.resolution(invocation, None) == Ok::<_, Seq<char>>((mapped, source))
            &&& r.resolution(invocation, Some(mapped)) == Ok::<_, Seq<char>>((mapped, source))
        }),
        r.routed(invocation.channel_id) matches Some(mapped) ==> (name matches Some(n) ==> (n
            != mapped ==> r.resolution(invocation, name) is Err)),
{
}

/// Writing is allowed exactly in a server, on the channel's own known telescope whose owner allows
/// commands, to the users that are listed or, where none is, to the managers of the server.
pub proof fn writing_is_allowed_to_those_listed(
    r: &StaticRigResolver,
    invocation: CommandContext,
    telescope: Seq<char>,
)
    ensures
        r.permission(invocation, telescope) is Ok <==> {
            &&& invocation.guild_id is Some
            &&& r.routed(invocation.channel_id) == Some(telescope)
            &&& source_named(r.rig_sources@, telescope) matches Some(s) && s.capabilities.commands
            &&& if r.write_acl@.len() == 0 {
                invocation.manages_guild
            } else {
                r.write_acl@.contains(invocation.user_id)
            }
        },
{
}

/// A request needs what it asks for and nothing else: each kind of history its own, and anything
/// about a device its snapshots. Commands must be allowed, and those on the current target must be
/// known to the source as well.
pub proof fn requests_need_their_own_capability(
    kind: QueryKind,
    c: RigCapabilities,
    command: RigCommand,
)
    ensures
        kind is EventHistory ==> needed(kind, c).0 == c.event_history,
        kind is ImageHistory ==> needed(kind, c).0 == c.image_history,
        kind is Sequence ==> needed(kind, c).0 == c.sequence,
        kind is Thumbnail ==> needed(kind, c).0 == c.thumbnails,
        kind is LastAutofocus ==> needed(kind, c).0 == c.autofocus_details,
        kind is AcknowledgeAutofocus ==> needed(kind, c).0 == c.autofocus_delivery_ack,
        kind is GuiderGraph ==> needed(kind, c).0 == c.guider_graph,
        kind is MountInfo || kind is CameraInfo || kind is FilterwheelInfo || kind is GuiderInfo
            || kind is RotatorInfo || kind is FocuserInfo
                ==> needed(kind, c).0 == c.equipment_snapshots,
        kind == (QueryKind::Command { command }) ==> needed(kind, c).0 == (c.commands && (
        command is SlewToTarget || command is CenterTarget || command is CenterRotateTarget
            ==> c.target_commands)),
{
}

/// A command expires a quarter of a minute after it is sent; nothing else expires.
pub proof fn only_commands_expire(kind: QueryKind, now: i64)
    requires
        now < 0x7fff_ffff_ffff_0000,
    ensures
        kind is Command ==> deadline(kind, now) == Some((now + 15) as i64),
        !(kind is Command) ==> deadline(kind, now) is None,
{
}

/// A refusal says that a thumbnail is still in preparation where it speaks of a thumbnail, of
/// "still" and of preparing or encoding, in any case of letters.
pub proof fn preparation_is_told_by_its_words(error: RigSourceError)
    ensures
        error is NotReady ==> still_preparing(error),
        error matches RigSourceError::Rejected { reason, .. } ==> still_preparing(error) == (
        has_part(ascii_lower(reason@), "thumbnail"@) && has_part(ascii_lower(reason@), "still"@)
            && (has_part(ascii_lower(reason@), "prepar"@) || has_part(
            ascii_lower(reason@),
            "encod"@,
        ))),
        !(error is NotReady) && !(error is Rejected) ==> !still_preparing(error),
{
}

/// The answer to a command in words: why it failed, or what it gave back.
pub proof fn answers_tell_failure_from_success(r: CommandResponse)
    ensures
        !r.success && r.error@.len() > 0 ==> r.summary_text() == "failed: "@ + r.error@,
        !r.success && r.error@.len() == 0 ==> r.summary_text() == "failed"@,
        r.success && r.response is Null ==> r.summary_text() == "ok"@,
        r.success ==> (r.response matches CommandBody::Flag(b) ==> r.summary_text() == (if b {
            "true"@
        } else {
            "false"@
        })),
        r.success ==> (r.response matches CommandBody::Text(t) ==> (t@.len() > 0
            ==> r.summary_text() == t@)),
        r.success ==> (r.response matches CommandBody::Other(t) ==> r.summary_text() == t@),
{
}

/// Points of time are in order: none is before itself, of two different ones exactly one is before
/// the other, and before is passed on.
pub proof fn moments_are_in_order(a: Moment, b: Moment, c: Moment)
    ensures
        !a.earlier(a),
        a != b ==> a.earlier(b) != b.earlier(a),
        a.earlier(b) && b.earlier(c) ==> a.earlier(c),
        a.seconds < b.seconds ==> a.earlier(b),
        a.seconds == b.seconds && a.nanos < b.nanos ==> a.earlier(b),
{
}

/// Outside of leap seconds the time between two points is the difference of their readings, and
/// there and back are opposite.
pub proof fn spans_are_differences(a: Moment, b: Moment)
    requires
        a.nanos < 1_000_000_000 && b.nanos < 1_000_000_000,
    ensures
        elapsed_nanos(a, b) == (b.seconds - a.seconds) * 1_000_000_000 + b.nanos - a.nanos,
        elapsed_nanos(a, b) == -elapsed_nanos(b, a),
        elapsed_nanos(a, b) > 0 <==> a.earlier(b),
{
}

/// Whole units of a span leave the fraction out, toward zero.
pub proof fn whole_units_drop_the_fraction(span: Span)
    ensures
        span.nanos >= 0 ==> span.whole_seconds() * 1_000_000_000 <= span.nanos
            < (span.whole_seconds() + 1) * 1_000_000_000,
        span.nanos >= 0 ==> span.whole_minutes() * 60_000_000_000 <= span.nanos
            < (span.whole_minutes() + 1) * 60_000_000_000,
        span.nanos >= 0 ==> span.whole_milliseconds() * 1_000_000 <= span.nanos
            < (span.whole_milliseconds() + 1) * 1_000_000,
        span.nanos <= 0 ==> span.whole_seconds() * 1_000_000_000 >= span.nanos
            > (span.whole_seconds() - 1) * 1_000_000_000,
        span.nanos <= 0 ==> span.whole_minutes() * 60_000_000_000 >= span.nanos
            > (span.whole_minutes() - 1) * 60_000_000_000,
{
}

/// A timestamp with an offset of its own is read by it, whatever stands beside it. One without is
/// read on the clock of the event that carries it, and where that has none either, in UTC.
pub proof fn timestamps_are_read_by_their_offset(
    seconds: i64,
    nanos: u32,
    offset: i32,
    local: Option<(i64, u32)>,
    context: Option<(i64, u32, i32)>,
    other: Option<(i64, u32, i32)>,
)
    ensures
        timestamp_of(Some((seconds, nanos, offset)), local, context) == timestamp_of(
            Some((seconds, nanos, offset)),
            local,
            other,
        ),
        timestamp_of(Some((seconds, nanos, offset)), local, context) matches Some(z)
            && z.moment.seconds == seconds && z.moment.nanos == nanos && z.offset == offset,
        timestamp_of(None, None, context) is None,
        FIRST_SECOND <= seconds <= LAST_SECOND ==> (timestamp_of(
            None,
            Some((seconds, nanos)),
            None,
        ) matches Some(z) && z.moment.seconds == seconds && z.moment.nanos == nanos && z.offset
            == 0),
        context matches Some(c) ==> (FIRST_SECOND <= seconds - c.2 <= LAST_SECOND ==> (
        timestamp_of(None, Some((seconds, nanos)), context) matches Some(z) && z.moment.seconds
            == seconds - c.2 && z.moment.nanos == nanos && z.offset == c.2)),
{
}

/// A message on Matrix starts with its title, bold; each field stands on a line of its own, its
/// name bold before its value, in order; the footer comes last, in italics.
#[verifier::spinoff_prover]
pub proof fn matrix_shows_title_fields_and_footer(
    m: MessageView,
    name: Seq<char>,
    value: Seq<char>,
    inline: bool,
    footer: Seq<char>,
)
    ensures
        has_prefix(matrix_text(m), "**"@ + m.title + "**\n\n"@),
        field_lines(m.with(name, value, inline).fields) == field_lines(m.fields) + ("**"@ + name
            + "**: "@ + value + "\n"@),
        m.footer is None && m.fields.len() == 0 ==> body(m).len() == 0,
        m.footer is None && m.fields.len() > 0 ==> body(m) == field_lines(m.fields) + "\n"@,
        m.footer == Some(footer) && m.fields.len() > 0 ==> body(m) == field_lines(m.fields) + "\n"@
            + ("_"@ + footer + "_"@),
        m.footer == Some(footer) && m.fields.len() == 0 ==> body(m) =~= "_"@ + footer + "_"@,
        m.matrix_timestamp_label is None || m.timestamp is None ==> time_line(m).len() == 0,
        m.matrix_timestamp_label == Some(name) && m.timestamp == Some(value) ==> time_line(m)
            == "**"@ + name + "**: "@ + (match rfc3339_parts(value) {
            Some(p) => utc_text(Moment { seconds: p.0, nanos: p.1 }),
            None => value,
        }) + "\n"@,
{
    assert(m.with(name, value, inline).fields.drop_last() =~= m.fields);
    let head = "**"@ + m.title + "**\n\n"@;
    assert(matrix_text(m) == head + time_line(m) + body(m));
    assert((head + time_line(m) + body(m)).subrange(0, head.len() as int) =~= head);
}

/// A message goes to exactly the services that have a destination for it, each once and in their
/// order.
pub proof fn messages_go_where_they_can(
    services: Seq<Box<dyn ChatService>>,
    target: &ChatTarget,
    n: nat,
)
    requires
        n <= services.len() <= usize::MAX,
    ensures
        forall|i: int|
            0 <= i < n ==> (#[trigger] routing(services, target, n).contains(i as usize) <==> (
            services[i]).routes(target)),
        forall|k: int|
            0 <= k < routing(services, target, n).len() ==> (#[trigger] routing(
                services,
                target,
                n,
            )[k]) < n,
        forall|j: int, k: int|
            #![trigger routing(services, target, n)[j], routing(services, target, n)[k]]
            0 <= j < k < routing(services, target, n).len() ==> routing(services, target, n)[j]
                < routing(services, target, n)[k],
    decreases n,
{
    if n > 0 {
        messages_go_where_they_can(services, target, (n - 1) as nat);
        let before = routing(services, target, (n - 1) as nat);
        let all = routing(services, target, n);
        let last = (n - 1) as usize;
        if services[n - 1].routes(target) {
            assert(all == before.push(last));
            assert(all[before.len() as int] == last);
        }
        assert forall|i: int| 0 <= i < n implies (#[trigger] all.contains(i as usize) <==> (
        services[i]).routes(target)) by {
            if i < n - 1 {
                assert(before.contains(i as usize) <==> (services[i]).routes(target));
                if before.contains(i as usize) {
                    let k = choose|k: int| 0 <= k < before.len() && before[k] == i as usize;
                    assert(all[k] == i as usize);
                }
                if all.contains(i as usize) {
                    let k = choose|k: int| 0 <= k < all.len() && all[k] == i as usize;
                    assert(k < before.len());
                    assert(before[k] == i as usize);
                }
            } else if all.contains(i as usize) && !services[i].routes(target) {
                let k = choose|k: int| 0 <= k < before.len() && before[k] == i as usize;
                assert(before[k] < n - 1);
            }
        }
    }
}

/// A status message goes to exactly the services that have a destination for it and can edit what
/// they posted, each once and in their order.
pub proof fn status_messages_go_where_they_can_be_edited(
    services: Seq<Box<dyn ChatService>>,
    target: &ChatTarget,
    n: nat,
)
    requires
        n <= services.len() <= usize::MAX,
    ensures
        forall|i: int|
            0 <= i < n ==> (#[trigger] status_routing(services, target, n).contains(i as usize)
                <==> (
            services[i].upserts() && services[i].routes(target))),
        forall|k: int|
            0 <= k < status_routing(services, target, n).len() ==> (#[trigger] status_routing(
                services,
                target,
                n,
            )[k]) < n,
        forall|j: int, k: int|
            #![trigger status_routing(services, target, n)[j],
                status_routing(services, target, n)[k]]
            0 <= j < k < status_routing(services, target, n).len()
                ==> status_routing(services, target, n)[j]
                < status_routing(services, target, n)[k],
    decreases n,
{
    if n > 0 {
        status_messages_go_where_they_can_be_edited(services, target, (n - 1) as nat);
        let before = status_routing(services, target, (n - 1) as nat);
        let all = status_routing(services, target, n);
        let last = (n - 1) as usize;
        if services[n - 1].upserts() && services[n - 1].routes(target) {
            assert(all == before.push(last));
            assert(all[before.len() as int] == last);
        }
        assert forall|i: int| 0 <= i < n implies (#[trigger] all.contains(i as usize) <==> (
        services[i].upserts() && services[i].routes(target))) by {
            if i < n - 1 {
                assert(before.contains(i as usize)
                    <==> (services[i].upserts() && services[i].routes(target)));
                if before.contains(i as usize) {
                    let k = choose|k: int| 0 <= k < before.len() && before[k] == i as usize;
                    assert(all[k] == i as usize);
                }
                if all.contains(i as usize) {
                    let k = choose|k: int| 0 <= k < all.len() && all[k] == i as usize;
                    assert(k < before.len());
                    assert(before[k] == i as usize);
                }
            } else if all.contains(i as usize)
                && !(services[i].upserts() && services[i].routes(target)) {
                let k = choose|k: int| 0 <= k < before.len() && before[k] == i as usize;
                assert(before[k] < n - 1);
            }
        }
    }
}

/// The switch that governs an event goes by the event's name: what is named after the scheduler,
/// the sequence, the safety monitor, images or autofocus runs, connections and disconnections of
/// all other devices, and after that the device.
#[verifier::spinoff_prover]
pub proof fn switches_go_by_name(event: Seq<char>)
    ensures
        has_prefix(event, "TS-"@) ==> scope_of(event) == EventDeliveryScope::TargetScheduler,
        has_prefix(event, "SEQUENCE-"@) ==> scope_of(event) == EventDeliveryScope::Sequence,
        has_prefix(event, "SAFETY-"@) ==> scope_of(event) == EventDeliveryScope::Safety,
        has_prefix(event, "IMAGE-"@) ==> scope_of(event) == EventDeliveryScope::Images,
        has_prefix(event, "AUTOFOCUS-"@) ==> scope_of(event) == EventDeliveryScope::Autofocus,
        has_prefix(event, "GUIDER-"@) ==> scope_of(event) == (if connection_name(event) {
            EventDeliveryScope::EquipmentConnections
        } else {
            EventDeliveryScope::Guiding
        }),
        has_prefix(event, "DOME-"@) || has_prefix(event, "FLAT-"@) ==> scope_of(event) == (
        if connection_name(event) {
            EventDeliveryScope::EquipmentConnections
        } else {
            EventDeliveryScope::Observatory
        }),
        has_prefix(event, "FILTERWHEEL-"@) || has_prefix(event, "FOCUSER-"@) ==> scope_of(event)
            == (if connection_name(event) {
            EventDeliveryScope::EquipmentConnections
        } else {
            EventDeliveryScope::FilterFocuserRotator
        }),
        has_prefix(event, "MOUNT-"@) && event != "MOUNT-SLEW-STARTED"@ ==> scope_of(event) == (
        if connection_name(event) {
            EventDeliveryScope::EquipmentConnections
        } else {
            EventDeliveryScope::Mount
        }),
        has_prefix(event, "ROTATOR-"@) && event != "ROTATOR-MOVE-STARTED"@ ==> scope_of(event)
            == (if connection_name(event) {
            EventDeliveryScope::EquipmentConnections
        } else {
            EventDeliveryScope::FilterFocuserRotator
        }),
        event == "MOUNT-SLEW-STARTED"@ ==> scope_of(event) == EventDeliveryScope::SlewMotion,
        event == "ROTATOR-MOVE-STARTED"@ ==> scope_of(event) == EventDeliveryScope::RotatorMotion,
        event == "WEATHER-CHANGED"@ ==> scope_of(event) == EventDeliveryScope::WeatherChanges,
        event == "WEATHER-HIGH-WIND"@ ==> scope_of(event) == EventDeliveryScope::HighWindAlerts,
        event == "NINA-NOTIFICATION"@ ==> scope_of(event)
            == EventDeliveryScope::NinaNotifications,
        event == "NINA-LOG"@ ==> scope_of(event) == EventDeliveryScope::NinaLogs,
        event == "CHATSTRONOMY-COMMAND-FAILED"@ ==> scope_of(event)
            == EventDeliveryScope::CommandFailures,
        event == "API-CAPTURE-FINISHED"@ || event == "CAMERA-DOWNLOAD-TIMEOUT"@ ==> scope_of(event)
            == EventDeliveryScope::Images,
        event == "ERROR-AF"@ ==> scope_of(event) == EventDeliveryScope::Autofocus,
        event == "ERROR-PLATESOLVE"@ ==> scope_of(event) == EventDeliveryScope::Mount,
{
    reveal_strlit("NINA-NOTIFICATION");
    reveal_strlit("NINA-LOG");
    reveal_strlit("MOUNT-SLEW-STARTED");
    reveal_strlit("ROTATOR-MOVE-STARTED");
    reveal_strlit("WEATHER-CHANGED");
    reveal_strlit("WEATHER-HIGH-WIND");
    reveal_strlit("CHATSTRONOMY-COMMAND-FAILED");
    reveal_strlit("API-CAPTURE-FINISHED");
    reveal_strlit("CAMERA-DOWNLOAD-TIMEOUT");
    reveal_strlit("ERROR-AF");
    reveal_strlit("ERROR-PLATESOLVE");
    reveal_strlit("TS-");
    reveal_strlit("SEQUENCE-");
    reveal_strlit("SAFETY-");
    reveal_strlit("IMAGE-");
    reveal_strlit("AUTOFOCUS-");
    reveal_strlit("GUIDER-");
    reveal_strlit("MOUNT-");
    reveal_strlit("FILTERWHEEL-");
    reveal_strlit("ROTATOR-");
    reveal_strlit("FOCUSER-");
    reveal_strlit("DOME-");
    reveal_strlit("FLAT-");
    reveal_strlit("-CONNECTED");
    reveal_strlit("-DISCONNECTED");
    assert("NINA-NOTIFICATION"@.len() == 17);
    assert("NINA-LOG"@.len() == 8);
    assert("MOUNT-SLEW-STARTED"@.len() == 18);
    assert("ROTATOR-MOVE-STARTED"@.len() == 20);
    assert("WEATHER-CHANGED"@.len() == 15);
    assert("WEATHER-HIGH-WIND"@.len() == 17);
    assert("CHATSTRONOMY-COMMAND-FAILED"@.len() == 27);
    assert("API-CAPTURE-FINISHED"@.len() == 20);
    assert("CAMERA-DOWNLOAD-TIMEOUT"@.len() == 23);
    assert("ERROR-AF"@.len() == 8);
    assert("ERROR-PLATESOLVE"@.len() == 16);
    assert("TS-"@.len() == 3);
    assert("SEQUENCE-"@.len() == 9);
    assert("SAFETY-"@.len() == 7);
    assert("IMAGE-"@.len() == 6);
    assert("AUTOFOCUS-"@.len() == 10);
    assert("GUIDER-"@.len() == 7);
    assert("MOUNT-"@.len() == 6);
    assert("FILTERWHEEL-"@.len() == 12);
    assert("ROTATOR-"@.len() == 8);
    assert("FOCUSER-"@.len() == 8);
    assert("DOME-"@.len() == 5);
    assert("FLAT-"@.len() == 5);
    assert("-CONNECTED"@.len() == 10);
    assert("-DISCONNECTED"@.len() == 13);
    assert("NINA-NOTIFICATION"@[0] == 'N' && "NINA-NOTIFICATION"@[1] == 'I'
        && "NINA-NOTIFICATION"@[2] == 'N');
    assert("NINA-LOG"@[0] == 'N' && "NINA-LOG"@[1] == 'I' && "NINA-LOG"@[2] == 'N');
    assert("MOUNT-SLEW-STARTED"@[0] == 'M' && "MOUNT-SLEW-STARTED"@[1] == 'O'
        && "MOUNT-SLEW-STARTED"@[2] == 'U');
    assert("ROTATOR-MOVE-STARTED"@[0] == 'R' && "ROTATOR-MOVE-STARTED"@[1] == 'O'
        && "ROTATOR-MOVE-STARTED"@[2] == 'T');
    assert("WEATHER-CHANGED"@[0] == 'W' && "WEATHER-CHANGED"@[1] == 'E' && "WEATHER-CHANGED"@[2]
        == 'A');
    assert("WEATHER-HIGH-WIND"@[0] == 'W' && "WEATHER-HIGH-WIND"@[1] == 'E'
        && "WEATHER-HIGH-WIND"@[2] == 'A');
    assert("CHATSTRONOMY-COMMAND-FAILED"@[0] == 'C' && "CHATSTRONOMY-COMMAND-FAILED"@[1] == 'H'
        && "CHATSTRONOMY-COMMAND-FAILED"@[2] == 'A');
    assert("API-CAPTURE-FINISHED"@[0] == 'A' && "API-CAPTURE-FINISHED"@[1] == 'P'
        && "API-CAPTURE-FINISHED"@[2] == 'I');
    assert("CAMERA-DOWNLOAD-TIMEOUT"@[0] == 'C' && "CAMERA-DOWNLOAD-TIMEOUT"@[1] == 'A'
        && "CAMERA-DOWNLOAD-TIMEOUT"@[2] == 'M');
    assert("ERROR-AF"@[0] == 'E' && "ERROR-AF"@[1] == 'R' && "ERROR-AF"@[2] == 'R');
    assert("ERROR-PLATESOLVE"@[0] == 'E' && "ERROR-PLATESOLVE"@[1] == 'R' && "ERROR-PLATESOLVE"@[2]
        == 'R');
    assert("TS-"@[0] == 'T' && "TS-"@[1] == 'S' && "TS-"@[2] == '-');
    assert("SEQUENCE-"@[0] == 'S' && "SEQUENCE-"@[1] == 'E' && "SEQUENCE-"@[2] == 'Q');
    assert("SAFETY-"@[0] == 'S' && "SAFETY-"@[1] == 'A' && "SAFETY-"@[2] == 'F');
    assert("IMAGE-"@[0] == 'I' && "IMAGE-"@[1] == 'M' && "IMAGE-"@[2] == 'A');
    assert("AUTOFOCUS-"@[0] == 'A' && "AUTOFOCUS-"@[1] == 'U' && "AUTOFOCUS-"@[2] == 'T');
    assert("GUIDER-"@[0] == 'G' && "GUIDER-"@[1] == 'U' && "GUIDER-"@[2] == 'I');
    assert("MOUNT-"@[0] == 'M' && "MOUNT-"@[1] == 'O' && "MOUNT-"@[2] == 'U');
    assert("FILTERWHEEL-"@[0] == 'F' && "FILTERWHEEL-"@[1] == 'I' && "FILTERWHEEL-"@[2] == 'L');
    assert("ROTATOR-"@[0] == 'R' && "ROTATOR-"@[1] == 'O' && "ROTATOR-"@[2] == 'T');
    assert("FOCUSER-"@[0] == 'F' && "FOCUSER-"@[1] == 'O' && "FOCUSER-"@[2] == 'C');
    assert("DOME-"@[0] == 'D' && "DOME-"@[1] == 'O' && "DOME-"@[2] == 'M');
    assert("FLAT-"@[0] == 'F' && "FLAT-"@[1] == 'L' && "FLAT-"@[2] == 'A');
    assert("NINA-NOTIFICATION"@[16] == 'N');
    assert("NINA-LOG"@[7] == 'G');
    assert("MOUNT-SLEW-STARTED"@[17] == 'D');
    assert("ROTATOR-MOVE-STARTED"@[19] == 'D');
    assert("WEATHER-CHANGED"@[14] == 'D');
    assert("WEATHER-HIGH-WIND"@[16] == 'D');
    assert("CHATSTRONOMY-COMMAND-FAILED"@[26] == 'D');
    assert("API-CAPTURE-FINISHED"@[19] == 'D');
    assert("CAMERA-DOWNLOAD-TIMEOUT"@[22] == 'T');
    assert("ERROR-AF"@[7] == 'F');
    assert("ERROR-PLATESOLVE"@[15] == 'E');
    assert("-CONNECTED"@[9] == 'D');
    assert("-DISCONNECTED"@[12] == 'D');
    if has_prefix(event, "TS-"@) {
        assert(event.subrange(0, 3)[0] == event[0] && event.subrange(0, 3)[1] == event[1]
            && event.subrange(0, 3)[2] == event[2]);
    }
    if has_prefix(event, "SEQUENCE-"@) {
        assert(event.subrange(0, 9)[0] == event[0] && event.subrange(0, 9)[1] == event[1]
            && event.subrange(0, 9)[2] == event[2]);
    }
    if has_prefix(event, "SAFETY-"@) {
        assert(event.subrange(0, 7)[0] == event[0] && event.subrange(0, 7)[1] == event[1]
            && event.subrange(0, 7)[2] == event[2]);
    }
    if has_prefix(event, "IMAGE-"@) {
        assert(event.subrange(0, 6)[0] == event[0] && event.subrange(0, 6)[1] == event[1]
            && event.subrange(0, 6)[2] == event[2]);
    }
    if has_prefix(event, "AUTOFOCUS-"@) {
        assert(event.subrange(0, 10)[0] == event[0] && event.subrange(0, 10)[1] == event[1]
            && event.subrange(0, 10)[2] == event[2]);
    }
    if has_prefix(event, "GUIDER-"@) {
        assert(event.subrange(0, 7)[0] == event[0] && event.subrange(0, 7)[1] == event[1]
            && event.subrange(0, 7)[2] == event[2]);
    }
    if has_prefix(event, "MOUNT-"@) {
        assert(event.subrange(0, 6)[0] == event[0] && event.subrange(0, 6)[1] == event[1]
            && event.subrange(0, 6)[2] == event[2]);
    }
    if has_prefix(event, "FILTERWHEEL-"@) {
        assert(event.subrange(0, 12)[0] == event[0] && event.subrange(0, 12)[1] == event[1]
            && event.subrange(0, 12)[2] == event[2]);
    }
    if has_prefix(event, "ROTATOR-"@) {
        assert(event.subrange(0, 8)[0] == event[0] && event.subrange(0, 8)[1] == event[1]
            && event.subrange(0, 8)[2] == event[2]);
    }
    if has_prefix(event, "FOCUSER-"@) {
        assert(event.subrange(0, 8)[0] == event[0] && event.subrange(0, 8)[1] == event[1]
            && event.subrange(0, 8)[2] == event[2]);
    }
    if has_prefix(event, "DOME-"@) {
        assert(event.subrange(0, 5)[0] == event[0] && event.subrange(0, 5)[1] == event[1]
            && event.subrange(0, 5)[2] == event[2]);
    }
    if has_prefix(event, "FLAT-"@) {
        assert(event.subrange(0, 5)[0] == event[0] && event.subrange(0, 5)[1] == event[1]
            && event.subrange(0, 5)[2] == event[2]);
    }
    if has_suffix(event, "-CONNECTED"@) {
        assert(event.subrange(event.len() - 10, event.len() as int)[9] == event[event.len() - 1]);
    }
    if has_suffix(event, "-DISCONNECTED"@) {
        assert(event.subrange(event.len() - 13, event.len() as int)[12] == event[event.len() - 1]);
    }
}

/// The channels of a target are its own channel first and then the others.
pub proof fn channels_are_listed_own_first(target: &ChatTarget, id: u64)
    ensures
        target.discord_channel_id == Some(id) ==> target.listed_channels().len()
            == target.discord_channel_ids@.len() + 1 && target.listed_channels()[0] == id,
        target.discord_channel_id is None ==> target.listed_channels()
            == target.discord_channel_ids@,
        forall|i: int|
            0 <= i < target.discord_channel_ids@.len() ==> target.listed_channels().contains(
                #[trigger] target.discord_channel_ids@[i],
            ),
{
    assert forall|i: int| 0 <= i < target.discord_channel_ids@.len() implies
        target.listed_channels().contains(#[trigger] target.discord_channel_ids@[i]) by {
        match target.discord_channel_id {
            Some(own) => {
                assert(target.listed_channels()[i + 1] == target.discord_channel_ids@[i]);
            },
            None => {
                assert(target.listed_channels()[i] == target.discord_channel_ids@[i]);
            },
        }
    }
}

/// The times of an event are its own and those that it announces, which are read on the event's own
/// clock where they have no offset.
pub proof fn events_are_dated_by_their_own_clock(event: Event)
    ensures
        times_of(event).at == timestamp_in(event.time@, None),
        event.details matches Some(EventDetails::WaitStart { wait_end_time }) ==> times_of(
            event,
        ).wait_end == timestamp_in(wait_end_time@, Some(event.time@)),
        event.details matches Some(EventDetails::TargetStart { target_end_time, .. }) ==> times_of(
            event,
        ).target_end == (match target_end_time {
            Some(end) => timestamp_in(end@, Some(event.time@)),
            None => None,
        }),
        !(event.details matches Some(EventDetails::WaitStart { .. })) ==> times_of(event).wait_end
            is None,
        !(event.details matches Some(EventDetails::TargetStart { .. })) ==> times_of(
            event,
        ).target_end is None,
{
}

/// Trimming a text takes white space off both ends and nothing else.
pub proof fn trimming_takes_off_white_space_alone(s: Seq<char>)
    ensures
        ({
            let t = trimmed(s);
            &&& t.len() > 0 ==> !is_space(t[0]) && !is_space(t.last())
            &&& exists|a: int, b: int|
                #![trigger s.subrange(a, b)]
                0 <= a <= b <= s.len() && s.subrange(a, b) == t && (forall|i: int|
                    0 <= i < a ==> is_space(#[trigger] s[i])) && (forall|i: int|
                    b <= i < s.len() ==> is_space(#[trigger] s[i]))
        }),
    decreases s.len(),
{
    if s.len() > 0 && is_space(s[0]) {
        let rest = s.subrange(1, s.len() as int);
        trimming_takes_off_white_space_alone(rest);
        let (a, b) = choose|a: int, b: int|
            #![trigger rest.subrange(a, b)]
            0 <= a <= b <= rest.len() && rest.subrange(a, b) == trimmed(rest) && (forall|i: int|
                0 <= i < a ==> is_space(#[trigger] rest[i])) && (forall|i: int|
                b <= i < rest.len() ==> is_space(#[trigger] rest[i]));
        assert(s.subrange(a + 1, b + 1) =~= rest.subrange(a, b));
        assert forall|i: int| 0 <= i < a + 1 implies is_space(#[trigger] s[i]) by {
            if i > 0 {
                assert(rest[i - 1] == s[i]);
            }
        }
        assert forall|i: int| b + 1 <= i < s.len() implies is_space(#[trigger] s[i]) by {
            assert(rest[i - 1] == s[i]);
        }
    } else {
        lemma_trim_end(s);
        let t = trim_end(s);
        assert(s.subrange(0, t.len() as int) == t);
        if t.len() > 0 {
            assert(t[0] == s[0]);
        }
    }
}

proof fn lemma_trim_end(s: Seq<char>)
    ensures
        trim_end(s).len() <= s.len(),
        s.subrange(0, trim_end(s).len() as int) == trim_end(s),
        trim_end(s).len() > 0 ==> !is_space(trim_end(s).last()),
        forall|i: int| trim_end(s).len() <= i < s.len() ==> is_space(#[trigger] s[i]),
    decreases s.len(),
{
    if s.len() > 0 && is_space(s.last()) {
        let front = s.drop_last();
        lemma_trim_end(front);
        assert(s.subrange(0, trim_end(s).len() as int) =~= front.subrange(
            0,
            trim_end(front).len() as int,
        ));
        assert forall|i: int| trim_end(s).len() <= i < s.len() implies is_space(
            #[trigger] s[i],
        ) by {
            if i < front.len() {
                assert(front[i] == s[i]);
            }
        }
    } else {
        assert(s.subrange(0, s.len() as int) =~= s);
    }
}

/// A shortened text is no longer than its limit and begins as the text does; a text within the
/// limit stays as it is.
pub proof fn shortened_texts_begin_alike(s: Seq<char>, limit: nat)
    requires
        limit > 0,
    ensures
        s.len() <= limit ==> truncated(s, limit) == s,
        s.len() > limit ==> truncated(s, limit).len() == limit && truncated(s, limit).last() == '…'
            && truncated(s, limit).drop_last() == s.subrange(0, limit - 1),
{
    if s.len() > limit {
        assert(truncated(s, limit).drop_last() =~= s.subrange(0, limit - 1));
    }
}

} // verus!
