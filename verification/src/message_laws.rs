//! What the messages promise: under each name stands what the name says, whatever else the message
//! was made of.

use vstd::prelude::*;
use crate::calendar::{stamp_text, utc_text, zoned_text, Moment};
use crate::chat::{message_at, FieldView, MessageView};
use crate::colors;
use crate::double::{order_is_the_order_of_values, units, Double, ONE};
use crate::event_laws::{guider_names, slew_names};
use crate::event_messages::with_slew_details;
use crate::events::{Event, EventDetails, FilterInfo};
use crate::lifecycle_messages::{
    connectivity_message, image_message, status_message, welcome_message,
};
use crate::operation_messages::titled_text;
use crate::status::status_text;
use crate::telescope_messages::{
    filter_message, focuser_message, guider_message, mount_heading, mount_message, rotator_message,
    target_message, with_mount, with_target, FocuserSnapshot, GuiderSnapshot, ImageMetadata,
    MountSnapshot, RotatorSnapshot,
};
use crate::text::{dec, dec_int, opt_view};
use crate::updater_state::{StateView, TargetInfo};

verus! {

/// What stands under a name in a list of fields: the value of the last field of that name.
pub open spec fn under(fields: Seq<FieldView>, name: Seq<char>) -> Option<Seq<char>>
    decreases fields.len(),
{
    if fields.len() == 0 {
        None
    } else if fields.last().name == name {
        Some(fields.last().value)
    } else {
        under(fields.drop_last(), name)
    }
}

/// What a message shows under a name.
pub open spec fn shown(m: MessageView, name: Seq<char>) -> Option<Seq<char>> {
    under(m.fields, name)
}

/// The text that Discord has in place of the value of the last field of a name.
pub open spec fn replaced(fields: Seq<FieldView>, name: Seq<char>) -> Option<Seq<char>>
    decreases fields.len(),
{
    if fields.len() == 0 {
        None
    } else if fields.last().name == name {
        fields.last().discord_value
    } else {
        replaced(fields.drop_last(), name)
    }
}

/// What a message shows under a name on Discord alone.
pub open spec fn shown_on_discord(m: MessageView, name: Seq<char>) -> Option<Seq<char>> {
    replaced(m.fields, name)
}

pub broadcast proof fn one_field_more(
    m: MessageView,
    name: Seq<char>,
    value: Seq<char>,
    inline: bool,
    other: Seq<char>,
)
    ensures
        #[trigger] shown(m.with(name, value, inline), other) == (if name == other {
            Some(value)
        } else {
            shown(m, other)
        }),
{
    assert(m.with(name, value, inline).fields.drop_last() =~= m.fields);
}

pub broadcast proof fn one_replaced_field_more(
    m: MessageView,
    name: Seq<char>,
    value: Seq<char>,
    discord_value: Seq<char>,
    inline: bool,
    other: Seq<char>,
)
    ensures
        #[trigger] shown(m.with_discord(name, value, discord_value, inline), other) == (if name
            == other {
            Some(value)
        } else {
            shown(m, other)
        }),
{
    assert(m.with_discord(name, value, discord_value, inline).fields.drop_last() =~= m.fields);
}

pub broadcast proof fn one_replacement_more(
    m: MessageView,
    name: Seq<char>,
    value: Seq<char>,
    discord_value: Seq<char>,
    inline: bool,
    other: Seq<char>,
)
    ensures
        #[trigger] shown_on_discord(m.with_discord(name, value, discord_value, inline), other)
            == (if name == other {
            Some(discord_value)
        } else {
            shown_on_discord(m, other)
        }),
{
    assert(m.with_discord(name, value, discord_value, inline).fields.drop_last() =~= m.fields);
}

pub broadcast proof fn no_field_yet(title: Seq<char>, at: Moment, name: Seq<char>)
    ensures
        #[trigger] shown(message_at(title, at), name) == None::<Seq<char>>,
{
}

pub broadcast proof fn colors_are_no_fields(m: MessageView, color: u32, name: Seq<char>)
    ensures
        #[trigger] shown(m.colored(color), name) == shown(m, name),
{
}

pub broadcast proof fn footers_are_no_fields(m: MessageView, text: Seq<char>, name: Seq<char>)
    ensures
        #[trigger] shown(m.footed(text), name) == shown(m, name),
{
}

pub broadcast proof fn times_are_no_fields(
    m: MessageView,
    label: Seq<char>,
    at: Moment,
    name: Seq<char>,
)
    ensures
        #[trigger] shown(m.occurred(label, at), name) == shown(m, name),
{
}

pub broadcast group group_fields {
    one_field_more,
    one_replaced_field_more,
    one_replacement_more,
    no_field_yet,
    colors_are_no_fields,
    footers_are_no_fields,
    times_are_no_fields,
}

/// The name of a target, where there is one.
pub open spec fn target_name(target: Option<TargetInfo>) -> Option<Seq<char>> {
    match target {
        Some(t) => Some(t.name@),
        None => None,
    }
}

/// The message about an image shows each reading of that image under the reading's own name, and
/// how many images it stands for.
#[verifier::spinoff_prover]
pub proof fn image_messages_show_the_image(
    telescope: Seq<char>,
    s: StateView,
    image: ImageMetadata,
    skipped: u32,
    flip: Option<String>,
    now: Moment,
)
    ensures
        ({
            let m = image_message(telescope, s, image, skipped, flip, now);
            &&& shown(m, "Target"@) == target_name(s.current_target)
            &&& (skipped == 0 ==> shown(m, "Images Since Last Post"@) is None)
            &&& (skipped > 0 ==> shown(m, "Images Since Last Post"@)
                == Some(dec(skipped as nat + 1) + " images"@))
            &&& shown(m, "Camera"@) == Some(image.camera_name@)
            &&& shown(m, "Tracking RMS"@) == Some(image.rms_text@)
            &&& shown(m, "Filter"@) == Some(image.filter@)
            &&& shown(m, "Exposure"@) == Some(image.exposure_time.plain_text() + "s"@)
            &&& shown(m, "Temperature"@) == Some(image.temperature.fixed_text(1) + "°C"@)
            &&& shown(m, "Stars"@) == Some(dec_int(image.stars as int))
            &&& shown(m, "HFR"@) == Some(image.hfr.fixed_text(2))
            &&& shown(m, "Mean"@) == Some(image.mean.fixed_text(1))
            &&& shown(m, "Median"@) == Some(image.median.fixed_text(1))
            &&& shown(m, "StDev"@) == Some(image.st_dev.fixed_text(1))
            &&& m.footer == Some("Telescope: "@ + image.telescope_name@)
            &&& (skipped == 0 ==> m.title == "["@ + telescope + "] "@
                + ("📸 New "@ + image.image_type@ + " Frame Captured"@))
            &&& (skipped > 0 ==> m.title == "["@ + telescope + "] "@
                + ("📸 New "@ + image.image_type@ + " Frame Captured"@ + " (+"@
                + dec(skipped as nat) + " skipped)"@))
        }),
{
    broadcast use group_fields;
    reveal_strlit("Target");
    reveal_strlit("Images Since Last Post");
    reveal_strlit("Camera");
    reveal_strlit("Tracking RMS");
    reveal_strlit("Filter");
    reveal_strlit("Exposure");
    reveal_strlit("Temperature");
    reveal_strlit("Stars");
    reveal_strlit("HFR");
    reveal_strlit("Mean");
    reveal_strlit("Median");
    reveal_strlit("StDev");
    reveal_strlit("Meridian Flip In");
    assert("Target"@.len() == 6);
    assert("Images Since Last Post"@.len() == 22);
    assert("Camera"@.len() == 6);
    assert("Tracking RMS"@.len() == 12);
    assert("Filter"@.len() == 6);
    assert("Exposure"@.len() == 8);
    assert("Temperature"@.len() == 11);
    assert("Stars"@.len() == 5);
    assert("HFR"@.len() == 3);
    assert("Mean"@.len() == 4);
    assert("Median"@.len() == 6);
    assert("StDev"@.len() == 5);
    assert("Meridian Flip In"@.len() == 16);
    assert("Target"@[0] == 'T');
    assert("Camera"@[0] == 'C');
    assert("Filter"@[0] == 'F');
    assert("Median"@[0] == 'M');
    assert("Stars"@[2] == 'a');
    assert("StDev"@[2] == 'D');
}

/// Two image messages show the same HFR exactly where their images have the same HFR to two places,
/// whatever else the images and the messages are made of.
#[verifier::spinoff_prover]
pub proof fn the_hfr_of_an_image_is_its_own(
    telescope: Seq<char>,
    s: StateView,
    a: ImageMetadata,
    b: ImageMetadata,
    skipped: u32,
    flip: Option<String>,
    now: Moment,
    other: StateView,
    later: Moment,
)
    ensures
        shown(image_message(telescope, s, a, skipped, flip, now), "HFR"@)
            == shown(image_message(telescope, other, b, skipped, flip, later), "HFR"@)
            <==> a.hfr.fixed_text(2) == b.hfr.fixed_text(2),
{
    broadcast use group_fields;
    image_messages_show_the_image(telescope, s, a, skipped, flip, now);
    image_messages_show_the_image(telescope, other, b, skipped, flip, later);
}

/// An image message tells the time until the meridian flip where the flip is known to be at most an
/// hour away, and only there.
#[verifier::spinoff_prover]
pub proof fn image_messages_announce_a_near_flip(
    telescope: Seq<char>,
    s: StateView,
    image: ImageMetadata,
    skipped: u32,
    flip: Option<String>,
    now: Moment,
)
    ensures
        ({
            let m = image_message(telescope, s, image, skipped, flip, now);
            &&& (s.meridian_flip_time is None ==> shown(m, "Meridian Flip In"@) is None)
            &&& (s.meridian_flip_time matches Some(hours)
                ==> (hours.finite() ==> shown(m, "Meridian Flip In"@)
                == (if hours.value() <= units(ONE as nat) { opt_view(flip) } else { None })))
        }),
{
    broadcast use group_fields;
    reveal_strlit("Target");
    reveal_strlit("Images Since Last Post");
    reveal_strlit("Camera");
    reveal_strlit("Tracking RMS");
    reveal_strlit("Filter");
    reveal_strlit("Exposure");
    reveal_strlit("Temperature");
    reveal_strlit("Stars");
    reveal_strlit("HFR");
    reveal_strlit("Mean");
    reveal_strlit("Median");
    reveal_strlit("StDev");
    reveal_strlit("Meridian Flip In");
    assert("Target"@.len() == 6);
    assert("Images Since Last Post"@.len() == 22);
    assert("Camera"@.len() == 6);
    assert("Tracking RMS"@.len() == 12);
    assert("Filter"@.len() == 6);
    assert("Exposure"@.len() == 8);
    assert("Temperature"@.len() == 11);
    assert("Stars"@.len() == 5);
    assert("HFR"@.len() == 3);
    assert("Mean"@.len() == 4);
    assert("Median"@.len() == 6);
    assert("StDev"@.len() == 5);
    assert("Meridian Flip In"@.len() == 16);
    assert("Target"@[0] == 'T');
    assert("Camera"@[0] == 'C');
    assert("Filter"@[0] == 'F');
    assert("Median"@[0] == 'M');
    assert("Stars"@[2] == 'a');
    assert("StDev"@[2] == 'D');
    if s.meridian_flip_time is Some && s.meridian_flip_time->0.finite() {
        order_is_the_order_of_values(Double { bits: ONE }, s.meridian_flip_time->0);
    }
}

/// The accent colour of an image message tells the kinds of frames apart.
#[verifier::spinoff_prover]
pub proof fn light_frames_are_green(
    telescope: Seq<char>,
    s: StateView,
    image: ImageMetadata,
    skipped: u32,
    flip: Option<String>,
    now: Moment,
)
    ensures
        ({
            let m = image_message(telescope, s, image, skipped, flip, now);
            &&& (image.image_type@ == "LIGHT"@ ==> m.color == Some(colors::GREEN))
            &&& (image.image_type@ == "DARK"@ ==> m.color == Some(colors::GRAY))
            &&& (image.image_type@ == "FLAT"@ ==> m.color == Some(colors::BLUE))
            &&& (image.image_type@ == "BIAS"@ ==> m.color == Some(colors::PURPLE))
            &&& m.color is Some
        }),
{
    broadcast use group_fields;
    reveal_strlit("LIGHT");
    reveal_strlit("DARK");
    reveal_strlit("FLAT");
    reveal_strlit("BIAS");
    assert("LIGHT"@.len() == 5);
    assert("DARK"@.len() == 4);
    assert("FLAT"@.len() == 4);
    assert("BIAS"@.len() == 4);
    assert("DARK"@[0] == 'D');
    assert("FLAT"@[0] == 'F');
    assert("BIAS"@[0] == 'B');
}

/// The message about a target shows the new target's own particulars, names the target before it
/// where there was one, and shows the mount as it is now.
#[verifier::spinoff_prover]
pub proof fn target_messages_show_the_new_target(
    telescope: Seq<char>,
    before: Option<TargetInfo>,
    target: TargetInfo,
    flip: Option<String>,
    mount: Option<MountSnapshot>,
    now: Moment,
)
    ensures
        ({
            let m = target_message(telescope, before, target, flip, mount, now);
            &&& (before is None ==> shown(m, "Target"@) == Some(target.name@)
                && shown(m, "Previous Target"@) is None && shown(m, "New Target"@) is None)
            &&& (before matches Some(p) ==> shown(m, "Target"@) is None
                && shown(m, "Previous Target"@) == Some(p.name@) && shown(m, "New Target"@)
                == Some(target.name@))
            &&& shown(m, "Project"@) == opt_view(target.project)
            &&& (target.coordinates is None ==> shown(m, "Coordinates"@) is None)
            &&& (target.coordinates matches Some(c)
                ==> (c.ra_string@.len() > 0 ==> shown(m, "Coordinates"@)
                == Some("RA: "@ + c.ra_string@ + "\nDec: "@ + c.dec_string@)))
            &&& (target.rotation is None ==> shown(m, "Rotation"@) is None)
            &&& (target.rotation matches Some(n)
                ==> shown(m, "Rotation"@) == Some(n.plain_text() + "°"@))
            &&& (target.target_end_time is None ==> shown(m, "Scheduled End"@) is None)
            &&& (target.target_end_time matches Some(end)
                ==> shown(m, "Scheduled End"@) == Some(zoned_text(end)))
            &&& shown(m, "Meridian Flip In"@) == opt_view(flip)
            &&& (before is None ==> m.color == Some(colors::GREEN) && m.title == "["@ + telescope
                + "] "@ + "🎯 Target Started"@)
            &&& (before is Some ==> m.color == Some(colors::CYAN) && m.title == "["@ + telescope
                + "] "@ + "🎯 Target Change"@)
            &&& (mount is None ==> shown(m, "Mount Position"@) is None
                && shown(m, "Pier Side"@) is None && shown(m, "Tracking"@) is None
                && shown(m, "Alt/Az"@) is None)
            &&& (mount matches Some(p) ==> shown(m, "Mount Position"@)
                == Some("RA: "@ + p.ra@ + "\nDec: "@ + p.dec@))
            &&& (mount matches Some(p) ==> (p.altitude@.len() > 0 && p.azimuth@.len() > 0
                ==> shown(m, "Alt/Az"@) == Some("Alt: "@ + p.altitude@ + "\nAz: "@ + p.azimuth@)))
            &&& (mount matches Some(p) ==> ((p.altitude@.len() == 0 || p.azimuth@.len() == 0)
                ==> shown(m, "Alt/Az"@) is None))
            &&& (mount matches Some(p) ==> shown(m, "Pier Side"@) == Some(p.side_of_pier@))
            &&& (mount matches Some(p) ==> shown(m, "Tracking"@)
                == Some(if p.tracking_enabled { "✅ Enabled"@ } else { "❌ Disabled"@ }))
        }),
{
    broadcast use group_fields;
    reveal_strlit("Target");
    reveal_strlit("Previous Target");
    reveal_strlit("New Target");
    reveal_strlit("Project");
    reveal_strlit("Coordinates");
    reveal_strlit("Rotation");
    reveal_strlit("Scheduled End");
    reveal_strlit("Meridian Flip In");
    reveal_strlit("Mount Position");
    reveal_strlit("Alt/Az");
    reveal_strlit("Pier Side");
    reveal_strlit("Tracking");
    assert("Target"@.len() == 6);
    assert("Previous Target"@.len() == 15);
    assert("New Target"@.len() == 10);
    assert("Project"@.len() == 7);
    assert("Coordinates"@.len() == 11);
    assert("Rotation"@.len() == 8);
    assert("Scheduled End"@.len() == 13);
    assert("Meridian Flip In"@.len() == 16);
    assert("Mount Position"@.len() == 14);
    assert("Alt/Az"@.len() == 6);
    assert("Pier Side"@.len() == 9);
    assert("Tracking"@.len() == 8);
    assert("Target"@[0] == 'T');
    assert("Alt/Az"@[0] == 'A');
    assert("Rotation"@[0] == 'R');
    assert("Tracking"@[0] == 'T');
}

/// The particulars of a slew leave the other fields.
#[verifier::spinoff_prover]
proof fn lemma_slew_details_apart(
    m: MessageView,
    details: EventDetails,
    name: Seq<char>,
)
    requires
        name != "From position"@,
        name != "Requested destination"@,
        name != "To position"@,
        name != "Motion"@,
        name != "Observed interval"@,
        name != "End detected by"@,
        name != "Capture"@,
    ensures
        shown(with_slew_details(m, details), name) == shown(m, name),
{
    broadcast use group_fields;
}

/// Where the mount is leaves the other fields.
#[verifier::spinoff_prover]
proof fn lemma_mount_apart(
    m: MessageView,
    mount: Option<MountSnapshot>,
    name: Seq<char>,
)
    requires
        name != "Mount Position"@,
        name != "Alt/Az"@,
        name != "Pier Side"@,
        name != "Tracking"@,
    ensures
        shown(with_mount(m, mount), name) == shown(m, name),
{
    broadcast use group_fields;
}

/// Where the mount is stands under names of its own.
#[verifier::spinoff_prover]
proof fn lemma_mount_shown(
    before: MessageView,
    mount: Option<MountSnapshot>,
)
    requires
        shown(before, "Mount Position"@) is None,
        shown(before, "Alt/Az"@) is None,
        shown(before, "Pier Side"@) is None,
        shown(before, "Tracking"@) is None,
    ensures
        ({
            let m = with_mount(before, mount);
            &&& (mount is None ==> shown(m, "Mount Position"@) is None
                && shown(m, "Pier Side"@) is None && shown(m, "Tracking"@) is None
                && shown(m, "Alt/Az"@) is None)
            &&& (mount matches Some(p) ==> shown(m, "Mount Position"@)
                == Some("RA: "@ + p.ra@ + "\nDec: "@ + p.dec@))
            &&& (mount matches Some(p) ==> (p.altitude@.len() > 0 && p.azimuth@.len() > 0
                ==> shown(m, "Alt/Az"@) == Some("Alt: "@ + p.altitude@ + "\nAz: "@ + p.azimuth@)))
            &&& (mount matches Some(p) ==> ((p.altitude@.len() == 0 || p.azimuth@.len() == 0)
                ==> shown(m, "Alt/Az"@) is None))
            &&& (mount matches Some(p) ==> shown(m, "Pier Side"@) == Some(p.side_of_pier@))
            &&& (mount matches Some(p) ==> shown(m, "Tracking"@)
                == Some(if p.tracking_enabled { "✅ Enabled"@ } else { "❌ Disabled"@ }))
        }),
{
    broadcast use group_fields;
    reveal_strlit("Mount Position");
    reveal_strlit("Alt/Az");
    reveal_strlit("Pier Side");
    reveal_strlit("Tracking");
    assert("Mount Position"@.len() == 14);
    assert("Alt/Az"@.len() == 6);
    assert("Pier Side"@.len() == 9);
    assert("Tracking"@.len() == 8);
}

/// The message about an event of the mount shows the event's name and time and the current target.
#[verifier::spinoff_prover]
pub proof fn mount_messages_show_event_and_target(
    telescope: Seq<char>,
    event: Event,
    target: Option<TargetInfo>,
    mount: Option<MountSnapshot>,
    now: Moment,
)
    ensures
        ({
            let m = mount_message(telescope, event, target, mount, now);
            &&& shown(m, "Event"@) == Some(event.event@)
            &&& shown(m, "Time"@) == Some(event.time@)
            &&& shown(m, "Current Target"@) == target_name(target)
        }),
{
    broadcast use group_fields;
    reveal_strlit("Event");
    reveal_strlit("Time");
    reveal_strlit("Current Target");
    reveal_strlit("From position");
    reveal_strlit("Requested destination");
    reveal_strlit("To position");
    reveal_strlit("Motion");
    reveal_strlit("Observed interval");
    reveal_strlit("End detected by");
    reveal_strlit("Capture");
    reveal_strlit("Mount Position");
    reveal_strlit("Alt/Az");
    reveal_strlit("Pier Side");
    reveal_strlit("Tracking");
    assert("Event"@.len() == 5);
    assert("Time"@.len() == 4);
    assert("Current Target"@.len() == 14);
    assert("From position"@.len() == 13);
    assert("Requested destination"@.len() == 21);
    assert("To position"@.len() == 11);
    assert("Motion"@.len() == 6);
    assert("Observed interval"@.len() == 17);
    assert("End detected by"@.len() == 15);
    assert("Capture"@.len() == 7);
    assert("Mount Position"@.len() == 14);
    assert("Alt/Az"@.len() == 6);
    assert("Pier Side"@.len() == 9);
    assert("Tracking"@.len() == 8);
    assert("Current Target"@[0] == 'C');
    assert("Mount Position"@[0] == 'M');
    assert("Motion"@[0] == 'M');
    assert("Alt/Az"@[0] == 'A');
    let (title, color) = mount_heading(event);
    let a = with_target(
        message_at(titled_text(telescope, title), now).colored(color).with(
            "Event"@,
            event.event@,
            true,
        ).with("Time"@, event.time@, true),
        "Current Target"@,
        target,
    );
    let b = match event.details {
        Some(details) => with_slew_details(a, details),
        None => a,
    };
    if event.details is Some {
        lemma_slew_details_apart(a, event.details->0, "Event"@);
        lemma_slew_details_apart(a, event.details->0, "Time"@);
        lemma_slew_details_apart(a, event.details->0, "Current Target"@);
    }
    lemma_mount_apart(b, mount, "Event"@);
    lemma_mount_apart(b, mount, "Time"@);
    lemma_mount_apart(b, mount, "Current Target"@);
}

/// The message about an event of the mount shows where the mount is now, unless the event is about
/// a slew, which has positions of its own.
#[verifier::spinoff_prover]
pub proof fn mount_messages_show_the_mount(
    telescope: Seq<char>,
    event: Event,
    target: Option<TargetInfo>,
    mount: Option<MountSnapshot>,
    now: Moment,
)
    ensures
        ({
            let m = mount_message(telescope, event, target, mount, now);
            &&& (event.event@ == "MOUNT-SLEWED"@ || event.event@ == "MOUNT-SLEW-STARTED"@
                ==> shown(m, "Mount Position"@) is None && shown(m, "Tracking"@) is None)
            &&& (event.event@ != "MOUNT-SLEWED"@ && event.event@ != "MOUNT-SLEW-STARTED"@
                ==> (mount is None ==> shown(m, "Mount Position"@) is None
                && shown(m, "Pier Side"@) is None && shown(m, "Tracking"@) is None
                && shown(m, "Alt/Az"@) is None))
            &&& (event.event@ != "MOUNT-SLEWED"@ && event.event@ != "MOUNT-SLEW-STARTED"@
                ==> (mount matches Some(p) ==> shown(m, "Mount Position"@)
                == Some("RA: "@ + p.ra@ + "\nDec: "@ + p.dec@)))
            &&& (event.event@ != "MOUNT-SLEWED"@ && event.event@ != "MOUNT-SLEW-STARTED"@
                ==> (mount matches Some(p) ==> (p.altitude@.len() > 0 && p.azimuth@.len() > 0
                ==> shown(m, "Alt/Az"@) == Some("Alt: "@ + p.altitude@ + "\nAz: "@ + p.azimuth@))))
            &&& (event.event@ != "MOUNT-SLEWED"@ && event.event@ != "MOUNT-SLEW-STARTED"@
                ==> (mount matches Some(p) ==> ((p.altitude@.len() == 0 || p.azimuth@.len() == 0)
                ==> shown(m, "Alt/Az"@) is None)))
            &&& (event.event@ != "MOUNT-SLEWED"@ && event.event@ != "MOUNT-SLEW-STARTED"@
                ==> (mount matches Some(p) ==> shown(m, "Pier Side"@) == Some(p.side_of_pier@)))
            &&& (event.event@ != "MOUNT-SLEWED"@ && event.event@ != "MOUNT-SLEW-STARTED"@
                ==> (mount matches Some(p) ==> shown(m, "Tracking"@)
                == Some(if p.tracking_enabled { "✅ Enabled"@ } else { "❌ Disabled"@ })))
        }),
{
    broadcast use group_fields;
    reveal_strlit("Event");
    reveal_strlit("Time");
    reveal_strlit("Current Target");
    reveal_strlit("From position");
    reveal_strlit("Requested destination");
    reveal_strlit("To position");
    reveal_strlit("Motion");
    reveal_strlit("Observed interval");
    reveal_strlit("End detected by");
    reveal_strlit("Capture");
    reveal_strlit("Mount Position");
    reveal_strlit("Alt/Az");
    reveal_strlit("Pier Side");
    reveal_strlit("Tracking");
    assert("Event"@.len() == 5);
    assert("Time"@.len() == 4);
    assert("Current Target"@.len() == 14);
    assert("From position"@.len() == 13);
    assert("Requested destination"@.len() == 21);
    assert("To position"@.len() == 11);
    assert("Motion"@.len() == 6);
    assert("Observed interval"@.len() == 17);
    assert("End detected by"@.len() == 15);
    assert("Capture"@.len() == 7);
    assert("Mount Position"@.len() == 14);
    assert("Alt/Az"@.len() == 6);
    assert("Pier Side"@.len() == 9);
    assert("Tracking"@.len() == 8);
    assert("Current Target"@[0] == 'C');
    assert("Mount Position"@[0] == 'M');
    assert("Motion"@[0] == 'M');
    assert("Alt/Az"@[0] == 'A');
    slew_names(event.event@);
    let (title, color) = mount_heading(event);
    let a = with_target(
        message_at(titled_text(telescope, title), now).colored(color).with(
            "Event"@,
            event.event@,
            true,
        ).with("Time"@, event.time@, true),
        "Current Target"@,
        target,
    );
    let b = match event.details {
        Some(details) => with_slew_details(a, details),
        None => a,
    };
    if event.details is Some {
        lemma_slew_details_apart(a, event.details->0, "Mount Position"@);
        lemma_slew_details_apart(a, event.details->0, "Alt/Az"@);
        lemma_slew_details_apart(a, event.details->0, "Pier Side"@);
        lemma_slew_details_apart(a, event.details->0, "Tracking"@);
    }
    lemma_mount_shown(b, mount);
}

/// The message about an event of the guider shows the event, the current target, the guider's
/// state, its pixel scale where that is positive, and its errors in all and by axis.
#[verifier::spinoff_prover]
pub proof fn guider_messages_show_the_guider(
    telescope: Seq<char>,
    event: Event,
    target: Option<TargetInfo>,
    guider: Option<GuiderSnapshot>,
    now: Moment,
)
    ensures
        ({
            let m = guider_message(telescope, event, target, guider, now);
            &&& shown(m, "Event"@) == Some(event.event@)
            &&& shown(m, "Time"@) == Some(event.time@)
            &&& shown(m, "Current Target"@) == target_name(target)
            &&& (event.event@ == "GUIDER-START"@
                ==> m.title == "["@ + telescope + "] "@ + "🎯 Guiding Started"@ && m.color
                == Some(colors::BLUE))
            &&& (event.event@ == "GUIDER-DITHER"@
                ==> m.title == "["@ + telescope + "] "@ + "🎯 Guider Dither"@ && m.color
                == Some(colors::CYAN))
            &&& (guider is None ==> shown(m, "State"@) is None && shown(m, "Pixel Scale"@) is None
                && shown(m, "RMS Error"@) is None)
            &&& (guider matches Some(g) ==> shown(m, "State"@) == Some(g.state@))
            &&& (guider matches Some(g) ==> (g.pixel_scale.finite() && g.pixel_scale.value() > 0
                ==> shown(m, "Pixel Scale"@) == Some(g.pixel_scale.fixed_text(3) + " arcsec/px"@)))
            &&& (guider matches Some(g) ==> ((g.pixel_scale.nan() || g.pixel_scale.finite()
                && g.pixel_scale.value() <= 0) ==> shown(m, "Pixel Scale"@) is None))
            &&& (guider matches Some(g) ==> (g.rms_error is None
                ==> shown(m, "RMS Error"@) is None))
            &&& (guider matches Some(g) ==> (g.rms_error matches Some(e)
                ==> shown(m, "RMS Error"@) == Some("Total: "@ + e.total.fixed_text(2) + "\"\nRA: "@
                + e.ra.fixed_text(2) + "\"  Dec: "@ + e.dec.fixed_text(2) + "\""@)))
        }),
{
    broadcast use group_fields;
    reveal_strlit("Event");
    reveal_strlit("Time");
    reveal_strlit("Current Target");
    reveal_strlit("State");
    reveal_strlit("Pixel Scale");
    reveal_strlit("RMS Error");
    assert("Event"@.len() == 5);
    assert("Time"@.len() == 4);
    assert("Current Target"@.len() == 14);
    assert("State"@.len() == 5);
    assert("Pixel Scale"@.len() == 11);
    assert("RMS Error"@.len() == 9);
    assert("Event"@[0] == 'E');
    assert("State"@[0] == 'S');
    guider_names(event.event@);
    if guider is Some && guider->0.pixel_scale.finite() {
        order_is_the_order_of_values(Double { bits: 0 }, guider->0.pixel_scale);
        assert(units(0) == 0);
    }
}

/// The message that the rotator was synchronized shows its position and its mechanical position,
/// each under its own name, and whether it is in step.
#[verifier::spinoff_prover]
pub proof fn rotator_messages_show_both_positions(
    telescope: Seq<char>,
    event: Event,
    rotator: Option<RotatorSnapshot>,
    now: Moment,
)
    ensures
        ({
            let m = rotator_message(telescope, event, rotator, now);
            &&& shown(m, "Event"@) == Some(event.event@)
            &&& shown(m, "Time"@) == Some(event.time@)
            &&& (rotator is None ==> shown(m, "Position"@) is None
                && shown(m, "Mechanical"@) is None && shown(m, "Sync"@) is None)
            &&& (rotator matches Some(r) ==> shown(m, "Position"@)
                == Some(r.position.fixed_text(2) + "°"@))
            &&& (rotator matches Some(r) ==> shown(m, "Mechanical"@)
                == Some(r.mechanical_position.fixed_text(2) + "°"@))
            &&& (rotator matches Some(r) ==> (shown(m, "Sync"@) is Some <==> r.synced))
            &&& m.title == "["@ + telescope + "] "@ + "🧭 Rotator Synced"@
            &&& m.color == Some(colors::CYAN)
        }),
{
    broadcast use group_fields;
    reveal_strlit("Event");
    reveal_strlit("Time");
    reveal_strlit("Position");
    reveal_strlit("Mechanical");
    reveal_strlit("Sync");
    assert("Event"@.len() == 5);
    assert("Time"@.len() == 4);
    assert("Position"@.len() == 8);
    assert("Mechanical"@.len() == 10);
    assert("Sync"@.len() == 4);
    assert("Time"@[0] == 'T');
    assert("Sync"@[0] == 'S');
}

/// The message that somebody has focused shows the focuser's position, its temperature where that
/// is a number, and whether it compensates for temperature where it can.
#[verifier::spinoff_prover]
pub proof fn focuser_messages_show_the_focuser(
    telescope: Seq<char>,
    event: Event,
    focuser: Option<FocuserSnapshot>,
    now: Moment,
)
    ensures
        ({
            let m = focuser_message(telescope, event, focuser, now);
            &&& shown(m, "Event"@) == Some(event.event@)
            &&& shown(m, "Time"@) == Some(event.time@)
            &&& (focuser is None ==> shown(m, "Position"@) is None
                && shown(m, "Temperature"@) is None && shown(m, "Temp comp"@) is None)
            &&& (focuser matches Some(f) ==> shown(m, "Position"@)
                == Some(dec_int(f.position as int)))
            &&& (focuser matches Some(f) ==> (!f.temperature.nan()
                ==> shown(m, "Temperature"@) == Some(f.temperature.fixed_text(1) + "°C"@)))
            &&& (focuser matches Some(f) ==> (f.temperature.nan()
                ==> shown(m, "Temperature"@) is None))
            &&& (focuser matches Some(f) ==> (f.temp_comp_available
                ==> shown(m, "Temp comp"@) == Some(if f.temp_comp { "on"@ } else { "off"@ })))
            &&& (focuser matches Some(f) ==> (!f.temp_comp_available
                ==> shown(m, "Temp comp"@) is None))
            &&& m.color == Some(colors::PURPLE)
        }),
{
    broadcast use group_fields;
    reveal_strlit("Event");
    reveal_strlit("Time");
    reveal_strlit("Position");
    reveal_strlit("Temperature");
    reveal_strlit("Temp comp");
    assert("Event"@.len() == 5);
    assert("Time"@.len() == 4);
    assert("Position"@.len() == 8);
    assert("Temperature"@.len() == 11);
    assert("Temp comp"@.len() == 9);
}

/// The message about a filter change shows the filter before under "Previous" and the filter since
/// under "New", and the change from the one to the other. A filter without a name or with a
/// negative number is unknown.
#[verifier::spinoff_prover]
pub proof fn filter_messages_show_the_change_in_order(
    telescope: Seq<char>,
    time: Seq<char>,
    previous: FilterInfo,
    new: FilterInfo,
    now: Moment,
)
    ensures
        ({
            let m = filter_message(telescope, time, previous, new, now);
            &&& shown(m, "Time"@) == Some(time)
            &&& m.color == Some(colors::BLUE)
            &&& m.title == "["@ + telescope + "] "@ + "🔄 Filter Changed"@
            &&& (previous.name@.len() > 0 && previous.id >= 0
                ==> shown(m, "Previous"@) == Some(previous.name@ + " (ID: "@
                + dec_int(previous.id as int) + ")"@))
            &&& (previous.name@.len() == 0 || previous.id < 0
                ==> shown(m, "Previous"@) == Some("(unknown)"@))
            &&& (new.name@.len() > 0 && new.id >= 0
                ==> shown(m, "New"@) == Some(new.name@ + " (ID: "@ + dec_int(new.id as int) + ")"@))
            &&& (new.name@.len() == 0 || new.id < 0 ==> shown(m, "New"@) == Some("(unknown)"@))
            &&& (previous.name@.len() > 0 && previous.id >= 0 && new.name@.len() > 0 && new.id >= 0
                ==> shown(m, "Filter Change"@) == Some(previous.name@ + " → "@ + new.name@))
        }),
{
    broadcast use group_fields;
    reveal_strlit("Time");
    reveal_strlit("Filter Change");
    reveal_strlit("Previous");
    reveal_strlit("New");
    assert("Time"@.len() == 4);
    assert("Filter Change"@.len() == 13);
    assert("Previous"@.len() == 8);
    assert("New"@.len() == 3);
}

/// The status message shows the state in words, the target, the last known filter, the time until
/// the meridian flip where both the flip and its words are known, and where the mount points.
#[verifier::spinoff_prover]
pub proof fn status_messages_show_the_state(
    telescope: Seq<char>,
    s: StateView,
    flip: Option<String>,
    mount: Option<MountSnapshot>,
    now: Moment,
)
    ensures
        ({
            let m = status_message(telescope, s, flip, mount, now);
            &&& (status_text(s, now).len() > 0 ==> shown(m, "State"@) == Some(status_text(s, now)))
            &&& shown(m, "Target"@) == target_name(s.current_target)
            &&& (s.last_filter matches Some(f)
                ==> (f.name@.len() > 0 && f.id >= 0 ==> shown(m, "Filter"@) == Some(f.name@)))
            &&& (s.last_filter matches Some(f)
                ==> (f.name@.len() == 0 || f.id < 0 ==> shown(m, "Filter"@) is None))
            &&& (s.last_filter is None ==> shown(m, "Filter"@) is None)
            &&& (s.meridian_flip_time is Some ==> shown(m, "Meridian flip in"@) == opt_view(flip))
            &&& (s.meridian_flip_time is None ==> shown(m, "Meridian flip in"@) is None)
            &&& (mount is None ==> shown(m, "Mount RA/Dec"@) is None && shown(m, "Pier"@) is None)
            &&& (mount matches Some(p) ==> shown(m, "Mount RA/Dec"@)
                == Some("RA: "@ + p.ra@ + "\nDec: "@ + p.dec@))
            &&& (mount matches Some(p) ==> shown(m, "Pier"@) == Some(p.side_of_pier@))
            &&& m.footer == Some("Updated "@ + utc_text(now))
            &&& m.title == "["@ + telescope + "] "@ + "📡 Live status"@
            &&& m.color == Some(colors::CYAN)
        }),
{
    broadcast use group_fields;
    reveal_strlit("State");
    reveal_strlit("Target");
    reveal_strlit("Coordinates");
    reveal_strlit("Filter");
    reveal_strlit("Meridian flip in");
    reveal_strlit("Mount RA/Dec");
    reveal_strlit("Pier");
    assert("State"@.len() == 5);
    assert("Target"@.len() == 6);
    assert("Coordinates"@.len() == 11);
    assert("Filter"@.len() == 6);
    assert("Meridian flip in"@.len() == 16);
    assert("Mount RA/Dec"@.len() == 12);
    assert("Pier"@.len() == 4);
    assert("Target"@[0] == 'T');
    assert("Filter"@[0] == 'F');
}

/// The welcome shows the state in words and the current target with its source.
#[verifier::spinoff_prover]
#[verifier::rlimit(60)]
pub proof fn welcome_messages_name_the_target(
    telescope: Seq<char>,
    s: StateView,
    services: nat,
    flip: Option<String>,
    mount: Option<MountSnapshot>,
    product: Seq<char>,
    now: Moment,
)
    ensures
        ({
            let m = welcome_message(telescope, s, services, flip, mount, product, now);
            &&& (status_text(s, now).len() > 0 ==> shown(m, "Status"@) == Some(status_text(s, now)))
            &&& (s.current_target matches Some(t) ==> shown(m, "Current Target"@) == Some(t.name@))
            &&& (s.current_target is None ==> shown(m, "Current Target"@) == Some("None detected"@)
                && shown(m, "Target Source"@) is None)
            &&& (s.current_target matches Some(t)
                ==> shown(m, "Target Source"@)
                == Some(if t.source is Sequence { "Sequence file"@ } else { "TS-TARGETSTART event"@ }))
            &&& m.color == Some(colors::GREEN)
            &&& m.title == "["@ + telescope + "] "@
                + "🚀 Chatstronomy — observatory monitor started"@
            &&& m.footer == Some(product + " — ready to monitor telescope events and images"@)
        }),
{
    broadcast use group_fields;
    reveal_strlit("Status");
    reveal_strlit("Current Target");
    reveal_strlit("Project");
    reveal_strlit("Coordinates");
    reveal_strlit("Rotation");
    reveal_strlit("Target Source");
    reveal_strlit("Last Filter");
    reveal_strlit("Events in History");
    reveal_strlit("Images in History");
    reveal_strlit("Chat Services");
    reveal_strlit("Meridian Flip In");
    reveal_strlit("Mount Position");
    reveal_strlit("Alt/Az");
    reveal_strlit("Pier Side");
    reveal_strlit("Tracking");
    assert("Status"@.len() == 6);
    assert("Current Target"@.len() == 14);
    assert("Project"@.len() == 7);
    assert("Coordinates"@.len() == 11);
    assert("Rotation"@.len() == 8);
    assert("Target Source"@.len() == 13);
    assert("Last Filter"@.len() == 11);
    assert("Events in History"@.len() == 17);
    assert("Images in History"@.len() == 17);
    assert("Chat Services"@.len() == 13);
    assert("Meridian Flip In"@.len() == 16);
    assert("Mount Position"@.len() == 14);
    assert("Alt/Az"@.len() == 6);
    assert("Pier Side"@.len() == 9);
    assert("Tracking"@.len() == 8);
    assert("Status"@[0] == 'S');
    assert("Alt/Az"@[0] == 'A');
    assert("Current Target"@[0] == 'C');
    assert("Mount Position"@[0] == 'M');
    assert("Coordinates"@[0] == 'C');
    assert("Last Filter"@[0] == 'L');
    assert("Rotation"@[0] == 'R');
    assert("Tracking"@[0] == 'T');
    assert("Target Source"@[0] == 'T');
    assert("Chat Services"@[0] == 'C');
    assert("Events in History"@[0] == 'E');
    assert("Images in History"@[0] == 'I');
}

/// The welcome shows the last known filter.
#[verifier::spinoff_prover]
#[verifier::rlimit(60)]
pub proof fn welcome_messages_show_the_filter(
    telescope: Seq<char>,
    s: StateView,
    services: nat,
    flip: Option<String>,
    mount: Option<MountSnapshot>,
    product: Seq<char>,
    now: Moment,
)
    ensures
        ({
            let m = welcome_message(telescope, s, services, flip, mount, product, now);
            &&& (s.last_filter matches Some(f)
                ==> (f.name@.len() > 0 && f.id >= 0 ==> shown(m, "Last Filter"@) == Some(f.name@)))
            &&& (s.last_filter matches Some(f)
                ==> (f.name@.len() == 0 || f.id < 0 ==> shown(m, "Last Filter"@) is None))
            &&& (s.last_filter is None ==> shown(m, "Last Filter"@) is None)
        }),
{
    broadcast use group_fields;
    reveal_strlit("Status");
    reveal_strlit("Current Target");
    reveal_strlit("Project");
    reveal_strlit("Coordinates");
    reveal_strlit("Rotation");
    reveal_strlit("Target Source");
    reveal_strlit("Last Filter");
    reveal_strlit("Events in History");
    reveal_strlit("Images in History");
    reveal_strlit("Chat Services");
    reveal_strlit("Meridian Flip In");
    reveal_strlit("Mount Position");
    reveal_strlit("Alt/Az");
    reveal_strlit("Pier Side");
    reveal_strlit("Tracking");
    assert("Status"@.len() == 6);
    assert("Current Target"@.len() == 14);
    assert("Project"@.len() == 7);
    assert("Coordinates"@.len() == 11);
    assert("Rotation"@.len() == 8);
    assert("Target Source"@.len() == 13);
    assert("Last Filter"@.len() == 11);
    assert("Events in History"@.len() == 17);
    assert("Images in History"@.len() == 17);
    assert("Chat Services"@.len() == 13);
    assert("Meridian Flip In"@.len() == 16);
    assert("Mount Position"@.len() == 14);
    assert("Alt/Az"@.len() == 6);
    assert("Pier Side"@.len() == 9);
    assert("Tracking"@.len() == 8);
    assert("Status"@[0] == 'S');
    assert("Alt/Az"@[0] == 'A');
    assert("Current Target"@[0] == 'C');
    assert("Mount Position"@[0] == 'M');
    assert("Coordinates"@[0] == 'C');
    assert("Last Filter"@[0] == 'L');
    assert("Rotation"@[0] == 'R');
    assert("Tracking"@[0] == 'T');
    assert("Target Source"@[0] == 'T');
    assert("Chat Services"@[0] == 'C');
    assert("Events in History"@[0] == 'E');
    assert("Images in History"@[0] == 'I');
}

/// The welcome counts the events, the images and the chat services.
#[verifier::spinoff_prover]
#[verifier::rlimit(60)]
pub proof fn welcome_messages_count_what_is_known(
    telescope: Seq<char>,
    s: StateView,
    services: nat,
    flip: Option<String>,
    mount: Option<MountSnapshot>,
    product: Seq<char>,
    now: Moment,
)
    ensures
        ({
            let m = welcome_message(telescope, s, services, flip, mount, product, now);
            &&& shown(m, "Events in History"@) == Some(dec(s.events_seen.len()))
            &&& shown(m, "Images in History"@) == Some(dec(s.images_seen.len()))
            &&& shown(m, "Chat Services"@) == Some(dec(services))
        }),
{
    broadcast use group_fields;
    reveal_strlit("Status");
    reveal_strlit("Current Target");
    reveal_strlit("Project");
    reveal_strlit("Coordinates");
    reveal_strlit("Rotation");
    reveal_strlit("Target Source");
    reveal_strlit("Last Filter");
    reveal_strlit("Events in History");
    reveal_strlit("Images in History");
    reveal_strlit("Chat Services");
    reveal_strlit("Meridian Flip In");
    reveal_strlit("Mount Position");
    reveal_strlit("Alt/Az");
    reveal_strlit("Pier Side");
    reveal_strlit("Tracking");
    assert("Status"@.len() == 6);
    assert("Current Target"@.len() == 14);
    assert("Project"@.len() == 7);
    assert("Coordinates"@.len() == 11);
    assert("Rotation"@.len() == 8);
    assert("Target Source"@.len() == 13);
    assert("Last Filter"@.len() == 11);
    assert("Events in History"@.len() == 17);
    assert("Images in History"@.len() == 17);
    assert("Chat Services"@.len() == 13);
    assert("Meridian Flip In"@.len() == 16);
    assert("Mount Position"@.len() == 14);
    assert("Alt/Az"@.len() == 6);
    assert("Pier Side"@.len() == 9);
    assert("Tracking"@.len() == 8);
    assert("Status"@[0] == 'S');
    assert("Alt/Az"@[0] == 'A');
    assert("Current Target"@[0] == 'C');
    assert("Mount Position"@[0] == 'M');
    assert("Coordinates"@[0] == 'C');
    assert("Last Filter"@[0] == 'L');
    assert("Rotation"@[0] == 'R');
    assert("Tracking"@[0] == 'T');
    assert("Target Source"@[0] == 'T');
    assert("Chat Services"@[0] == 'C');
    assert("Events in History"@[0] == 'E');
    assert("Images in History"@[0] == 'I');
}

/// The welcome shows the time until the meridian flip where the flip is known, and how the mount
/// is.
#[verifier::spinoff_prover]
#[verifier::rlimit(60)]
pub proof fn welcome_messages_show_flip_and_mount(
    telescope: Seq<char>,
    s: StateView,
    services: nat,
    flip: Option<String>,
    mount: Option<MountSnapshot>,
    product: Seq<char>,
    now: Moment,
)
    ensures
        ({
            let m = welcome_message(telescope, s, services, flip, mount, product, now);
            &&& (s.meridian_flip_time is Some ==> shown(m, "Meridian Flip In"@) == opt_view(flip))
            &&& (s.meridian_flip_time is None ==> shown(m, "Meridian Flip In"@) is None)
            &&& (mount matches Some(p) ==> shown(m, "Pier Side"@) == Some(p.side_of_pier@))
            &&& (mount matches Some(p) ==> shown(m, "Tracking"@)
                == Some(if p.tracking_enabled { "✅ Enabled"@ } else { "❌ Disabled"@ }))
        }),
{
    broadcast use group_fields;
    reveal_strlit("Status");
    reveal_strlit("Current Target");
    reveal_strlit("Project");
    reveal_strlit("Coordinates");
    reveal_strlit("Rotation");
    reveal_strlit("Target Source");
    reveal_strlit("Last Filter");
    reveal_strlit("Events in History");
    reveal_strlit("Images in History");
    reveal_strlit("Chat Services");
    reveal_strlit("Meridian Flip In");
    reveal_strlit("Mount Position");
    reveal_strlit("Alt/Az");
    reveal_strlit("Pier Side");
    reveal_strlit("Tracking");
    assert("Status"@.len() == 6);
    assert("Current Target"@.len() == 14);
    assert("Project"@.len() == 7);
    assert("Coordinates"@.len() == 11);
    assert("Rotation"@.len() == 8);
    assert("Target Source"@.len() == 13);
    assert("Last Filter"@.len() == 11);
    assert("Events in History"@.len() == 17);
    assert("Images in History"@.len() == 17);
    assert("Chat Services"@.len() == 13);
    assert("Meridian Flip In"@.len() == 16);
    assert("Mount Position"@.len() == 14);
    assert("Alt/Az"@.len() == 6);
    assert("Pier Side"@.len() == 9);
    assert("Tracking"@.len() == 8);
    assert("Status"@[0] == 'S');
    assert("Alt/Az"@[0] == 'A');
    assert("Current Target"@[0] == 'C');
    assert("Mount Position"@[0] == 'M');
    assert("Coordinates"@[0] == 'C');
    assert("Last Filter"@[0] == 'L');
    assert("Rotation"@[0] == 'R');
    assert("Tracking"@[0] == 'T');
    assert("Target Source"@[0] == 'T');
    assert("Chat Services"@[0] == 'C');
    assert("Events in History"@[0] == 'E');
    assert("Images in History"@[0] == 'I');
}

/// The messages that the telescope is gone and that it is back differ in title, colour and text,
/// and the first counts the failures.
#[verifier::spinoff_prover]
pub proof fn outages_are_red_and_counted(
    telescope: Seq<char>,
    failures: u32,
    others: u32,
    now: Moment,
)
    ensures
        shown(connectivity_message(telescope, false, failures, now), "Status"@)
            == Some("No response after "@ + dec(failures as nat)
            + " consecutive poll cycles; retrying with backoff."@),
        connectivity_message(telescope, false, failures, now).color == Some(colors::RED),
        connectivity_message(telescope, true, failures, now).color == Some(colors::GREEN),
        connectivity_message(telescope, false, failures, now).title
            == titled_text(telescope, "🔌 Telescope offline"@),
        connectivity_message(telescope, true, failures, now).title
            == titled_text(telescope, "✅ Telescope back online"@),
        connectivity_message(telescope, true, failures, now)
            == connectivity_message(telescope, true, others, now),
{
    broadcast use group_fields;
    reveal_strlit("Status");
    assert("Status"@.len() == 6);
}

/// A title names the telescope before what it is about.
pub proof fn titles_name_the_telescope(telescope: Seq<char>, title: Seq<char>)
    ensures
        titled_text(telescope, title) == "["@ + telescope + "] "@ + title,
{
}

/// A field stands behind those before it, as it was given, beside its neighbours or on a line of
/// its own as it was asked for; colour, footer and time are what was given last, and leave the
/// rest.
pub proof fn messages_are_built_as_told(
    m: MessageView,
    name: Seq<char>,
    value: Seq<char>,
    other: Seq<char>,
    inline: bool,
    color: u32,
    at: Moment,
)
    ensures
        ({
            let f = m.with(name, value, inline);
            &&& f.fields.len() == m.fields.len() + 1
            &&& f.fields.last().name == name && f.fields.last().value == value
            &&& f.fields.last().inline == inline && f.fields.last().discord_value is None
            &&& f.title == m.title && f.color == m.color && f.footer == m.footer
            &&& f.timestamp == m.timestamp
        }),
        ({
            let f = m.with_discord(name, value, other, inline);
            &&& f.fields.len() == m.fields.len() + 1
            &&& f.fields.last().name == name && f.fields.last().value == value
            &&& f.fields.last().inline == inline && f.fields.last().discord_value == Some(other)
        }),
        m.colored(color).color == Some(color) && m.colored(color).fields == m.fields,
        m.footed(value).footer == Some(value) && m.footed(value).fields == m.fields,
        m.occurred(value, at).timestamp == Some(stamp_text(at)),
        m.occurred(value, at).matrix_timestamp_label == Some(value),
        message_at(name, at).title == name && message_at(name, at).timestamp == Some(
            stamp_text(at),
        ),
        message_at(name, at).fields.len() == 0,
{
}

} // verus!
