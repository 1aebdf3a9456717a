//! Messages about images, about the state as a whole, and about coming and going.

use vstd::prelude::*;
use crate::calendar::{format_utc_timestamp, utc_text, Moment};
use crate::chat::{message_at, ChatMessage, MessageView};
use crate::colors;
use crate::double::{Double, ONE};
use crate::events::FilterInfo;
use crate::operation_messages::{titled, titled_text};
use crate::status::status_text;
use crate::telescope_messages::{
    add_meridian_flip_info, add_mount_info, unknown_filter, with_flip, with_mount,
    with_target_coordinates, with_project, with_rotation, add_project, add_rotation,
    add_target_coordinates, ImageMetadata, MountSnapshot,
};
use crate::text::{cat2, cat3, cat4, dec, dec_int, decimal, decimal_int, same};
use crate::updater_state::{StateView, TargetSource, UpdaterState};

verus! {

/// The accent colour of an image.
pub open spec fn image_color(image_type: Seq<char>) -> u32 {
    if image_type == "LIGHT"@ {
        colors::GREEN
    } else if image_type == "DARK"@ {
        colors::GRAY
    } else if image_type == "FLAT"@ {
        colors::BLUE
    } else if image_type == "BIAS"@ {
        colors::PURPLE
    } else {
        colors::CYAN
    }
}

fn color_of_image(image_type: &str) -> (r: u32)
    ensures
        r == image_color(image_type@),
{
    if same(image_type, "LIGHT") {
        colors::GREEN
    } else if same(image_type, "DARK") {
        colors::GRAY
    } else if same(image_type, "FLAT") {
        colors::BLUE
    } else if same(image_type, "BIAS") {
        colors::PURPLE
    } else {
        colors::CYAN
    }
}

/// The meridian flip is at most an hour away.
pub open spec fn flip_is_near(s: StateView) -> bool {
    s.meridian_flip_time matches Some(hours) && !hours.nan() && !(Double { bits: ONE }).lt(hours)
}

/// The message about a new image, `skipped` images after the last one that was told of. `flip`
/// is the time until the meridian flip in words.
pub open spec fn image_message(
    telescope: Seq<char>,
    s: StateView,
    image: ImageMetadata,
    skipped: u32,
    flip: Option<String>,
    now: Moment,
) -> MessageView {
    let captured = "📸 New "@ + image.image_type@ + " Frame Captured"@;
    let title = if skipped > 0 {
        captured + " (+"@ + dec(skipped as nat) + " skipped)"@
    } else {
        captured
    };
    let a = message_at(titled_text(telescope, title), now).colored(image_color(image.image_type@));
    let b = match s.current_target {
        Some(t) => a.with("Target"@, t.name@, true),
        None => a,
    };
    let c = if skipped > 0 {
        b.with("Images Since Last Post"@, dec(skipped as nat + 1) + " images"@, true)
    } else {
        b
    };
    let d = c.with("Camera"@, image.camera_name@, true).with(
        "Tracking RMS"@,
        image.rms_text@,
        true,
    ).with("Filter"@, image.filter@, true).with(
        "Exposure"@,
        image.exposure_time.plain_text() + "s"@,
        true,
    ).with("Temperature"@, image.temperature.fixed_text(1) + "°C"@, true).with(
        "Stars"@,
        dec_int(image.stars as int),
        true,
    ).with("HFR"@, image.hfr.fixed_text(2), true).with(
        "Mean"@,
        image.mean.fixed_text(1),
        true,
    ).with("Median"@, image.median.fixed_text(1), true).with(
        "StDev"@,
        image.st_dev.fixed_text(1),
        true,
    ).footed("Telescope: "@ + image.telescope_name@);
    if flip_is_near(s) {
        with_flip(d, flip)
    } else {
        d
    }
}

/// With the filter, where it is known.
pub open spec fn with_filter(m: MessageView, name: Seq<char>, filter: Option<FilterInfo>) -> MessageView {
    match filter {
        Some(f) => if unknown_filter(f) {
            m
        } else {
            m.with(name, f.name@, true)
        },
        None => m,
    }
}

fn add_filter(message: ChatMessage, name: &str, filter: &Option<FilterInfo>) -> (r: ChatMessage)
    ensures
        r@ == with_filter(message@, name@, *filter),
{
    match filter {
        Some(f) => if f.is_unknown() {
            message
        } else {
            message.field(name, f.name.as_str(), true)
        },
        None => message,
    }
}

/// The status message.
pub open spec fn status_message(
    telescope: Seq<char>,
    s: StateView,
    flip: Option<String>,
    mount: Option<MountSnapshot>,
    now: Moment,
) -> MessageView {
    let a = message_at(titled_text(telescope, "📡 Live status"@), now).colored(colors::CYAN);
    let b = if status_text(s, now).len() > 0 {
        a.with("State"@, status_text(s, now), false)
    } else {
        a
    };
    let c = match s.current_target {
        Some(t) => with_target_coordinates(b.with("Target"@, t.name@, false), t),
        None => b,
    };
    let d = with_filter(c, "Filter"@, s.last_filter);
    let e = match (s.meridian_flip_time, flip) {
        (Some(_), Some(text)) => d.with("Meridian flip in"@, text@, true),
        _ => d,
    };
    let f = match mount {
        Some(p) => e.with("Mount RA/Dec"@, "RA: "@ + p.ra@ + "\nDec: "@ + p.dec@, true).with(
            "Pier"@,
            p.side_of_pier@,
            true,
        ),
        None => e,
    };
    f.footed("Updated "@ + utc_text(now))
}

pub open spec fn source_text(source: TargetSource) -> Seq<char> {
    match source {
        TargetSource::TsTargetStart => "TS-TARGETSTART event"@,
        TargetSource::Sequence => "Sequence file"@,
    }
}

/// The message that monitoring has begun. `product` is the program's name and version.
pub open spec fn welcome_message(
    telescope: Seq<char>,
    s: StateView,
    services: nat,
    flip: Option<String>,
    mount: Option<MountSnapshot>,
    product: Seq<char>,
    now: Moment,
) -> MessageView {
    let a = message_at(
        titled_text(telescope, "🚀 Chatstronomy — observatory monitor started"@),
        now,
    ).colored(colors::GREEN);
    let b = if status_text(s, now).len() > 0 {
        a.with("Status"@, status_text(s, now), false)
    } else {
        a
    };
    let c = match s.current_target {
        Some(t) => with_rotation(
            with_target_coordinates(
                with_project(b.with("Current Target"@, t.name@, false), t),
                t,
            ),
            t,
        ).with("Target Source"@, source_text(t.source), true),
        None => b.with("Current Target"@, "None detected"@, false),
    };
    let d = with_filter(c, "Last Filter"@, s.last_filter).with(
        "Events in History"@,
        dec(s.events_seen.len()),
        true,
    ).with("Images in History"@, dec(s.images_seen.len()), true).with(
        "Chat Services"@,
        dec(services),
        true,
    );
    with_mount(
        if s.meridian_flip_time is Some {
            with_flip(d, flip)
        } else {
            d
        },
        mount,
    ).footed(product + " — ready to monitor telescope events and images"@)
}

/// The message that the telescope is back or gone.
pub open spec fn connectivity_message(
    telescope: Seq<char>,
    online: bool,
    failures: u32,
    now: Moment,
) -> MessageView {
    (if online {
        message_at(titled_text(telescope, "✅ Telescope back online"@), now).colored(
            colors::GREEN,
        ).with("Status"@, "Reconnected; resuming monitoring."@, false)
    } else {
        message_at(titled_text(telescope, "🔌 Telescope offline"@), now).colored(
            colors::RED,
        ).with(
            "Status"@,
            "No response after "@ + dec(failures as nat)
                + " consecutive poll cycles; retrying with backoff."@,
            false,
        )
    }).footed(utc_text(now))
}

pub fn connectivity_notification(telescope: &str, online: bool, failures: u32, now: Moment) -> (r:
    ChatMessage)
    requires
        now.wf(),
    ensures
        r@ == connectivity_message(telescope@, online, failures, now),
{
    let m = if online {
        ChatMessage::new_at(titled(telescope, "✅ Telescope back online").as_str(), now).color(
            colors::GREEN,
        ).field("Status", "Reconnected; resuming monitoring.", false)
    } else {
        let text = cat3(
            "No response after ",
            decimal(failures as u128).as_str(),
            " consecutive poll cycles; retrying with backoff.",
        );
        ChatMessage::new_at(titled(telescope, "🔌 Telescope offline").as_str(), now).color(
            colors::RED,
        ).field("Status", text.as_str(), false)
    };
    m.footer(format_utc_timestamp(now).as_str())
}

impl UpdaterState {
    fn flip_near(&self) -> (r: bool)
        ensures
            r == flip_is_near(self@),
    {
        match self.meridian_flip_time {
            Some(hours) => !hours.is_nan() && !(Double { bits: ONE }).less(hours),
            None => false,
        }
    }

    /// Writes the message about a new image.
    pub fn image_notification(
        &self,
        telescope: &str,
        image: &ImageMetadata,
        skipped: u32,
        flip: &Option<String>,
        now: Moment,
    ) -> (r: ChatMessage)
        requires
            now.wf(),
        ensures
            r@ == image_message(telescope@, self@, *image, skipped, *flip, now),
    {
        let captured = cat3("📸 New ", image.image_type.as_str(), " Frame Captured");
        let title = if skipped > 0 {
            cat4(captured.as_str(), " (+", decimal(skipped as u128).as_str(), " skipped)")
        } else {
            captured
        };
        let mut m = ChatMessage::new_at(titled(telescope, title.as_str()).as_str(), now).color(
            color_of_image(image.image_type.as_str()),
        );
        if let Some(t) = &self.current_target {
            m = m.field("Target", t.name.as_str(), true);
        }
        if skipped > 0 {
            let text = cat2(decimal(skipped as u128 + 1).as_str(), " images");
            m = m.field("Images Since Last Post", text.as_str(), true);
        }
        let exposure = cat2(image.exposure_time.plain().as_str(), "s");
        let temperature = cat2(image.temperature.fixed(1).as_str(), "°C");
        let foot = cat2("Telescope: ", image.telescope_name.as_str());
        m = m.field("Camera", image.camera_name.as_str(), true).field(
            "Tracking RMS",
            image.rms_text.as_str(),
            true,
        ).field("Filter", image.filter.as_str(), true).field(
            "Exposure",
            exposure.as_str(),
            true,
        ).field("Temperature", temperature.as_str(), true).field(
            "Stars",
            decimal_int(image.stars as i128).as_str(),
            true,
        ).field("HFR", image.hfr.fixed(2).as_str(), true).field(
            "Mean",
            image.mean.fixed(1).as_str(),
            true,
        ).field("Median", image.median.fixed(1).as_str(), true).field(
            "StDev",
            image.st_dev.fixed(1).as_str(),
            true,
        ).footer(foot.as_str());
        if self.flip_near() {
            m = add_meridian_flip_info(m, flip);
        }
        m
    }

    /// Writes the status message.
    pub fn build_status_message(
        &self,
        telescope: &str,
        flip: &Option<String>,
        mount: &Option<MountSnapshot>,
        now: Moment,
    ) -> (r: ChatMessage)
        requires
            self.wf(),
            now.wf(),
        ensures
            r@ == status_message(telescope@, self@, *flip, *mount, now),
    {
        let mut m = ChatMessage::new_at(titled(telescope, "📡 Live status").as_str(), now).color(
            colors::CYAN,
        );
        let summary = self.format_startup_status_at(now);
        if !summary.as_str().is_empty() {
            m = m.field("State", summary.as_str(), false);
        }
        if let Some(t) = &self.current_target {
            m = add_target_coordinates(m.field("Target", t.name.as_str(), false), t);
        }
        m = add_filter(m, "Filter", &self.last_filter);
        if self.meridian_flip_time.is_some() {
            if let Some(text) = flip {
                m = m.field("Meridian flip in", text.as_str(), true);
            }
        }
        if let Some(p) = mount {
            let position = cat4("RA: ", p.ra.as_str(), "\nDec: ", p.dec.as_str());
            m = m.field("Mount RA/Dec", position.as_str(), true).field(
                "Pier",
                p.side_of_pier.as_str(),
                true,
            );
        }
        m.footer(cat2("Updated ", format_utc_timestamp(now).as_str()).as_str())
    }

    /// Writes the message that monitoring has begun.
    pub fn welcome_notification(
        &self,
        telescope: &str,
        services: usize,
        flip: &Option<String>,
        mount: &Option<MountSnapshot>,
        product: &str,
        now: Moment,
    ) -> (r: ChatMessage)
        requires
            self.wf(),
            now.wf(),
        ensures
            r@ == welcome_message(
                telescope@,
                self@,
                services as nat,
                *flip,
                *mount,
                product@,
                now,
            ),
    {
        let mut m = ChatMessage::new_at(
            titled(telescope, "🚀 Chatstronomy — observatory monitor started").as_str(),
            now,
        ).color(colors::GREEN);
        let summary = self.format_startup_status_at(now);
        if !summary.as_str().is_empty() {
            m = m.field("Status", summary.as_str(), false);
        }
        match &self.current_target {
            Some(t) => {
                m = m.field("Current Target", t.name.as_str(), false);
                m = add_rotation(add_target_coordinates(add_project(m, t), t), t);
                m = m.field(
                    "Target Source",
                    match t.source {
                        TargetSource::TsTargetStart => "TS-TARGETSTART event",
                        TargetSource::Sequence => "Sequence file",
                    },
                    true,
                );
            },
            None => {
                m = m.field("Current Target", "None detected", false);
            },
        }
        m = add_filter(m, "Last Filter", &self.last_filter);
        let events = decimal(self.events_seen.len() as u128);
        let images = decimal(self.images_seen.len() as u128);
        let count = decimal(services as u128);
        m = m.field("Events in History", events.as_str(), true).field(
            "Images in History",
            images.as_str(),
            true,
        ).field("Chat Services", count.as_str(), true);
        if self.meridian_flip_time.is_some() {
            m = add_meridian_flip_info(m, flip);
        }
        m = add_mount_info(m, mount);
        m.footer(
            cat2(product, " — ready to monitor telescope events and images").as_str(),
        )
    }
}

} // verus!
