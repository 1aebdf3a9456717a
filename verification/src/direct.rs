//! Requests to the controller's data pipe: which are allowed, how long they live, and which
//! answers are accepted.

use vstd::prelude::*;
use crate::calendar::now;
use crate::source::{RigCapabilities, RigSourceError, RigSourceKind};

verus! {

/// Seconds that a request may take.
pub const QUERY_TIMEOUT_SECS: u64 = 15;

/// The longest answer that is accepted, in bytes.
pub const MAX_FRAME_BYTES: usize = 16777216;

/// A command to the telescope.
#[derive(Clone, Copy, Debug, PartialEq, Eq, Structural)]
pub enum RigCommand {
    ChangeFilter { filter_id: i32 },
    SlewToTarget,
    CenterTarget,
    CenterRotateTarget,
    StartAutofocus,
    CancelAutofocus,
    StartSequence { skip_validation: bool },
    StopSequence,
    AbortExposure,
    ParkMount,
}

impl RigCommand {
    pub open spec fn on_target(self) -> bool {
        self is SlewToTarget || self is CenterTarget || self is CenterRotateTarget
    }

    /// The command acts on the current target.
    pub fn is_target_command(self) -> (r: bool)
        ensures
            r == self.on_target(),
    {
        match self {
            RigCommand::SlewToTarget => true,
            RigCommand::CenterTarget => true,
            RigCommand::CenterRotateTarget => true,
            _ => false,
        }
    }
}

/// What is asked of the controller.
#[derive(Debug)]
pub enum QueryKind {
    EventHistory,
    ImageHistory,
    Sequence,
    Thumbnail { index: u32 },
    LastAutofocus,
    AcknowledgeAutofocus { report_timestamp: String },
    MountInfo,
    CameraInfo,
    FilterwheelInfo,
    GuiderInfo,
    GuiderGraph,
    RotatorInfo,
    FocuserInfo,
    Command { command: RigCommand },
}

/// The name of what a source must offer for a request, and whether it does.
pub open spec fn needed(kind: QueryKind, c: RigCapabilities) -> (bool, Seq<char>) {
    match kind {
        QueryKind::EventHistory => (c.event_history, "event history"@),
        QueryKind::ImageHistory => (c.image_history, "image history"@),
        QueryKind::Sequence => (c.sequence, "sequence"@),
        QueryKind::Thumbnail { .. } => (c.thumbnails, "thumbnails"@),
        QueryKind::LastAutofocus => (c.autofocus_details, "autofocus details"@),
        QueryKind::AcknowledgeAutofocus { .. } => (
            c.autofocus_delivery_ack,
            "autofocus delivery acknowledgement"@,
        ),
        QueryKind::GuiderGraph => (c.guider_graph, "guider graph"@),
        QueryKind::Command { command } => if !c.commands {
            (false, "commands"@)
        } else {
            (
                !command.on_target() || c.target_commands,
                "current-target commands (update the Chatstronomy N.I.N.A. plugin)"@,
            )
        },
        _ => (c.equipment_snapshots, "equipment snapshots"@),
    }
}

/// Refuses a request for what the source does not offer.
pub fn ensure_supported(kind: &QueryKind, c: RigCapabilities) -> (r: Result<(), RigSourceError>)
    ensures
        match r {
            Ok(_) => needed(*kind, c).0,
            Err(RigSourceError::Unsupported { kind: source, capability }) => !needed(*kind, c).0
                && source == RigSourceKind::NinaDirect && capability@ == needed(*kind, c).1,
            Err(_) => false,
        },
{
    let (offered, capability): (bool, &str) = match kind {
        QueryKind::EventHistory => (c.event_history, "event history"),
        QueryKind::ImageHistory => (c.image_history, "image history"),
        QueryKind::Sequence => (c.sequence, "sequence"),
        QueryKind::Thumbnail { .. } => (c.thumbnails, "thumbnails"),
        QueryKind::LastAutofocus => (c.autofocus_details, "autofocus details"),
        QueryKind::AcknowledgeAutofocus { .. } => (
            c.autofocus_delivery_ack,
            "autofocus delivery acknowledgement",
        ),
        QueryKind::GuiderGraph => (c.guider_graph, "guider graph"),
        QueryKind::Command { command } => if !c.commands {
            (false, "commands")
        } else {
            (
                !command.is_target_command() || c.target_commands,
                "current-target commands (update the Chatstronomy N.I.N.A. plugin)",
            )
        },
        _ => (c.equipment_snapshots, "equipment snapshots"),
    };
    if offered {
        Ok(())
    } else {
        Err(
            RigSourceError::Unsupported {
                kind: RigSourceKind::NinaDirect,
                capability: String::from_str(capability),
            },
        )
    }
}

/// The second, since 1970, at which a request expires: commands live as long as the exchange
/// does, reads do not expire.
pub open spec fn deadline(kind: QueryKind, now: i64) -> Option<i64> {
    if kind is Command {
        Some(
            if now + QUERY_TIMEOUT_SECS > i64::MAX {
                i64::MAX
            } else {
                (now + QUERY_TIMEOUT_SECS) as i64
            },
        )
    } else {
        None
    }
}

pub fn deadline_at(kind: &QueryKind, now: i64) -> (r: Option<i64>)
    ensures
        r == deadline(*kind, now),
{
    match kind {
        QueryKind::Command { .. } => Some(
            if now > i64::MAX - QUERY_TIMEOUT_SECS as i64 {
                i64::MAX
            } else {
                now + QUERY_TIMEOUT_SECS as i64
            },
        ),
        _ => None,
    }
}

/// The second at which a request made now expires.
pub fn query_deadline(kind: &QueryKind) -> (r: Option<i64>)
    ensures
        r is Some <==> kind is Command,
        exists|second: i64| r == #[trigger] deadline(*kind, second),
{
    let second: i64 = now().seconds;
    deadline_at(kind, second)
}

/// A line read from the pipe, by its length in bytes.
pub fn check_line(bytes: usize) -> (r: Result<(), RigSourceError>)
    ensures
        match r {
            Ok(_) => 0 < bytes <= MAX_FRAME_BYTES,
            Err(RigSourceError::Unavailable { kind, reason }) => {
                &&& kind == RigSourceKind::NinaDirect
                &&& bytes == 0 && reason@ == "Direct data pipe closed"@ || bytes > MAX_FRAME_BYTES
                    && reason@ == "Direct response exceeds the size limit"@
            },
            Err(_) => false,
        },
{
    if bytes == 0 {
        Err(
            RigSourceError::Unavailable {
                kind: RigSourceKind::NinaDirect,
                reason: String::from_str("Direct data pipe closed"),
            },
        )
    } else if bytes > MAX_FRAME_BYTES {
        Err(
            RigSourceError::Unavailable {
                kind: RigSourceKind::NinaDirect,
                reason: String::from_str("Direct response exceeds the size limit"),
            },
        )
    } else {
        Ok(())
    }
}

/// A frame read from the pipe.
#[derive(Debug)]
pub enum DirectFrame {
    /// The answer to a request: the payload as JSON, or why there is none.
    QueryResult { id: u128, outcome: Result<String, RigSourceError> },
    Other,
}

/// Takes the payload out of the answer to the request `id`. Anything but that request's answer
/// is invalid.
pub fn accept_frame(id: u128, frame: DirectFrame) -> (r: Result<String, RigSourceError>)
    ensures
        match frame {
            DirectFrame::Other => r matches Err(
                RigSourceError::InvalidResponse { kind, reason },
            ) && kind == RigSourceKind::NinaDirect && reason@
                == "plugin returned a non-result frame"@,
            DirectFrame::QueryResult { id: answered, outcome } => if answered == id {
                r == outcome
            } else {
                r matches Err(RigSourceError::InvalidResponse { kind, reason }) && kind
                    == RigSourceKind::NinaDirect && reason@
                    == "plugin returned a mismatched query ID"@
            },
        },
{
    match frame {
        DirectFrame::Other => Err(
            RigSourceError::InvalidResponse {
                kind: RigSourceKind::NinaDirect,
                reason: String::from_str("plugin returned a non-result frame"),
            },
        ),
        DirectFrame::QueryResult { id: answered, outcome } => if answered == id {
            outcome
        } else {
            Err(
                RigSourceError::InvalidResponse {
                    kind: RigSourceKind::NinaDirect,
                    reason: String::from_str("plugin returned a mismatched query ID"),
                },
            )
        },
    }
}

} // verus!
