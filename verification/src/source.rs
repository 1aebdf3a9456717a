//! What a telescope's data source can do, and how it fails.

use vstd::prelude::*;
use crate::text::{ascii_lower, contains, has_part, to_ascii_lower};

verus! {

/// The kinds of data source.
#[derive(Clone, Copy, Debug, PartialEq, Eq, Structural)]
pub enum RigSourceKind {
    NinaDirect,
}

/// What a data source offers.
#[derive(Clone, Copy, Debug, PartialEq, Eq, Structural)]
pub struct RigCapabilities {
    pub event_history: bool,
    pub image_history: bool,
    pub sequence: bool,
    pub thumbnails: bool,
    pub autofocus_details: bool,
    pub equipment_snapshots: bool,
    pub guider_graph: bool,
    pub commands: bool,
    pub target_commands: bool,
    pub autofocus_delivery_ack: bool,
}

impl RigCapabilities {
    /// A source that offers nothing.
    pub fn none() -> (r: RigCapabilities)
        ensures
            r == (RigCapabilities {
                event_history: false,
                image_history: false,
                sequence: false,
                thumbnails: false,
                autofocus_details: false,
                equipment_snapshots: false,
                guider_graph: false,
                commands: false,
                target_commands: false,
                autofocus_delivery_ack: false,
            }),
    {
        RigCapabilities {
            event_history: false,
            image_history: false,
            sequence: false,
            thumbnails: false,
            autofocus_details: false,
            equipment_snapshots: false,
            guider_graph: false,
            commands: false,
            target_commands: false,
            autofocus_delivery_ack: false,
        }
    }
}

/// A telescope's connection: the number by which the program finds it, and what it offers.
#[derive(Clone, Copy, Debug, PartialEq, Eq, Structural)]
pub struct SharedRigSource {
    pub id: u64,
    pub capabilities: RigCapabilities,
}

/// Why a data source gave no answer.
#[derive(Debug)]
pub enum RigSourceError {
    /// The source could not be reached.
    Unavailable { kind: RigSourceKind, reason: String },
    /// The source answered that the resource is still being prepared.
    NotReady { kind: RigSourceKind, reason: String },
    /// The source refused the request.
    Rejected { kind: RigSourceKind, reason: String },
    /// The source's answer makes no sense.
    InvalidResponse { kind: RigSourceKind, reason: String },
    /// The source does not offer what was asked for.
    Unsupported { kind: RigSourceKind, capability: String },
}

/// A refusal that says that the thumbnail is still being prepared or encoded.
pub open spec fn says_still_preparing(reason: Seq<char>) -> bool {
    let lower = ascii_lower(reason);
    &&& has_part(lower, "thumbnail"@)
    &&& has_part(lower, "still"@)
    &&& has_part(lower, "prepar"@) || has_part(lower, "encod"@)
}

/// The error means that the thumbnail may be there a moment later.
pub open spec fn still_preparing(error: RigSourceError) -> bool {
    match error {
        RigSourceError::NotReady { .. } => true,
        RigSourceError::Rejected { reason, .. } => says_still_preparing(reason@),
        _ => false,
    }
}

pub fn thumbnail_is_still_preparing(error: &RigSourceError) -> (r: bool)
    ensures
        r == still_preparing(*error),
{
    match error {
        RigSourceError::NotReady { .. } => true,
        RigSourceError::Rejected { reason, .. } => {
            let lower = to_ascii_lower(reason.as_str());
            contains(lower.as_str(), "thumbnail") && contains(lower.as_str(), "still") && (contains(
                lower.as_str(),
                "prepar",
            ) || contains(lower.as_str(), "encod"))
        },
        _ => false,
    }
}

/// How often a thumbnail is asked for before the message goes out without it.
pub const THUMBNAIL_READY_MAX_ATTEMPTS: usize = 6;

/// Milliseconds between two requests for a thumbnail.
pub const THUMBNAIL_READY_RETRY_MILLIS: u64 = 200;

/// Whether a failed request for a thumbnail, the `attempt`-th one, is followed by another.
pub fn retry_thumbnail(attempt: usize, error: &RigSourceError) -> (r: bool)
    ensures
        r == (attempt < THUMBNAIL_READY_MAX_ATTEMPTS && still_preparing(*error)),
{
    attempt < THUMBNAIL_READY_MAX_ATTEMPTS && thumbnail_is_still_preparing(error)
}

/// Whether a failed request, the `attempt`-th of at most `max_attempts` (one at least), is
/// followed by another: only while the resource is being prepared.
pub fn retry_resource_not_ready(attempt: usize, max_attempts: usize, error: &RigSourceError) -> (r:
    bool)
    ensures
        r == (attempt < max_attempts && error is NotReady),
{
    match error {
        RigSourceError::NotReady { .. } => attempt < max_attempts,
        _ => false,
    }
}

/// The requests made for a resource whose answers fail as `errors` lists them, from request
/// number `attempt` on.
pub open spec fn thumbnail_requests(errors: Seq<RigSourceError>, attempt: nat) -> nat
    decreases errors.len(),
{
    if errors.len() == 0 {
        1
    } else if attempt < THUMBNAIL_READY_MAX_ATTEMPTS && still_preparing(errors[0]) {
        1 + thumbnail_requests(errors.subrange(1, errors.len() as int), attempt + 1)
    } else {
        1
    }
}

/// However a thumbnail fails, it is asked for at most six times.
pub proof fn thumbnail_requests_are_bounded(errors: Seq<RigSourceError>, attempt: nat)
    requires
        1 <= attempt <= THUMBNAIL_READY_MAX_ATTEMPTS,
    ensures
        thumbnail_requests(errors, attempt) + attempt <= THUMBNAIL_READY_MAX_ATTEMPTS + 1,
    decreases errors.len(),
{
    if errors.len() > 0 && attempt < THUMBNAIL_READY_MAX_ATTEMPTS {
        thumbnail_requests_are_bounded(errors.subrange(1, errors.len() as int), attempt + 1);
    }
}

} // verus!
