//! When a camera's pictures are shared. Nothing here can operate camera hardware.

use vstd::prelude::*;

verus! {

#[derive(Clone, Debug, PartialEq, Eq, Structural)]
pub struct CameraTriggerRules {
    pub interval_minutes: u16,
    pub scene_changes: bool,
    pub day_night: bool,
    pub telescope_events: bool,
    pub burst_count: u8,
    pub spacing_seconds: u16,
}

impl CameraTriggerRules {
    /// At most a day between pictures, one to three pictures in a burst, one to ten minutes apart.
    pub fn valid(&self) -> (r: bool)
        ensures
            r == (self.interval_minutes <= 1440 && 1 <= self.burst_count <= 3 && 60
                <= self.spacing_seconds <= 600),
    {
        self.interval_minutes <= 1440 && 1 <= self.burst_count && self.burst_count <= 3 && 60
            <= self.spacing_seconds && self.spacing_seconds <= 600
    }
}

} // verus!
