//! The names of the events that the controller reports.

use vstd::prelude::*;
use crate::text::same;

verus! {

pub const CAMERA_DISCONNECTED: &'static str = "CAMERA-DISCONNECTED";

pub const CAMERA_CONNECTED: &'static str = "CAMERA-CONNECTED";

pub const CAMERA_DOWNLOAD_TIMEOUT: &'static str = "CAMERA-DOWNLOAD-TIMEOUT";

pub const FILTERWHEEL_DISCONNECTED: &'static str = "FILTERWHEEL-DISCONNECTED";

pub const FILTERWHEEL_CONNECTED: &'static str = "FILTERWHEEL-CONNECTED";

pub const FILTERWHEEL_CHANGED: &'static str = "FILTERWHEEL-CHANGED";

pub const MOUNT_DISCONNECTED: &'static str = "MOUNT-DISCONNECTED";

pub const MOUNT_CONNECTED: &'static str = "MOUNT-CONNECTED";

pub const MOUNT_UNPARKED: &'static str = "MOUNT-UNPARKED";

pub const MOUNT_PARKED: &'static str = "MOUNT-PARKED";

pub const MOUNT_BEFORE_FLIP: &'static str = "MOUNT-BEFORE-FLIP";

pub const MOUNT_AFTER_FLIP: &'static str = "MOUNT-AFTER-FLIP";

pub const MOUNT_HOMED: &'static str = "MOUNT-HOMED";

pub const MOUNT_CENTER: &'static str = "MOUNT-CENTER";

pub const MOUNT_SLEW_STARTED: &'static str = "MOUNT-SLEW-STARTED";

pub const MOUNT_SLEWED: &'static str = "MOUNT-SLEWED";

pub const FOCUSER_DISCONNECTED: &'static str = "FOCUSER-DISCONNECTED";

pub const FOCUSER_CONNECTED: &'static str = "FOCUSER-CONNECTED";

pub const FOCUSER_USER_FOCUSED: &'static str = "FOCUSER-USER-FOCUSED";

pub const ROTATOR_DISCONNECTED: &'static str = "ROTATOR-DISCONNECTED";

pub const ROTATOR_CONNECTED: &'static str = "ROTATOR-CONNECTED";

pub const ROTATOR_MOVE_STARTED: &'static str = "ROTATOR-MOVE-STARTED";

pub const ROTATOR_MOVED: &'static str = "ROTATOR-MOVED";

pub const ROTATOR_MOVED_MECHANICAL: &'static str = "ROTATOR-MOVED-MECHANICAL";

pub const ROTATOR_SYNCED: &'static str = "ROTATOR-SYNCED";

pub const GUIDER_CONNECTED: &'static str = "GUIDER-CONNECTED";

pub const GUIDER_DISCONNECTED: &'static str = "GUIDER-DISCONNECTED";

pub const GUIDER_START: &'static str = "GUIDER-START";

pub const GUIDER_STOP: &'static str = "GUIDER-STOP";

pub const GUIDER_DITHER: &'static str = "GUIDER-DITHER";

pub const FLAT_CONNECTED: &'static str = "FLAT-CONNECTED";

pub const FLAT_DISCONNECTED: &'static str = "FLAT-DISCONNECTED";

pub const FLAT_BRIGHTNESS_CHANGED: &'static str = "FLAT-BRIGHTNESS-CHANGED";

pub const FLAT_LIGHT_TOGGLED: &'static str = "FLAT-LIGHT-TOGGLED";

pub const FLAT_COVER_OPENED: &'static str = "FLAT-COVER-OPENED";

pub const FLAT_COVER_CLOSED: &'static str = "FLAT-COVER-CLOSED";

pub const WEATHER_CONNECTED: &'static str = "WEATHER-CONNECTED";

pub const WEATHER_DISCONNECTED: &'static str = "WEATHER-DISCONNECTED";

pub const WEATHER_CHANGED: &'static str = "WEATHER-CHANGED";

pub const WEATHER_HIGH_WIND: &'static str = "WEATHER-HIGH-WIND";

pub const SWITCH_CONNECTED: &'static str = "SWITCH-CONNECTED";

pub const SWITCH_DISCONNECTED: &'static str = "SWITCH-DISCONNECTED";

pub const DOME_CONNECTED: &'static str = "DOME-CONNECTED";

pub const DOME_DISCONNECTED: &'static str = "DOME-DISCONNECTED";

pub const DOME_SHUTTER_OPENED: &'static str = "DOME-SHUTTER-OPENED";

pub const DOME_SHUTTER_CLOSED: &'static str = "DOME-SHUTTER-CLOSED";

pub const DOME_HOMED: &'static str = "DOME-HOMED";

pub const DOME_PARKED: &'static str = "DOME-PARKED";

pub const DOME_SLEWED: &'static str = "DOME-SLEWED";

pub const DOME_SYNCED: &'static str = "DOME-SYNCED";

pub const SAFETY_CONNECTED: &'static str = "SAFETY-CONNECTED";

pub const SAFETY_DISCONNECTED: &'static str = "SAFETY-DISCONNECTED";

pub const SAFETY_CHANGED: &'static str = "SAFETY-CHANGED";

pub const IMAGE_SAVE: &'static str = "IMAGE-SAVE";

pub const IMAGE_SAVE_FAILED: &'static str = "IMAGE-SAVE-FAILED";

pub const IMAGE_PREPARED: &'static str = "IMAGE-PREPARED";

pub const API_CAPTURE_FINISHED: &'static str = "API-CAPTURE-FINISHED";

pub const AUTOFOCUS_STARTING: &'static str = "AUTOFOCUS-STARTING";

pub const AUTOFOCUS_FINISHED: &'static str = "AUTOFOCUS-FINISHED";

pub const AUTOFOCUS_POINT_ADDED: &'static str = "AUTOFOCUS-POINT-ADDED";

pub const ERROR_AF: &'static str = "ERROR-AF";

pub const ERROR_PLATESOLVE: &'static str = "ERROR-PLATESOLVE";

pub const SEQUENCE_STARTING: &'static str = "SEQUENCE-STARTING";

pub const SEQUENCE_FINISHED: &'static str = "SEQUENCE-FINISHED";

pub const SEQUENCE_ENTITY_FAILED: &'static str = "SEQUENCE-ENTITY-FAILED";

pub const TS_TARGETSTART: &'static str = "TS-TARGETSTART";

pub const TS_NEWTARGETSTART: &'static str = "TS-NEWTARGETSTART";

pub const TS_WAITSTART: &'static str = "TS-WAITSTART";

pub const NINA_NOTIFICATION: &'static str = "NINA-NOTIFICATION";

pub const NINA_LOG: &'static str = "NINA-LOG";

pub const CHATSTRONOMY_COMMAND_FAILED: &'static str = "CHATSTRONOMY-COMMAND-FAILED";

/// The events that the library tells apart by name.
#[derive(Clone, Copy, Debug, PartialEq, Eq, Structural)]
pub enum EventKind {
    CameraDisconnected,
    CameraConnected,
    CameraDownloadTimeout,
    FilterwheelDisconnected,
    FilterwheelConnected,
    FilterwheelChanged,
    MountDisconnected,
    MountConnected,
    MountUnparked,
    MountParked,
    MountBeforeFlip,
    MountAfterFlip,
    MountHomed,
    MountCenter,
    MountSlewStarted,
    MountSlewed,
    FocuserDisconnected,
    FocuserConnected,
    FocuserUserFocused,
    RotatorDisconnected,
    RotatorConnected,
    RotatorMoveStarted,
    RotatorMoved,
    RotatorMovedMechanical,
    RotatorSynced,
    GuiderConnected,
    GuiderDisconnected,
    GuiderStart,
    GuiderStop,
    GuiderDither,
    FlatConnected,
    FlatDisconnected,
    FlatBrightnessChanged,
    FlatLightToggled,
    FlatCoverOpened,
    FlatCoverClosed,
    WeatherConnected,
    WeatherDisconnected,
    WeatherChanged,
    WeatherHighWind,
    SwitchConnected,
    SwitchDisconnected,
    DomeConnected,
    DomeDisconnected,
    DomeShutterOpened,
    DomeShutterClosed,
    DomeHomed,
    DomeParked,
    DomeSlewed,
    DomeSynced,
    SafetyConnected,
    SafetyDisconnected,
    SafetyChanged,
    ImageSave,
    ImageSaveFailed,
    ImagePrepared,
    ApiCaptureFinished,
    AutofocusStarting,
    AutofocusFinished,
    AutofocusPointAdded,
    ErrorAf,
    ErrorPlatesolve,
    SequenceStarting,
    SequenceFinished,
    SequenceEntityFailed,
    TsTargetstart,
    TsNewtargetstart,
    TsWaitstart,
    NinaNotification,
    NinaLog,
    ChatstronomyCommandFailed,
    Other,
}

/// The event that a name stands for.
#[verifier::opaque]
pub open spec fn kind_of(name: Seq<char>) -> EventKind {
    if name == CAMERA_DISCONNECTED@ {
        EventKind::CameraDisconnected
    } else if name == CAMERA_CONNECTED@ {
        EventKind::CameraConnected
    } else if name == CAMERA_DOWNLOAD_TIMEOUT@ {
        EventKind::CameraDownloadTimeout
    } else if name == FILTERWHEEL_DISCONNECTED@ {
        EventKind::FilterwheelDisconnected
    } else if name == FILTERWHEEL_CONNECTED@ {
        EventKind::FilterwheelConnected
    } else if name == FILTERWHEEL_CHANGED@ {
        EventKind::FilterwheelChanged
    } else if name == MOUNT_DISCONNECTED@ {
        EventKind::MountDisconnected
    } else if name == MOUNT_CONNECTED@ {
        EventKind::MountConnected
    } else if name == MOUNT_UNPARKED@ {
        EventKind::MountUnparked
    } else if name == MOUNT_PARKED@ {
        EventKind::MountParked
    } else if name == MOUNT_BEFORE_FLIP@ {
        EventKind::MountBeforeFlip
    } else if name == MOUNT_AFTER_FLIP@ {
        EventKind::MountAfterFlip
    } else if name == MOUNT_HOMED@ {
        EventKind::MountHomed
    } else if name == MOUNT_CENTER@ {
        EventKind::MountCenter
    } else if name == MOUNT_SLEW_STARTED@ {
        EventKind::MountSlewStarted
    } else if name == MOUNT_SLEWED@ {
        EventKind::MountSlewed
    } else if name == FOCUSER_DISCONNECTED@ {
        EventKind::FocuserDisconnected
    } else if name == FOCUSER_CONNECTED@ {
        EventKind::FocuserConnected
    } else if name == FOCUSER_USER_FOCUSED@ {
        EventKind::FocuserUserFocused
    } else if name == ROTATOR_DISCONNECTED@ {
        EventKind::RotatorDisconnected
    } else if name == ROTATOR_CONNECTED@ {
        EventKind::RotatorConnected
    } else if name == ROTATOR_MOVE_STARTED@ {
        EventKind::RotatorMoveStarted
    } else if name == ROTATOR_MOVED@ {
        EventKind::RotatorMoved
    } else if name == ROTATOR_MOVED_MECHANICAL@ {
        EventKind::RotatorMovedMechanical
    } else if name == ROTATOR_SYNCED@ {
        EventKind::RotatorSynced
    } else if name == GUIDER_CONNECTED@ {
        EventKind::GuiderConnected
    } else if name == GUIDER_DISCONNECTED@ {
        EventKind::GuiderDisconnected
    } else if name == GUIDER_START@ {
        EventKind::GuiderStart
    } else if name == GUIDER_STOP@ {
        EventKind::GuiderStop
    } else if name == GUIDER_DITHER@ {
        EventKind::GuiderDither
    } else if name == FLAT_CONNECTED@ {
        EventKind::FlatConnected
    } else if name == FLAT_DISCONNECTED@ {
        EventKind::FlatDisconnected
    } else if name == FLAT_BRIGHTNESS_CHANGED@ {
        EventKind::FlatBrightnessChanged
    } else if name == FLAT_LIGHT_TOGGLED@ {
        EventKind::FlatLightToggled
    } else if name == FLAT_COVER_OPENED@ {
        EventKind::FlatCoverOpened
    } else if name == FLAT_COVER_CLOSED@ {
        EventKind::FlatCoverClosed
    } else if name == WEATHER_CONNECTED@ {
        EventKind::WeatherConnected
    } else if name == WEATHER_DISCONNECTED@ {
        EventKind::WeatherDisconnected
    } else if name == WEATHER_CHANGED@ {
        EventKind::WeatherChanged
    } else if name == WEATHER_HIGH_WIND@ {
        EventKind::WeatherHighWind
    } else if name == SWITCH_CONNECTED@ {
        EventKind::SwitchConnected
    } else if name == SWITCH_DISCONNECTED@ {
        EventKind::SwitchDisconnected
    } else if name == DOME_CONNECTED@ {
        EventKind::DomeConnected
    } else if name == DOME_DISCONNECTED@ {
        EventKind::DomeDisconnected
    } else if name == DOME_SHUTTER_OPENED@ {
        EventKind::DomeShutterOpened
    } else if name == DOME_SHUTTER_CLOSED@ {
        EventKind::DomeShutterClosed
    } else if name == DOME_HOMED@ {
        EventKind::DomeHomed
    } else if name == DOME_PARKED@ {
        EventKind::DomeParked
    } else if name == DOME_SLEWED@ {
        EventKind::DomeSlewed
    } else if name == DOME_SYNCED@ {
        EventKind::DomeSynced
    } else if name == SAFETY_CONNECTED@ {
        EventKind::SafetyConnected
    } else if name == SAFETY_DISCONNECTED@ {
        EventKind::SafetyDisconnected
    } else if name == SAFETY_CHANGED@ {
        EventKind::SafetyChanged
    } else if name == IMAGE_SAVE@ {
        EventKind::ImageSave
    } else if name == IMAGE_SAVE_FAILED@ {
        EventKind::ImageSaveFailed
    } else if name == IMAGE_PREPARED@ {
        EventKind::ImagePrepared
    } else if name == API_CAPTURE_FINISHED@ {
        EventKind::ApiCaptureFinished
    } else if name == AUTOFOCUS_STARTING@ {
        EventKind::AutofocusStarting
    } else if name == AUTOFOCUS_FINISHED@ {
        EventKind::AutofocusFinished
    } else if name == AUTOFOCUS_POINT_ADDED@ {
        EventKind::AutofocusPointAdded
    } else if name == ERROR_AF@ {
        EventKind::ErrorAf
    } else if name == ERROR_PLATESOLVE@ {
        EventKind::ErrorPlatesolve
    } else if name == SEQUENCE_STARTING@ {
        EventKind::SequenceStarting
    } else if name == SEQUENCE_FINISHED@ {
        EventKind::SequenceFinished
    } else if name == SEQUENCE_ENTITY_FAILED@ {
        EventKind::SequenceEntityFailed
    } else if name == TS_TARGETSTART@ {
        EventKind::TsTargetstart
    } else if name == TS_NEWTARGETSTART@ {
        EventKind::TsNewtargetstart
    } else if name == TS_WAITSTART@ {
        EventKind::TsWaitstart
    } else if name == NINA_NOTIFICATION@ {
        EventKind::NinaNotification
    } else if name == NINA_LOG@ {
        EventKind::NinaLog
    } else if name == CHATSTRONOMY_COMMAND_FAILED@ {
        EventKind::ChatstronomyCommandFailed
    } else {
        EventKind::Other
    }
}

pub fn event_kind(name: &str) -> (r: EventKind)
    ensures
        r == kind_of(name@),
{
    reveal(kind_of);
    if same(name, CAMERA_DISCONNECTED) {
        EventKind::CameraDisconnected
    } else if same(name, CAMERA_CONNECTED) {
        EventKind::CameraConnected
    } else if same(name, CAMERA_DOWNLOAD_TIMEOUT) {
        EventKind::CameraDownloadTimeout
    } else if same(name, FILTERWHEEL_DISCONNECTED) {
        EventKind::FilterwheelDisconnected
    } else if same(name, FILTERWHEEL_CONNECTED) {
        EventKind::FilterwheelConnected
    } else if same(name, FILTERWHEEL_CHANGED) {
        EventKind::FilterwheelChanged
    } else if same(name, MOUNT_DISCONNECTED) {
        EventKind::MountDisconnected
    } else if same(name, MOUNT_CONNECTED) {
        EventKind::MountConnected
    } else if same(name, MOUNT_UNPARKED) {
        EventKind::MountUnparked
    } else if same(name, MOUNT_PARKED) {
        EventKind::MountParked
    } else if same(name, MOUNT_BEFORE_FLIP) {
        EventKind::MountBeforeFlip
    } else if same(name, MOUNT_AFTER_FLIP) {
        EventKind::MountAfterFlip
    } else if same(name, MOUNT_HOMED) {
        EventKind::MountHomed
    } else if same(name, MOUNT_CENTER) {
        EventKind::MountCenter
    } else if same(name, MOUNT_SLEW_STARTED) {
        EventKind::MountSlewStarted
    } else if same(name, MOUNT_SLEWED) {
        EventKind::MountSlewed
    } else if same(name, FOCUSER_DISCONNECTED) {
        EventKind::FocuserDisconnected
    } else if same(name, FOCUSER_CONNECTED) {
        EventKind::FocuserConnected
    } else if same(name, FOCUSER_USER_FOCUSED) {
        EventKind::FocuserUserFocused
    } else if same(name, ROTATOR_DISCONNECTED) {
        EventKind::RotatorDisconnected
    } else if same(name, ROTATOR_CONNECTED) {
        EventKind::RotatorConnected
    } else if same(name, ROTATOR_MOVE_STARTED) {
        EventKind::RotatorMoveStarted
    } else if same(name, ROTATOR_MOVED) {
        EventKind::RotatorMoved
    } else if same(name, ROTATOR_MOVED_MECHANICAL) {
        EventKind::RotatorMovedMechanical
    } else if same(name, ROTATOR_SYNCED) {
        EventKind::RotatorSynced
    } else if same(name, GUIDER_CONNECTED) {
        EventKind::GuiderConnected
    } else if same(name, GUIDER_DISCONNECTED) {
        EventKind::GuiderDisconnected
    } else if same(name, GUIDER_START) {
        EventKind::GuiderStart
    } else if same(name, GUIDER_STOP) {
        EventKind::GuiderStop
    } else if same(name, GUIDER_DITHER) {
        EventKind::GuiderDither
    } else if same(name, FLAT_CONNECTED) {
        EventKind::FlatConnected
    } else if same(name, FLAT_DISCONNECTED) {
        EventKind::FlatDisconnected
    } else if same(name, FLAT_BRIGHTNESS_CHANGED) {
        EventKind::FlatBrightnessChanged
    } else if same(name, FLAT_LIGHT_TOGGLED) {
        EventKind::FlatLightToggled
    } else if same(name, FLAT_COVER_OPENED) {
        EventKind::FlatCoverOpened
    } else if same(name, FLAT_COVER_CLOSED) {
        EventKind::FlatCoverClosed
    } else if same(name, WEATHER_CONNECTED) {
        EventKind::WeatherConnected
    } else if same(name, WEATHER_DISCONNECTED) {
        EventKind::WeatherDisconnected
    } else if same(name, WEATHER_CHANGED) {
        EventKind::WeatherChanged
    } else if same(name, WEATHER_HIGH_WIND) {
        EventKind::WeatherHighWind
    } else if same(name, SWITCH_CONNECTED) {
        EventKind::SwitchConnected
    } else if same(name, SWITCH_DISCONNECTED) {
        EventKind::SwitchDisconnected
    } else if same(name, DOME_CONNECTED) {
        EventKind::DomeConnected
    } else if same(name, DOME_DISCONNECTED) {
        EventKind::DomeDisconnected
    } else if same(name, DOME_SHUTTER_OPENED) {
        EventKind::DomeShutterOpened
    } else if same(name, DOME_SHUTTER_CLOSED) {
        EventKind::DomeShutterClosed
    } else if same(name, DOME_HOMED) {
        EventKind::DomeHomed
    } else if same(name, DOME_PARKED) {
        EventKind::DomeParked
    } else if same(name, DOME_SLEWED) {
        EventKind::DomeSlewed
    } else if same(name, DOME_SYNCED) {
        EventKind::DomeSynced
    } else if same(name, SAFETY_CONNECTED) {
        EventKind::SafetyConnected
    } else if same(name, SAFETY_DISCONNECTED) {
        EventKind::SafetyDisconnected
    } else if same(name, SAFETY_CHANGED) {
        EventKind::SafetyChanged
    } else if same(name, IMAGE_SAVE) {
        EventKind::ImageSave
    } else if same(name, IMAGE_SAVE_FAILED) {
        EventKind::ImageSaveFailed
    } else if same(name, IMAGE_PREPARED) {
        EventKind::ImagePrepared
    } else if same(name, API_CAPTURE_FINISHED) {
        EventKind::ApiCaptureFinished
    } else if same(name, AUTOFOCUS_STARTING) {
        EventKind::AutofocusStarting
    } else if same(name, AUTOFOCUS_FINISHED) {
        EventKind::AutofocusFinished
    } else if same(name, AUTOFOCUS_POINT_ADDED) {
        EventKind::AutofocusPointAdded
    } else if same(name, ERROR_AF) {
        EventKind::ErrorAf
    } else if same(name, ERROR_PLATESOLVE) {
        EventKind::ErrorPlatesolve
    } else if same(name, SEQUENCE_STARTING) {
        EventKind::SequenceStarting
    } else if same(name, SEQUENCE_FINISHED) {
        EventKind::SequenceFinished
    } else if same(name, SEQUENCE_ENTITY_FAILED) {
        EventKind::SequenceEntityFailed
    } else if same(name, TS_TARGETSTART) {
        EventKind::TsTargetstart
    } else if same(name, TS_NEWTARGETSTART) {
        EventKind::TsNewtargetstart
    } else if same(name, TS_WAITSTART) {
        EventKind::TsWaitstart
    } else if same(name, NINA_NOTIFICATION) {
        EventKind::NinaNotification
    } else if same(name, NINA_LOG) {
        EventKind::NinaLog
    } else if same(name, CHATSTRONOMY_COMMAND_FAILED) {
        EventKind::ChatstronomyCommandFailed
    } else {
        EventKind::Other
    }
}

} // verus!
