//! What the names of events promise: each stands for one kind of event.

use vstd::prelude::*;
use crate::event_types::{kind_of, EventKind};

verus! {

/// Each name stands for one kind of event, and each kind but the unknown one for one name.
#[verifier::spinoff_prover]
#[verifier::rlimit(100)]
pub proof fn names_tell_kinds(name: Seq<char>)
    ensures
        name == "CAMERA-DISCONNECTED"@ <==> kind_of(name) == EventKind::CameraDisconnected,
        name == "CAMERA-CONNECTED"@ <==> kind_of(name) == EventKind::CameraConnected,
        name == "CAMERA-DOWNLOAD-TIMEOUT"@ <==> kind_of(name) == EventKind::CameraDownloadTimeout,
        name == "FILTERWHEEL-DISCONNECTED"@ <==> kind_of(name)
            == EventKind::FilterwheelDisconnected,
        name == "FILTERWHEEL-CONNECTED"@ <==> kind_of(name) == EventKind::FilterwheelConnected,
        name == "FILTERWHEEL-CHANGED"@ <==> kind_of(name) == EventKind::FilterwheelChanged,
        name == "MOUNT-DISCONNECTED"@ <==> kind_of(name) == EventKind::MountDisconnected,
        name == "MOUNT-CONNECTED"@ <==> kind_of(name) == EventKind::MountConnected,
        name == "MOUNT-UNPARKED"@ <==> kind_of(name) == EventKind::MountUnparked,
        name == "MOUNT-PARKED"@ <==> kind_of(name) == EventKind::MountParked,
        name == "MOUNT-BEFORE-FLIP"@ <==> kind_of(name) == EventKind::MountBeforeFlip,
        name == "MOUNT-AFTER-FLIP"@ <==> kind_of(name) == EventKind::MountAfterFlip,
        name == "MOUNT-HOMED"@ <==> kind_of(name) == EventKind::MountHomed,
        name == "MOUNT-CENTER"@ <==> kind_of(name) == EventKind::MountCenter,
        name == "MOUNT-SLEW-STARTED"@ <==> kind_of(name) == EventKind::MountSlewStarted,
        name == "MOUNT-SLEWED"@ <==> kind_of(name) == EventKind::MountSlewed,
        name == "FOCUSER-DISCONNECTED"@ <==> kind_of(name) == EventKind::FocuserDisconnected,
        name == "FOCUSER-CONNECTED"@ <==> kind_of(name) == EventKind::FocuserConnected,
        name == "FOCUSER-USER-FOCUSED"@ <==> kind_of(name) == EventKind::FocuserUserFocused,
        name == "ROTATOR-DISCONNECTED"@ <==> kind_of(name) == EventKind::RotatorDisconnected,
        name == "ROTATOR-CONNECTED"@ <==> kind_of(name) == EventKind::RotatorConnected,
        name == "ROTATOR-MOVE-STARTED"@ <==> kind_of(name) == EventKind::RotatorMoveStarted,
        name == "ROTATOR-MOVED"@ <==> kind_of(name) == EventKind::RotatorMoved,
        name == "ROTATOR-MOVED-MECHANICAL"@ <==> kind_of(name) == EventKind::RotatorMovedMechanical,
        name == "ROTATOR-SYNCED"@ <==> kind_of(name) == EventKind::RotatorSynced,
        name == "GUIDER-CONNECTED"@ <==> kind_of(name) == EventKind::GuiderConnected,
        name == "GUIDER-DISCONNECTED"@ <==> kind_of(name) == EventKind::GuiderDisconnected,
        name == "GUIDER-START"@ <==> kind_of(name) == EventKind::GuiderStart,
        name == "GUIDER-STOP"@ <==> kind_of(name) == EventKind::GuiderStop,
        name == "GUIDER-DITHER"@ <==> kind_of(name) == EventKind::GuiderDither,
        name == "FLAT-CONNECTED"@ <==> kind_of(name) == EventKind::FlatConnected,
        name == "FLAT-DISCONNECTED"@ <==> kind_of(name) == EventKind::FlatDisconnected,
        name == "FLAT-BRIGHTNESS-CHANGED"@ <==> kind_of(name) == EventKind::FlatBrightnessChanged,
        name == "FLAT-LIGHT-TOGGLED"@ <==> kind_of(name) == EventKind::FlatLightToggled,
        name == "FLAT-COVER-OPENED"@ <==> kind_of(name) == EventKind::FlatCoverOpened,
        name == "FLAT-COVER-CLOSED"@ <==> kind_of(name) == EventKind::FlatCoverClosed,
        name == "WEATHER-CONNECTED"@ <==> kind_of(name) == EventKind::WeatherConnected,
        name == "WEATHER-DISCONNECTED"@ <==> kind_of(name) == EventKind::WeatherDisconnected,
        name == "WEATHER-CHANGED"@ <==> kind_of(name) == EventKind::WeatherChanged,
        name == "WEATHER-HIGH-WIND"@ <==> kind_of(name) == EventKind::WeatherHighWind,
        name == "SWITCH-CONNECTED"@ <==> kind_of(name) == EventKind::SwitchConnected,
        name == "SWITCH-DISCONNECTED"@ <==> kind_of(name) == EventKind::SwitchDisconnected,
        name == "DOME-CONNECTED"@ <==> kind_of(name) == EventKind::DomeConnected,
        name == "DOME-DISCONNECTED"@ <==> kind_of(name) == EventKind::DomeDisconnected,
        name == "DOME-SHUTTER-OPENED"@ <==> kind_of(name) == EventKind::DomeShutterOpened,
        name == "DOME-SHUTTER-CLOSED"@ <==> kind_of(name) == EventKind::DomeShutterClosed,
        name == "DOME-HOMED"@ <==> kind_of(name) == EventKind::DomeHomed,
        name == "DOME-PARKED"@ <==> kind_of(name) == EventKind::DomeParked,
        name == "DOME-SLEWED"@ <==> kind_of(name) == EventKind::DomeSlewed,
        name == "DOME-SYNCED"@ <==> kind_of(name) == EventKind::DomeSynced,
        name == "SAFETY-CONNECTED"@ <==> kind_of(name) == EventKind::SafetyConnected,
        name == "SAFETY-DISCONNECTED"@ <==> kind_of(name) == EventKind::SafetyDisconnected,
        name == "SAFETY-CHANGED"@ <==> kind_of(name) == EventKind::SafetyChanged,
        name == "IMAGE-SAVE"@ <==> kind_of(name) == EventKind::ImageSave,
        name == "IMAGE-SAVE-FAILED"@ <==> kind_of(name) == EventKind::ImageSaveFailed,
        name == "IMAGE-PREPARED"@ <==> kind_of(name) == EventKind::ImagePrepared,
        name == "API-CAPTURE-FINISHED"@ <==> kind_of(name) == EventKind::ApiCaptureFinished,
        name == "AUTOFOCUS-STARTING"@ <==> kind_of(name) == EventKind::AutofocusStarting,
        name == "AUTOFOCUS-FINISHED"@ <==> kind_of(name) == EventKind::AutofocusFinished,
        name == "AUTOFOCUS-POINT-ADDED"@ <==> kind_of(name) == EventKind::AutofocusPointAdded,
        name == "ERROR-AF"@ <==> kind_of(name) == EventKind::ErrorAf,
        name == "ERROR-PLATESOLVE"@ <==> kind_of(name) == EventKind::ErrorPlatesolve,
        name == "SEQUENCE-STARTING"@ <==> kind_of(name) == EventKind::SequenceStarting,
        name == "SEQUENCE-FINISHED"@ <==> kind_of(name) == EventKind::SequenceFinished,
        name == "SEQUENCE-ENTITY-FAILED"@ <==> kind_of(name) == EventKind::SequenceEntityFailed,
        name == "TS-TARGETSTART"@ <==> kind_of(name) == EventKind::TsTargetstart,
        name == "TS-NEWTARGETSTART"@ <==> kind_of(name) == EventKind::TsNewtargetstart,
        name == "TS-WAITSTART"@ <==> kind_of(name) == EventKind::TsWaitstart,
        name == "NINA-NOTIFICATION"@ <==> kind_of(name) == EventKind::NinaNotification,
        name == "NINA-LOG"@ <==> kind_of(name) == EventKind::NinaLog,
        name == "CHATSTRONOMY-COMMAND-FAILED"@
            <==> kind_of(name) == EventKind::ChatstronomyCommandFailed,
{
    reveal(kind_of);
    reveal_strlit("CAMERA-DISCONNECTED");
    reveal_strlit("CAMERA-CONNECTED");
    reveal_strlit("CAMERA-DOWNLOAD-TIMEOUT");
    reveal_strlit("FILTERWHEEL-DISCONNECTED");
    reveal_strlit("FILTERWHEEL-CONNECTED");
    reveal_strlit("FILTERWHEEL-CHANGED");
    reveal_strlit("MOUNT-DISCONNECTED");
    reveal_strlit("MOUNT-CONNECTED");
    reveal_strlit("MOUNT-UNPARKED");
    reveal_strlit("MOUNT-PARKED");
    reveal_strlit("MOUNT-BEFORE-FLIP");
    reveal_strlit("MOUNT-AFTER-FLIP");
    reveal_strlit("MOUNT-HOMED");
    reveal_strlit("MOUNT-CENTER");
    reveal_strlit("MOUNT-SLEW-STARTED");
    reveal_strlit("MOUNT-SLEWED");
    reveal_strlit("FOCUSER-DISCONNECTED");
    reveal_strlit("FOCUSER-CONNECTED");
    reveal_strlit("FOCUSER-USER-FOCUSED");
    reveal_strlit("ROTATOR-DISCONNECTED");
    reveal_strlit("ROTATOR-CONNECTED");
    reveal_strlit("ROTATOR-MOVE-STARTED");
    reveal_strlit("ROTATOR-MOVED");
    reveal_strlit("ROTATOR-MOVED-MECHANICAL");
    reveal_strlit("ROTATOR-SYNCED");
    reveal_strlit("GUIDER-CONNECTED");
    reveal_strlit("GUIDER-DISCONNECTED");
    reveal_strlit("GUIDER-START");
    reveal_strlit("GUIDER-STOP");
    reveal_strlit("GUIDER-DITHER");
    reveal_strlit("FLAT-CONNECTED");
    reveal_strlit("FLAT-DISCONNECTED");
    reveal_strlit("FLAT-BRIGHTNESS-CHANGED");
    reveal_strlit("FLAT-LIGHT-TOGGLED");
    reveal_strlit("FLAT-COVER-OPENED");
    reveal_strlit("FLAT-COVER-CLOSED");
    reveal_strlit("WEATHER-CONNECTED");
    reveal_strlit("WEATHER-DISCONNECTED");
    reveal_strlit("WEATHER-CHANGED");
    reveal_strlit("WEATHER-HIGH-WIND");
    reveal_strlit("SWITCH-CONNECTED");
    reveal_strlit("SWITCH-DISCONNECTED");
    reveal_strlit("DOME-CONNECTED");
    reveal_strlit("DOME-DISCONNECTED");
    reveal_strlit("DOME-SHUTTER-OPENED");
    reveal_strlit("DOME-SHUTTER-CLOSED");
    reveal_strlit("DOME-HOMED");
    reveal_strlit("DOME-PARKED");
    reveal_strlit("DOME-SLEWED");
    reveal_strlit("DOME-SYNCED");
    reveal_strlit("SAFETY-CONNECTED");
    reveal_strlit("SAFETY-DISCONNECTED");
    reveal_strlit("SAFETY-CHANGED");
    reveal_strlit("IMAGE-SAVE");
    reveal_strlit("IMAGE-SAVE-FAILED");
    reveal_strlit("IMAGE-PREPARED");
    reveal_strlit("API-CAPTURE-FINISHED");
    reveal_strlit("AUTOFOCUS-STARTING");
    reveal_strlit("AUTOFOCUS-FINISHED");
    reveal_strlit("AUTOFOCUS-POINT-ADDED");
    reveal_strlit("ERROR-AF");
    reveal_strlit("ERROR-PLATESOLVE");
    reveal_strlit("SEQUENCE-STARTING");
    reveal_strlit("SEQUENCE-FINISHED");
    reveal_strlit("SEQUENCE-ENTITY-FAILED");
    reveal_strlit("TS-TARGETSTART");
    reveal_strlit("TS-NEWTARGETSTART");
    reveal_strlit("TS-WAITSTART");
    reveal_strlit("NINA-NOTIFICATION");
    reveal_strlit("NINA-LOG");
    reveal_strlit("CHATSTRONOMY-COMMAND-FAILED");
    assert("CAMERA-DISCONNECTED"@.len() == 19);
    assert("CAMERA-CONNECTED"@.len() == 16);
    assert("CAMERA-DOWNLOAD-TIMEOUT"@.len() == 23);
    assert("FILTERWHEEL-DISCONNECTED"@.len() == 24);
    assert("FILTERWHEEL-CONNECTED"@.len() == 21);
    assert("FILTERWHEEL-CHANGED"@.len() == 19);
    assert("MOUNT-DISCONNECTED"@.len() == 18);
    assert("MOUNT-CONNECTED"@.len() == 15);
    assert("MOUNT-UNPARKED"@.len() == 14);
    assert("MOUNT-PARKED"@.len() == 12);
    assert("MOUNT-BEFORE-FLIP"@.len() == 17);
    assert("MOUNT-AFTER-FLIP"@.len() == 16);
    assert("MOUNT-HOMED"@.len() == 11);
    assert("MOUNT-CENTER"@.len() == 12);
    assert("MOUNT-SLEW-STARTED"@.len() == 18);
    assert("MOUNT-SLEWED"@.len() == 12);
    assert("FOCUSER-DISCONNECTED"@.len() == 20);
    assert("FOCUSER-CONNECTED"@.len() == 17);
    assert("FOCUSER-USER-FOCUSED"@.len() == 20);
    assert("ROTATOR-DISCONNECTED"@.len() == 20);
    assert("ROTATOR-CONNECTED"@.len() == 17);
    assert("ROTATOR-MOVE-STARTED"@.len() == 20);
    assert("ROTATOR-MOVED"@.len() == 13);
    assert("ROTATOR-MOVED-MECHANICAL"@.len() == 24);
    assert("ROTATOR-SYNCED"@.len() == 14);
    assert("GUIDER-CONNECTED"@.len() == 16);
    assert("GUIDER-DISCONNECTED"@.len() == 19);
    assert("GUIDER-START"@.len() == 12);
    assert("GUIDER-STOP"@.len() == 11);
    assert("GUIDER-DITHER"@.len() == 13);
    assert("FLAT-CONNECTED"@.len() == 14);
    assert("FLAT-DISCONNECTED"@.len() == 17);
    assert("FLAT-BRIGHTNESS-CHANGED"@.len() == 23);
    assert("FLAT-LIGHT-TOGGLED"@.len() == 18);
    assert("FLAT-COVER-OPENED"@.len() == 17);
    assert("FLAT-COVER-CLOSED"@.len() == 17);
    assert("WEATHER-CONNECTED"@.len() == 17);
    assert("WEATHER-DISCONNECTED"@.len() == 20);
    assert("WEATHER-CHANGED"@.len() == 15);
    assert("WEATHER-HIGH-WIND"@.len() == 17);
    assert("SWITCH-CONNECTED"@.len() == 16);
    assert("SWITCH-DISCONNECTED"@.len() == 19);
    assert("DOME-CONNECTED"@.len() == 14);
    assert("DOME-DISCONNECTED"@.len() == 17);
    assert("DOME-SHUTTER-OPENED"@.len() == 19);
    assert("DOME-SHUTTER-CLOSED"@.len() == 19);
    assert("DOME-HOMED"@.len() == 10);
    assert("DOME-PARKED"@.len() == 11);
    assert("DOME-SLEWED"@.len() == 11);
    assert("DOME-SYNCED"@.len() == 11);
    assert("SAFETY-CONNECTED"@.len() == 16);
    assert("SAFETY-DISCONNECTED"@.len() == 19);
    assert("SAFETY-CHANGED"@.len() == 14);
    assert("IMAGE-SAVE"@.len() == 10);
    assert("IMAGE-SAVE-FAILED"@.len() == 17);
    assert("IMAGE-PREPARED"@.len() == 14);
    assert("API-CAPTURE-FINISHED"@.len() == 20);
    assert("AUTOFOCUS-STARTING"@.len() == 18);
    assert("AUTOFOCUS-FINISHED"@.len() == 18);
    assert("AUTOFOCUS-POINT-ADDED"@.len() == 21);
    assert("ERROR-AF"@.len() == 8);
    assert("ERROR-PLATESOLVE"@.len() == 16);
    assert("SEQUENCE-STARTING"@.len() == 17);
    assert("SEQUENCE-FINISHED"@.len() == 17);
    assert("SEQUENCE-ENTITY-FAILED"@.len() == 22);
    assert("TS-TARGETSTART"@.len() == 14);
    assert("TS-NEWTARGETSTART"@.len() == 17);
    assert("TS-WAITSTART"@.len() == 12);
    assert("NINA-NOTIFICATION"@.len() == 17);
    assert("NINA-LOG"@.len() == 8);
    assert("CHATSTRONOMY-COMMAND-FAILED"@.len() == 27);
    assert("CAMERA-DISCONNECTED"@[0] == 'C');
    assert("FILTERWHEEL-CHANGED"@[0] == 'F');
    assert("GUIDER-DISCONNECTED"@[0] == 'G');
    assert("SWITCH-DISCONNECTED"@[0] == 'S');
    assert("DOME-SHUTTER-OPENED"@[0] == 'D');
    assert("DOME-SHUTTER-CLOSED"@[0] == 'D');
    assert("SAFETY-DISCONNECTED"@[0] == 'S');
    assert("CAMERA-CONNECTED"@[0] == 'C');
    assert("MOUNT-AFTER-FLIP"@[0] == 'M');
    assert("GUIDER-CONNECTED"@[0] == 'G');
    assert("SWITCH-CONNECTED"@[0] == 'S');
    assert("SAFETY-CONNECTED"@[0] == 'S');
    assert("ERROR-PLATESOLVE"@[0] == 'E');
    assert("CAMERA-DOWNLOAD-TIMEOUT"@[0] == 'C');
    assert("FLAT-BRIGHTNESS-CHANGED"@[0] == 'F');
    assert("FILTERWHEEL-DISCONNECTED"@[0] == 'F');
    assert("ROTATOR-MOVED-MECHANICAL"@[0] == 'R');
    assert("FILTERWHEEL-CONNECTED"@[0] == 'F');
    assert("AUTOFOCUS-POINT-ADDED"@[0] == 'A');
    assert("MOUNT-DISCONNECTED"@[6] == 'D');
    assert("MOUNT-SLEW-STARTED"@[6] == 'S');
    assert("MOUNT-DISCONNECTED"@[0] == 'M');
    assert("FLAT-LIGHT-TOGGLED"@[0] == 'F');
    assert("AUTOFOCUS-STARTING"@[0] == 'A');
    assert("AUTOFOCUS-FINISHED"@[0] == 'A');
    assert("MOUNT-CONNECTED"@[0] == 'M');
    assert("WEATHER-CHANGED"@[0] == 'W');
    assert("MOUNT-UNPARKED"@[0] == 'M');
    assert("ROTATOR-SYNCED"@[0] == 'R');
    assert("FLAT-CONNECTED"@[0] == 'F');
    assert("DOME-CONNECTED"@[0] == 'D');
    assert("SAFETY-CHANGED"@[0] == 'S');
    assert("IMAGE-PREPARED"@[0] == 'I');
    assert("TS-TARGETSTART"@[0] == 'T');
    assert("MOUNT-PARKED"@[6] == 'P');
    assert("MOUNT-CENTER"@[6] == 'C');
    assert("MOUNT-SLEWED"@[6] == 'S');
    assert("MOUNT-PARKED"@[0] == 'M');
    assert("GUIDER-START"@[0] == 'G');
    assert("TS-WAITSTART"@[0] == 'T');
    assert("MOUNT-BEFORE-FLIP"@[0] == 'M');
    assert("FOCUSER-CONNECTED"@[0] == 'F');
    assert("ROTATOR-CONNECTED"@[0] == 'R');
    assert("FLAT-DISCONNECTED"@[0] == 'F');
    assert("FLAT-COVER-OPENED"@[0] == 'F');
    assert("FLAT-COVER-CLOSED"@[0] == 'F');
    assert("WEATHER-CONNECTED"@[0] == 'W');
    assert("WEATHER-HIGH-WIND"@[0] == 'W');
    assert("DOME-DISCONNECTED"@[0] == 'D');
    assert("IMAGE-SAVE-FAILED"@[0] == 'I');
    assert("SEQUENCE-STARTING"@[0] == 'S');
    assert("SEQUENCE-FINISHED"@[0] == 'S');
    assert("TS-NEWTARGETSTART"@[0] == 'T');
    assert("NINA-NOTIFICATION"@[0] == 'N');
    assert("MOUNT-HOMED"@[0] == 'M');
    assert("GUIDER-STOP"@[0] == 'G');
    assert("DOME-PARKED"@[0] == 'D');
    assert("DOME-SLEWED"@[0] == 'D');
    assert("DOME-SYNCED"@[0] == 'D');
    assert("MOUNT-CENTER"@[0] == 'M');
    assert("MOUNT-SLEW-STARTED"@[0] == 'M');
    assert("MOUNT-SLEWED"@[0] == 'M');
    assert("FOCUSER-DISCONNECTED"@[8] == 'D');
    assert("FOCUSER-USER-FOCUSED"@[8] == 'U');
    assert("FOCUSER-DISCONNECTED"@[0] == 'F');
    assert("ROTATOR-DISCONNECTED"@[0] == 'R');
    assert("ROTATOR-MOVE-STARTED"@[0] == 'R');
    assert("WEATHER-DISCONNECTED"@[0] == 'W');
    assert("API-CAPTURE-FINISHED"@[0] == 'A');
    assert("FOCUSER-CONNECTED"@[1] == 'O');
    assert("FLAT-DISCONNECTED"@[1] == 'L');
    assert("FLAT-COVER-OPENED"@[1] == 'L');
    assert("FLAT-COVER-CLOSED"@[1] == 'L');
    assert("FOCUSER-USER-FOCUSED"@[0] == 'F');
    assert("ROTATOR-DISCONNECTED"@[8] == 'D');
    assert("ROTATOR-MOVE-STARTED"@[8] == 'M');
    assert("ROTATOR-MOVED"@[0] == 'R');
    assert("GUIDER-DITHER"@[0] == 'G');
    assert("FLAT-DISCONNECTED"@[5] == 'D');
    assert("FLAT-COVER-OPENED"@[5] == 'C');
    assert("FLAT-COVER-CLOSED"@[5] == 'C');
    assert("FLAT-COVER-OPENED"@[11] == 'O');
    assert("FLAT-COVER-CLOSED"@[11] == 'C');
    assert("WEATHER-CONNECTED"@[8] == 'C');
    assert("WEATHER-HIGH-WIND"@[8] == 'H');
    assert("SWITCH-CONNECTED"@[1] == 'W');
    assert("SAFETY-CONNECTED"@[1] == 'A');
    assert("SWITCH-DISCONNECTED"@[1] == 'W');
    assert("SAFETY-DISCONNECTED"@[1] == 'A');
    assert("DOME-SHUTTER-OPENED"@[13] == 'O');
    assert("DOME-SHUTTER-CLOSED"@[13] == 'C');
    assert("DOME-HOMED"@[0] == 'D');
    assert("IMAGE-SAVE"@[0] == 'I');
    assert("DOME-PARKED"@[5] == 'P');
    assert("DOME-SLEWED"@[5] == 'S');
    assert("DOME-SYNCED"@[5] == 'S');
    assert("DOME-SLEWED"@[6] == 'L');
    assert("DOME-SYNCED"@[6] == 'Y');
    assert("AUTOFOCUS-STARTING"@[10] == 'S');
    assert("AUTOFOCUS-FINISHED"@[10] == 'F');
    assert("ERROR-AF"@[0] == 'E');
    assert("NINA-LOG"@[0] == 'N');
    assert("SEQUENCE-STARTING"@[9] == 'S');
    assert("SEQUENCE-FINISHED"@[9] == 'F');
}

/// The names of slews.
pub proof fn slew_names(name: Seq<char>)
    ensures
        name == "MOUNT-SLEW-STARTED"@ <==> kind_of(name) == EventKind::MountSlewStarted,
        name == "MOUNT-SLEWED"@ <==> kind_of(name) == EventKind::MountSlewed,
{
    names_tell_kinds(name);
}

/// The names of what the guider does.
pub proof fn guider_names(name: Seq<char>)
    ensures
        name == "GUIDER-START"@ <==> kind_of(name) == EventKind::GuiderStart,
        name == "GUIDER-DITHER"@ <==> kind_of(name) == EventKind::GuiderDither,
{
    names_tell_kinds(name);
}

/// The name of the end of a sequence.
pub proof fn end_name(name: Seq<char>)
    ensures
        name == "SEQUENCE-FINISHED"@ <==> kind_of(name) == EventKind::SequenceFinished,
{
    names_tell_kinds(name);
}

/// The name of a wait of the scheduler.
pub proof fn wait_name(name: Seq<char>)
    ensures
        name == "TS-WAITSTART"@ <==> kind_of(name) == EventKind::TsWaitstart,
{
    names_tell_kinds(name);
}

/// The name of a move of the rotator by its mechanical count.
pub proof fn mechanical_name(name: Seq<char>)
    ensures
        name == "ROTATOR-MOVED-MECHANICAL"@ <==> kind_of(name)
            == EventKind::RotatorMovedMechanical,
{
    names_tell_kinds(name);
}

} // verus!
