//! Decision logic of Chatstronomy, a bridge from an observatory controller to chat rooms.

pub mod access_laws;
pub mod api_types;
pub mod autofocus;
pub mod autofocus_delivery;
pub mod backoff;
pub mod calendar;
pub mod camera_control;
pub mod chat;
pub mod clock;
pub mod colors;
pub mod console;
pub mod decoding_laws;
pub mod detail_laws;
pub mod diagnostic_laws;
pub mod digits;
pub mod direct;
pub mod double;
pub mod double_order;
pub mod double_text;
pub mod error;
pub mod event_decoding;
pub mod event_elision;
pub mod event_laws;
pub mod event_messages;
pub mod event_rate_limit;
pub mod event_types;
pub mod events;
pub mod fingerprint;
pub mod focus_laws;
pub mod json;
pub mod laws;
pub mod lifecycle_messages;
pub mod mark_laws;
pub mod matrix;
pub mod message_laws;
pub mod notice_laws;
pub mod operation_laws;
pub mod operation_messages;
pub mod operations;
pub mod progress_laws;
pub mod report_laws;
pub mod rig_resolver;
pub mod seen_set;
pub mod sequence;
pub mod shortest_text;
pub mod source;
pub mod state_laws;
pub mod status;
pub mod status_laws;
pub mod telescope_messages;
pub mod text;
pub mod updater;
pub mod updater_state;
pub mod weather;
