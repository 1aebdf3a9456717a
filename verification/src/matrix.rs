//! Messages as Matrix shows them, and the rooms they go to.

use vstd::prelude::*;
use crate::calendar::{
    format_utc_timestamp, rfc3339_parts, rfc3339_moment, utc_text, Moment,
};
use crate::chat::{ChatField, ChatMessage, ChatService, ChatTarget, FieldView, MessageView};
use crate::error::ChatError;
use crate::text::{cat3, cat5, clone_opt, ends_with, has_suffix};

verus! {

/// A labelled line.
pub open spec fn line(label: Seq<char>, value: Seq<char>) -> Seq<char> {
    "**"@ + label + "**: "@ + value + "\n"@
}

/// The lines of the fields, in order.
pub open spec fn field_lines(fields: Seq<FieldView>) -> Seq<char>
    decreases fields.len(),
{
    if fields.len() == 0 {
        Seq::empty()
    } else {
        field_lines(fields.drop_last()) + line(fields.last().name, fields.last().value)
    }
}

/// A timestamp in UTC, given what it says; the text itself where it says nothing.
pub open spec fn shown_time(text: Seq<char>, parts: Option<(i64, u32, i32)>) -> Seq<char> {
    match parts {
        Some(p) => utc_text(Moment { seconds: p.0, nanos: p.1 }),
        None => text,
    }
}

/// The line that dates a message, where it has a label for it.
pub open spec fn time_line(message: MessageView) -> Seq<char> {
    match (message.matrix_timestamp_label, message.timestamp) {
        (Some(label), Some(timestamp)) => line(
            label,
            shown_time(timestamp, rfc3339_parts(timestamp)),
        ),
        _ => Seq::empty(),
    }
}

/// A message as Matrix shows it, below the line that dates it: what Discord shows in place of a
/// field's value plays no part.
pub open spec fn body(message: MessageView) -> Seq<char> {
    let fields = if message.fields.len() > 0 {
        field_lines(message.fields) + "\n"@
    } else {
        Seq::empty()
    };
    match message.footer {
        Some(footer) => fields + ("_"@ + footer + "_"@),
        None => fields,
    }
}

/// A message as Matrix shows it.
pub open spec fn matrix_text(message: MessageView) -> Seq<char> {
    "**"@ + message.title + "**\n\n"@ + time_line(message) + body(message)
}

fn write_fields(fields: &Vec<ChatField>) -> (r: String)
    ensures
        r@ == field_lines(crate::chat::field_views(fields@)),
{
    let mut out = String::new();
    let mut i: usize = 0;
    let ghost all = crate::chat::field_views(fields@);
    assert(all.subrange(0, 0) =~= Seq::<FieldView>::empty());
    while i < fields.len()
        invariant
            i <= fields@.len(),
            all == crate::chat::field_views(fields@),
            out@ == field_lines(all.subrange(0, i as int)),
        decreases fields@.len() - i,
    {
        let text = cat5("**", fields[i].name.as_str(), "**: ", fields[i].value.as_str(), "\n");
        out.append(text.as_str());
        proof {
            let now = all.subrange(0, i + 1);
            assert(now.drop_last() =~= all.subrange(0, i as int));
            assert(now.last() == fields@[i as int]@);
        }
        i += 1;
    }
    assert(all.subrange(0, i as int) =~= all);
    out
}

/// Writes a message the way Matrix shows it.
pub fn format_message(message: &ChatMessage) -> (r: String)
    ensures
        r@ == matrix_text(message@),
{
    let mut formatted = cat3("**", message.title.as_str(), "**\n\n");
    match (&message.matrix_timestamp_label, &message.timestamp) {
        (Some(label), Some(timestamp)) => {
            let shown = match rfc3339_moment(timestamp.as_str()) {
                Some(at) => format_utc_timestamp(at),
                None => timestamp.clone(),
            };
            let text = cat5("**", label.as_str(), "**: ", shown.as_str(), "\n");
            formatted.append(text.as_str());
        },
        _ => {
            assert(formatted@ + Seq::<char>::empty() =~= formatted@);
        },
    }
    let ghost head = formatted@;
    let mut rest = String::new();
    if message.fields.len() > 0 {
        rest = write_fields(&message.fields);
        rest.append("\n");
    }
    if let Some(footer) = &message.footer {
        let text = cat3("_", footer.as_str(), "_");
        rest.append(text.as_str());
    }
    formatted.append(rest.as_str());
    formatted
}

/// What Discord shows in place of values never reaches Matrix: messages that differ in nothing
/// else look the same there.
pub proof fn discord_values_never_reach_matrix(a: MessageView, b: MessageView)
    requires
        a.title == b.title,
        a.footer == b.footer,
        a.timestamp == b.timestamp,
        a.matrix_timestamp_label == b.matrix_timestamp_label,
        a.fields.len() == b.fields.len(),
        forall|i: int|
            0 <= i < a.fields.len() ==> (#[trigger] a.fields[i]).name == b.fields[i].name
                && a.fields[i].value == b.fields[i].value,
    ensures
        matrix_text(a) == matrix_text(b),
{
    lemma_field_lines(a.fields, b.fields);
}

proof fn lemma_field_lines(a: Seq<FieldView>, b: Seq<FieldView>)
    requires
        a.len() == b.len(),
        forall|i: int|
            0 <= i < a.len() ==> (#[trigger] a[i]).name == b[i].name && a[i].value == b[i].value,
    ensures
        field_lines(a) == field_lines(b),
    decreases a.len(),
{
    if a.len() > 0 {
        assert(a.last() == a[a.len() - 1] && b.last() == b[b.len() - 1]);
        assert forall|i: int| 0 <= i < a.drop_last().len() implies (#[trigger] a.drop_last()[i]).name
            == b.drop_last()[i].name && a.drop_last()[i].value == b.drop_last()[i].value by {
            assert(a.drop_last()[i] == a[i] && b.drop_last()[i] == b[i]);
        }
        lemma_field_lines(a.drop_last(), b.drop_last());
    }
}

/// How Matrix messages are routed: a telescope's own room, else the default one.
pub struct MatrixRouting {
    pub default_room_id: Option<String>,
}

impl MatrixRouting {
    /// The room that messages for the target go to.
    pub fn room(&self, target: &ChatTarget) -> (r: Option<String>)
        ensures
            r == (if target.matrix_room_id is Some {
                target.matrix_room_id
            } else {
                self.default_room_id
            }),
            r is Some <==> self.routes(target),
    {
        if target.matrix_room_id.is_some() {
            clone_opt(&target.matrix_room_id)
        } else {
            clone_opt(&self.default_room_id)
        }
    }
}

/// Chooses the room that messages for the target go to, or says why there is none.
pub fn require_room(routing: &MatrixRouting, target: &ChatTarget) -> (r: Result<String, ChatError>)
    ensures
        match r {
            Ok(room) => Some(room) == (if target.matrix_room_id is Some {
                target.matrix_room_id
            } else {
                routing.default_room_id
            }),
            Err(ChatError::MessageSend { service_name, reason }) => {
                &&& !routing.routes(target)
                &&& service_name@ == "Matrix"@
                &&& reason@
                    == "No Matrix room ID available (no default and no telescope override)"@
            },
            Err(_) => false,
        },
{
    match routing.room(target) {
        Some(room) => Ok(room),
        None => Err(
            ChatError::MessageSend {
                service_name: String::from_str("Matrix"),
                reason: String::from_str(
                    "No Matrix room ID available (no default and no telescope override)",
                ),
            },
        ),
    }
}

impl ChatService for MatrixRouting {
    open spec fn routes(&self, target: &ChatTarget) -> bool {
        target.matrix_room_id is Some || self.default_room_id is Some
    }

    open spec fn upserts(&self) -> bool {
        false
    }

    fn service_name(&self) -> (r: &'static str)
        ensures
            r@ == "Matrix"@,
    {
        "Matrix"
    }

    fn can_route(&self, target: &ChatTarget) -> (r: bool) {
        target.matrix_room_id.is_some() || self.default_room_id.is_some()
    }

    fn supports_status_upsert(&self) -> (r: bool) {
        false
    }
}

/// The media type of an attached picture, by its name.
pub fn picture_media_type(filename: &str) -> (r: &'static str)
    ensures
        r@ == (if has_suffix(filename@, ".png"@) {
            "image/png"@
        } else {
            "image/jpeg"@
        }),
{
    if ends_with(filename, ".png") {
        "image/png"
    } else {
        "image/jpeg"
    }
}

} // verus!
