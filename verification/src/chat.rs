//! Chat messages, where they go, and which services carry them.

use vstd::prelude::*;
use crate::calendar::{format_stamp, now, stamp_text, Moment};
use crate::text::{clone_opt, opt_view};

verus! {

/// A named value in a chat message.
#[derive(Debug)]
pub struct ChatField {
    pub name: String,
    pub value: String,
    /// What Discord shows in place of `value`. Other services always show `value`.
    pub discord_value: Option<String>,
    pub inline: bool,
}

/// The characters of a [`ChatField`].
pub struct FieldView {
    pub name: Seq<char>,
    pub value: Seq<char>,
    pub discord_value: Option<Seq<char>>,
    pub inline: bool,
}

impl View for ChatField {
    type V = FieldView;

    open spec fn view(&self) -> FieldView {
        FieldView {
            name: self.name@,
            value: self.value@,
            discord_value: opt_view(self.discord_value),
            inline: self.inline,
        }
    }
}

/// A message for the chat services.
#[derive(Debug)]
pub struct ChatMessage {
    pub title: String,
    pub color: Option<u32>,
    pub fields: Vec<ChatField>,
    pub footer: Option<String>,
    pub timestamp: Option<String>,
    /// Under this label Matrix shows the timestamp as a field.
    pub matrix_timestamp_label: Option<String>,
}

/// The characters of a [`ChatMessage`].
#[verifier::ext_equal]
pub struct MessageView {
    pub title: Seq<char>,
    pub color: Option<u32>,
    pub fields: Seq<FieldView>,
    pub footer: Option<Seq<char>>,
    pub timestamp: Option<Seq<char>>,
    pub matrix_timestamp_label: Option<Seq<char>>,
}

pub open spec fn field_views(fields: Seq<ChatField>) -> Seq<FieldView> {
    fields.map_values(|f: ChatField| f@)
}

impl View for ChatMessage {
    type V = MessageView;

    open spec fn view(&self) -> MessageView {
        MessageView {
            title: self.title@,
            color: self.color,
            fields: field_views(self.fields@),
            footer: opt_view(self.footer),
            timestamp: opt_view(self.timestamp),
            matrix_timestamp_label: opt_view(self.matrix_timestamp_label),
        }
    }
}

/// A message with a title and a timestamp and nothing else.
pub open spec fn message_at(title: Seq<char>, at: Moment) -> MessageView {
    MessageView {
        title,
        color: None,
        fields: Seq::empty(),
        footer: None,
        timestamp: Some(stamp_text(at)),
        matrix_timestamp_label: None,
    }
}

impl MessageView {
    pub open spec fn colored(self, color: u32) -> MessageView {
        MessageView { color: Some(color), ..self }
    }

    /// With one more field at the end.
    pub open spec fn with(self, name: Seq<char>, value: Seq<char>, inline: bool) -> MessageView {
        MessageView {
            fields: self.fields.push(FieldView { name, value, discord_value: None, inline }),
            ..self
        }
    }

    /// With one more field at the end, which Discord shows otherwise.
    pub open spec fn with_discord(
        self,
        name: Seq<char>,
        value: Seq<char>,
        discord_value: Seq<char>,
        inline: bool,
    ) -> MessageView {
        MessageView {
            fields: self.fields.push(
                FieldView { name, value, discord_value: Some(discord_value), inline },
            ),
            ..self
        }
    }

    pub open spec fn occurred(self, label: Seq<char>, at: Moment) -> MessageView {
        MessageView {
            timestamp: Some(stamp_text(at)),
            matrix_timestamp_label: Some(label),
            ..self
        }
    }

    pub open spec fn footed(self, text: Seq<char>) -> MessageView {
        MessageView { footer: Some(text), ..self }
    }
}

impl ChatMessage {
    /// A message that bears the present time.
    pub fn new(title: &str) -> (r: Self)
        ensures
            exists|at: Moment| at.wf() && r@ == #[trigger] message_at(title@, at),
    {
        let at: Moment = now();
        let r = ChatMessage::new_at(title, at);
        assert(r@ == message_at(title@, at));
        r
    }

    /// A message that bears the given time.
    pub fn new_at(title: &str, at: Moment) -> (r: Self)
        requires
            at.wf(),
        ensures
            r@ == message_at(title@, at),
    {
        let r = ChatMessage {
            title: String::from_str(title),
            color: None,
            fields: Vec::new(),
            footer: None,
            timestamp: Some(format_stamp(at)),
            matrix_timestamp_label: None,
        };
        assert(r@.fields =~= Seq::<FieldView>::empty());
        r
    }

    pub fn color(self, color: u32) -> (r: Self)
        ensures
            r@ == self@.colored(color),
    {
        ChatMessage { color: Some(color), ..self }
    }

    fn push_field(self, field: ChatField) -> (r: Self)
        ensures
            r@ == (MessageView { fields: self@.fields.push(field@), ..self@ }),
    {
        let mut fields = self.fields;
        fields.push(field);
        assert(field_views(fields@) =~= field_views(self.fields@).push(field@));
        ChatMessage {
            title: self.title,
            color: self.color,
            fields,
            footer: self.footer,
            timestamp: self.timestamp,
            matrix_timestamp_label: self.matrix_timestamp_label,
        }
    }

    pub fn field(self, name: &str, value: &str, inline: bool) -> (r: Self)
        ensures
            r@ == self@.with(name@, value@, inline),
    {
        self.push_field(
            ChatField {
                name: String::from_str(name),
                value: String::from_str(value),
                discord_value: None,
                inline,
            },
        )
    }

    /// Adds a field that Discord shows otherwise than the other services.
    pub fn field_with_discord_value(
        self,
        name: &str,
        value: &str,
        discord_value: &str,
        inline: bool,
    ) -> (r: Self)
        ensures
            r@ == self@.with_discord(name@, value@, discord_value@, inline),
    {
        self.push_field(
            ChatField {
                name: String::from_str(name),
                value: String::from_str(value),
                discord_value: Some(String::from_str(discord_value)),
                inline,
            },
        )
    }

    /// Dates the message by the event it tells of.
    pub fn occurred_at(self, label: &str, timestamp: Moment) -> (r: Self)
        requires
            timestamp.wf(),
        ensures
            r@ == self@.occurred(label@, timestamp),
    {
        ChatMessage {
            timestamp: Some(format_stamp(timestamp)),
            matrix_timestamp_label: Some(String::from_str(label)),
            ..self
        }
    }

    pub fn footer(self, text: &str) -> (r: Self)
        ensures
            r@ == self@.footed(text@),
    {
        ChatMessage { footer: Some(String::from_str(text)), ..self }
    }
}

/// Where one telescope's messages go: each override that is set replaces the default of its
/// service.
pub struct ChatTarget {
    pub discord_webhook_url: Option<String>,
    pub matrix_room_id: Option<String>,
    pub discord_channel_id: Option<u64>,
    /// Further Discord channels.
    pub discord_channel_ids: Vec<u64>,
}

impl Default for ChatTarget {
    /// No override.
    fn default() -> (r: Self)
        ensures
            r.discord_webhook_url is None,
            r.matrix_room_id is None,
            r.discord_channel_id is None,
            r.discord_channel_ids@.len() == 0,
    {
        ChatTarget {
            discord_webhook_url: None,
            matrix_room_id: None,
            discord_channel_id: None,
            discord_channel_ids: Vec::new(),
        }
    }
}

/// `ids` with each number kept where it first occurs.
pub open spec fn first_occurrences(ids: Seq<u64>) -> Seq<u64>
    decreases ids.len(),
{
    if ids.len() == 0 {
        ids
    } else if ids.drop_last().contains(ids.last()) {
        first_occurrences(ids.drop_last())
    } else {
        first_occurrences(ids.drop_last()).push(ids.last())
    }
}

/// The numbers kept are those of the list, each of them once.
pub proof fn first_occurrences_are_the_distinct_numbers(ids: Seq<u64>)
    ensures
        first_occurrences(ids).no_duplicates(),
        forall|id: u64| #[trigger] first_occurrences(ids).contains(id) <==> ids.contains(id),
    decreases ids.len(),
{
    if ids.len() > 0 {
        let front = ids.drop_last();
        let kept = first_occurrences(front);
        first_occurrences_are_the_distinct_numbers(front);
        assert(ids =~= front.push(ids.last()));
        if !front.contains(ids.last()) {
            assert(!kept.contains(ids.last()));
            let all = kept.push(ids.last());
            assert forall|i: int, j: int|
                0 <= i < all.len() && 0 <= j < all.len() && i != j implies all[i] != all[j] by {
                if i == kept.len() {
                    assert(kept[j] == all[j]);
                } else if j == kept.len() {
                    assert(kept[i] == all[i]);
                }
            }
        }
        assert forall|id: u64| #[trigger] first_occurrences(ids).contains(id) <==> ids.contains(
            id,
        ) by {
            if ids.contains(id) && id != ids.last() {
                let i = choose|i: int| 0 <= i < ids.len() && ids[i] == id;
                assert(front[i] == id);
                assert(kept.contains(id));
                let j = choose|j: int| 0 <= j < kept.len() && kept[j] == id;
                assert(kept.push(ids.last())[j] == id);
            }
            if ids.contains(id) && id == ids.last() {
                if front.contains(id) {
                    assert(kept.contains(id));
                } else {
                    assert(kept.push(id)[kept.len() as int] == id);
                }
            }
            if first_occurrences(ids).contains(id) {
                if front.contains(ids.last()) {
                    assert(kept.contains(id));
                    let i = choose|i: int| 0 <= i < front.len() && front[i] == id;
                    assert(ids[i] == id);
                } else {
                    let all = kept.push(ids.last());
                    let i = choose|i: int| 0 <= i < all.len() && all[i] == id;
                    if i < kept.len() {
                        assert(kept[i] == id);
                        assert(kept.contains(id));
                        let j = choose|j: int| 0 <= j < front.len() && front[j] == id;
                        assert(ids[j] == id);
                    } else {
                        assert(ids[ids.len() - 1] == id);
                    }
                }
            }
        }
    }
}

impl ChatTarget {
    /// The channels before duplicates are dropped.
    pub open spec fn listed_channels(&self) -> Seq<u64> {
        match self.discord_channel_id {
            Some(id) => seq![id] + self.discord_channel_ids@,
            None => self.discord_channel_ids@,
        }
    }

    /// Every Discord channel that messages go to, once each, in order.
    pub fn all_discord_channels(&self) -> (r: Vec<u64>)
        ensures
            r@ == first_occurrences(self.listed_channels()),
    {
        let mut all: Vec<u64> = Vec::new();
        if let Some(id) = self.discord_channel_id {
            all.push(id);
        }
        let ghost head = all@;
        let mut i: usize = 0;
        while i < self.discord_channel_ids.len()
            invariant
                i <= self.discord_channel_ids@.len(),
                all@ == head + self.discord_channel_ids@.subrange(0, i as int),
            decreases self.discord_channel_ids@.len() - i,
        {
            all.push(self.discord_channel_ids[i]);
            i += 1;
            assert(all@ =~= head + self.discord_channel_ids@.subrange(0, i as int));
        }
        assert(all@ =~= self.listed_channels());
        let mut kept: Vec<u64> = Vec::new();
        let mut j: usize = 0;
        assert(all@.subrange(0, 0) =~= Seq::<u64>::empty());
        while j < all.len()
            invariant
                j <= all@.len(),
                kept@ == first_occurrences(all@.subrange(0, j as int)),
            decreases all@.len() - j,
        {
            let id: u64 = all[j];
            let mut known: bool = false;
            let mut k: usize = 0;
            while k < kept.len()
                invariant
                    k <= kept@.len(),
                    known == exists|x: int| 0 <= x < k && kept@[x] == id,
                decreases kept@.len() - k,
            {
                if kept[k] == id {
                    known = true;
                }
                k += 1;
            }
            proof {
                let now = all@.subrange(0, j + 1);
                assert(now.drop_last() =~= all@.subrange(0, j as int));
                first_occurrences_are_the_distinct_numbers(now.drop_last());
                assert(known == kept@.contains(id));
            }
            if !known {
                kept.push(id);
            }
            j += 1;
        }
        assert(all@.subrange(0, j as int) =~= all@);
        kept
    }
}

/// Discord settings that all telescopes share.
pub struct SharedDiscordConfig {
    pub enabled: bool,
    /// The webhook of telescopes without one of their own.
    pub default_webhook_url: Option<String>,
}

/// Matrix settings that all telescopes share.
pub struct SharedMatrixConfig {
    pub enabled: bool,
    pub homeserver_url: String,
    pub username: String,
    pub password: String,
    /// The room of telescopes without one of their own.
    pub default_room_id: Option<String>,
}

/// Services are on where the settings do not say otherwise.
pub fn default_enabled() -> (r: bool)
    ensures
        r,
{
    true
}

/// Chat settings that all telescopes share.
pub struct ChatConfig {
    pub discord: Option<SharedDiscordConfig>,
    pub matrix: Option<SharedMatrixConfig>,
    pub discord_bot: Option<DiscordBotConfig>,
}

/// Settings of the Discord bot that serves all telescopes.
pub struct DiscordBotConfig {
    pub enabled: bool,
    pub token: String,
    pub application_id: Option<u64>,
    pub public_key: Option<String>,
    /// The channel of telescopes without one of their own.
    pub default_channel_id: Option<u64>,
    /// Keep a pinned status message up to date.
    pub live_status: bool,
    /// Where the ids of the status messages are kept.
    pub state_file: String,
    /// Users that may run write commands; empty for the managers of the server.
    pub write_acl: Vec<u64>,
}

pub fn default_state_file() -> (r: String)
    ensures
        r@ == "./chatstronomy-state.json"@,
{
    String::from_str("./chatstronomy-state.json")
}

/// One telescope's chat settings.
pub struct TelescopeChatOverrides {
    pub discord_webhook_url: Option<String>,
    pub matrix_room_id: Option<String>,
    pub discord_channel_id: Option<u64>,
}

impl TelescopeChatOverrides {
    pub fn to_chat_target(&self) -> (r: ChatTarget)
        ensures
            r.discord_webhook_url == self.discord_webhook_url,
            r.matrix_room_id == self.matrix_room_id,
            r.discord_channel_id == self.discord_channel_id,
            r.discord_channel_ids@.len() == 0,
    {
        ChatTarget {
            discord_webhook_url: clone_opt(&self.discord_webhook_url),
            matrix_room_id: clone_opt(&self.matrix_room_id),
            discord_channel_id: self.discord_channel_id,
            discord_channel_ids: Vec::new(),
        }
    }
}

/// A file that goes with a message.
#[derive(Clone, Debug)]
pub struct ChatAttachment {
    pub data: Vec<u8>,
    pub filename: String,
}

/// A service that carries messages.
pub trait ChatService: Send + Sync {
    /// The service has a destination for the target: for every target, unless it says otherwise.
    open spec fn routes(&self, target: &ChatTarget) -> bool {
        true
    }

    /// The service can edit what it posted: it cannot, unless it says otherwise.
    open spec fn upserts(&self) -> bool {
        false
    }

    fn service_name(&self) -> &'static str;

    /// The service has a destination for the target.
    fn can_route(&self, target: &ChatTarget) -> (r: bool)
        ensures
            r == self.routes(target),
    ;

    /// The service can edit a status message it posted before.
    fn supports_status_upsert(&self) -> (r: bool)
        ensures
            r == self.upserts(),
    ;
}

/// The services of the program, shared by all telescopes.
pub struct ChatServiceManager {
    services: Vec<Box<dyn ChatService>>,
}

/// The positions, in order, of the first `n` services that have a destination for the target.
pub open spec fn routing(services: Seq<Box<dyn ChatService>>, target: &ChatTarget, n: nat) -> Seq<
    usize,
>
    decreases n,
{
    if n == 0 {
        Seq::empty()
    } else if services[n - 1].routes(target) {
        routing(services, target, (n - 1) as nat).push((n - 1) as usize)
    } else {
        routing(services, target, (n - 1) as nat)
    }
}

/// The same for services that can also edit a status message.
pub open spec fn status_routing(
    services: Seq<Box<dyn ChatService>>,
    target: &ChatTarget,
    n: nat,
) -> Seq<usize>
    decreases n,
{
    if n == 0 {
        Seq::empty()
    } else if services[n - 1].upserts() && services[n - 1].routes(target) {
        status_routing(services, target, (n - 1) as nat).push((n - 1) as usize)
    } else {
        status_routing(services, target, (n - 1) as nat)
    }
}

impl ChatServiceManager {
    pub closed spec fn all(&self) -> Seq<Box<dyn ChatService>> {
        self.services@
    }

    pub fn new() -> (r: Self)
        ensures
            r.all().len() == 0,
    {
        ChatServiceManager { services: Vec::new() }
    }

    pub fn add_service(&mut self, service: Box<dyn ChatService>)
        ensures
            final(self).all() == old(self).all().push(service),
    {
        self.services.push(service);
    }

    /// Some service can edit status messages for the target.
    pub fn has_status_upsert(&self, target: &ChatTarget) -> (r: bool)
        ensures
            r == exists|i: int|
                0 <= i < self.all().len() && #[trigger] self.all()[i].upserts()
                    && self.all()[i].routes(target),
    {
        let mut i: usize = 0;
        while i < self.services.len()
            invariant
                i <= self.services@.len(),
                forall|j: int|
                    0 <= j < i ==> !(#[trigger] self.services@[j].upserts()
                        && self.services@[j].routes(target)),
            decreases self.services@.len() - i,
        {
            if self.services[i].supports_status_upsert() && self.services[i].can_route(target) {
                assert(self.all()[i as int].upserts());
                return true;
            }
            i += 1;
        }
        false
    }

    /// The services that a message for the target goes to, by position.
    pub fn recipients(&self, target: &ChatTarget) -> (r: Vec<usize>)
        ensures
            r@ == routing(self.all(), target, self.all().len()),
    {
        let mut out: Vec<usize> = Vec::new();
        let mut i: usize = 0;
        while i < self.services.len()
            invariant
                i <= self.services@.len(),
                out@ == routing(self.all(), target, i as nat),
            decreases self.services@.len() - i,
        {
            if self.services[i].can_route(target) {
                out.push(i);
            }
            i += 1;
        }
        out
    }

    /// The services that a status message for the target is kept by, by position.
    pub fn status_recipients(&self, target: &ChatTarget) -> (r: Vec<usize>)
        ensures
            r@ == status_routing(self.all(), target, self.all().len()),
    {
        let mut out: Vec<usize> = Vec::new();
        let mut i: usize = 0;
        while i < self.services.len()
            invariant
                i <= self.services@.len(),
                out@ == status_routing(self.all(), target, i as nat),
            decreases self.services@.len() - i,
        {
            if self.services[i].supports_status_upsert() && self.services[i].can_route(target) {
                out.push(i);
            }
            i += 1;
        }
        out
    }

    pub fn service_count(&self) -> (r: usize)
        ensures
            r == self.all().len(),
    {
        self.services.len()
    }
}

impl Default for ChatServiceManager {
    fn default() -> (r: Self)
        ensures
            r.all().len() == 0,
    {
        ChatServiceManager::new()
    }
}

/// What goes with an image notification: the thumbnail, where it could be had, then the rest.
pub fn image_attachments(
    thumbnail: Option<Vec<u8>>,
    image_index: u32,
    extras: Vec<ChatAttachment>,
) -> (r: Vec<ChatAttachment>)
    ensures
        match thumbnail {
            Some(data) => {
                &&& r@.len() == 1 + extras@.len()
                &&& r@[0].data == data
                &&& r@[0].filename@ == "thumbnail_"@ + crate::text::dec(image_index as nat)
                    + ".jpg"@
                &&& r@.subrange(1, r@.len() as int) == extras@
            },
            None => r@ == extras@,
        },
{
    match thumbnail {
        Some(data) => {
            let number = crate::text::decimal(image_index as u128);
            let filename = crate::text::cat3("thumbnail_", number.as_str(), ".jpg");
            let mut all: Vec<ChatAttachment> = Vec::new();
            all.push(ChatAttachment { data, filename });
            let mut rest = extras;
            all.append(&mut rest);
            assert(all@.subrange(1, all@.len() as int) =~= extras@);
            all
        },
        None => extras,
    }
}

} // verus!
