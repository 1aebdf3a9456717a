//! Bounded counts of diagnostics that were dropped instead of delivered. Only names and numbers
//! are kept, never what a diagnostic said.

use vstd::prelude::*;
use crate::clock::Tick;
use crate::events::{event_delivery_scope, scope_of, Event, EventDeliveryScope, EventDetails};
use crate::text::{
    ascii_upper, ends_with, has_prefix, has_suffix, same, starts_with, to_ascii_upper, trim,
    trimmed,
};

verus! {

/// The most kinds of diagnostics that are counted.
pub const MAX_KEYS: usize = 128;

/// Nanoseconds between two notices.
pub const NOTICE_INTERVAL_NANOS: u128 = 60_000_000_000;

/// How many events of a kind the controller dropped since an epoch of its own began.
#[derive(Debug)]
pub struct ElidedEventCount {
    pub event: String,
    pub level: Option<String>,
    pub count: u64,
    pub epoch: String,
}

/// The characters of an [`ElidedEventCount`].
pub struct ElidedView {
    pub event: Seq<char>,
    pub level: Option<Seq<char>>,
    pub count: u64,
    pub epoch: Seq<char>,
}

impl View for ElidedEventCount {
    type V = ElidedView;

    open spec fn view(&self) -> ElidedView {
        ElidedView {
            event: self.event@,
            level: crate::text::opt_view(self.level),
            count: self.count,
            epoch: self.epoch@,
        }
    }
}

/// A kind of diagnostic: an event's name and, for log entries, the level.
#[derive(Debug)]
pub struct Key {
    pub event: String,
    pub level: String,
}

pub struct KeyView {
    pub event: Seq<char>,
    pub level: Seq<char>,
}

impl View for Key {
    type V = KeyView;

    open spec fn view(&self) -> KeyView {
        KeyView { event: self.event@, level: self.level@ }
    }
}

/// The common name of a log level.
pub open spec fn canonical_level(level: Option<Seq<char>>) -> Seq<char> {
    match level {
        None => "UNKNOWN"@,
        Some(text) => {
            let upper = ascii_upper(trimmed(text));
            if upper == "INFO"@ || upper == "INFORMATION"@ {
                "INFORMATION"@
            } else if upper == "WARN"@ || upper == "WARNING"@ {
                "WARNING"@
            } else if upper == "ERROR"@ || upper == "FATAL"@ || upper == "CRITICAL"@ {
                "ERROR"@
            } else if upper == "TRACE"@ || upper == "VERBOSE"@ {
                "TRACE"@
            } else if upper == "DEBUG"@ {
                "DEBUG"@
            } else {
                "UNKNOWN"@
            }
        },
    }
}

pub fn normalize_elision_log_level(level: Option<&str>) -> (r: String)
    ensures
        r@ == canonical_level(crate::calendar::opt_text(level)),
{
    match level {
        None => String::from_str("UNKNOWN"),
        Some(text) => {
            let upper = to_ascii_upper(trim(text).as_str());
            let u = upper.as_str();
            if same(u, "INFO") || same(u, "INFORMATION") {
                String::from_str("INFORMATION")
            } else if same(u, "WARN") || same(u, "WARNING") {
                String::from_str("WARNING")
            } else if same(u, "ERROR") || same(u, "FATAL") || same(u, "CRITICAL") {
                String::from_str("ERROR")
            } else if same(u, "TRACE") || same(u, "VERBOSE") {
                String::from_str("TRACE")
            } else if same(u, "DEBUG") {
                String::from_str("DEBUG")
            } else {
                String::from_str("UNKNOWN")
            }
        },
    }
}

/// The length of a text in UTF-8.
pub open spec fn utf8_len(text: Seq<char>) -> usize {
    vstd::utf8::encode_utf8(text).len() as usize
}

/// Drops of this event are counted. Outcomes of commands are never dropped.
pub open spec fn countable(event: Seq<char>) -> bool {
    &&& utf8_len(event) <= 64
    &&& event != "CHATSTRONOMY-COMMAND-FAILED"@
    &&& has_prefix(event, "ERROR-"@) || has_suffix(event, "-FAILED"@) || has_suffix(
        event,
        "-TIMEOUT"@,
    ) || event == "NINA-LOG"@ || event == "NINA-NOTIFICATION"@
}

/// The key that drops of an event are counted under.
pub open spec fn key_of(event: Seq<char>, level: Option<Seq<char>>) -> Option<KeyView> {
    if countable(event) {
        Some(
            KeyView {
                event,
                level: if event == "NINA-LOG"@ {
                    canonical_level(level)
                } else {
                    ""@
                },
            },
        )
    } else {
        None
    }
}

impl Key {
    pub fn new(event: &str, level: Option<&str>) -> (r: Option<Self>)
        ensures
            match r {
                Some(key) => key_of(event@, crate::calendar::opt_text(level)) == Some(key@),
                None => key_of(event@, crate::calendar::opt_text(level)) is None,
            },
    {
        if event.len() > 64 || same(event, "CHATSTRONOMY-COMMAND-FAILED") || !(starts_with(
            event,
            "ERROR-",
        ) || ends_with(event, "-FAILED") || ends_with(event, "-TIMEOUT") || same(event, "NINA-LOG")
            || same(event, "NINA-NOTIFICATION")) {
            return None;
        }
        let level_text = if same(event, "NINA-LOG") {
            normalize_elision_log_level(level)
        } else {
            String::from_str("")
        };
        Some(Key { event: String::from_str(event), level: level_text })
    }

    fn is(&self, other: &Key) -> (r: bool)
        ensures
            r == (self@ == other@),
    {
        same(self.event.as_str(), other.event.as_str()) && same(
            self.level.as_str(),
            other.level.as_str(),
        )
    }

    fn copy(&self) -> (r: Key)
        ensures
            r@ == self@,
    {
        Key { event: self.event.clone(), level: self.level.clone() }
    }
}

/// Drops that no notice has told of: those made here and those the controller made.
#[derive(Debug)]
struct Pending {
    key: Key,
    hub: u64,
    plugin: u64,
}

pub struct PendingView {
    pub key: KeyView,
    pub hub: u64,
    pub plugin: u64,
}

/// The controller's running total for a key, and the epoch it counts in.
#[derive(Debug)]
struct Watermark {
    key: Key,
    epoch: String,
    count: u64,
}

pub struct WatermarkView {
    pub key: KeyView,
    pub epoch: Seq<char>,
    pub count: u64,
}

impl View for Pending {
    type V = PendingView;

    closed spec fn view(&self) -> PendingView {
        PendingView { key: self.key@, hub: self.hub, plugin: self.plugin }
    }
}

impl View for Watermark {
    type V = WatermarkView;

    closed spec fn view(&self) -> WatermarkView {
        WatermarkView { key: self.key@, epoch: self.epoch@, count: self.count }
    }
}

spec fn pending_views(s: Seq<Pending>) -> Seq<PendingView> {
    s.map_values(|p: Pending| p@)
}

spec fn watermark_views(s: Seq<Watermark>) -> Seq<WatermarkView> {
    s.map_values(|w: Watermark| w@)
}

/// Where a key's drops stand in the list; the list's length where they do not.
pub open spec fn pending_place(s: Seq<PendingView>, key: KeyView) -> int
    decreases s.len(),
{
    if s.len() == 0 {
        0
    } else if s[0].key == key {
        0
    } else {
        1 + pending_place(s.subrange(1, s.len() as int), key)
    }
}

/// Where a key's total stands in the list; the list's length where it does not.
pub open spec fn watermark_place(s: Seq<WatermarkView>, key: KeyView) -> int
    decreases s.len(),
{
    if s.len() == 0 {
        0
    } else if s[0].key == key {
        0
    } else {
        1 + watermark_place(s.subrange(1, s.len() as int), key)
    }
}

/// `a + b`, or the largest number where that is more.
pub open spec fn capped_sum(a: u64, b: u64) -> u64 {
    if a + b > u64::MAX {
        u64::MAX
    } else {
        (a + b) as u64
    }
}

fn capped(a: u64, b: u64) -> (r: u64)
    ensures
        r == capped_sum(a, b),
{
    if a > u64::MAX - b {
        u64::MAX
    } else {
        a + b
    }
}

/// The list after further drops of a key. A new key is let in while there is room.
pub open spec fn counted(s: Seq<PendingView>, key: KeyView, hub: u64, plugin: u64) -> Seq<
    PendingView,
> {
    let i = pending_place(s, key);
    if i < s.len() {
        s.update(
            i,
            PendingView {
                key,
                hub: capped_sum(s[i].hub, hub),
                plugin: capped_sum(s[i].plugin, plugin),
            },
        )
    } else if s.len() < MAX_KEYS {
        s.push(PendingView { key, hub, plugin })
    } else {
        s
    }
}

/// The list without a key.
pub open spec fn uncounted(s: Seq<PendingView>, key: KeyView) -> Seq<PendingView> {
    let i = pending_place(s, key);
    if i < s.len() {
        s.remove(i)
    } else {
        s
    }
}

/// The entries whose key is in `keys`.
pub open spec fn pending_among(s: Seq<PendingView>, keys: Seq<KeyView>) -> Seq<PendingView>
    decreases s.len(),
{
    if s.len() == 0 {
        s
    } else if keys.contains(s.last().key) {
        pending_among(s.drop_last(), keys).push(s.last())
    } else {
        pending_among(s.drop_last(), keys)
    }
}

/// The totals whose key is in `keys`.
pub open spec fn watermarks_among(s: Seq<WatermarkView>, keys: Seq<KeyView>) -> Seq<WatermarkView>
    decreases s.len(),
{
    if s.len() == 0 {
        s
    } else if keys.contains(s.last().key) {
        watermarks_among(s.drop_last(), keys).push(s.last())
    } else {
        watermarks_among(s.drop_last(), keys)
    }
}

/// The entries whose event is not governed by the scope.
pub open spec fn outside_scope(s: Seq<PendingView>, scope: EventDeliveryScope) -> Seq<PendingView>
    decreases s.len(),
{
    if s.len() == 0 {
        s
    } else if scope_of(s.last().key.event) != scope {
        outside_scope(s.drop_last(), scope).push(s.last())
    } else {
        outside_scope(s.drop_last(), scope)
    }
}

/// All drops that no notice has told of.
pub open spec fn total(s: Seq<PendingView>) -> nat
    decreases s.len(),
{
    if s.len() == 0 {
        0
    } else {
        total(s.drop_last()) + s.last().hub as nat + s.last().plugin as nat
    }
}

/// The notice about `n` drops, if one is due: none within a minute of the last, and none where
/// nothing was dropped.
pub open spec fn notice_at(n: nat, last: Option<Tick>, now: Tick) -> Option<u64> {
    let early = last matches Some(at) && now.since_spec(at).nanos < NOTICE_INTERVAL_NANOS;
    if early || n == 0 {
        None
    } else if n > u64::MAX {
        Some(u64::MAX)
    } else {
        Some(n as u64)
    }
}

/// Two notices are at least a minute apart, however many events are dropped.
pub proof fn notices_are_a_minute_apart(n: nat, last: Tick, now: Tick)
    requires
        notice_at(n, Some(last), now) is Some,
    ensures
        last.nanos <= now.nanos,
        now.nanos - last.nanos >= 60_000_000_000,
{
}

/// The keys of the countable items of a report.
pub open spec fn reported_keys(items: Seq<ElidedView>) -> Seq<KeyView>
    decreases items.len(),
{
    if items.len() == 0 {
        Seq::empty()
    } else {
        match key_of(items.last().event, items.last().level) {
            Some(key) => reported_keys(items.drop_last()).push(key),
            None => reported_keys(items.drop_last()),
        }
    }
}

/// What is known of drops: those pending and the controller's totals.
pub struct ElisionView {
    pub pending: Seq<PendingView>,
    pub source: Seq<WatermarkView>,
}

/// What is known after one item of the controller's report: the growth of its total within an
/// epoch is pending; a new epoch revokes what was pending and counts from zero. The first report
/// of a session only sets the totals.
pub open spec fn after_item(s: ElisionView, item: ElidedView, baseline: bool) -> ElisionView {
    match key_of(item.event, item.level) {
        None => s,
        Some(key) => {
            let i = watermark_place(s.source, key);
            let known = i < s.source.len();
            if !known && s.source.len() >= MAX_KEYS {
                s
            } else {
                let same_epoch = known && s.source[i].epoch == item.epoch;
                let delta: u64 = if baseline {
                    0
                } else if same_epoch {
                    if item.count >= s.source[i].count {
                        (item.count - s.source[i].count) as u64
                    } else {
                        0
                    }
                } else {
                    item.count
                };
                let count: u64 = if same_epoch && s.source[i].count > item.count {
                    s.source[i].count
                } else {
                    item.count
                };
                let mark = WatermarkView { key, epoch: item.epoch, count };
                let kept = if known && !same_epoch {
                    uncounted(s.pending, key)
                } else {
                    s.pending
                };
                ElisionView {
                    pending: if delta > 0 {
                        counted(kept, key, 0, delta)
                    } else {
                        kept
                    },
                    source: if known {
                        s.source.update(i, mark)
                    } else {
                        s.source.push(mark)
                    },
                }
            }
        },
    }
}

/// What is known after the items of the controller's report, in order.
pub open spec fn after_items(s: ElisionView, items: Seq<ElidedView>, baseline: bool) -> ElisionView
    decreases items.len(),
{
    if items.len() == 0 {
        s
    } else {
        after_item(after_items(s, items.drop_last(), baseline), items.last(), baseline)
    }
}

/// The items of a report that are looked at.
pub open spec fn considered(items: Seq<ElidedView>) -> Seq<ElidedView> {
    if items.len() <= MAX_KEYS {
        items
    } else {
        items.subrange(0, MAX_KEYS as int)
    }
}

/// What is known after the controller's report: keys it no longer lists are revoked.
pub open spec fn after_report(s: ElisionView, items: Seq<ElidedView>, baseline: bool) -> ElisionView {
    let present = reported_keys(considered(items));
    after_items(
        ElisionView {
            pending: pending_among(s.pending, present),
            source: watermarks_among(s.source, present),
        },
        considered(items),
        baseline,
    )
}

/// Counts drops and tells of them at most once a minute.
pub struct EventElisionReporter {
    pending: Vec<Pending>,
    source: Vec<Watermark>,
    has_source_snapshot: bool,
    last_notice: Option<Tick>,
}

pub open spec fn elided_views(items: Seq<ElidedEventCount>) -> Seq<ElidedView> {
    items.map_values(|i: ElidedEventCount| i@)
}

/// The pending drops after the hub dropped an event. Where the controller reports its own drops, only
/// those are counted of which it has reported.
pub open spec fn after_drop(s: ElisionView, reports: bool, event: Event) -> Seq<PendingView> {
    match key_of(event.event@, log_level(event)) {
        Some(key) => if event.chat_enabled && (!reports || watermark_place(s.source, key)
            < s.source.len()) {
            counted(s.pending, key, 1, 0)
        } else {
            s.pending
        },
        None => s.pending,
    }
}

/// The level of a log entry.
pub open spec fn log_level(event: Event) -> Option<Seq<char>> {
    match event.details {
        Some(EventDetails::NinaLog { level, .. }) => Some(level@),
        _ => None,
    }
}

proof fn lemma_pending_place(s: Seq<PendingView>, key: KeyView, i: int)
    requires
        0 <= i <= s.len(),
        forall|j: int| 0 <= j < i ==> (#[trigger] s[j]).key != key,
        i == s.len() || s[i].key == key,
    ensures
        pending_place(s, key) == i,
    decreases s.len(),
{
    if i > 0 {
        let rest = s.subrange(1, s.len() as int);
        assert(s[0].key != key);
        assert forall|j: int| 0 <= j < i - 1 implies (#[trigger] rest[j]).key != key by {
            assert(rest[j] == s[j + 1]);
        }
        lemma_pending_place(rest, key, i - 1);
    }
}

proof fn lemma_watermark_place(s: Seq<WatermarkView>, key: KeyView, i: int)
    requires
        0 <= i <= s.len(),
        forall|j: int| 0 <= j < i ==> (#[trigger] s[j]).key != key,
        i == s.len() || s[i].key == key,
    ensures
        watermark_place(s, key) == i,
    decreases s.len(),
{
    if i > 0 {
        let rest = s.subrange(1, s.len() as int);
        assert(s[0].key != key);
        assert forall|j: int| 0 <= j < i - 1 implies (#[trigger] rest[j]).key != key by {
            assert(rest[j] == s[j + 1]);
        }
        lemma_watermark_place(rest, key, i - 1);
    }
}

impl EventElisionReporter {
    /// What is known of drops.
    pub closed spec fn known(&self) -> ElisionView {
        ElisionView {
            pending: pending_views(self.pending@),
            source: watermark_views(self.source@),
        }
    }

    /// The controller reports its own drops.
    pub closed spec fn reports(&self) -> bool {
        self.has_source_snapshot
    }

    pub closed spec fn noticed(&self) -> Option<Tick> {
        self.last_notice
    }

    pub fn new() -> (r: Self)
        ensures
            r.known().pending.len() == 0,
            r.known().source.len() == 0,
            !r.reports(),
            r.noticed() is None,
    {
        EventElisionReporter {
            pending: Vec::new(),
            source: Vec::new(),
            has_source_snapshot: false,
            last_notice: None,
        }
    }

    fn find_pending(&self, key: &Key) -> (r: usize)
        ensures
            r <= self.pending@.len(),
            r == pending_place(self.known().pending, key@),
    {
        let mut i: usize = 0;
        while i < self.pending.len()
            invariant
                i <= self.pending@.len(),
                forall|j: int| 0 <= j < i ==> (#[trigger] self.known().pending[j]).key != key@,
            decreases self.pending@.len() - i,
        {
            if self.pending[i].key.is(key) {
                proof {
                    lemma_pending_place(self.known().pending, key@, i as int);
                }
                return i;
            }
            i += 1;
        }
        proof {
            lemma_pending_place(self.known().pending, key@, i as int);
        }
        i
    }

    fn find_source(&self, key: &Key) -> (r: usize)
        ensures
            r <= self.source@.len(),
            r == watermark_place(self.known().source, key@),
    {
        let mut i: usize = 0;
        while i < self.source.len()
            invariant
                i <= self.source@.len(),
                forall|j: int| 0 <= j < i ==> (#[trigger] self.known().source[j]).key != key@,
            decreases self.source@.len() - i,
        {
            if self.source[i].key.is(key) {
                proof {
                    lemma_watermark_place(self.known().source, key@, i as int);
                }
                return i;
            }
            i += 1;
        }
        proof {
            lemma_watermark_place(self.known().source, key@, i as int);
        }
        i
    }

    fn count(&mut self, key: Key, hub: u64, plugin: u64)
        ensures
            final(self).known().pending == counted(old(self).known().pending, key@, hub, plugin),
            final(self).known().source == old(self).known().source,
            final(self).reports() == old(self).reports(),
            final(self).noticed() == old(self).noticed(),
    {
        let i: usize = self.find_pending(&key);
        let ghost before = self.known().pending;
        if i < self.pending.len() {
            let hub_sum: u64 = capped(self.pending[i].hub, hub);
            let plugin_sum: u64 = capped(self.pending[i].plugin, plugin);
            proof {
                lemma_place_key(before, key@);
            }
            self.pending.set(i, Pending { key, hub: hub_sum, plugin: plugin_sum });
            assert(self.known().pending =~= counted(before, key@, hub, plugin));
        } else if self.pending.len() < MAX_KEYS {
            self.pending.push(Pending { key, hub, plugin });
            assert(self.known().pending =~= counted(before, key@, hub, plugin));
        }
    }

    /// Counts an event that was dropped here instead of delivered. An event that the controller's
    /// report no longer lists is not counted: its delivery has been switched off.
    pub fn dropped_at_hub(&mut self, event: &Event)
        ensures
            final(self).known().source == old(self).known().source,
            final(self).reports() == old(self).reports(),
            final(self).noticed() == old(self).noticed(),
            final(self).known().pending == after_drop(old(self).known(), old(self).reports(), *event),
            ({
                let key = key_of(event.event@, log_level(*event));
                let s = old(self).known();
                if event.chat_enabled && key is Some && (!old(self).reports() || watermark_place(
                    s.source,
                    key->0,
                ) < s.source.len()) {
                    final(self).known().pending == counted(s.pending, key->0, 1, 0)
                } else {
                    final(self).known().pending == s.pending
                }
            }),
    {
        let level: Option<&str> = match &event.details {
            Some(EventDetails::NinaLog { level, .. }) => Some(level.as_str()),
            _ => None,
        };
        if !event.chat_enabled {
            return;
        }
        let key = match Key::new(event.event.as_str(), level) {
            Some(key) => key,
            None => {
                return;
            },
        };
        if self.has_source_snapshot && self.find_source(&key) >= self.source.len() {
            return;
        }
        self.count(key, 1, 0);
    }
}

fn contains_key(keys: &Vec<Key>, key: &Key) -> (r: bool)
    ensures
        r == key_views(keys@).contains(key@),
{
    let mut i: usize = 0;
    while i < keys.len()
        invariant
            i <= keys@.len(),
            forall|j: int| 0 <= j < i ==> (#[trigger] key_views(keys@)[j]) != key@,
        decreases keys@.len() - i,
    {
        if keys[i].is(key) {
            assert(key_views(keys@)[i as int] == key@);
            return true;
        }
        i += 1;
    }
    false
}

spec fn key_views(keys: Seq<Key>) -> Seq<KeyView> {
    keys.map_values(|k: Key| k@)
}

impl EventElisionReporter {
    fn keep_present(&mut self, present: &Vec<Key>)
        ensures
            final(self).known().pending == pending_among(
                old(self).known().pending,
                key_views(present@),
            ),
            final(self).known().source == watermarks_among(
                old(self).known().source,
                key_views(present@),
            ),
            final(self).reports() == old(self).reports(),
            final(self).noticed() == old(self).noticed(),
    {
        let ghost pending = self.known().pending;
        let ghost source = self.known().source;
        let ghost keys = key_views(present@);
        let mut kept: Vec<Pending> = Vec::new();
        let ghost mut done: int = 0;
        assert(pending.subrange(0, 0) =~= Seq::<PendingView>::empty());
        assert(pending_views(kept@) =~= Seq::<PendingView>::empty());
        assert(pending.subrange(0, pending.len() as int) =~= pending);
        while self.pending.len() > 0
            invariant
                0 <= done <= pending.len(),
                keys == key_views(present@),
                pending_views(self.pending@) == pending.subrange(done, pending.len() as int),
                pending_views(kept@) == pending_among(pending.subrange(0, done), keys),
                self.known().source == source,
                self.reports() == old(self).reports(),
                self.noticed() == old(self).noticed(),
            decreases self.pending@.len(),
        {
            let ghost rest = self.pending@;
            let entry = self.pending.remove(0);
            proof {
                let now = pending.subrange(0, done + 1);
                assert(pending_views(rest).len() == pending.len() - done);
                assert(entry@ == pending_views(rest)[0]);
                assert(now.drop_last() =~= pending.subrange(0, done));
                assert(now.last() == entry@);
                assert(pending_views(self.pending@) =~= pending_views(rest).subrange(
                    1,
                    rest.len() as int,
                ));
                assert(pending_views(self.pending@) =~= pending.subrange(
                    done + 1,
                    pending.len() as int,
                ));
                assert(pending_views(kept@.push(entry)) =~= pending_views(kept@).push(entry@));
                done = done + 1;
            }
            if contains_key(present, &entry.key) {
                kept.push(entry);
            }
        }
        assert(pending.subrange(0, done) =~= pending);
        self.pending = kept;
        let mut marks: Vec<Watermark> = Vec::new();
        proof {
            done = 0;
        }
        assert(source.subrange(0, 0) =~= Seq::<WatermarkView>::empty());
        assert(watermark_views(marks@) =~= Seq::<WatermarkView>::empty());
        assert(source.subrange(0, source.len() as int) =~= source);
        while self.source.len() > 0
            invariant
                0 <= done <= source.len(),
                keys == key_views(present@),
                watermark_views(self.source@) == source.subrange(done, source.len() as int),
                watermark_views(marks@) == watermarks_among(source.subrange(0, done), keys),
                self.known().pending == pending_among(pending, keys),
                self.reports() == old(self).reports(),
                self.noticed() == old(self).noticed(),
            decreases self.source@.len(),
        {
            let ghost rest = self.source@;
            let entry = self.source.remove(0);
            proof {
                let now = source.subrange(0, done + 1);
                assert(watermark_views(rest).len() == source.len() - done);
                assert(entry@ == watermark_views(rest)[0]);
                assert(now.drop_last() =~= source.subrange(0, done));
                assert(now.last() == entry@);
                assert(watermark_views(self.source@) =~= watermark_views(rest).subrange(
                    1,
                    rest.len() as int,
                ));
                assert(watermark_views(self.source@) =~= source.subrange(
                    done + 1,
                    source.len() as int,
                ));
                assert(watermark_views(marks@.push(entry)) =~= watermark_views(marks@).push(
                    entry@,
                ));
                done = done + 1;
            }
            if contains_key(present, &entry.key) {
                marks.push(entry);
            }
        }
        assert(source.subrange(0, done) =~= source);
        self.source = marks;
    }

    fn observe_item(&mut self, item: &ElidedEventCount, baseline: bool)
        ensures
            final(self).known() == after_item(old(self).known(), item@, baseline),
            final(self).reports() == old(self).reports(),
            final(self).noticed() == old(self).noticed(),
    {
        let level: Option<&str> = match &item.level {
            Some(l) => Some(l.as_str()),
            None => None,
        };
        let key = match Key::new(item.event.as_str(), level) {
            Some(key) => key,
            None => {
                return;
            },
        };
        let i: usize = self.find_source(&key);
        let ghost before = self.known();
        let known: bool = i < self.source.len();
        if !known && self.source.len() >= MAX_KEYS {
            return;
        }
        let same_epoch: bool = known && same(self.source[i].epoch.as_str(), item.epoch.as_str());
        let delta: u64 = if baseline {
            0
        } else if same_epoch {
            if item.count >= self.source[i].count {
                item.count - self.source[i].count
            } else {
                0
            }
        } else {
            item.count
        };
        let count: u64 = if same_epoch && self.source[i].count > item.count {
            self.source[i].count
        } else {
            item.count
        };
        if known && !same_epoch {
            let p: usize = self.find_pending(&key);
            if p < self.pending.len() {
                let ghost all = self.pending@;
                self.pending.remove(p);
                assert(pending_views(self.pending@) =~= pending_views(all).remove(p as int));
            }
        }
        let ghost kept = self.known().pending;
        let mark = Watermark { key: key.copy(), epoch: item.epoch.clone(), count };
        let ghost sources = self.source@;
        if known {
            self.source.set(i, mark);
            assert(watermark_views(self.source@) =~= watermark_views(sources).update(
                i as int,
                mark@,
            ));
        } else {
            self.source.push(mark);
            assert(watermark_views(self.source@) =~= watermark_views(sources).push(mark@));
        }
        assert(self.known().pending == kept);
        if delta > 0 {
            self.count(key, 0, delta);
        }
    }

    /// Takes in the controller's report of its own drops. No report at all comes from a
    /// controller that does not count; an empty one revokes every count.
    pub fn observe_source(&mut self, snapshot: Option<&Vec<ElidedEventCount>>, baseline: bool)
        ensures
            final(self).noticed() == old(self).noticed(),
            match snapshot {
                None => final(self).known() == old(self).known() && final(self).reports() == old(
                    self,
                ).reports(),
                Some(items) => final(self).reports() && final(self).known() == after_report(
                    old(self).known(),
                    elided_views(items@),
                    baseline,
                ),
            },
    {
        let items = match snapshot {
            Some(items) => items,
            None => {
                return;
            },
        };
        self.has_source_snapshot = true;
        let n: usize = if items.len() <= MAX_KEYS {
            items.len()
        } else {
            MAX_KEYS
        };
        let ghost all = considered(elided_views(items@));
        let mut present: Vec<Key> = Vec::new();
        let mut i: usize = 0;
        assert(all.subrange(0, 0) =~= Seq::<ElidedView>::empty());
        assert(key_views(present@) =~= Seq::<KeyView>::empty());
        while i < n
            invariant
                i <= n <= items@.len(),
                n == all.len(),
                all == considered(elided_views(items@)),
                key_views(present@) == reported_keys(all.subrange(0, i as int)),
            decreases n - i,
        {
            let level: Option<&str> = match &items[i].level {
                Some(l) => Some(l.as_str()),
                None => None,
            };
            proof {
                let now = all.subrange(0, i + 1);
                assert(now.drop_last() =~= all.subrange(0, i as int));
                assert(now.last() == items@[i as int]@);
            }
            if let Some(key) = Key::new(items[i].event.as_str(), level) {
                assert(key_views(present@.push(key)) =~= key_views(present@).push(key@));
                present.push(key);
            }
            i += 1;
        }
        assert(all.subrange(0, n as int) =~= all);
        self.keep_present(&present);
        let ghost start = self.known();
        let mut j: usize = 0;
        while j < n
            invariant
                j <= n <= items@.len(),
                n == all.len(),
                all == considered(elided_views(items@)),
                self.known() == after_items(start, all.subrange(0, j as int), baseline),
                self.reports(),
                self.noticed() == old(self).noticed(),
            decreases n - j,
        {
            proof {
                let now = all.subrange(0, j + 1);
                assert(now.drop_last() =~= all.subrange(0, j as int));
                assert(now.last() == items@[j as int]@);
            }
            self.observe_item(&items[j], baseline);
            j += 1;
        }
        assert(all.subrange(0, n as int) =~= all);
    }

    /// Forgets the pending drops of events that the scope governs. The controller's totals stay:
    /// they tell old drops from new ones.
    pub fn revoke_scope(&mut self, scope: EventDeliveryScope)
        ensures
            final(self).known().pending == outside_scope(old(self).known().pending, scope),
            final(self).known().source == old(self).known().source,
            final(self).reports() == old(self).reports(),
            final(self).noticed() == old(self).noticed(),
    {
        let ghost pending = self.known().pending;
        let mut kept: Vec<Pending> = Vec::new();
        let ghost mut done: int = 0;
        assert(pending.subrange(0, 0) =~= Seq::<PendingView>::empty());
        assert(pending_views(kept@) =~= Seq::<PendingView>::empty());
        assert(pending.subrange(0, pending.len() as int) =~= pending);
        while self.pending.len() > 0
            invariant
                0 <= done <= pending.len(),
                pending_views(self.pending@) == pending.subrange(done, pending.len() as int),
                pending_views(kept@) == outside_scope(pending.subrange(0, done), scope),
                self.known().source == old(self).known().source,
                self.reports() == old(self).reports(),
                self.noticed() == old(self).noticed(),
            decreases self.pending@.len(),
        {
            let ghost rest = self.pending@;
            let entry = self.pending.remove(0);
            proof {
                let now = pending.subrange(0, done + 1);
                assert(pending_views(rest).len() == pending.len() - done);
                assert(entry@ == pending_views(rest)[0]);
                assert(now.drop_last() =~= pending.subrange(0, done));
                assert(now.last() == entry@);
                assert(pending_views(self.pending@) =~= pending_views(rest).subrange(
                    1,
                    rest.len() as int,
                ));
                assert(pending_views(self.pending@) =~= pending.subrange(
                    done + 1,
                    pending.len() as int,
                ));
                assert(pending_views(kept@.push(entry)) =~= pending_views(kept@).push(entry@));
                done = done + 1;
            }
            if event_delivery_scope(entry.key.event.as_str()) != scope {
                kept.push(entry);
            }
        }
        assert(pending.subrange(0, done) =~= pending);
        self.pending = kept;
    }

    /// The number of drops to tell of now, if any: at most one notice a minute, and none where
    /// nothing was dropped. A notice clears what it tells of.
    pub fn take_notice(&mut self, now: Tick) -> (r: Option<u64>)
        ensures
            final(self).known().source == old(self).known().source,
            final(self).reports() == old(self).reports(),
            r == notice_at(total(old(self).known().pending), old(self).noticed(), now),
            match r {
                None => {
                    &&& final(self).known() == old(self).known()
                    &&& final(self).noticed() == old(self).noticed()
                },
                Some(_) => {
                    &&& final(self).known().pending.len() == 0
                    &&& final(self).noticed() == Some(now)
                },
            },
    {
        if let Some(last) = self.last_notice {
            if now.since(last).nanos < NOTICE_INTERVAL_NANOS {
                return None;
            }
        }
        let mut count: u64 = 0;
        let mut i: usize = 0;
        let ghost pending = self.known().pending;
        assert(pending.subrange(0, 0) =~= Seq::<PendingView>::empty());
        while i < self.pending.len()
            invariant
                i <= self.pending@.len(),
                pending == self.known().pending,
                count == (if total(pending.subrange(0, i as int)) > u64::MAX {
                    u64::MAX
                } else {
                    total(pending.subrange(0, i as int)) as u64
                }),
            decreases self.pending@.len() - i,
        {
            proof {
                let now_seen = pending.subrange(0, i + 1);
                assert(now_seen.drop_last() =~= pending.subrange(0, i as int));
                assert(now_seen.last() == self.pending@[i as int]@);
            }
            count = capped(capped(count, self.pending[i].hub), self.pending[i].plugin);
            i += 1;
        }
        assert(pending.subrange(0, i as int) =~= pending);
        if count == 0 {
            return None;
        }
        self.pending.clear();
        self.last_notice = Some(now);
        Some(count)
    }

    /// How many kinds of diagnostics have pending drops.
    pub fn pending_len(&self) -> (r: usize)
        ensures
            r == self.known().pending.len(),
    {
        self.pending.len()
    }
}

/// At most so many kinds of diagnostics are ever counted.
pub open spec fn bounded(s: ElisionView) -> bool {
    s.pending.len() <= MAX_KEYS && s.source.len() <= MAX_KEYS
}

/// Counting a drop keeps the counts bounded.
pub proof fn counting_stays_bounded(s: Seq<PendingView>, key: KeyView, hub: u64, plugin: u64)
    requires
        s.len() <= MAX_KEYS,
    ensures
        counted(s, key, hub, plugin).len() <= MAX_KEYS,
{
    lemma_place_key(s, key);
}

proof fn lemma_items_bounded(s: ElisionView, items: Seq<ElidedView>, baseline: bool)
    requires
        bounded(s),
    ensures
        bounded(after_items(s, items, baseline)),
    decreases items.len(),
{
    if items.len() > 0 {
        lemma_items_bounded(s, items.drop_last(), baseline);
        let before = after_items(s, items.drop_last(), baseline);
        match key_of(items.last().event, items.last().level) {
            Some(key) => {
                lemma_place_key(before.pending, key);
                lemma_mark_key(before.source, key);
                let gone = uncounted(before.pending, key);
                lemma_place_key(gone, key);
            },
            None => {},
        }
    }
}

/// The total found for a key has that key.
proof fn lemma_mark_key(s: Seq<WatermarkView>, key: KeyView)
    ensures
        0 <= watermark_place(s, key) <= s.len(),
        watermark_place(s, key) < s.len() ==> s[watermark_place(s, key)].key == key,
    decreases s.len(),
{
    if s.len() > 0 && s[0].key != key {
        lemma_mark_key(s.subrange(1, s.len() as int), key);
    }
}

proof fn lemma_among_shorter(p: Seq<PendingView>, w: Seq<WatermarkView>, keys: Seq<KeyView>)
    ensures
        pending_among(p, keys).len() <= p.len(),
        watermarks_among(w, keys).len() <= w.len(),
    decreases p.len() + w.len(),
{
    if p.len() > 0 {
        lemma_among_shorter(p.drop_last(), w, keys);
    } else if w.len() > 0 {
        lemma_among_shorter(p, w.drop_last(), keys);
    }
}

/// Whatever the controller reports, the counts stay bounded.
pub proof fn reports_stay_bounded(s: ElisionView, items: Seq<ElidedView>, baseline: bool)
    requires
        bounded(s),
    ensures
        bounded(after_report(s, items, baseline)),
{
    let present = reported_keys(considered(items));
    lemma_among_shorter(s.pending, s.source, present);
    lemma_items_bounded(
        ElisionView {
            pending: pending_among(s.pending, present),
            source: watermarks_among(s.source, present),
        },
        considered(items),
        baseline,
    );
}

/// An empty report revokes every count.
pub proof fn an_empty_report_revokes_everything(s: ElisionView, baseline: bool)
    ensures
        after_report(s, Seq::empty(), baseline).pending.len() == 0,
        after_report(s, Seq::empty(), baseline).source.len() == 0,
{
    let present = reported_keys(Seq::<ElidedView>::empty());
    assert(considered(Seq::<ElidedView>::empty()) =~= Seq::<ElidedView>::empty());
    lemma_among_nothing(s.pending, s.source, present);
}

proof fn lemma_among_nothing(p: Seq<PendingView>, w: Seq<WatermarkView>, keys: Seq<KeyView>)
    requires
        keys.len() == 0,
    ensures
        pending_among(p, keys).len() == 0,
        watermarks_among(w, keys).len() == 0,
    decreases p.len() + w.len(),
{
    if p.len() > 0 {
        lemma_among_nothing(p.drop_last(), w, keys);
    } else if w.len() > 0 {
        lemma_among_nothing(p, w.drop_last(), keys);
    }
}

/// Repeating an item of a report adds nothing: a total that was reported before is not counted
/// again.
pub proof fn repeated_totals_add_nothing(s: ElisionView, item: ElidedView, baseline: bool)
    requires
        s.source.len() <= MAX_KEYS,
    ensures
        ({
            let once = after_item(s, item, baseline);
            after_item(once, item, false).pending == once.pending
        }),
{
    match key_of(item.event, item.level) {
        Some(key) => {
            let i = watermark_place(s.source, key);
            lemma_mark_key(s.source, key);
            lemma_mark_before(s.source, key);
            let once = after_item(s, item, baseline);
            if i < s.source.len() {
                lemma_watermark_place(once.source, key, i);
            } else if s.source.len() < MAX_KEYS {
                lemma_watermark_place(once.source, key, s.source.len() as int);
            }
        },
        None => {},
    }
}

/// No entry before the place of a key has that key.
proof fn lemma_mark_before(s: Seq<WatermarkView>, key: KeyView)
    ensures
        forall|j: int| 0 <= j < watermark_place(s, key) ==> (#[trigger] s[j]).key != key,
    decreases s.len(),
{
    if s.len() > 0 && s[0].key != key {
        let rest = s.subrange(1, s.len() as int);
        lemma_mark_before(rest, key);
        lemma_mark_key(rest, key);
        assert forall|j: int| 0 <= j < watermark_place(s, key) implies (#[trigger] s[j]).key
            != key by {
            if j > 0 {
                assert(rest[j - 1] == s[j]);
            }
        }
    }
}

/// Revoking a scope leaves no pending drop of an event that it governs.
pub proof fn revocation_leaves_nothing_of_the_scope(
    s: Seq<PendingView>,
    scope: EventDeliveryScope,
)
    ensures
        forall|i: int|
            0 <= i < outside_scope(s, scope).len() ==> scope_of(
                (#[trigger] outside_scope(s, scope)[i]).key.event,
            ) != scope,
    decreases s.len(),
{
    if s.len() > 0 {
        revocation_leaves_nothing_of_the_scope(s.drop_last(), scope);
    }
}

/// The entry found for a key has that key.
proof fn lemma_place_key(s: Seq<PendingView>, key: KeyView)
    ensures
        0 <= pending_place(s, key) <= s.len(),
        pending_place(s, key) < s.len() ==> s[pending_place(s, key)].key == key,
    decreases s.len(),
{
    if s.len() > 0 && s[0].key != key {
        lemma_place_key(s.subrange(1, s.len() as int), key);
    }
}

} // verus!
