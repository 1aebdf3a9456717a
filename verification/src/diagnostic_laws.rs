//! What is promised of diagnostics: which are limited, when they pass, and how drops are counted.

use vstd::prelude::*;
use crate::clock::{Duration, Tick};
use crate::double::{
    adding_zero_keeps, lemma_power_positive, nearest, one_is_whole, order_is_the_order_of_values,
    power, signed, small_wholes_are_exact, units, whole, zero_divided_is_zero, Double, BILLION,
};
use crate::double_order::fractions_round_alike;
use crate::event_elision::{
    after_drop, after_item, canonical_level, counted, key_of, notice_at, outside_scope,
        pending_among,
    pending_place, total, watermark_place, ElidedView, ElisionView, KeyView, PendingView,
};
use crate::event_rate_limit::{
    class_of, holds, remembers, still_recent, DiagnosticClass, LimiterView, TokenBucket,
};
use crate::events::{scope_of, Event, EventDeliveryScope, EventDetails};
use crate::text::{ascii_upper, has_prefix, has_suffix, same_ignoring_case, trimmed};

verus! {

/// The name of a failure.
pub open spec fn failure_name(name: Seq<char>) -> bool {
    has_prefix(name, "ERROR-"@) || has_suffix(name, "-FAILED"@) || has_suffix(name, "-TIMEOUT"@)
}

/// The words that a level of trouble is stated by, in any case of letters.
pub open spec fn trouble(level: Seq<char>) -> bool {
    same_ignoring_case(level, "WARN"@) || same_ignoring_case(level, "WARNING"@)
        || same_ignoring_case(level, "ERROR"@) || same_ignoring_case(level, "FATAL"@)
        || same_ignoring_case(level, "CRITICAL"@)
}

/// Failures draw on the budget of errors, and so do log entries and notifications of trouble; other
/// log entries and notifications draw on the budget of the log. No other event is limited, and
/// neither is one that is not delivered, nor the outcome of a command.
#[verifier::spinoff_prover]
pub proof fn budgets_are_drawn_on_by_kind(event: Event)
    ensures
        !event.chat_enabled ==> class_of(event) is None,
        event.event@ == "CHATSTRONOMY-COMMAND-FAILED"@ ==> class_of(event) is None,
        event.chat_enabled && failure_name(event.event@) && event.event@
            != "CHATSTRONOMY-COMMAND-FAILED"@ ==> class_of(event) == Some(DiagnosticClass::Error),
        event.chat_enabled && event.event@ == "NINA-LOG"@ ==> (event.details matches Some(
            EventDetails::NinaLog { level, .. },
        ) ==> class_of(event) == Some(
            if trouble(trimmed(level@)) {
                DiagnosticClass::Error
            } else {
                DiagnosticClass::Log
            },
        )),
        event.chat_enabled && event.event@ == "NINA-NOTIFICATION"@ ==> (event.details matches Some(
            EventDetails::NinaNotification { level, .. },
        ) ==> class_of(event) == Some(
            if trouble(trimmed(level@)) {
                DiagnosticClass::Error
            } else {
                DiagnosticClass::Log
            },
        )),
        !failure_name(event.event@) && event.event@ != "NINA-LOG"@ && event.event@
            != "NINA-NOTIFICATION"@ ==> class_of(event) is None,
{
    reveal_strlit("NINA-LOG");
    reveal_strlit("NINA-NOTIFICATION");
    reveal_strlit("CHATSTRONOMY-COMMAND-FAILED");
    reveal_strlit("ERROR-");
    reveal_strlit("-FAILED");
    reveal_strlit("-TIMEOUT");
    assert("NINA-LOG"@.len() == 8 && "NINA-NOTIFICATION"@.len() == 17);
    assert("CHATSTRONOMY-COMMAND-FAILED"@.len() == 27);
    assert("ERROR-"@.len() == 6 && "-FAILED"@.len() == 7 && "-TIMEOUT"@.len() == 8);
    assert("ERROR-"@[0] == 'E' && "NINA-LOG"@[0] == 'N' && "NINA-NOTIFICATION"@[0] == 'N');
    assert("-FAILED"@[6] == 'D' && "NINA-LOG"@[7] == 'G' && "NINA-NOTIFICATION"@[16] == 'N');
    assert("-TIMEOUT"@[7] == 'T' && "-TIMEOUT"@[0] == '-' && "NINA-LOG"@[0] == 'N');
    if has_prefix("NINA-LOG"@, "ERROR-"@) {
        assert("NINA-LOG"@.subrange(0, 6)[0] == 'N');
    }
    if has_prefix("NINA-NOTIFICATION"@, "ERROR-"@) {
        assert("NINA-NOTIFICATION"@.subrange(0, 6)[0] == 'N');
    }
    if has_suffix("NINA-LOG"@, "-FAILED"@) {
        assert("NINA-LOG"@.subrange(1, 8)[6] == 'G');
    }
    if has_suffix("NINA-NOTIFICATION"@, "-FAILED"@) {
        assert("NINA-NOTIFICATION"@.subrange(10, 17)[6] == 'N');
    }
    if has_suffix("NINA-LOG"@, "-TIMEOUT"@) {
        assert("NINA-LOG"@.subrange(0, 8)[7] == 'G');
    }
    if has_suffix("NINA-NOTIFICATION"@, "-TIMEOUT"@) {
        assert("NINA-NOTIFICATION"@.subrange(9, 17)[7] == 'N');
    }
}

/// A diagnostic that was let through is dropped for a minute, while it is remembered, whatever
/// budget is left; and a diagnostic that is not remembered passes exactly where its budget has a
/// token.
pub proof fn only_repetitions_and_floods_are_dropped(
    s: LimiterView,
    class: DiagnosticClass,
    fingerprint: u64,
    now: Tick,
)
    ensures
        s.recent.len() > 0 && s.recent[0].0 == fingerprint && s.recent[0].1.nanos <= now.nanos
            && now.nanos - s.recent[0].1.nanos < 60_000_000_000 ==> !s.passes(
            class,
            fingerprint,
            now,
        ),
        (forall|i: int|
            0 <= i < s.recent.len() ==> (#[trigger] s.recent[i]).0 != fingerprint) ==> s.passes(
            class,
            fingerprint,
            now,
        ) == s.bucket(class).allows(now),
        s.recent.len() == 1 && s.recent[0].1.nanos <= now.nanos && now.nanos
            - s.recent[0].1.nanos >= 60_000_000_000 ==> s.passes(class, fingerprint, now)
            == s.bucket(class).allows(now),
{
    lemma_still_recent_part(s.recent, now);
    if s.recent.len() == 1 {
        let rest = s.recent.subrange(1, 1);
        assert(rest.len() == 0);
        assert(still_recent(rest, now) == rest);
    }
}

proof fn lemma_still_recent_part(recent: Seq<(u64, Tick)>, now: Tick)
    ensures
        forall|j: int|
            0 <= j < still_recent(recent, now).len() ==> exists|i: int|
                0 <= i < recent.len() && recent[i] == #[trigger] still_recent(recent, now)[j],
        recent.len() > 0 && (recent[0].1.nanos <= now.nanos && now.nanos - recent[0].1.nanos
            < 60_000_000_000) ==> still_recent(recent, now) == recent,
    decreases recent.len(),
{
    if recent.len() > 0 {
        let rest = recent.subrange(1, recent.len() as int);
        lemma_still_recent_part(rest, now);
        if still_recent(recent, now) == recent {
        } else {
            assert forall|j: int| 0 <= j < still_recent(recent, now).len() implies exists|i: int|
                0 <= i < recent.len() && recent[i] == #[trigger] still_recent(recent, now)[j] by {
                let i = choose|i: int|
                    0 <= i < rest.len() && rest[i] == still_recent(rest, now)[j];
                assert(recent[i + 1] == still_recent(recent, now)[j]);
            }
        }
    }
}

/// What is let through is remembered with its time; what is dropped is not. One class of
/// diagnostics never changes the other's budget, and a repetition changes neither.
pub proof fn what_passes_is_remembered(
    s: LimiterView,
    class: DiagnosticClass,
    fingerprint: u64,
    now: Tick,
)
    ensures
        s.passes(class, fingerprint, now) ==> s.after(class, fingerprint, now).recent.last() == (
            fingerprint,
            now,
        ) && s.after(class, fingerprint, now).bucket(class) == s.bucket(class).after(now),
        !s.passes(class, fingerprint, now) ==> s.after(class, fingerprint, now).recent
            == still_recent(s.recent, now),
        remembers(still_recent(s.recent, now), fingerprint) ==> s.after(
            class,
            fingerprint,
            now,
        ).errors == s.errors && s.after(class, fingerprint, now).logs == s.logs,
{
}

/// Whole seconds are whole numbers.
#[verifier::spinoff_prover]
proof fn lemma_whole_seconds(d: Duration, seconds: nat)
    requires
        d.nanos == seconds * 1_000_000_000,
        seconds < 0x20_0000_0000_0000,
    ensures
        d.secs_double() == whole(seconds),
{
    small_wholes_are_exact(seconds);
    small_wholes_are_exact(0);
    adding_zero_keeps(whole(seconds));
    let billion = Double { bits: BILLION };
    assert(billion.finite() && !billion.negative() && billion.magnitude() > 0);
    zero_divided_is_zero(billion);
    assert(d.nanos as nat / 1_000_000_000 == seconds);
    assert(d.nanos as nat % 1_000_000_000 == 0);
}

/// A multiple of a whole number divided by that number is the factor.
#[verifier::spinoff_prover]
proof fn lemma_whole_quotient(k: nat, seconds: nat)
    requires
        0 < seconds,
        k * seconds < 0x20_0000_0000_0000,
        seconds < 0x20_0000_0000_0000,
    ensures
        whole(k * seconds).quotient(whole(seconds)) == whole(k),
{
    let one = power(2, 1074);
    lemma_power_positive(2, 1074);
    small_wholes_are_exact(k * seconds);
    small_wholes_are_exact(seconds);
    let c = seconds * one;
    assert(c > 0) by (nonlinear_arith)
        requires
            c == seconds * one,
            seconds > 0,
            one > 0,
    ;
    assert(((k * seconds) * one) * one == (k * one) * c && c == 1 * c) by (nonlinear_arith)
        requires
            c == seconds * one,
    ;
    fractions_round_alike(k * one, 1, c);
    assert(whole(seconds).magnitude() != 0) by {
        if whole(seconds).magnitude() == 0 {
            assert(units(0) == 0);
        }
    }
    assert(units(whole(k * seconds).magnitude()) == (k * seconds) * one);
    assert(units(whole(seconds).magnitude()) == c);
    assert(whole(k * seconds).quotient(whole(seconds)) == signed(
        false,
        nearest(((k * seconds) * one) * one, c),
    ));
}

/// An empty budget gains one token for each interval that passes, up to its capacity: after `k`
/// intervals it holds `k` tokens or as many as it can, and lets something through where that is
/// any.
#[verifier::spinoff_prover]
pub proof fn budgets_refill_by_the_interval(
    b: TokenBucket,
    capacity: nat,
    seconds: nat,
    k: nat,
    now: Tick,
)
    requires
        holds(b, capacity, 0, seconds),
        now.nanos == b.updated_at.nanos + k * seconds * 1_000_000_000,
        k * seconds < 0x20_0000_0000_0000,
        k < 0x20_0000_0000_0000,
    ensures
        b.refilled(now) == whole(
            if k <= capacity {
                k
            } else {
                capacity
            },
        ),
        b.allows(now) == (k > 0 && capacity > 0),
{
    let one = power(2, 1074);
    lemma_power_positive(2, 1074);
    let passed = now.since_spec(b.updated_at);
    assert(passed.nanos == (k * seconds) * 1_000_000_000);
    lemma_whole_seconds(passed, k * seconds);
    lemma_whole_seconds(b.refill_interval, seconds);
    lemma_whole_quotient(k, seconds);
    small_wholes_are_exact(k);
    small_wholes_are_exact(capacity);
    small_wholes_are_exact(1);
    small_wholes_are_exact(0);
    lemma_zero_first(whole(k));
    order_is_the_order_of_values(whole(k), whole(capacity));
    assert((k < capacity) == (k * one < capacity * one)) by (nonlinear_arith)
        requires
            one > 0,
    ;
    assert((k == capacity) ==> (k * one == capacity * one));
    let full: nat = if k <= capacity {
        k
    } else {
        capacity
    };
    assert(b.refilled(now) == whole(full));
    one_is_whole();
    order_is_the_order_of_values(whole(full), whole(1));
    assert((full < 1) == (full * one < 1 * one)) by (nonlinear_arith)
        requires
            one > 0,
    ;
}

proof fn lemma_zero_first(x: Double)
    requires
        x.finite(),
        !x.negative(),
    ensures
        whole(0).sum(x) == x,
{
    adding_zero_keeps(x);
    small_wholes_are_exact(0);
    assert(x.sum(whole(0)) == x);
    assert(0 * power(2, 1074) == 0) by (nonlinear_arith);
}

/// Levels that mean the same are counted alike, in any case of letters and with spaces around: the
/// short and the long word, and errors with what is worse.
#[verifier::spinoff_prover]
pub proof fn levels_are_counted_by_meaning(level: Seq<char>)
    ensures
        ({
            let upper = ascii_upper(trimmed(level));
            let c = canonical_level(Some(level));
            &&& upper == "INFO"@ || upper == "INFORMATION"@ ==> c == "INFORMATION"@
            &&& upper == "WARN"@ || upper == "WARNING"@ ==> c == "WARNING"@
            &&& upper == "ERROR"@ || upper == "FATAL"@ || upper == "CRITICAL"@ ==> c == "ERROR"@
            &&& upper == "TRACE"@ || upper == "VERBOSE"@ ==> c == "TRACE"@
            &&& upper == "DEBUG"@ ==> c == "DEBUG"@
            &&& c == "UNKNOWN"@ || c == "INFORMATION"@ || c == "WARNING"@ || c == "ERROR"@ || c
                == "TRACE"@ || c == "DEBUG"@
        }),
        canonical_level(None) == "UNKNOWN"@,
{
    reveal_strlit("INFO");
    reveal_strlit("INFORMATION");
    reveal_strlit("WARN");
    reveal_strlit("WARNING");
    reveal_strlit("ERROR");
    reveal_strlit("FATAL");
    reveal_strlit("CRITICAL");
    reveal_strlit("TRACE");
    reveal_strlit("VERBOSE");
    reveal_strlit("DEBUG");
    assert("INFO"@.len() == 4 && "INFORMATION"@.len() == 11 && "WARN"@.len() == 4);
    assert("WARNING"@.len() == 7 && "ERROR"@.len() == 5 && "FATAL"@.len() == 5);
    assert("CRITICAL"@.len() == 8 && "TRACE"@.len() == 5 && "VERBOSE"@.len() == 7);
    assert("DEBUG"@.len() == 5);
    assert("INFO"@[0] == 'I' && "WARN"@[0] == 'W' && "WARNING"@[0] == 'W' && "VERBOSE"@[0] == 'V');
    assert("ERROR"@[0] == 'E' && "FATAL"@[0] == 'F' && "TRACE"@[0] == 'T' && "DEBUG"@[0] == 'D');
}

/// How many drops of a key are pending.
pub open spec fn pending_of(s: Seq<PendingView>, key: KeyView) -> nat {
    let i = pending_place(s, key);
    if 0 <= i < s.len() {
        s[i].hub as nat + s[i].plugin as nat
    } else {
        0
    }
}

proof fn lemma_place(s: Seq<PendingView>, key: KeyView)
    ensures
        0 <= pending_place(s, key) <= s.len(),
        pending_place(s, key) < s.len() ==> s[pending_place(s, key)].key == key,
        forall|j: int| 0 <= j < pending_place(s, key) ==> (#[trigger] s[j]).key != key,
    decreases s.len(),
{
    if s.len() > 0 && s[0].key != key {
        let rest = s.subrange(1, s.len() as int);
        lemma_place(rest, key);
        assert forall|j: int| 0 <= j < pending_place(s, key) implies (#[trigger] s[j]).key
            != key by {
            if j > 0 {
                assert(rest[j - 1] == s[j]);
            }
        }
    }
}

/// A drop is added to the count of its key, while there is room, and to no other count.
#[verifier::spinoff_prover]
pub proof fn drops_are_counted_under_their_key(
    s: Seq<PendingView>,
    key: KeyView,
    hub: u64,
    plugin: u64,
    other: KeyView,
)
    requires
        s.len() < 128,
        forall|i: int|
            0 <= i < s.len() ==> (#[trigger] s[i]).hub + hub <= u64::MAX && s[i].plugin + plugin
                <= u64::MAX,
        other != key,
    ensures
        pending_of(counted(s, key, hub, plugin), key) == pending_of(s, key) + hub + plugin,
        pending_of(counted(s, key, hub, plugin), other) == pending_of(s, other),
{
    let t = counted(s, key, hub, plugin);
    lemma_place(s, key);
    lemma_place(t, key);
    lemma_place(s, other);
    lemma_place(t, other);
    let (i, j) = (pending_place(s, key), pending_place(t, key));
    let (p, q) = (pending_place(s, other), pending_place(t, other));
    assert(t[i].key == key);
    assert(i == j) by {
        if i < j {
            assert(t[i].key != key);
        }
        if j < i {
            assert(t[j] == s[j]);
        }
    }
    if p < s.len() {
        assert(t[p] == s[p]);
    }
    if q < t.len() {
        assert(q != i);
        assert(t[q] == s[q]);
    }
    if p < s.len() || q < t.len() {
        assert(p == q) by {
            if p < q {
                assert(t[p] == s[p] && p < s.len());
            }
            if q < p {
                assert(t[q] == s[q]);
            }
        }
    }
}

/// The growth of a reported total within an epoch is pending, and no more: of a total that was
/// known only what it has grown by. In the first report of a session nothing is.
#[verifier::spinoff_prover]
pub proof fn the_growth_of_totals_is_pending(s: ElisionView, item: ElidedView, key: KeyView)
    requires
        key_of(item.event, item.level) == Some(key),
        watermark_place(s.source, key) < s.source.len(),
        0 <= watermark_place(s.source, key),
        s.source[watermark_place(s.source, key)].epoch == item.epoch,
        s.pending.len() < 128,
        forall|i: int|
            0 <= i < s.pending.len() ==> (#[trigger] s.pending[i]).plugin + item.count <= u64::MAX,
    ensures
        ({
            let before = s.source[watermark_place(s.source, key)].count;
            let after = after_item(s, item, false);
            &&& item.count >= before ==> pending_of(after.pending, key) == pending_of(
                s.pending,
                key,
            ) + item.count - before
            &&& item.count < before ==> after.pending == s.pending
            &&& after_item(s, item, true).pending == s.pending
            &&& after.source[watermark_place(s.source, key)].count == (if item.count >= before {
                item.count
            } else {
                before
            })
        }),
{
    let before = s.source[watermark_place(s.source, key)].count;
    if item.count > before {
        let other = KeyView { event: key.event.push('x'), level: key.level };
        assert(other.event.len() != key.event.len());
        drops_are_counted_under_their_key(s.pending, key, 0, (item.count - before) as u64, other);
    }
}

/// The first notice of drops comes as soon as there are any, the next ones a minute after the one
/// before, and each tells how many there are.
pub proof fn notices_tell_how_many(n: nat, last: Tick, now: Tick)
    ensures
        notice_at(0, None, now) is None,
        0 < n <= u64::MAX ==> notice_at(n, None, now) == Some(n as u64),
        0 < n <= u64::MAX && last.nanos <= now.nanos && now.nanos - last.nanos >= 60_000_000_000
            ==> notice_at(n, Some(last), now) == Some(n as u64),
        last.nanos <= now.nanos && now.nanos - last.nanos < 60_000_000_000 ==> notice_at(
            n,
            Some(last),
            now,
        ) is None,
{
}

/// Drops are counted of failures, of the log and of notifications, unless the name is longer than
/// 64 bytes, and never of the outcomes of commands; those of the log by their level.
#[verifier::spinoff_prover]
pub proof fn drops_are_counted_by_event(event: Seq<char>, level: Option<Seq<char>>)
    ensures
        event == "CHATSTRONOMY-COMMAND-FAILED"@ ==> key_of(event, level) is None,
        !failure_name(event) && event != "NINA-LOG"@ && event != "NINA-NOTIFICATION"@ ==> key_of(
            event,
            level,
        ) is None,
        vstd::utf8::encode_utf8(event).len() <= 64 && failure_name(event) && event
            != "CHATSTRONOMY-COMMAND-FAILED"@ && event != "NINA-LOG"@ ==> key_of(event, level)
            == Some(KeyView { event, level: ""@ }),
        key_of(event, level) matches Some(key) ==> key.event == event && (event == "NINA-LOG"@
            ==> key.level == canonical_level(level)),
{
}

/// A report keeps the counts of the keys that it lists and revokes the others.
pub proof fn reports_keep_what_they_list(s: Seq<PendingView>, keys: Seq<KeyView>,
    entry: PendingView)
    ensures
        pending_among(s, keys).contains(entry) <==> s.contains(entry) && keys.contains(entry.key),
    decreases s.len(),
{
    if s.len() > 0 {
        let front = s.drop_last();
        reports_keep_what_they_list(front, keys, entry);
        assert(s =~= front.push(s.last()));
        lemma_push_contains(front, s.last(), entry);
        lemma_push_contains(pending_among(front, keys), s.last(), entry);
    }
}

/// Revoking a scope leaves the counts of all other scopes.
pub proof fn revocation_spares_other_counts(
    s: Seq<PendingView>,
    scope: EventDeliveryScope,
    entry: PendingView,
)
    ensures
        outside_scope(s, scope).contains(entry) <==> s.contains(entry) && scope_of(entry.key.event)
            != scope,
    decreases s.len(),
{
    if s.len() > 0 {
        let front = s.drop_last();
        revocation_spares_other_counts(front, scope, entry);
        assert(s =~= front.push(s.last()));
        lemma_push_contains(front, s.last(), entry);
        lemma_push_contains(outside_scope(front, scope), s.last(), entry);
    }
}

proof fn lemma_push_contains(s: Seq<PendingView>, x: PendingView, y: PendingView)
    ensures
        s.push(x).contains(y) <==> s.contains(y) || x == y,
{
    if s.contains(y) {
        let i = choose|i: int| 0 <= i < s.len() && s[i] == y;
        assert(s.push(x)[i] == y);
    }
    if x == y {
        assert(s.push(x)[s.len() as int] == y);
    }
    if s.push(x).contains(y) && x != y {
        let i = choose|i: int| 0 <= i < s.push(x).len() && s.push(x)[i] == y;
        assert(s[i] == y);
    }
}

/// All drops are told of together: further drops of a key add to the sum what they add to the key.
pub proof fn drops_add_up(s: Seq<PendingView>, entry: PendingView)
    ensures
        total(s.push(entry)) == total(s) + entry.hub + entry.plugin,
        total(Seq::empty()) == 0,
{
    assert(s.push(entry).drop_last() =~= s);
}

/// A new epoch of the controller revokes what was pending of a key and counts its total from zero.
#[verifier::spinoff_prover]
pub proof fn new_epochs_count_from_zero(s: ElisionView, item: ElidedView, key: KeyView)
    requires
        key_of(item.event, item.level) == Some(key),
        0 <= watermark_place(s.source, key) < s.source.len(),
        s.source[watermark_place(s.source, key)].epoch != item.epoch,
        s.pending.len() < 128,
        forall|i: int, j: int|
            #![trigger s.pending[i], s.pending[j]]
            0 <= i < j < s.pending.len() ==> s.pending[i].key != s.pending[j].key,
        forall|i: int|
            0 <= i < s.pending.len() ==> (#[trigger] s.pending[i]).plugin + item.count <= u64::MAX,
    ensures
        pending_of(after_item(s, item, false).pending, key) == item.count,
        pending_of(after_item(s, item, true).pending, key) == 0,
        after_item(s, item, false).source[watermark_place(s.source, key)].count == item.count,
        after_item(s, item, false).source[watermark_place(s.source, key)].epoch == item.epoch,
{
    let i = pending_place(s.pending, key);
    lemma_place(s.pending, key);
    let kept = if i < s.pending.len() {
        s.pending.remove(i)
    } else {
        s.pending
    };
    assert forall|j: int| 0 <= j < kept.len() implies (#[trigger] kept[j]).key != key by {
        if i < s.pending.len() {
            assert(s.pending[i].key == key);
            if j < i {
                assert(kept[j] == s.pending[j]);
            } else {
                assert(kept[j] == s.pending[j + 1]);
            }
        } else {
            assert(kept[j] == s.pending[j]);
        }
    }
    lemma_place(kept, key);
    assert(pending_of(kept, key) == 0) by {
        if pending_place(kept, key) < kept.len() {
            assert(kept[pending_place(kept, key)].key == key);
        }
    }
    if item.count > 0 {
        assert forall|j: int| 0 <= j < kept.len() implies (#[trigger] kept[j]).hub + 0 <= u64::MAX
            && kept[j].plugin + item.count <= u64::MAX by {
            if i < s.pending.len() && j >= i {
                assert(kept[j] == s.pending[j + 1]);
            } else {
                assert(kept[j] == s.pending[j]);
            }
        }
        let other = KeyView { event: key.event.push('x'), level: key.level };
        assert(other.event.len() != key.event.len());
        drops_are_counted_under_their_key(kept, key, 0, item.count, other);
    }
}

/// A drop at the hub is counted once, under the event's own key and at the hub, where the event is
/// delivered and the controller either reports no drops of its own or has reported of that key.
pub proof fn drops_at_the_hub_are_counted(s: ElisionView, reports: bool, event: Event, key: KeyView)
    requires
        key_of(
            event.event@,
            match event.details {
                Some(EventDetails::NinaLog { level, .. }) => Some(level@),
                _ => None,
            },
        ) == Some(key),
        s.pending.len() < 128,
        forall|i: int| 0 <= i < s.pending.len() ==> (#[trigger] s.pending[i]).hub < u64::MAX,
    ensures
        event.chat_enabled && !reports ==> pending_of(after_drop(s, reports, event), key)
            == pending_of(s.pending, key) + 1,
        event.chat_enabled && watermark_place(s.source, key) < s.source.len() ==> pending_of(
            after_drop(s, reports, event),
            key,
        ) == pending_of(s.pending, key) + 1,
        event.chat_enabled && reports && watermark_place(s.source, key) >= s.source.len()
            ==> after_drop(s, reports, event) == s.pending,
        !event.chat_enabled ==> after_drop(s, reports, event) == s.pending,
{
    let other = KeyView { event: key.event.push('x'), level: key.level };
    assert(other.event.len() != key.event.len());
    drops_are_counted_under_their_key(s.pending, key, 1, 0, other);
}

} // verus!
