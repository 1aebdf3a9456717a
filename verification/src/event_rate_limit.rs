//! Drops floods of diagnostics before they reach a chat; nothing is put off until later.

use std::collections::hash_map::RandomState;
use std::collections::VecDeque;
use std::hash::BuildHasher;
use vstd::prelude::*;
use crate::clock::{Duration, Tick};
use crate::double::{
    adding_zero_keeps, counting_down, lemma_power_positive, one_is_whole,
    order_is_the_order_of_values, power, small_wholes_are_exact, units, whole,
    zero_divided_is_zero, Double, BILLION, ONE,
};
use crate::event_types::{CHATSTRONOMY_COMMAND_FAILED, NINA_LOG, NINA_NOTIFICATION};
use crate::events::{Event, EventDetails};
use crate::text::{
    ends_with, eq_ignore_ascii_case, has_prefix, has_suffix, same, same_ignoring_case, starts_with,
    trim, trimmed,
};

verus! {

/// Nanoseconds within which the same diagnostic is not repeated.
pub const REPEAT_INTERVAL_NANOS: u128 = 60_000_000_000;

/// The most diagnostics that are remembered.
pub const MAX_FINGERPRINTS: usize = 128;

/// The two budgets that diagnostics draw on.
#[derive(Clone, Copy, Debug, PartialEq, Eq, Structural)]
pub enum DiagnosticClass {
    Error,
    Log,
}

/// A level that counts as an error.
pub open spec fn error_level(level: Seq<char>) -> bool {
    same_ignoring_case(level, "WARN"@) || same_ignoring_case(level, "WARNING"@)
        || same_ignoring_case(level, "ERROR"@) || same_ignoring_case(level, "FATAL"@)
        || same_ignoring_case(level, "CRITICAL"@)
}

/// The level that a log entry or a notification states.
pub open spec fn stated_level(event: Event) -> Seq<char> {
    match event.details {
        Some(EventDetails::NinaLog { level, .. }) => trimmed(level@),
        Some(EventDetails::NinaNotification { level, .. }) => trimmed(level@),
        _ => ""@,
    }
}

/// The budget that an event draws on; none for one that is not limited. Events that are not
/// delivered and outcomes of commands are never limited.
pub open spec fn class_of(event: Event) -> Option<DiagnosticClass> {
    let name = event.event@;
    if !event.chat_enabled || name == CHATSTRONOMY_COMMAND_FAILED@ {
        None
    } else if has_prefix(name, "ERROR-"@) || has_suffix(name, "-FAILED"@) || has_suffix(
        name,
        "-TIMEOUT"@,
    ) {
        Some(DiagnosticClass::Error)
    } else if name == NINA_LOG@ || name == NINA_NOTIFICATION@ {
        Some(
            if error_level(stated_level(event)) {
                DiagnosticClass::Error
            } else {
                DiagnosticClass::Log
            },
        )
    } else {
        None
    }
}

fn is_error_level(level: &str) -> (r: bool)
    ensures
        r == error_level(level@),
{
    eq_ignore_ascii_case(level, "WARN") || eq_ignore_ascii_case(level, "WARNING")
        || eq_ignore_ascii_case(level, "ERROR") || eq_ignore_ascii_case(level, "FATAL")
        || eq_ignore_ascii_case(level, "CRITICAL")
}

pub fn diagnostic_class(event: &Event) -> (r: Option<DiagnosticClass>)
    ensures
        r == class_of(*event),
{
    let name = event.event.as_str();
    if !event.chat_enabled || same(name, CHATSTRONOMY_COMMAND_FAILED) {
        return None;
    }
    if starts_with(name, "ERROR-") || ends_with(name, "-FAILED") || ends_with(name, "-TIMEOUT") {
        return Some(DiagnosticClass::Error);
    }
    if same(name, NINA_LOG) || same(name, NINA_NOTIFICATION) {
        let level = match &event.details {
            Some(EventDetails::NinaLog { level, .. }) => trim(level.as_str()),
            Some(EventDetails::NinaNotification { level, .. }) => trim(level.as_str()),
            _ => String::from_str(""),
        };
        return Some(
            if is_error_level(level.as_str()) {
                DiagnosticClass::Error
            } else {
                DiagnosticClass::Log
            },
        );
    }
    None
}

/// A budget that refills over time.
#[derive(Clone, Copy, Debug, PartialEq, Eq, Structural)]
pub struct TokenBucket {
    pub capacity: Double,
    pub tokens: Double,
    pub refill_interval: Duration,
    pub updated_at: Tick,
}

/// The lesser of two numbers; the other one where one is not a number.
pub open spec fn lesser(a: Double, b: Double) -> Double {
    if a.nan() {
        b
    } else if b.nan() || a.lt(b) {
        a
    } else {
        b
    }
}

impl TokenBucket {
    /// The tokens at `now`: one more for each interval that has passed, up to the capacity.
    pub open spec fn refilled(self, now: Tick) -> Double {
        lesser(
            self.tokens.sum(
                now.since_spec(self.updated_at).secs_double().quotient(
                    self.refill_interval.secs_double(),
                ),
            ),
            self.capacity,
        )
    }

    /// A token is there at `now`.
    pub open spec fn allows(self, now: Tick) -> bool {
        !self.refilled(now).lt(Double { bits: ONE })
    }

    /// The budget after a request at `now`.
    pub open spec fn after(self, now: Tick) -> TokenBucket {
        TokenBucket {
            tokens: if self.allows(now) {
                self.refilled(now).difference(Double { bits: ONE })
            } else {
                self.refilled(now)
            },
            updated_at: now,
            ..self
        }
    }

    pub fn new(capacity: u32, refill_seconds: u64, now: Tick) -> (r: Self)
        ensures
            r.capacity == crate::double::whole(capacity as nat),
            r.tokens == r.capacity,
            r.refill_interval.nanos == refill_seconds * 1_000_000_000,
            r.refill_interval.wf(),
            r.updated_at == now,
    {
        let full: Double = Double::from_whole(capacity as u64);
        TokenBucket {
            capacity: full,
            tokens: full,
            refill_interval: Duration::from_secs(refill_seconds),
            updated_at: now,
        }
    }

    pub fn allow(&mut self, now: Tick) -> (r: bool)
        requires
            old(self).refill_interval.wf(),
        ensures
            r == old(self).allows(now),
            *final(self) == old(self).after(now),
    {
        let passed: Double = now.since(self.updated_at).as_secs_double();
        let gained: Double = passed.over(self.refill_interval.as_secs_double());
        let sum: Double = self.tokens.plus(gained);
        let tokens: Double = if sum.is_nan() {
            self.capacity
        } else if self.capacity.is_nan() || sum.less(self.capacity) {
            sum
        } else {
            self.capacity
        };
        self.updated_at = now;
        if tokens.less(Double { bits: ONE }) {
            self.tokens = tokens;
            return false;
        }
        self.tokens = tokens.minus(Double { bits: ONE });
        true
    }
}

/// `RandomState::new`: a hasher with keys of its own.
#[verifier::external_body]
pub(crate) fn new_hasher() -> (r: RandomState) {
    RandomState::new()
}

/// What tells one diagnostic from another: the event's name and its details. Its time is left
/// out, as it differs with every repetition.
pub struct Diagnostic<'a> {
    pub name: &'a str,
    pub details: &'a Option<EventDetails>,
}

/// The diagnostic that an event reports.
pub fn diagnostic(event: &Event) -> (r: Diagnostic<'_>)
    ensures
        r.name@ == event.event@,
        *r.details == event.details,
{
    Diagnostic { name: event.event.as_str(), details: &event.details }
}

/// `RandomState::hash_one` of a diagnostic's name and of its details as they are printed for
/// debugging. Nothing is known of the number: the hasher's keys differ from run to run.
#[verifier::external_body]
fn fingerprint_of(hasher: &RandomState, diagnostic: &Diagnostic<'_>) -> (r: u64) {
    hasher.hash_one((diagnostic.name, format!("{:?}", diagnostic.details)))
}

/// Limits the diagnostics of one telescope. Only hashes of those let through are kept.
pub struct EventRateLimiter {
    errors: TokenBucket,
    logs: TokenBucket,
    fingerprints: VecDeque<(u64, Tick)>,
    hasher: RandomState,
}

/// What a limiter knows: both budgets, and when which diagnostics were let through.
#[verifier::ext_equal]
pub struct LimiterView {
    pub errors: TokenBucket,
    pub logs: TokenBucket,
    pub recent: Seq<(u64, Tick)>,
}

/// `recent` without the entries at its start that are a minute old.
pub open spec fn still_recent(recent: Seq<(u64, Tick)>, now: Tick) -> Seq<(u64, Tick)>
    decreases recent.len(),
{
    if recent.len() > 0 && now.since_spec(recent[0].1).nanos >= REPEAT_INTERVAL_NANOS {
        still_recent(recent.subrange(1, recent.len() as int), now)
    } else {
        recent
    }
}

/// The diagnostic is among those remembered.
pub open spec fn remembers(recent: Seq<(u64, Tick)>, fingerprint: u64) -> bool {
    exists|i: int| 0 <= i < recent.len() && (#[trigger] recent[i]).0 == fingerprint
}

/// `recent` with one more diagnostic, the oldest left out where there are too many.
pub open spec fn remember(recent: Seq<(u64, Tick)>, fingerprint: u64, now: Tick) -> Seq<
    (u64, Tick),
> {
    if recent.len() == MAX_FINGERPRINTS {
        recent.subrange(1, recent.len() as int).push((fingerprint, now))
    } else {
        recent.push((fingerprint, now))
    }
}

impl LimiterView {
    pub open spec fn bucket(self, class: DiagnosticClass) -> TokenBucket {
        match class {
            DiagnosticClass::Error => self.errors,
            DiagnosticClass::Log => self.logs,
        }
    }

    /// A diagnostic passes where it has not just passed and its budget has a token.
    pub open spec fn passes(self, class: DiagnosticClass, fingerprint: u64, now: Tick) -> bool {
        !remembers(still_recent(self.recent, now), fingerprint) && self.bucket(class).allows(now)
    }

    pub open spec fn after(self, class: DiagnosticClass, fingerprint: u64, now: Tick) -> LimiterView {
        let recent = still_recent(self.recent, now);
        if remembers(recent, fingerprint) {
            LimiterView { recent, ..self }
        } else {
            let kept = if self.bucket(class).allows(now) {
                remember(recent, fingerprint, now)
            } else {
                recent
            };
            match class {
                DiagnosticClass::Error => LimiterView {
                    errors: self.errors.after(now),
                    recent: kept,
                    ..self
                },
                DiagnosticClass::Log => LimiterView {
                    logs: self.logs.after(now),
                    recent: kept,
                    ..self
                },
            }
        }
    }
}

impl EventRateLimiter {
    pub closed spec fn view(&self) -> LimiterView {
        LimiterView { errors: self.errors, logs: self.logs, recent: self.fingerprints@ }
    }

    /// The hasher that diagnostics are told apart by.
    pub closed spec fn hashes_with(&self) -> RandomState {
        self.hasher
    }

    pub closed spec fn wf(&self) -> bool {
        &&& self.errors.refill_interval.wf()
        &&& self.logs.refill_interval.wf()
        &&& self.fingerprints@.len() <= MAX_FINGERPRINTS
    }

    /// Five errors at once and one more every twelve seconds; ten log entries at once and one
    /// more every six seconds.
    pub fn new(now: Tick) -> (r: Self)
        ensures
            r.wf(),
            r@.recent.len() == 0,
            r@.errors.capacity == crate::double::whole(5),
            r@.errors.tokens == r@.errors.capacity,
            r@.errors.refill_interval.nanos == 12_000_000_000,
            r@.errors.updated_at == now,
            r@.logs.capacity == crate::double::whole(10),
            r@.logs.tokens == r@.logs.capacity,
            r@.logs.refill_interval.nanos == 6_000_000_000,
            r@.logs.updated_at == now,
    {
        EventRateLimiter {
            errors: TokenBucket::new(5, 12, now),
            logs: TokenBucket::new(10, 6, now),
            fingerprints: VecDeque::new(),
            hasher: new_hasher(),
        }
    }

    /// How many diagnostics are remembered.
    pub fn remembered(&self) -> (r: usize)
        ensures
            r == self@.recent.len(),
    {
        self.fingerprints.len()
    }

    /// Decides on a diagnostic with the given fingerprint.
    pub fn allow_fingerprint(&mut self, class: DiagnosticClass, fingerprint: u64, now: Tick) -> (r:
        bool)
        requires
            old(self).wf(),
        ensures
            final(self).wf(),
            r == old(self)@.passes(class, fingerprint, now),
            final(self)@ == old(self)@.after(class, fingerprint, now),
            final(self).hashes_with() == old(self).hashes_with(),
    {
        while self.fingerprints.len() > 0 && now.since(self.fingerprints[0].1).nanos
            >= REPEAT_INTERVAL_NANOS
            invariant
                self.fingerprints@.len() <= MAX_FINGERPRINTS,
                still_recent(self.fingerprints@, now) == still_recent(old(self).fingerprints@, now),
                self.errors == old(self).errors,
                self.logs == old(self).logs,
                self.hasher == old(self).hasher,
                old(self).wf(),
            decreases self.fingerprints@.len(),
        {
            let ghost before = self.fingerprints@;
            self.fingerprints.pop_front();
            assert(self.fingerprints@ =~= before.subrange(1, before.len() as int));
        }
        let ghost recent = still_recent(old(self).fingerprints@, now);
        let mut i: usize = 0;
        while i < self.fingerprints.len()
            invariant
                i <= self.fingerprints@.len(),
                self.fingerprints@ == recent,
                recent == still_recent(old(self).fingerprints@, now),
                recent.len() <= MAX_FINGERPRINTS,
                self.errors == old(self).errors,
                self.logs == old(self).logs,
                self.hasher == old(self).hasher,
                old(self).wf(),
                forall|j: int| 0 <= j < i ==> (#[trigger] self.fingerprints@[j]).0 != fingerprint,
            decreases self.fingerprints@.len() - i,
        {
            if self.fingerprints[i].0 == fingerprint {
                assert(self.fingerprints@[i as int].0 == fingerprint);
                return false;
            }
            i += 1;
        }
        let allowed: bool = match class {
            DiagnosticClass::Error => self.errors.allow(now),
            DiagnosticClass::Log => self.logs.allow(now),
        };
        if !allowed {
            return false;
        }
        if self.fingerprints.len() == MAX_FINGERPRINTS {
            let ghost before = self.fingerprints@;
            self.fingerprints.pop_front();
            assert(self.fingerprints@ =~= before.subrange(1, before.len() as int));
        }
        self.fingerprints.push_back((fingerprint, now));
        true
    }

    /// Decides on an event at `now`, the time at which the whole history page was received: slow
    /// deliveries must not refill the budget within one page. The event's own time plays no part
    /// in telling repetitions.
    pub fn allow(&mut self, event: &Event, now: Tick) -> (r: bool)
        requires
            old(self).wf(),
        ensures
            final(self).wf(),
            final(self).hashes_with() == old(self).hashes_with(),
            match class_of(*event) {
                None => r && final(self)@ == old(self)@,
                Some(class) => exists|fingerprint: u64|
                    {
                        &&& r == #[trigger] old(self)@.passes(class, fingerprint, now)
                        &&& final(self)@ == old(self)@.after(class, fingerprint, now)
                    },
            },
    {
        let class: DiagnosticClass = match diagnostic_class(event) {
            Some(class) => class,
            None => {
                return true;
            },
        };
        let fingerprint: u64 = fingerprint_of(&self.hasher, &diagnostic(event));
        self.allow_fingerprint(class, fingerprint, now)
    }
}

/// Errors and log entries have budgets of their own: a flood of the one leaves the budget of the
/// other as it is.
pub proof fn floods_leave_the_other_budget(s: LimiterView, fingerprint: u64, now: Tick)
    ensures
        s.after(DiagnosticClass::Log, fingerprint, now).errors == s.errors,
        s.after(DiagnosticClass::Error, fingerprint, now).logs == s.logs,
{
}

/// A diagnostic that was let through is not let through again within a minute, while it is
/// remembered.
pub proof fn repetitions_are_dropped(
    s: LimiterView,
    class: DiagnosticClass,
    fingerprint: u64,
    first: Tick,
    again: Tick,
)
    requires
        s.passes(class, fingerprint, first),
        first.nanos <= again.nanos,
        again.nanos - first.nanos < REPEAT_INTERVAL_NANOS,
    ensures
        !s.after(class, fingerprint, first).passes(class, fingerprint, again),
{
    let recent = s.after(class, fingerprint, first).recent;
    assert(recent.last() == (fingerprint, first));
    lemma_young_stays(recent, again);
}

proof fn lemma_young_stays(recent: Seq<(u64, Tick)>, now: Tick)
    requires
        recent.len() > 0,
        now.since_spec(recent.last().1).nanos < REPEAT_INTERVAL_NANOS,
    ensures
        remembers(still_recent(recent, now), recent.last().0),
    decreases recent.len(),
{
    if now.since_spec(recent[0].1).nanos >= REPEAT_INTERVAL_NANOS {
        lemma_young_stays(recent.subrange(1, recent.len() as int), now);
    } else {
        assert(still_recent(recent, now) == recent);
        assert(recent[recent.len() - 1].0 == recent.last().0);
    }
}

/// At most so many diagnostics are remembered.
pub proof fn memory_is_bounded(s: LimiterView, class: DiagnosticClass, fingerprint: u64, now: Tick)
    requires
        s.recent.len() <= MAX_FINGERPRINTS,
    ensures
        s.after(class, fingerprint, now).recent.len() <= MAX_FINGERPRINTS,
{
    lemma_still_recent_shorter(s.recent, now);
}

proof fn lemma_still_recent_shorter(recent: Seq<(u64, Tick)>, now: Tick)
    ensures
        still_recent(recent, now).len() <= recent.len(),
    decreases recent.len(),
{
    if recent.len() > 0 && now.since_spec(recent[0].1).nanos >= REPEAT_INTERVAL_NANOS {
        lemma_still_recent_shorter(recent.subrange(1, recent.len() as int), now);
    }
}

/// A budget whose tokens are a whole number up to its capacity, refilled every `seconds`.
pub open spec fn holds(b: TokenBucket, capacity: nat, tokens: nat, seconds: nat) -> bool {
    &&& b.capacity == whole(capacity)
    &&& b.tokens == whole(tokens)
    &&& tokens <= capacity < 1_000_000
    &&& 0 < seconds < 1_000_000
    &&& b.refill_interval.nanos == seconds * 1_000_000_000
}

/// The budget after `n` requests at one time.
pub open spec fn after_requests(b: TokenBucket, now: Tick, n: nat) -> TokenBucket
    decreases n,
{
    if n == 0 {
        b
    } else {
        after_requests(b, now, (n - 1) as nat).after(now)
    }
}

/// At the time of its last use a budget has the tokens that it had then.
proof fn lemma_no_refill(b: TokenBucket, capacity: nat, tokens: nat, seconds: nat)
    requires
        holds(b, capacity, tokens, seconds),
    ensures
        b.refilled(b.updated_at) == whole(tokens),
        b.allows(b.updated_at) == (tokens > 0),
        holds(
            b.after(b.updated_at),
            capacity,
            if tokens > 0 {
                (tokens - 1) as nat
            } else {
                0
            },
            seconds,
        ),
        b.after(b.updated_at).updated_at == b.updated_at,
{
    let one = power(2, 1074);
    lemma_power_positive(2, 1074);
    let zero = whole(0);
    small_wholes_are_exact(0);
    small_wholes_are_exact(1);
    small_wholes_are_exact(tokens);
    small_wholes_are_exact(capacity);
    small_wholes_are_exact(seconds);
    adding_zero_keeps(zero);
    adding_zero_keeps(whole(tokens));
    adding_zero_keeps(whole(seconds));
    let billion = Double { bits: BILLION };
    assert(billion.finite() && !billion.negative() && billion.magnitude() > 0);
    zero_divided_is_zero(billion);
    assert(b.refill_interval.nanos as nat / 1_000_000_000 == seconds);
    assert(b.refill_interval.nanos as nat % 1_000_000_000 == 0);
    assert(b.refill_interval.secs_double() == whole(seconds));
    assert(seconds * one > 0) by (nonlinear_arith)
        requires
            seconds > 0,
            one > 0,
    ;
    assert(whole(seconds).magnitude() > 0) by {
        if whole(seconds).magnitude() == 0 {
            assert(units(0) == 0);
        }
    }
    zero_divided_is_zero(whole(seconds));
    let passed = b.updated_at.since_spec(b.updated_at);
    assert(passed.nanos == 0);
    assert(passed.secs_double() == zero);
    order_is_the_order_of_values(whole(tokens), whole(capacity));
    if tokens < capacity {
        assert(tokens * one < capacity * one) by (nonlinear_arith)
            requires
                tokens < capacity,
                one > 0,
        ;
    }
    one_is_whole();
    order_is_the_order_of_values(whole(tokens), whole(1));
    assert(1 * one == one);
    if tokens > 0 {
        assert(tokens * one >= one) by (nonlinear_arith)
            requires
                tokens >= 1,
                one > 0,
        ;
        counting_down(tokens);
    } else {
        assert(0 * one == 0) by (nonlinear_arith);
    }
}

/// At one time a full budget lets through exactly as many diagnostics as its capacity, however
/// many come: a page of history cannot refill the budget that it draws on.
pub proof fn one_page_draws_on_one_budget(b: TokenBucket, capacity: nat, seconds: nat, n: nat)
    requires
        holds(b, capacity, capacity, seconds),
    ensures
        after_requests(b, b.updated_at, n).allows(b.updated_at) == (n < capacity),
{
    lemma_spent(b, capacity, seconds, n);
    let spent = after_requests(b, b.updated_at, n);
    lemma_no_refill(
        spent,
        capacity,
        if n < capacity {
            (capacity - n) as nat
        } else {
            0
        },
        seconds,
    );
}

proof fn lemma_spent(b: TokenBucket, capacity: nat, seconds: nat, n: nat)
    requires
        holds(b, capacity, capacity, seconds),
    ensures
        after_requests(b, b.updated_at, n).updated_at == b.updated_at,
        holds(
            after_requests(b, b.updated_at, n),
            capacity,
            if n < capacity {
                (capacity - n) as nat
            } else {
                0
            },
            seconds,
        ),
    decreases n,
{
    if n > 0 {
        lemma_spent(b, capacity, seconds, (n - 1) as nat);
        let before = after_requests(b, b.updated_at, (n - 1) as nat);
        lemma_no_refill(
            before,
            capacity,
            if n - 1 < capacity {
                (capacity - (n - 1)) as nat
            } else {
                0
            },
            seconds,
        );
    }
}

} // verus!
