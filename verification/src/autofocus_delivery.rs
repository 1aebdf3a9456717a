//! Delivery of autofocus reports: a completed run is told of once its report can be read.

use vstd::prelude::*;
use crate::autofocus::{AutofocusData, AutofocusResponse};
use crate::backoff::{backoff_delay, next_wait};
use crate::calendar::{opt_text, parse_moment, moment_of, Moment};
use crate::chat::{message_at, ChatMessage, MessageView};
use crate::clock::{Duration, Tick, MAX_NANOS};
use crate::colors;
use crate::double::Double;
use crate::events::{Event, EventDetails};
use crate::operation_messages::{
    add_measure, titled, titled_text, with_measure,
};
use crate::source::RigSourceError;
use crate::text::{
    cat2, cat3, cat4, clone_opt, dec, decimal, opt_view, same, trim, trimmed,
};

verus! {

/// How long and how often a report is asked for.
#[derive(Clone, Copy, Debug, PartialEq, Eq, Structural)]
pub struct AutofocusRetryPolicy {
    pub max_attempts: usize,
    pub initial_delay: Duration,
    pub max_delay: Duration,
    /// How long a report may be in preparation. That is a healthy answer: it spends no attempt.
    pub not_ready_timeout: Duration,
    /// How long a report is asked for in all, whatever fails.
    pub overall_timeout: Duration,
}

impl AutofocusRetryPolicy {
    pub open spec fn wf(self) -> bool {
        &&& 2 * self.initial_delay.nanos <= MAX_NANOS
        &&& 2 * self.max_delay.nanos <= MAX_NANOS
        &&& self.not_ready_timeout.wf()
        &&& self.overall_timeout.wf()
    }

    /// Five attempts, one to eight seconds apart, for two minutes at most.
    pub fn standard() -> (r: AutofocusRetryPolicy)
        ensures
            r.wf(),
            r.max_attempts == 5,
            r.initial_delay.nanos == 1_000_000_000,
            r.max_delay.nanos == 8_000_000_000,
            r.not_ready_timeout.nanos == 120_000_000_000,
            r.overall_timeout.nanos == 120_000_000_000,
    {
        AutofocusRetryPolicy {
            max_attempts: 5,
            initial_delay: Duration::from_secs(1),
            max_delay: Duration::from_secs(8),
            not_ready_timeout: Duration::from_secs(120),
            overall_timeout: Duration::from_secs(120),
        }
    }
}

/// A completed run whose report has not been delivered.
#[derive(Debug)]
pub struct PendingAutofocusDelivery {
    pub event_time: String,
    pub report_timestamp: Option<String>,
    pub filter: Option<String>,
    pub position: Option<Double>,
    pub temperature: Option<Double>,
    pub attempts: usize,
    pub queued_at: Tick,
    pub not_ready_since: Option<Tick>,
    pub next_attempt_at: Tick,
    pub retry_delay: Duration,
    pub retry: AutofocusRetryPolicy,
}

impl PendingAutofocusDelivery {
    pub open spec fn wf(&self) -> bool {
        &&& self.retry.wf()
        &&& 2 * self.retry_delay.nanos <= MAX_NANOS
    }

    /// The delivery that an event asks for.
    pub open spec fn queued(event: Event, now: Tick, retry: AutofocusRetryPolicy) -> PendingAutofocusDelivery {
        let (report_timestamp, filter, position, temperature) = match event.details {
            Some(EventDetails::AutofocusFinished { report_timestamp, filter, position, temperature }) => (
                Some(report_timestamp),
                filter,
                position,
                temperature,
            ),
            _ => (None, None, None, None),
        };
        PendingAutofocusDelivery {
            event_time: event.time,
            report_timestamp,
            filter,
            position,
            temperature,
            attempts: 0,
            queued_at: now,
            not_ready_since: None,
            next_attempt_at: now,
            retry_delay: retry.initial_delay,
            retry,
        }
    }
}

/// What reading the report led to.
#[derive(Debug)]
pub enum ReadOutcome {
    /// There was no answer in time.
    TimedOut,
    Failed(RigSourceError),
    /// A report came, with this timestamp.
    Report(String),
}

/// What becomes of a delivery.
#[derive(Debug)]
pub enum Resolution {
    /// The report is the one that was waited for.
    Deliver,
    /// The report is given up.
    Unavailable,
    /// The report is asked for again.
    Retry(PendingAutofocusDelivery),
}

/// A report is the one that a completion names, given the times that both texts name. A
/// completion that names none takes any report.
pub open spec fn report_matches_at(
    expected: Option<Seq<char>>,
    actual: Seq<char>,
    expected_at: Option<Moment>,
    actual_at: Option<Moment>,
) -> bool {
    match expected {
        None => true,
        Some(text) => match (expected_at, actual_at) {
            (Some(e), Some(a)) => e == a,
            _ => trimmed(text) == trimmed(actual),
        },
    }
}

/// A report is the one that a completion names.
pub open spec fn report_matches(expected: Option<Seq<char>>, actual: Seq<char>) -> bool {
    report_matches_at(
        expected,
        actual,
        match expected {
            Some(text) => moment_of(text),
            None => None,
        },
        moment_of(actual),
    )
}

pub fn report_times_match(
    expected: Option<&str>,
    actual: &str,
    expected_at: Option<Moment>,
    actual_at: Option<Moment>,
) -> (r: bool)
    ensures
        r == report_matches_at(opt_text(expected), actual@, expected_at, actual_at),
{
    match expected {
        None => true,
        Some(text) => match (expected_at, actual_at) {
            (Some(e), Some(a)) => e == a,
            _ => same(trim(text).as_str(), trim(actual).as_str()),
        },
    }
}

pub fn autofocus_report_matches(expected: Option<&str>, actual: &str) -> (r: bool)
    ensures
        r == report_matches(opt_text(expected), actual@),
{
    let expected_at: Option<Moment> = match expected {
        Some(text) => parse_moment(text),
        None => None,
    };
    report_times_match(expected, actual, expected_at, parse_moment(actual))
}

pub open spec fn shorter(a: Duration, b: Duration) -> Duration {
    if a.nanos <= b.nanos {
        a
    } else {
        b
    }
}

pub open spec fn longer(a: Duration, b: Duration) -> Duration {
    if a.nanos >= b.nanos {
        a
    } else {
        b
    }
}

pub open spec fn left(total: Duration, used: Duration) -> Duration {
    Duration {
        nanos: if total.nanos >= used.nanos {
            (total.nanos - used.nanos) as u128
        } else {
            0
        },
    }
}

fn min_of(a: Duration, b: Duration) -> (r: Duration)
    ensures
        r == shorter(a, b),
{
    if a.nanos <= b.nanos {
        a
    } else {
        b
    }
}

fn max_of(a: Duration, b: Duration) -> (r: Duration)
    ensures
        r == longer(a, b),
{
    if a.nanos >= b.nanos {
        a
    } else {
        b
    }
}

fn rest_of(total: Duration, used: Duration) -> (r: Duration)
    ensures
        r == left(total, used),
{
    if total.nanos >= used.nanos {
        Duration { nanos: total.nanos - used.nanos }
    } else {
        Duration { nanos: 0 }
    }
}

/// A millisecond.
pub const MILLISECOND_NANOS: u128 = 1_000_000;

impl PendingAutofocusDelivery {
    /// The delivery has lived as long as it may.
    pub open spec fn expired(&self, now: Tick) -> bool {
        now.since_spec(self.queued_at).nanos >= self.retry.overall_timeout.nanos
    }

    /// The time that the delivery has left.
    pub open spec fn remaining(&self, now: Tick) -> Duration {
        left(self.retry.overall_timeout, now.since_spec(self.queued_at))
    }

    /// The clock can tell the time of the next attempt.
    pub open spec fn can_wait(&self, now: Tick) -> bool {
        now.nanos + self.retry.overall_timeout.nanos <= u64::MAX
    }

    /// The delivery with its next attempt after `delay`, and the delay after that.
    pub open spec fn postponed(&self, now: Tick, delay: Duration, next_delay: Duration) -> PendingAutofocusDelivery {
        PendingAutofocusDelivery {
            next_attempt_at: Tick { nanos: (now.nanos + delay.nanos) as u64 },
            retry_delay: next_delay,
            ..*self
        }
    }

    /// After the source could not be reached. That spends no attempt.
    pub open spec fn after_outage(&self, now: Tick) -> Resolution {
        if self.expired(now) {
            Resolution::Unavailable
        } else {
            let initial = longer(
                self.retry.initial_delay,
                Duration { nanos: MILLISECOND_NANOS },
            );
            let delay = shorter(longer(self.retry_delay, initial), self.remaining(now));
            Resolution::Retry(
                self.postponed(now, delay, next_wait(delay, initial, self.retry.max_delay)),
            )
        }
    }

    /// After an attempt failed, with that attempt counted.
    pub open spec fn after_failure(&self, now: Tick) -> Resolution {
        let limit: int = if self.retry.max_attempts == 0 {
            1
        } else {
            self.retry.max_attempts as int
        };
        if self.attempts + 1 >= limit || self.expired(now) {
            Resolution::Unavailable
        } else {
            let delay = shorter(self.retry_delay, self.remaining(now));
            Resolution::Retry(
                PendingAutofocusDelivery {
                    attempts: (self.attempts + 1) as usize,
                    ..self.postponed(
                        now,
                        delay,
                        next_wait(delay, self.retry.initial_delay, self.retry.max_delay),
                    )
                },
            )
        }
    }

    /// After the report was still in preparation. That spends no attempt.
    pub open spec fn after_not_ready(&self, now: Tick) -> Resolution {
        let since = match self.not_ready_since {
            Some(t) => t,
            None => now,
        };
        let waited = now.since_spec(since);
        if waited.nanos >= self.retry.not_ready_timeout.nanos || self.expired(now) {
            Resolution::Unavailable
        } else {
            let delay = shorter(
                shorter(self.retry_delay, left(self.retry.not_ready_timeout, waited)),
                self.remaining(now),
            );
            Resolution::Retry(
                PendingAutofocusDelivery {
                    not_ready_since: Some(since),
                    ..self.postponed(
                        now,
                        delay,
                        next_wait(
                            self.retry_delay,
                            self.retry.initial_delay,
                            self.retry.max_delay,
                        ),
                    )
                },
            )
        }
    }

    /// What becomes of the delivery.
    pub open spec fn resolved(&self, outcome: ReadOutcome, now: Tick) -> Resolution {
        match outcome {
            ReadOutcome::TimedOut => Resolution::Unavailable,
            ReadOutcome::Failed(RigSourceError::Unavailable { .. }) => self.after_outage(now),
            ReadOutcome::Failed(RigSourceError::NotReady { .. }) => self.after_not_ready(now),
            ReadOutcome::Failed(_) => self.after_failure(now),
            ReadOutcome::Report(timestamp) => if report_matches(
                opt_view(self.report_timestamp),
                timestamp@,
            ) {
                Resolution::Deliver
            } else {
                self.after_failure(now)
            },
        }
    }

    pub fn new(event: &Event, now: Tick, retry: AutofocusRetryPolicy) -> (r: Self)
        requires
            retry.wf(),
        ensures
            r == PendingAutofocusDelivery::queued(*event, now, retry),
            r.wf(),
    {
        let (report_timestamp, filter, position, temperature): (
            Option<String>,
            Option<String>,
            Option<Double>,
            Option<Double>,
        ) = match &event.details {
            Some(EventDetails::AutofocusFinished { report_timestamp, filter, position, temperature }) => (
                Some(report_timestamp.clone()),
                clone_opt(filter),
                *position,
                *temperature,
            ),
            _ => (None, None, None, None),
        };
        PendingAutofocusDelivery {
            event_time: event.time.clone(),
            report_timestamp,
            filter,
            position,
            temperature,
            attempts: 0,
            queued_at: now,
            not_ready_since: None,
            next_attempt_at: now,
            retry_delay: retry.initial_delay,
            retry,
        }
    }

    fn is_expired(&self, now: Tick) -> (r: bool)
        ensures
            r == self.expired(now),
    {
        now.since(self.queued_at).nanos >= self.retry.overall_timeout.nanos
    }

    fn time_left(&self, now: Tick) -> (r: Duration)
        ensures
            r == self.remaining(now),
            r.nanos <= self.retry.overall_timeout.nanos,
    {
        rest_of(self.retry.overall_timeout, now.since(self.queued_at))
    }

    fn postpone(self, now: Tick, delay: Duration, next_delay: Duration) -> (r: Self)
        requires
            self.wf(),
            now.nanos + delay.nanos <= u64::MAX,
            2 * next_delay.nanos <= MAX_NANOS,
        ensures
            r == self.postponed(now, delay, next_delay),
            r.wf(),
    {
        PendingAutofocusDelivery {
            next_attempt_at: Tick { nanos: now.nanos + delay.nanos as u64 },
            retry_delay: next_delay,
            ..self
        }
    }

    /// After the source could not be reached.
    pub fn pause_for_outage(self, now: Tick) -> (r: Resolution)
        requires
            self.wf(),
            self.can_wait(now),
        ensures
            r == self.after_outage(now),
            r matches Resolution::Retry(d) ==> d.wf(),
    {
        if self.is_expired(now) {
            return Resolution::Unavailable;
        }
        let initial: Duration = max_of(
            self.retry.initial_delay,
            Duration { nanos: MILLISECOND_NANOS },
        );
        let delay: Duration = min_of(max_of(self.retry_delay, initial), self.time_left(now));
        let next: Duration = backoff_delay(delay, initial, self.retry.max_delay);
        Resolution::Retry(self.postpone(now, delay, next))
    }

    /// After an attempt failed.
    pub fn retry_autofocus_delivery(self, now: Tick) -> (r: Resolution)
        requires
            self.wf(),
            self.can_wait(now),
        ensures
            r == self.after_failure(now),
            r matches Resolution::Retry(d) ==> d.wf(),
    {
        let limit: usize = if self.retry.max_attempts == 0 {
            1
        } else {
            self.retry.max_attempts
        };
        if self.attempts >= limit - 1 || self.is_expired(now) {
            return Resolution::Unavailable;
        }
        let delay: Duration = min_of(self.retry_delay, self.time_left(now));
        let next: Duration = backoff_delay(delay, self.retry.initial_delay, self.retry.max_delay);
        let attempts: usize = self.attempts + 1;
        let later = self.postpone(now, delay, next);
        Resolution::Retry(PendingAutofocusDelivery { attempts, ..later })
    }

    /// After the report was still in preparation.
    pub fn retry_autofocus_not_ready(self, now: Tick) -> (r: Resolution)
        requires
            self.wf(),
            self.can_wait(now),
        ensures
            r == self.after_not_ready(now),
            r matches Resolution::Retry(d) ==> d.wf(),
    {
        let since: Tick = match self.not_ready_since {
            Some(t) => t,
            None => now,
        };
        let waited: Duration = now.since(since);
        if waited.nanos >= self.retry.not_ready_timeout.nanos || self.is_expired(now) {
            return Resolution::Unavailable;
        }
        let delay: Duration = min_of(
            min_of(self.retry_delay, rest_of(self.retry.not_ready_timeout, waited)),
            self.time_left(now),
        );
        let next: Duration = backoff_delay(
            self.retry_delay,
            self.retry.initial_delay,
            self.retry.max_delay,
        );
        let later = self.postpone(now, delay, next);
        Resolution::Retry(PendingAutofocusDelivery { not_ready_since: Some(since), ..later })
    }

    /// Decides what becomes of the delivery once its report was read, or was not.
    pub fn resolve(self, outcome: &ReadOutcome, now: Tick) -> (r: Resolution)
        requires
            self.wf(),
            self.can_wait(now),
        ensures
            r == self.resolved(*outcome, now),
            r matches Resolution::Retry(d) ==> d.wf(),
    {
        match outcome {
            ReadOutcome::TimedOut => Resolution::Unavailable,
            ReadOutcome::Failed(error) => match error {
                RigSourceError::Unavailable { .. } => self.pause_for_outage(now),
                RigSourceError::NotReady { .. } => self.retry_autofocus_not_ready(now),
                _ => self.retry_autofocus_delivery(now),
            },
            ReadOutcome::Report(timestamp) => {
                let expected: Option<&str> = match &self.report_timestamp {
                    Some(text) => Some(text.as_str()),
                    None => None,
                };
                if autofocus_report_matches(expected, timestamp.as_str()) {
                    Resolution::Deliver
                } else {
                    self.retry_autofocus_delivery(now)
                }
            },
        }
    }

    /// Whether to read the report now.
    pub fn due(&self, now: Tick) -> (r: DueAction)
        ensures
            r == self.due_action(now),
    {
        if now.nanos < self.next_attempt_at.nanos {
            DueAction::Wait
        } else if self.is_expired(now) {
            DueAction::GiveUp
        } else {
            DueAction::Read { timeout: self.time_left(now) }
        }
    }

    pub open spec fn due_action(&self, now: Tick) -> DueAction {
        if now.nanos < self.next_attempt_at.nanos {
            DueAction::Wait
        } else if self.expired(now) {
            DueAction::GiveUp
        } else {
            DueAction::Read { timeout: self.remaining(now) }
        }
    }
}

/// What to do about a delivery at some time.
#[derive(Clone, Copy, Debug, PartialEq, Eq, Structural)]
pub enum DueAction {
    Wait,
    GiveUp,
    /// Read the report, for so long at most.
    Read { timeout: Duration },
}

/// A report is delivered exactly where it is the one that the completed run names; no failure and
/// no other run's report ever is.
pub proof fn only_the_named_report_is_delivered(
    d: PendingAutofocusDelivery,
    outcome: ReadOutcome,
    now: Tick,
)
    ensures
        d.resolved(outcome, now) is Deliver <==> (outcome matches ReadOutcome::Report(timestamp)
            && report_matches(opt_view(d.report_timestamp), timestamp@)),
{
}

/// A delivery that is put off is due before its lifetime ends, and after that it is given up:
/// none lasts forever.
pub proof fn deliveries_are_bounded_in_time(
    d: PendingAutofocusDelivery,
    outcome: ReadOutcome,
    now: Tick,
    later: PendingAutofocusDelivery,
)
    requires
        d.queued_at.nanos <= now.nanos,
        d.can_wait(now),
        d.resolved(outcome, now) == Resolution::Retry(later),
    ensures
        later.queued_at == d.queued_at,
        later.retry == d.retry,
        later.next_attempt_at.nanos <= d.queued_at.nanos + d.retry.overall_timeout.nanos,
        forall|t: Tick|
            t.nanos >= d.queued_at.nanos + d.retry.overall_timeout.nanos
                ==> #[trigger] later.due_action(t) == DueAction::GiveUp,
{
}

/// Only failed attempts are counted: outages and reports in preparation spend none, and the
/// counted attempts stay below the limit.
pub proof fn only_failures_spend_attempts(
    d: PendingAutofocusDelivery,
    outcome: ReadOutcome,
    now: Tick,
    later: PendingAutofocusDelivery,
)
    requires
        d.resolved(outcome, now) == Resolution::Retry(later),
    ensures
        outcome matches ReadOutcome::Failed(RigSourceError::Unavailable { .. }) ==> later.attempts
            == d.attempts,
        outcome matches ReadOutcome::Failed(RigSourceError::NotReady { .. }) ==> later.attempts
            == d.attempts,
        later.attempts == d.attempts || (later.attempts == d.attempts + 1 && later.attempts
            < d.retry.max_attempts),
{
}

/// What is told of a run whose report cannot be had.
pub open spec fn unavailable_message(
    telescope: Seq<char>,
    d: PendingAutofocusDelivery,
    now: Moment,
) -> MessageView {
    let a = message_at(
        titled_text(telescope, "⚠️ Autofocus Completed · Report Unavailable"@),
        now,
    ).colored(colors::ORANGE).with("Time"@, d.event_time@, false).with(
        "Report"@,
        "N.I.N.A. completed autofocus, but the saved report could not be retrieved."@,
        false,
    );
    let b = match d.filter {
        Some(f) => a.with(
            "Filter"@,
            if trimmed(f@).len() == 0 {
                "No filter"@
            } else {
                trimmed(f@)
            },
            true,
        ),
        None => a,
    };
    with_measure(with_measure(b, "Position"@, d.position, 0, ""@), "Temperature"@, d.temperature, 1, " °C"@)
}

pub fn autofocus_unavailable_message(
    telescope: &str,
    d: &PendingAutofocusDelivery,
    now: Moment,
) -> (r: ChatMessage)
    requires
        now.wf(),
    ensures
        r@ == unavailable_message(telescope@, *d, now),
{
    let mut m = ChatMessage::new_at(
        titled(telescope, "⚠️ Autofocus Completed · Report Unavailable").as_str(),
        now,
    ).color(colors::ORANGE).field("Time", d.event_time.as_str(), false).field(
        "Report",
        "N.I.N.A. completed autofocus, but the saved report could not be retrieved.",
        false,
    );
    if let Some(f) = &d.filter {
        let name = trim(f.as_str());
        if name.as_str().is_empty() {
            m = m.field("Filter", "No filter", true);
        } else {
            m = m.field("Filter", name.as_str(), true);
        }
    }
    m = add_measure(m, "Position", d.position, 0, "");
    add_measure(m, "Temperature", d.temperature, 1, " °C")
}

pub open spec fn value_or_na(value: Option<Double>, places: nat) -> Seq<char> {
    match value {
        Some(v) => v.fixed_text(places),
        None => "n/a"@,
    }
}

fn shown_or_na(value: Option<Double>, places: usize) -> (r: String)
    requires
        places <= 20,
    ensures
        r@ == value_or_na(value, places as nat),
{
    match value {
        Some(v) => v.fixed(places),
        None => String::from_str("n/a"),
    }
}

pub open spec fn with_text(m: MessageView, name: Seq<char>, text: Option<Seq<char>>, inline: bool) -> MessageView {
    match text {
        Some(t) => m.with(name, t, inline),
        None => m,
    }
}

fn add_text(message: ChatMessage, name: &str, text: &Option<String>, inline: bool) -> (r: ChatMessage)
    ensures
        r@ == with_text(message@, name@, opt_view(*text), inline),
{
    match text {
        Some(t) => message.field(name, t.as_str(), inline),
        None => message,
    }
}

/// How far the focuser was moved, with a sign in front of a move outward.
pub open spec fn move_text(a: AutofocusData) -> Seq<char> {
    let change = a.calculated_focus_point.position.difference(a.initial_focus_point.position);
    if (Double { bits: 0 }).lt(change) {
        "+"@ + change.fixed_text(0)
    } else {
        change.fixed_text(0)
    }
}

/// The run counts as successful.
pub open spec fn successful(r: AutofocusResponse) -> bool {
    r.success && r.response.calculated_focus_point.error.same_number(Double { bits: 0 })
}

/// The fields that every report has.
pub open spec fn report_fields(m: MessageView, a: AutofocusData) -> MessageView {
    m.with(
        "Filter"@,
        if trimmed(a.filter@).len() == 0 {
            "No filter"@
        } else {
            trimmed(a.filter@)
        },
        true,
    ).with("Mode"@, a.method_text(), true).with("Duration"@, a.duration@, true).with(
        "Temperature"@,
        if a.temperature.finite() {
            a.temperature.fixed_text(1) + "°C"@
        } else {
            "n/a"@
        },
        true,
    ).with("Focus Position"@, a.calculated_focus_point.position.fixed_text(0), true).with(
        "Position Change"@,
        move_text(a),
        true,
    ).with(a.measurement_text() + " Before"@, value_or_na(a.hfr_before(), 3), true).with(
        a.final_label_text(),
        value_or_na(a.hfr_after(), 3),
        true,
    ).with(
        "Fit R²"@,
        match a.fit_quality_text() {
            Some(t) => t,
            None => "n/a"@,
        },
        true,
    ).with("Measurements"@, dec(a.measure_points@.len()), true).footed(
        "Focuser: "@ + a.auto_focuser_name@,
    )
}

pub open spec fn detection_text(a: AutofocusData) -> Option<Seq<char>> {
    if a.detection_parts().len() == 0 {
        None
    } else {
        Some(crate::text::joined(a.detection_parts(), " · "@))
    }
}

/// The fields that a report has as far as the run provides them.
pub open spec fn report_extras(m: MessageView, a: AutofocusData) -> MessageView {
    let b = with_text(m, "Accepted stars / point"@, a.star_count_text(), true);
    let c = match a.hyperbolic_minimum_std_error {
        Some(v) => b.with("Focus precision"@, "±"@ + v.fixed_text(2) + " steps"@, true),
        None => b,
    };
    let d = with_measure(c, "LOO stability"@, a.hyperbolic_leave_one_out_std_error, 2, " steps"@);
    let e = with_measure(d, "Reduced χ²"@, a.hyperbolic_reduced_chi_squared, 4, ""@);
    let f = with_text(e, "Detection region"@, a.region_text(), true);
    let g = with_text(f, "Acceptance"@, a.fit_acceptance_text(), true);
    with_text(g, "Star detection"@, detection_text(a), false)
}

/// What is told of a run; nothing where the request for its report was not successful.
pub open spec fn report_message(telescope: Seq<char>, r: AutofocusResponse, now: Moment) -> Option<
    MessageView,
> {
    if !r.success {
        None
    } else {
        let title = "["@ + telescope + "] "@ + (if successful(r) {
            "✅"@
        } else {
            "⚠️"@
        }) + " Autofocus Completed"@;
        let head = message_at(title, now).colored(
            if successful(r) {
                colors::GREEN
            } else {
                colors::ORANGE
            },
        );
        Some(report_extras(report_fields(head, r.response), r.response))
    }
}

fn add_report_fields(message: ChatMessage, a: &AutofocusData) -> (r: ChatMessage)
    ensures
        r@ == report_fields(message@, *a),
{
    let temperature = if a.temperature.is_finite() {
        cat2(a.temperature.fixed(1).as_str(), "°C")
    } else {
        String::from_str("n/a")
    };
    let change: Double = a.calculated_focus_point.position.minus(a.initial_focus_point.position);
    let change_text = if (Double { bits: 0 }).less(change) {
        cat2("+", change.fixed(0).as_str())
    } else {
        change.fixed(0)
    };
    let before = cat2(a.measurement_name(), " Before");
    let quality = match a.fit_quality_summary() {
        Some(t) => t,
        None => String::from_str("n/a"),
    };
    let focuser = cat2("Focuser: ", a.auto_focuser_name.as_str());
    message.field("Filter", a.filter_name().as_str(), true).field(
        "Mode",
        a.method_summary().as_str(),
        true,
    ).field("Duration", a.duration.as_str(), true).field(
        "Temperature",
        temperature.as_str(),
        true,
    ).field(
        "Focus Position",
        a.calculated_focus_point.position.fixed(0).as_str(),
        true,
    ).field("Position Change", change_text.as_str(), true).field(
        before.as_str(),
        shown_or_na(a.initial_hfr(), 3).as_str(),
        true,
    ).field(
        a.final_measurement_label().as_str(),
        shown_or_na(a.final_hfr(), 3).as_str(),
        true,
    ).field("Fit R²", quality.as_str(), true).field(
        "Measurements",
        decimal(a.measure_points.len() as u128).as_str(),
        true,
    ).footer(focuser.as_str())
}

fn add_report_extras(message: ChatMessage, a: &AutofocusData) -> (r: ChatMessage)
    ensures
        r@ == report_extras(message@, *a),
{
    let mut m = add_text(message, "Accepted stars / point", &a.accepted_star_count_summary(), true);
    if let Some(v) = a.hyperbolic_minimum_std_error {
        let text = cat3("±", v.fixed(2).as_str(), " steps");
        m = m.field("Focus precision", text.as_str(), true);
    }
    m = add_measure(m, "LOO stability", a.hyperbolic_leave_one_out_std_error, 2, " steps");
    m = add_measure(m, "Reduced χ²", a.hyperbolic_reduced_chi_squared, 4, "");
    m = add_text(m, "Detection region", &a.region_summary(), true);
    m = add_text(m, "Acceptance", &a.fit_acceptance_summary(), true);
    add_text(m, "Star detection", &a.detection_summary(), false)
}

/// Writes what is told of a run.
pub fn autofocus_message(telescope: &str, report: &AutofocusResponse, now: Moment) -> (r: Option<
    ChatMessage,
>)
    requires
        now.wf(),
    ensures
        crate::event_messages::opt_message(r) == report_message(telescope@, *report, now),
{
    if !report.success {
        return None;
    }
    let good: bool = report.is_successful();
    let mut title = cat4(
        "[",
        telescope,
        "] ",
        if good {
            "✅"
        } else {
            "⚠️"
        },
    );
    title.append(" Autofocus Completed");
    let head = ChatMessage::new_at(title.as_str(), now).color(
        if good {
            colors::GREEN
        } else {
            colors::ORANGE
        },
    );
    Some(add_report_extras(add_report_fields(head, &report.response), &report.response))
}

} // verus!
