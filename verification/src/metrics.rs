//! Counters of what the proxy has done.
use crate::text;
use vstd::prelude::*;

verus! {

/// The counters at one moment.
#[derive(Debug, Clone, Copy, PartialEq, Eq, Structural)]
pub struct MetricsSnapshot {
    pub total_requests: u64,
    pub successful_requests: u64,
    pub failed_requests: u64,
    pub bytes_received: u64,
    pub bytes_sent: u64,
    pub sni_rewrites: u64,
    pub upstream_errors: u64,
    pub processing_duration_micros: u64,
}

/// The sum as a counter holds it: behind the largest number comes zero again.
pub open spec fn wrapped_sum(a: u64, b: u64) -> u64 {
    ((a + b) % 0x1_0000_0000_0000_0000) as u64
}

/// A duration as a counter can hold it.
pub open spec fn counted_micros(duration_micros: u128) -> u64 {
    if duration_micros < u64::MAX {
        duration_micros as u64
    } else {
        u64::MAX
    }
}

impl MetricsSnapshot {
    /// Counters that have counted nothing.
    pub open spec fn zero() -> MetricsSnapshot {
        MetricsSnapshot {
            total_requests: 0,
            successful_requests: 0,
            failed_requests: 0,
            bytes_received: 0,
            bytes_sent: 0,
            sni_rewrites: 0,
            upstream_errors: 0,
            processing_duration_micros: 0,
        }
    }

    /// The counters after one more request.
    pub open spec fn with_request(
        self,
        success: bool,
        bytes_received: u64,
        bytes_sent: u64,
        duration_micros: u128,
    ) -> MetricsSnapshot {
        MetricsSnapshot {
            total_requests: wrapped_sum(self.total_requests, 1),
            successful_requests: if success {
                wrapped_sum(self.successful_requests, 1)
            } else {
                self.successful_requests
            },
            failed_requests: if success {
                self.failed_requests
            } else {
                wrapped_sum(self.failed_requests, 1)
            },
            bytes_received: wrapped_sum(self.bytes_received, bytes_received),
            bytes_sent: wrapped_sum(self.bytes_sent, bytes_sent),
            processing_duration_micros: wrapped_sum(
                self.processing_duration_micros,
                counted_micros(duration_micros),
            ),
            ..self
        }
    }

    /// The counters after one more rewrite.
    pub open spec fn with_sni_rewrite(self) -> MetricsSnapshot {
        MetricsSnapshot { sni_rewrites: wrapped_sum(self.sni_rewrites, 1), ..self }
    }

    /// The counters after one more upstream error.
    pub open spec fn with_upstream_error(self) -> MetricsSnapshot {
        MetricsSnapshot { upstream_errors: wrapped_sum(self.upstream_errors, 1), ..self }
    }

    /// Whether every request has been counted as a success or as a failure.
    pub open spec fn adds_up(self) -> bool {
        self.total_requests == wrapped_sum(self.successful_requests, self.failed_requests)
    }
}

/// The counters. Whoever records holds the same counters: there is no copy of them that
/// would count for itself.
#[derive(Debug)]
pub struct Metrics {
    counters: MetricsSnapshot,
}

impl View for Metrics {
    type V = MetricsSnapshot;

    closed spec fn view(&self) -> MetricsSnapshot {
        self.counters
    }
}

/// One counter in the Prometheus text format.
pub open spec fn counter_text(name: Seq<char>, value: u64) -> Seq<char> {
    "# TYPE "@ + name + " counter\n"@ + name + " "@ + text::decimal(value as nat) + "\n"@
}

/// The counters in the Prometheus text format, with the summed duration in seconds
/// already written out.
pub open spec fn prometheus_text(s: MetricsSnapshot, duration_seconds: Seq<char>) -> Seq<char> {
    counter_text("dns_ingress_requests_total"@, s.total_requests) + counter_text(
        "dns_ingress_requests_success_total"@,
        s.successful_requests,
    ) + counter_text("dns_ingress_requests_failed_total"@, s.failed_requests) + counter_text(
        "dns_ingress_bytes_received_total"@,
        s.bytes_received,
    ) + counter_text("dns_ingress_bytes_sent_total"@, s.bytes_sent) + counter_text(
        "dns_ingress_sni_rewrites_total"@,
        s.sni_rewrites,
    ) + counter_text("dns_ingress_upstream_errors_total"@, s.upstream_errors)
        + "# TYPE dns_ingress_request_duration_seconds summary\ndns_ingress_request_duration_seconds_sum "@
        + duration_seconds + "\ndns_ingress_request_duration_seconds_count "@ + text::decimal(
        s.total_requests as nat,
    ) + "\n"@
}

/// Appends one counter in the Prometheus text format.
fn append_counter(out: &mut String, name: &str, value: u64)
    ensures
        final(out)@ == old(out)@ + counter_text(name@, value),
{
    let number = text::decimal_text(value);
    let ghost before = out@;
    out.append("# TYPE ");
    out.append(name);
    out.append(" counter\n");
    out.append(name);
    out.append(" ");
    out.append(number.as_str());
    out.append("\n");
    proof {
        assert(out@ == before + counter_text(name@, value));
    }
}

impl Metrics {
    pub fn new() -> (r: Self)
        ensures
            r@ == MetricsSnapshot::zero(),
    {
        Metrics {
            counters: MetricsSnapshot {
                total_requests: 0,
                successful_requests: 0,
                failed_requests: 0,
                bytes_received: 0,
                bytes_sent: 0,
                sni_rewrites: 0,
                upstream_errors: 0,
                processing_duration_micros: 0,
            },
        }
    }

    /// Counts a request that has been processed.
    pub fn record_request(
        &mut self,
        success: bool,
        bytes_received_val: u64,
        bytes_sent_val: u64,
        duration_micros: u128,
    )
        ensures
            final(self)@ == old(self)@.with_request(
                success,
                bytes_received_val,
                bytes_sent_val,
                duration_micros,
            ),
    {
        let micros: u64 = if duration_micros < u64::MAX as u128 {
            duration_micros as u64
        } else {
            u64::MAX
        };
        self.counters.total_requests = self.counters.total_requests.wrapping_add(1);
        if success {
            self.counters.successful_requests = self.counters.successful_requests.wrapping_add(1);
        } else {
            self.counters.failed_requests = self.counters.failed_requests.wrapping_add(1);
        }
        self.counters.bytes_received = self.counters.bytes_received.wrapping_add(
            bytes_received_val,
        );
        self.counters.bytes_sent = self.counters.bytes_sent.wrapping_add(bytes_sent_val);
        self.counters.processing_duration_micros =
        self.counters.processing_duration_micros.wrapping_add(micros);
    }

    /// Counts a rewrite of a server name.
    pub fn record_sni_rewrite(&mut self)
        ensures
            final(self)@ == old(self)@.with_sni_rewrite(),
    {
        self.counters.sni_rewrites = self.counters.sni_rewrites.wrapping_add(1);
    }

    /// Counts an error of the upstream.
    pub fn record_upstream_error(&mut self)
        ensures
            final(self)@ == old(self)@.with_upstream_error(),
    {
        self.counters.upstream_errors = self.counters.upstream_errors.wrapping_add(1);
    }

    /// The counters as they stand.
    pub fn snapshot(&self) -> (r: MetricsSnapshot)
        ensures
            r == self@,
    {
        self.counters
    }

    /// The counters in the Prometheus text format. `duration_seconds` is the summed
    /// processing time in seconds, written with six decimals.
    pub fn prometheus(&self, duration_seconds: &str) -> (r: String)
        ensures
            r@ == prometheus_text(self@, duration_seconds@),
    {
        let s = self.snapshot();
        let mut out = String::new();
        append_counter(&mut out, "dns_ingress_requests_total", s.total_requests);
        append_counter(&mut out, "dns_ingress_requests_success_total", s.successful_requests);
        append_counter(&mut out, "dns_ingress_requests_failed_total", s.failed_requests);
        append_counter(&mut out, "dns_ingress_bytes_received_total", s.bytes_received);
        append_counter(&mut out, "dns_ingress_bytes_sent_total", s.bytes_sent);
        append_counter(&mut out, "dns_ingress_sni_rewrites_total", s.sni_rewrites);
        append_counter(&mut out, "dns_ingress_upstream_errors_total", s.upstream_errors);
        out.append(
            "# TYPE dns_ingress_request_duration_seconds summary\ndns_ingress_request_duration_seconds_sum ",
        );
        out.append(duration_seconds);
        out.append("\ndns_ingress_request_duration_seconds_count ");
        let count = text::decimal_text(s.total_requests);
        out.append(count.as_str());
        out.append("\n");
        proof {
            assert(out@ == prometheus_text(self@, duration_seconds@));
        }
        out
    }
}

impl Default for Metrics {
    fn default() -> (r: Self)
        ensures
            r@ == MetricsSnapshot::zero(),
    {
        Metrics::new()
    }
}

/// A point in time from which a duration is measured, on a clock that counts
/// microseconds and never runs backwards.
#[derive(Debug, Clone, Copy)]
pub struct Timer {
    start: u128,
}

impl Timer {
    /// The reading of the clock at the start.
    pub closed spec fn started(&self) -> u128 {
        self.start
    }

    /// Starts a timer at the clock's reading `now_micros`.
    pub fn start(now_micros: u128) -> (r: Self)
        ensures
            r.started() == now_micros,
    {
        Timer { start: now_micros }
    }

    /// The microseconds from the start to the clock's reading `now_micros`, or zero
    /// for a reading from before the start.
    pub fn elapsed(&self, now_micros: u128) -> (r: u128)
        ensures
            r == if now_micros >= self.started() {
                (now_micros - self.started()) as u128
            } else {
                0u128
            },
    {
        if now_micros >= self.start {
            now_micros - self.start
        } else {
            0
        }
    }
}

/// Successes and failures add up to the requests: this holds at the start, and each
/// kind of record keeps it.
pub proof fn requests_add_up(
    before: MetricsSnapshot,
    success: bool,
    bytes_received: u64,
    bytes_sent: u64,
    duration_micros: u128,
)
    ensures
        MetricsSnapshot::zero().adds_up(),
        before.adds_up() ==> before.with_request(
            success,
            bytes_received,
            bytes_sent,
            duration_micros,
        ).adds_up(),
        before.adds_up() ==> before.with_sni_rewrite().adds_up(),
        before.adds_up() ==> before.with_upstream_error().adds_up(),
{
    lemma_one_more(before.successful_requests, before.failed_requests);
}

/// One more in either part is one more in the sum.
proof fn lemma_one_more(a: u64, b: u64)
    ensures
        wrapped_sum(wrapped_sum(a, 1), b) == wrapped_sum(wrapped_sum(a, b), 1),
        wrapped_sum(a, wrapped_sum(b, 1)) == wrapped_sum(wrapped_sum(a, b), 1),
        wrapped_sum(0, 0) == 0,
{
}

/// Two amounts may be added in either order.
proof fn lemma_wrapped_sums_commute(start: u64, a: u64, b: u64)
    ensures
        wrapped_sum(wrapped_sum(start, a), b) == wrapped_sum(wrapped_sum(start, b), a),
{
}

/// Requests may be recorded in any order: the counters end up the same.
pub proof fn records_commute(
    before: MetricsSnapshot,
    a: (bool, u64, u64, u128),
    b: (bool, u64, u64, u128),
)
    ensures
        before.with_request(a.0, a.1, a.2, a.3).with_request(b.0, b.1, b.2, b.3)
            == before.with_request(b.0, b.1, b.2, b.3).with_request(a.0, a.1, a.2, a.3),
        before.with_request(a.0, a.1, a.2, a.3).with_upstream_error()
            == before.with_upstream_error().with_request(a.0, a.1, a.2, a.3),
        before.with_request(a.0, a.1, a.2, a.3).with_sni_rewrite()
            == before.with_sni_rewrite().with_request(a.0, a.1, a.2, a.3),
{
    lemma_wrapped_sums_commute(before.bytes_received, a.1, b.1);
    lemma_wrapped_sums_commute(before.bytes_sent, a.2, b.2);
    lemma_wrapped_sums_commute(
        before.processing_duration_micros,
        counted_micros(a.3),
        counted_micros(b.3),
    );
}

/// One record.
pub enum Record {
    Request { success: bool, bytes_received: u64, bytes_sent: u64, duration_micros: u128 },
    SniRewrite,
    UpstreamError,
}

impl MetricsSnapshot {
    /// The counters after one more record.
    pub open spec fn with_record(self, record: Record) -> MetricsSnapshot {
        match record {
            Record::Request { success, bytes_received, bytes_sent, duration_micros } =>
                self.with_request(success, bytes_received, bytes_sent, duration_micros),
            Record::SniRewrite => self.with_sni_rewrite(),
            Record::UpstreamError => self.with_upstream_error(),
        }
    }

    /// The counters after some more records, one by one.
    pub open spec fn with_records(self, records: Seq<Record>) -> MetricsSnapshot {
        records.fold_left(
            self,
            |counters: MetricsSnapshot, record: Record| counters.with_record(record),
        )
    }
}

/// What some records add up to, each by its own amount.
pub open spec fn sum_of(records: Seq<Record>, amount: spec_fn(Record) -> nat) -> nat
    decreases records.len(),
{
    if records.len() == 0 {
        0
    } else {
        sum_of(records.drop_last(), amount) + amount(records.last())
    }
}

/// How many of some records are of a kind.
pub open spec fn number_of(records: Seq<Record>, kind: spec_fn(Record) -> bool) -> nat {
    sum_of(
        records,
        |record: Record|
            if kind(record) {
                1
            } else {
                0
            },
    )
}

/// The requests among some records.
pub open spec fn requests_in(records: Seq<Record>) -> nat {
    number_of(records, |record: Record| record is Request)
}

/// The requests among some records that succeeded, or those that did not.
pub open spec fn outcomes_in(records: Seq<Record>, wanted: bool) -> nat {
    number_of(
        records,
        |record: Record| record matches Record::Request { success, .. } && success == wanted,
    )
}

/// The rewrites among some records.
pub open spec fn rewrites_in(records: Seq<Record>) -> nat {
    number_of(records, |record: Record| record is SniRewrite)
}

/// The upstream errors among some records.
pub open spec fn errors_in(records: Seq<Record>) -> nat {
    number_of(records, |record: Record| record is UpstreamError)
}

/// The octets that the requests among some records brought.
pub open spec fn received_in(records: Seq<Record>) -> nat {
    sum_of(
        records,
        |record: Record|
            match record {
                Record::Request { bytes_received, .. } => bytes_received as nat,
                _ => 0,
            },
    )
}

/// The octets that the requests among some records were answered with.
pub open spec fn sent_in(records: Seq<Record>) -> nat {
    sum_of(
        records,
        |record: Record|
            match record {
                Record::Request { bytes_sent, .. } => bytes_sent as nat,
                _ => 0,
            },
    )
}

/// The microseconds that the requests among some records took.
pub open spec fn micros_in(records: Seq<Record>) -> nat {
    sum_of(
        records,
        |record: Record|
            match record {
                Record::Request { duration_micros, .. } => counted_micros(duration_micros) as nat,
                _ => 0,
            },
    )
}

/// An amount as a counter holds it: behind the largest number comes zero again.
pub open spec fn wrapped(n: nat) -> u64 {
    (n % 0x1_0000_0000_0000_0000) as u64
}

/// A counter goes on from where it is.
proof fn lemma_wrapped(n: nat, more: u64)
    ensures
        wrapped(n + more as nat) == wrapped_sum(wrapped(n), more),
        n <= u64::MAX ==> wrapped(n) == n,
{
}

/// Whatever is recorded, and however often, each counter is the number of the calls that
/// it counts, or the sum of what they brought, up to the largest number that it holds;
/// successes and failures together are the requests.
pub proof fn counters_count_the_records(records: Seq<Record>)
    ensures
        MetricsSnapshot::zero().with_records(records) == (MetricsSnapshot {
            total_requests: wrapped(requests_in(records)),
            successful_requests: wrapped(outcomes_in(records, true)),
            failed_requests: wrapped(outcomes_in(records, false)),
            bytes_received: wrapped(received_in(records)),
            bytes_sent: wrapped(sent_in(records)),
            sni_rewrites: wrapped(rewrites_in(records)),
            upstream_errors: wrapped(errors_in(records)),
            processing_duration_micros: wrapped(micros_in(records)),
        }),
        requests_in(records) == outcomes_in(records, true) + outcomes_in(records, false),
        requests_in(records) + rewrites_in(records) + errors_in(records) == records.len(),
    decreases records.len(),
{
    if records.len() > 0 {
        let before = records.drop_last();
        counters_count_the_records(before);
        lemma_wrapped(requests_in(before), 1);
        lemma_wrapped(outcomes_in(before, true), 1);
        lemma_wrapped(outcomes_in(before, false), 1);
        lemma_wrapped(rewrites_in(before), 1);
        lemma_wrapped(errors_in(before), 1);
        if let Record::Request { success, bytes_received, bytes_sent, duration_micros } =
            records.last() {
            lemma_wrapped(received_in(before), bytes_received);
            lemma_wrapped(sent_in(before), bytes_sent);
            lemma_wrapped(micros_in(before), counted_micros(duration_micros));
        }
    }
}

/// As long as there are no more records than a counter can hold, the counters of calls
/// are the numbers of calls themselves.
pub proof fn calls_are_counted_exactly(records: Seq<Record>)
    requires
        records.len() <= u64::MAX,
    ensures
        ({
            let counters = MetricsSnapshot::zero().with_records(records);
            &&& counters.total_requests == requests_in(records)
            &&& counters.successful_requests == outcomes_in(records, true)
            &&& counters.failed_requests == outcomes_in(records, false)
            &&& counters.total_requests == counters.successful_requests + counters.failed_requests
            &&& counters.sni_rewrites == rewrites_in(records)
            &&& counters.upstream_errors == errors_in(records)
        }),
{
    counters_count_the_records(records);
    lemma_wrapped(requests_in(records), 0);
    lemma_wrapped(outcomes_in(records, true), 0);
    lemma_wrapped(outcomes_in(records, false), 0);
    lemma_wrapped(rewrites_in(records), 0);
    lemma_wrapped(errors_in(records), 0);
}

/// Two records may be made in either order.
proof fn lemma_two_records_commute(before: MetricsSnapshot, a: Record, b: Record)
    ensures
        before.with_record(a).with_record(b) == before.with_record(b).with_record(a),
{
    if let Record::Request {
        success: s,
        bytes_received: r,
        bytes_sent: t,
        duration_micros: d,
    } = a {
        if let Record::Request { success, bytes_received, bytes_sent, duration_micros } = b {
            records_commute(
                before,
                (s, r, t, d),
                (success, bytes_received, bytes_sent, duration_micros),
            );
        }
    }
}

/// The order of the records does not matter, however many there are.
pub proof fn records_may_come_in_any_order(
    before: MetricsSnapshot,
    records: Seq<Record>,
    others: Seq<Record>,
)
    requires
        records.to_multiset() == others.to_multiset(),
    ensures
        before.with_records(records) == before.with_records(others),
{
    let step = |counters: MetricsSnapshot, record: Record| counters.with_record(record);
    assert forall|a: Record, b: Record, v: MetricsSnapshot| #[trigger]
        step(step(v, a), b) == step(step(v, b), a) by {
        lemma_two_records_commute(v, a, b);
    }
    vstd::seq_lib::lemma_fold_left_permutation(records, others, step, before);
}

/// A counter that has room takes an amount as it is, and one that has not starts over behind
/// the largest number; a duration is counted as it is up to the largest number.
pub proof fn counters_take_amounts_as_they_are(a: u64, b: u64, duration_micros: u128)
    ensures
        a + b <= 18446744073709551615 ==> wrapped_sum(a, b) == a + b,
        a + b > 18446744073709551615 ==> wrapped_sum(a, b) == a + b - 18446744073709551616,
        duration_micros <= 18446744073709551615 ==> counted_micros(duration_micros)
            == duration_micros,
        duration_micros > 18446744073709551615 ==> counted_micros(duration_micros)
            == 18446744073709551615,
{
}

/// One request changes the counters of requests, of its outcome, of its octets each way and
/// of the time, each by its own amount; a rewrite and an upstream error change one counter
/// each, by one.
pub proof fn records_change_their_own_counters(
    before: MetricsSnapshot,
    success: bool,
    received: u64,
    sent: u64,
    micros: u64,
)
    requires
        before.total_requests < u64::MAX,
        before.successful_requests < u64::MAX,
        before.failed_requests < u64::MAX,
        before.sni_rewrites < u64::MAX,
        before.upstream_errors < u64::MAX,
        before.bytes_received + received <= u64::MAX,
        before.bytes_sent + sent <= u64::MAX,
        before.processing_duration_micros + micros <= u64::MAX,
    ensures
        ({
            let after = before.with_request(success, received, sent, micros as u128);
            &&& after.total_requests == before.total_requests + 1
            &&& success ==> after.successful_requests == before.successful_requests + 1
                && after.failed_requests == before.failed_requests
            &&& !success ==> after.failed_requests == before.failed_requests + 1
                && after.successful_requests == before.successful_requests
            &&& after.bytes_received == before.bytes_received + received
            &&& after.bytes_sent == before.bytes_sent + sent
            &&& after.processing_duration_micros == before.processing_duration_micros + micros
            &&& after.sni_rewrites == before.sni_rewrites
            &&& after.upstream_errors == before.upstream_errors
        }),
        ({
            let after = before.with_sni_rewrite();
            &&& after.sni_rewrites == before.sni_rewrites + 1
            &&& after == (MetricsSnapshot { sni_rewrites: after.sni_rewrites, ..before })
        }),
        ({
            let after = before.with_upstream_error();
            &&& after.upstream_errors == before.upstream_errors + 1
            &&& after == (MetricsSnapshot { upstream_errors: after.upstream_errors, ..before })
        }),
{
}

/// The text format has a line for every counter, with its name, a space and its number in
/// decimal digits, and one for the summed duration.
pub proof fn the_text_format_shows_every_counter(s: MetricsSnapshot, duration_seconds: Seq<char>)
    ensures
        ({
            let shown = prometheus_text(s, duration_seconds);
            &&& has_line(shown, "dns_ingress_requests_total"@, text::decimal(s.total_requests as nat))
            &&& has_line(
                shown,
                "dns_ingress_requests_success_total"@,
                text::decimal(s.successful_requests as nat),
            )
            &&& has_line(
                shown,
                "dns_ingress_requests_failed_total"@,
                text::decimal(s.failed_requests as nat),
            )
            &&& has_line(
                shown,
                "dns_ingress_bytes_received_total"@,
                text::decimal(s.bytes_received as nat),
            )
            &&& has_line(shown, "dns_ingress_bytes_sent_total"@, text::decimal(s.bytes_sent as nat))
            &&& has_line(
                shown,
                "dns_ingress_sni_rewrites_total"@,
                text::decimal(s.sni_rewrites as nat),
            )
            &&& has_line(
                shown,
                "dns_ingress_upstream_errors_total"@,
                text::decimal(s.upstream_errors as nat),
            )
            &&& has_line(shown, "dns_ingress_request_duration_seconds_sum"@, duration_seconds)
            &&& has_line(
                shown,
                "dns_ingress_request_duration_seconds_count"@,
                text::decimal(s.total_requests as nat),
            )
        }),
{
    let none = Seq::<char>::empty();
    let a = counter_text("dns_ingress_requests_total"@, s.total_requests);
    let b = a + counter_text("dns_ingress_requests_success_total"@, s.successful_requests);
    let c = b + counter_text("dns_ingress_requests_failed_total"@, s.failed_requests);
    let d = c + counter_text("dns_ingress_bytes_received_total"@, s.bytes_received);
    let e = d + counter_text("dns_ingress_bytes_sent_total"@, s.bytes_sent);
    let f = e + counter_text("dns_ingress_sni_rewrites_total"@, s.sni_rewrites);
    let g = f + counter_text("dns_ingress_upstream_errors_total"@, s.upstream_errors);
    assert(none + a == a);
    lemma_line(none, "dns_ingress_requests_total"@, s.total_requests);
    lemma_line(a, "dns_ingress_requests_success_total"@, s.successful_requests);
    lemma_lines_stay(a, counter_text("dns_ingress_requests_success_total"@, s.successful_requests));
    lemma_line(b, "dns_ingress_requests_failed_total"@, s.failed_requests);
    lemma_lines_stay(b, counter_text("dns_ingress_requests_failed_total"@, s.failed_requests));
    lemma_line(c, "dns_ingress_bytes_received_total"@, s.bytes_received);
    lemma_lines_stay(c, counter_text("dns_ingress_bytes_received_total"@, s.bytes_received));
    lemma_line(d, "dns_ingress_bytes_sent_total"@, s.bytes_sent);
    lemma_lines_stay(d, counter_text("dns_ingress_bytes_sent_total"@, s.bytes_sent));
    lemma_line(e, "dns_ingress_sni_rewrites_total"@, s.sni_rewrites);
    lemma_lines_stay(e, counter_text("dns_ingress_sni_rewrites_total"@, s.sni_rewrites));
    lemma_line(f, "dns_ingress_upstream_errors_total"@, s.upstream_errors);
    lemma_lines_stay(f, counter_text("dns_ingress_upstream_errors_total"@, s.upstream_errors));
    lemma_summary(g, duration_seconds, text::decimal(s.total_requests as nat));
}

/// The text of the summed duration has its lines and keeps those before it.
proof fn lemma_summary(before: Seq<char>, duration_seconds: Seq<char>, total: Seq<char>)
    ensures
        ({
            let shown = before
                + "# TYPE dns_ingress_request_duration_seconds summary\ndns_ingress_request_duration_seconds_sum "@
                + duration_seconds + "\ndns_ingress_request_duration_seconds_count "@ + total
                + "\n"@;
            &&& has_line(shown, "dns_ingress_request_duration_seconds_sum"@, duration_seconds)
            &&& has_line(shown, "dns_ingress_request_duration_seconds_count"@, total)
            &&& forall|name: Seq<char>, value: Seq<char>|
                has_line(before, name, value) ==> #[trigger] has_line(shown, name, value)
        }),
{
    let summary =
        "# TYPE dns_ingress_request_duration_seconds summary\ndns_ingress_request_duration_seconds_sum "@;
    let count = "\ndns_ingress_request_duration_seconds_count "@;
    let shown = before + summary + duration_seconds + count + total + "\n"@;
    let tail = summary + duration_seconds + count + total + "\n"@;
    assert(shown == before + tail);
    lemma_lines_stay(before, tail);
    reveal_strlit(
        "# TYPE dns_ingress_request_duration_seconds summary\ndns_ingress_request_duration_seconds_sum ",
    );
    reveal_strlit("# TYPE dns_ingress_request_duration_seconds summary");
    reveal_strlit("\ndns_ingress_request_duration_seconds_count ");
    reveal_strlit("dns_ingress_request_duration_seconds_sum");
    reveal_strlit("dns_ingress_request_duration_seconds_count");
    reveal_strlit(" ");
    reveal_strlit("\n");
    let type_line = "# TYPE dns_ingress_request_duration_seconds summary"@;
    let sum_name = "dns_ingress_request_duration_seconds_sum"@;
    let count_name = "dns_ingress_request_duration_seconds_count"@;
    assert(summary == type_line + "\n"@ + sum_name + " "@);
    assert(count == "\n"@ + count_name + " "@);
    let sum_line = "\n"@ + sum_name + " "@ + duration_seconds + "\n"@;
    let count_rest = count_name + " "@ + total + "\n"@;
    assert(shown == (before + type_line) + sum_line + count_rest);
    text::texts_are_found_where_they_stand(before + type_line, sum_line, count_rest, shown);
    let count_line = "\n"@ + count_name + " "@ + total + "\n"@;
    let none = Seq::<char>::empty();
    assert(shown == (before + summary + duration_seconds) + count_line + none);
    text::texts_are_found_where_they_stand(
        before + summary + duration_seconds,
        count_line,
        none,
        shown,
    );
}

/// A line that a text has stays when more is put behind the text.
proof fn lemma_lines_stay(shown: Seq<char>, more: Seq<char>)
    ensures
        forall|name: Seq<char>, value: Seq<char>|
            has_line(shown, name, value) ==> #[trigger] has_line(shown + more, name, value),
{
    assert forall|name: Seq<char>, value: Seq<char>| has_line(shown, name, value) implies
        #[trigger] has_line(shown + more, name, value) by {
        let line = "\n"@ + name + " "@ + value + "\n"@;
        let at = choose|at: int| text::stands_at(shown, line, at);
        assert((shown + more).subrange(at, at + line.len()) == shown.subrange(at, at + line.len()));
        assert(text::stands_at(shown + more, line, at));
    }
}

/// Whether a text has a line with a name, a space and a value.
pub open spec fn has_line(shown: Seq<char>, name: Seq<char>, value: Seq<char>) -> bool {
    text::has_text(shown, "\n"@ + name + " "@ + value + "\n"@)
}

/// A counter's text has its line.
proof fn lemma_line(before: Seq<char>, name: Seq<char>, value: u64)
    ensures
        has_line(before + counter_text(name, value), name, text::decimal(value as nat)),
{
    reveal_strlit(" counter\n");
    reveal_strlit(" counter");
    reveal_strlit("\n");
    let digits = text::decimal(value as nat);
    let line = "\n"@ + name + " "@ + digits + "\n"@;
    let front = before + ("# TYPE "@ + name + " counter"@);
    let none = Seq::<char>::empty();
    assert(" counter\n"@ == " counter"@ + "\n"@);
    assert(before + counter_text(name, value) == front + line + none);
    text::texts_are_found_where_they_stand(front, line, none, line);
}

} // verus!
