//! Cumulative counters, a bounded reservoir of forwarding latencies, and the
//! scrape text that shows both.

use crate::bridge::worker::{DispatchView, MessageSource, RouteOutcome, dispatch_views};
use crate::models::{EndpointType, MessageStats};
use crate::text::{decimal_digits, padded_digits, push_decimal, push_padded};
use vstd::prelude::*;
use vstd::relations::{sorted_by, total_ordering};
use vstd::seq_lib::lemma_sorted_unique;
use vstd::string::StringExecFns;

verus! {

/// How many latency samples the reservoir keeps: the last thousand.
pub const LATENCY_CAPACITY: usize = 1000;

/// The counters of the bridge and the latest forwarding latencies, in
/// microseconds, oldest first.
#[derive(Debug)]
pub struct Metrics {
    mqtt_messages_received: u64,
    mqtt_messages_sent: u64,
    zmq_messages_received: u64,
    zmq_messages_sent: u64,
    errors_total: u64,
    latency_samples: Vec<u64>,
}

/// What [`Metrics`] holds, as plain values.
pub ghost struct MetricsView {
    pub mqtt_received: u64,
    pub mqtt_sent: u64,
    pub zmq_received: u64,
    pub zmq_sent: u64,
    pub errors: u64,
    pub latencies: Seq<u64>,
}

impl View for Metrics {
    type V = MetricsView;

    closed spec fn view(&self) -> MetricsView {
        MetricsView {
            mqtt_received: self.mqtt_messages_received,
            mqtt_sent: self.mqtt_messages_sent,
            zmq_received: self.zmq_messages_received,
            zmq_sent: self.zmq_messages_sent,
            errors: self.errors_total,
            latencies: self.latency_samples@,
        }
    }
}

/// A counter after `by` more events: it grows by `by` and stops at the
/// largest value it can hold.
pub open spec fn advanced(counter: u64, by: nat) -> u64 {
    if counter + by > u64::MAX {
        u64::MAX
    } else {
        (counter + by) as u64
    }
}

/// Whether no counter of `after` is below its value in `before`.
pub open spec fn no_counter_fell(before: MetricsView, after: MetricsView) -> bool {
    &&& before.mqtt_received <= after.mqtt_received
    &&& before.mqtt_sent <= after.mqtt_sent
    &&& before.zmq_received <= after.zmq_received
    &&& before.zmq_sent <= after.zmq_sent
    &&& before.errors <= after.errors
}

/// A counter never falls, however many events it counts.
pub proof fn lemma_counter_never_falls(counter: u64, by: nat)
    ensures
        counter <= advanced(counter, by),
{
}

/// The reservoir never grows beyond its capacity.
pub proof fn lemma_reservoir_stays_bounded(latencies: Seq<u64>, sample: u64)
    requires
        latencies.len() <= LATENCY_CAPACITY,
    ensures
        with_sample(latencies, sample).len() <= LATENCY_CAPACITY,
        with_sample(latencies, sample).last() == sample,
{
}

/// The order of latencies.
pub open spec fn at_most() -> spec_fn(u64, u64) -> bool {
    |a: u64, b: u64| a <= b
}

/// The samples in ascending order.
pub open spec fn ascending(samples: Seq<u64>) -> Seq<u64> {
    samples.sort_by(at_most())
}

/// The quantile of `samples` at `percent` in a hundred: the sample at that
/// share of the way through the ascending samples, or zero without samples.
pub open spec fn quantile(samples: Seq<u64>, percent: nat) -> u64 {
    if samples.len() == 0 {
        0
    } else {
        ascending(samples)[(samples.len() * percent / 100) as int]
    }
}

/// The reservoir after one more sample: the oldest sample leaves where the
/// reservoir is full.
pub open spec fn with_sample(latencies: Seq<u64>, sample: u64) -> Seq<u64> {
    if latencies.len() >= LATENCY_CAPACITY {
        latencies.drop_first().push(sample)
    } else {
        latencies.push(sample)
    }
}

/// How many of the dispatches are bound for an endpoint of the given family.
pub open spec fn bound_for(dispatches: Seq<DispatchView>, family: EndpointType) -> nat
    decreases dispatches.len(),
{
    if dispatches.len() == 0 {
        0
    } else {
        bound_for(dispatches.drop_last(), family) + if dispatches.last().target_type == family {
            1nat
        } else {
            0nat
        }
    }
}

/// What routing one message adds to the counters: one message received from
/// its source's family, one sent for each dispatch to the target's family,
/// one error for each unknown target.
pub open spec fn route_counts(source: MessageSource, outcome: RouteOutcome) -> MessageStats {
    let dispatches = dispatch_views(outcome.dispatches@);
    MessageStats {
        mqtt_received: if source == MessageSource::Mqtt {
            1
        } else {
            0
        },
        mqtt_sent: advanced(0, bound_for(dispatches, EndpointType::Mqtt)),
        zmq_received: if source == MessageSource::Zmq {
            1
        } else {
            0
        },
        zmq_sent: advanced(0, bound_for(dispatches, EndpointType::Zmq)),
        error_count: advanced(0, outcome.unknown_targets as nat),
        queue_depth: 0,
    }
}

/// Counts what routing one message adds to the counters.
pub fn count_route(source: MessageSource, outcome: &RouteOutcome) -> (counts: MessageStats)
    ensures
        counts == route_counts(source, *outcome),
{
    let mut mqtt_sent: u64 = 0;
    let mut zmq_sent: u64 = 0;
    let ghost dispatches = dispatch_views(outcome.dispatches@);
    let mut i: usize = 0;
    while i < outcome.dispatches.len()
        invariant
            i <= outcome.dispatches.len(),
            dispatches == dispatch_views(outcome.dispatches@),
            mqtt_sent == advanced(0, bound_for(dispatches.take(i as int), EndpointType::Mqtt)),
            zmq_sent == advanced(0, bound_for(dispatches.take(i as int), EndpointType::Zmq)),
        decreases outcome.dispatches.len() - i,
    {
        assert(dispatches.take(i + 1).drop_last() == dispatches.take(i as int));
        assert(dispatches.take(i + 1).last() == outcome.dispatches@[i as int]@);
        match outcome.dispatches[i].target_type {
            EndpointType::Mqtt => {
                mqtt_sent = mqtt_sent.saturating_add(1);
            },
            EndpointType::Zmq => {
                zmq_sent = zmq_sent.saturating_add(1);
            },
        }
        i = i + 1;
    }
    assert(dispatches.take(outcome.dispatches.len() as int) == dispatches);
    let errors: u64 = if outcome.unknown_targets as u128 > u64::MAX as u128 {
        u64::MAX
    } else {
        outcome.unknown_targets as u64
    };
    MessageStats {
        mqtt_received: match source {
            MessageSource::Mqtt => 1,
            MessageSource::Zmq => 0,
        },
        mqtt_sent,
        zmq_received: match source {
            MessageSource::Mqtt => 0,
            MessageSource::Zmq => 1,
        },
        zmq_sent,
        error_count: errors,
        queue_depth: 0,
    }
}

/// The seconds in `millis` milliseconds, written with two decimals, rounded
/// to the nearest hundredth.
pub open spec fn seconds_text(millis: u64) -> Seq<char> {
    let hundredths = ((millis + 5) / 10) as nat;
    decimal_digits(hundredths / 100) + "."@ + padded_digits(hundredths % 100, 2)
}

/// The milliseconds in `micros` microseconds, written with three decimals.
pub open spec fn milliseconds_text(micros: u64) -> Seq<char> {
    decimal_digits((micros / 1000) as nat) + "."@ + padded_digits((micros % 1000) as nat, 3)
}

/// `out` followed by the head of one metric: its help line, its type line,
/// and its name with a space, ready for the value.
pub open spec fn with_metric_head(
    out: Seq<char>,
    name: Seq<char>,
    help: Seq<char>,
    kind: Seq<char>,
) -> Seq<char> {
    out + "# HELP "@ + name + " "@ + help + "\n"@ + "# TYPE "@ + name + " "@ + kind + "\n"@
}

/// `out` followed by one whole metric with a counted value, and the blank
/// line that ends it.
pub open spec fn with_counter(
    out: Seq<char>,
    name: Seq<char>,
    help: Seq<char>,
    kind: Seq<char>,
    value: u64,
) -> Seq<char> {
    with_metric_head(out, name, help, kind) + name + " "@ + decimal_digits(value as nat)
        + "\n\n"@
}

/// `out` followed by one line of the latency summary.
pub open spec fn with_quantile(out: Seq<char>, label: Seq<char>, micros: u64) -> Seq<char> {
    out + "bridge_latency_milliseconds{quantile=\""@ + label + "\"} "@ + milliseconds_text(micros)
        + "\n"@
}

/// The scrape text for the given counters, latencies and uptime.
pub open spec fn exposition(metrics: MetricsView, uptime_millis: u64) -> Seq<char> {
    let text = Seq::<char>::empty();
    let text = with_counter(
        text,
        "bridge_mqtt_messages_received_total"@,
        "Total MQTT messages received"@,
        "counter"@,
        metrics.mqtt_received,
    );
    let text = with_counter(
        text,
        "bridge_mqtt_messages_sent_total"@,
        "Total MQTT messages sent"@,
        "counter"@,
        metrics.mqtt_sent,
    );
    let text = with_counter(
        text,
        "bridge_zmq_messages_received_total"@,
        "Total ZeroMQ messages received"@,
        "counter"@,
        metrics.zmq_received,
    );
    let text = with_counter(
        text,
        "bridge_zmq_messages_sent_total"@,
        "Total ZeroMQ messages sent"@,
        "counter"@,
        metrics.zmq_sent,
    );
    let text = with_counter(
        text,
        "bridge_errors_total"@,
        "Total errors encountered"@,
        "counter"@,
        metrics.errors,
    );
    let text = with_metric_head(
        text,
        "bridge_uptime_seconds"@,
        "Uptime in seconds"@,
        "gauge"@,
    ) + "bridge_uptime_seconds "@ + seconds_text(uptime_millis) + "\n\n"@;
    let text = with_counter(
        text,
        "bridge_messages_forwarded_total"@,
        "Total messages forwarded"@,
        "counter"@,
        advanced(metrics.mqtt_sent, metrics.zmq_sent as nat),
    );
    let text = with_metric_head(
        text,
        "bridge_latency_milliseconds"@,
        "Message forwarding latency"@,
        "summary"@,
    );
    let text = with_quantile(text, "0.5"@, quantile(metrics.latencies, 50));
    let text = with_quantile(text, "0.95"@, quantile(metrics.latencies, 95));
    with_quantile(text, "0.99"@, quantile(metrics.latencies, 99))
}

proof fn lemma_at_most_is_total()
    ensures
        total_ordering(at_most()),
{
    let leq = at_most();
    assert(vstd::relations::reflexive(leq));
    assert(vstd::relations::antisymmetric(leq));
    assert(vstd::relations::transitive(leq));
    assert(vstd::relations::strongly_connected(leq));
}

/// Ascending samples are their own ascending order.
pub proof fn lemma_ascending_of_sorted(samples: Seq<u64>)
    requires
        forall|i: int, j: int| 0 <= i < j < samples.len() ==> samples[i] <= samples[j],
    ensures
        ascending(samples) == samples,
{
    lemma_at_most_is_total();
    samples.lemma_sort_by_ensures(at_most());
    assert(sorted_by(samples, at_most()));
    lemma_sorted_unique(samples, samples.sort_by(at_most()), at_most());
}

fn sorted_copy(samples: &Vec<u64>) -> (sorted: Vec<u64>)
    ensures
        sorted@ == ascending(samples@),
{
    let mut sorted: Vec<u64> = Vec::new();
    let mut i: usize = 0;
    assert(samples@.take(0) =~= sorted@);
    while i < samples.len()
        invariant
            i <= samples.len(),
            sorted@.len() == i,
            sorted_by(sorted@, at_most()),
            sorted@.to_multiset() == samples@.take(i as int).to_multiset(),
        decreases samples.len() - i,
    {
        let sample = samples[i];
        let mut j: usize = 0;
        while j < sorted.len() && sorted[j] <= sample
            invariant
                j <= sorted.len(),
                forall|k: int| 0 <= k < j ==> sorted@[k] <= sample,
            decreases sorted.len() - j,
        {
            j = j + 1;
        }
        let ghost before = sorted@;
        sorted.insert(j, sample);
        proof {
            vstd::seq_lib::to_multiset_insert(before, j as int, sample);
            vstd::seq_lib::to_multiset_build(samples@.take(i as int), sample);
            assert(samples@.take(i + 1) == samples@.take(i as int).push(sample));
            assert forall|a: int, b: int| 0 <= a < b < sorted@.len() implies at_most()(
                sorted@[a],
                sorted@[b],
            ) by {
                if a < j && b > j {
                    assert(at_most()(before[a], before[b - 1]));
                } else if a < j && b < j {
                    assert(at_most()(before[a], before[b]));
                } else if a > j {
                    assert(at_most()(before[a - 1], before[b - 1]));
                } else if a == j {
                    assert(sorted@[b] == before[b - 1]);
                    if j < before.len() {
                        assert(at_most()(before[j as int], before[b - 1]) || b - 1 == j);
                    }
                }
            }
        }
        i = i + 1;
    }
    proof {
        assert(samples@.take(samples.len() as int) == samples@);
        lemma_at_most_is_total();
        samples@.lemma_sort_by_ensures(at_most());
        lemma_sorted_unique(sorted@, samples@.sort_by(at_most()), at_most());
    }
    sorted
}

fn share(count: usize, percent: usize) -> (index: usize)
    requires
        percent < 100,
    ensures
        index == count * percent / 100,
        count > 0 ==> index < count,
{
    let whole = count / 100;
    let rest = count % 100;
    assert(count * percent == whole * percent * 100 + rest * percent) by (nonlinear_arith)
        requires
            count == whole * 100 + rest,
    ;
    assert(whole * percent <= whole * 99 && rest * percent <= rest * 99) by (nonlinear_arith)
        requires
            percent <= 99,
            whole >= 0,
            rest >= 0,
    ;
    assert((whole * percent * 100 + rest * percent) / 100 == whole * percent + rest * percent
        / 100) by (nonlinear_arith);
    whole * percent + rest * percent / 100
}

fn push_metric_head(out: &mut String, name: &str, help: &str, kind: &str)
    ensures
        final(out)@ == with_metric_head(old(out)@, name@, help@, kind@),
{
    out.append("# HELP ");
    out.append(name);
    out.append(" ");
    out.append(help);
    out.append("\n");
    out.append("# TYPE ");
    out.append(name);
    out.append(" ");
    out.append(kind);
    out.append("\n");
}

fn push_counter(out: &mut String, name: &str, help: &str, kind: &str, value: u64)
    ensures
        final(out)@ == with_counter(old(out)@, name@, help@, kind@, value),
{
    push_metric_head(out, name, help, kind);
    out.append(name);
    out.append(" ");
    push_decimal(out, value);
    out.append("\n\n");
}

fn push_seconds(out: &mut String, millis: u64)
    ensures
        final(out)@ == old(out)@ + seconds_text(millis),
{
    let hundredths: u64 = millis / 10 + if millis % 10 >= 5 {
        1
    } else {
        0
    };
    assert(hundredths == (millis + 5) / 10);
    push_decimal(out, hundredths / 100);
    out.append(".");
    push_padded(out, hundredths % 100, 2);
    assert(final(out)@ =~= old(out)@ + seconds_text(millis));
}

fn push_milliseconds(out: &mut String, micros: u64)
    ensures
        final(out)@ == old(out)@ + milliseconds_text(micros),
{
    push_decimal(out, micros / 1000);
    out.append(".");
    push_padded(out, micros % 1000, 3);
    assert(final(out)@ =~= old(out)@ + milliseconds_text(micros));
}

fn push_quantile(out: &mut String, label: &str, micros: u64)
    ensures
        final(out)@ == with_quantile(old(out)@, label@, micros),
{
    out.append("bridge_latency_milliseconds{quantile=\"");
    out.append(label);
    out.append("\"} ");
    push_milliseconds(out, micros);
    out.append("\n");
}

impl Metrics {
    /// Metrics with every counter at zero and no latency sample.
    pub fn new() -> (metrics: Self)
        ensures
            metrics@ == (MetricsView {
                mqtt_received: 0,
                mqtt_sent: 0,
                zmq_received: 0,
                zmq_sent: 0,
                errors: 0,
                latencies: Seq::empty(),
            }),
    {
        Metrics {
            mqtt_messages_received: 0,
            mqtt_messages_sent: 0,
            zmq_messages_received: 0,
            zmq_messages_sent: 0,
            errors_total: 0,
            latency_samples: Vec::new(),
        }
    }

    /// Counts one message received from an MQTT broker.
    pub fn record_mqtt_received(&mut self)
        ensures
            no_counter_fell(old(self)@, final(self)@),
            final(self)@ == (MetricsView {
                mqtt_received: advanced(old(self)@.mqtt_received, 1),
                ..old(self)@
            }),
    {
        self.mqtt_messages_received = self.mqtt_messages_received.saturating_add(1);
    }

    /// Counts one message published to an MQTT broker.
    pub fn record_mqtt_sent(&mut self)
        ensures
            no_counter_fell(old(self)@, final(self)@),
            final(self)@ == (MetricsView {
                mqtt_sent: advanced(old(self)@.mqtt_sent, 1),
                ..old(self)@
            }),
    {
        self.mqtt_messages_sent = self.mqtt_messages_sent.saturating_add(1);
    }

    /// Counts one message received from a ZeroMQ socket.
    pub fn record_zmq_received(&mut self)
        ensures
            no_counter_fell(old(self)@, final(self)@),
            final(self)@ == (MetricsView {
                zmq_received: advanced(old(self)@.zmq_received, 1),
                ..old(self)@
            }),
    {
        self.zmq_messages_received = self.zmq_messages_received.saturating_add(1);
    }

    /// Counts one message published to a ZeroMQ socket.
    pub fn record_zmq_sent(&mut self)
        ensures
            no_counter_fell(old(self)@, final(self)@),
            final(self)@ == (MetricsView {
                zmq_sent: advanced(old(self)@.zmq_sent, 1),
                ..old(self)@
            }),
    {
        self.zmq_messages_sent = self.zmq_messages_sent.saturating_add(1);
    }

    /// Counts one error.
    pub fn record_error(&mut self)
        ensures
            no_counter_fell(old(self)@, final(self)@),
            final(self)@ == (MetricsView { errors: advanced(old(self)@.errors, 1), ..old(self)@ }),
    {
        self.errors_total = self.errors_total.saturating_add(1);
    }

    /// Adds the counts of `delta` to the counters.
    pub fn record_counts(&mut self, delta: &MessageStats)
        ensures
            no_counter_fell(old(self)@, final(self)@),
            final(self)@ == (MetricsView {
                mqtt_received: advanced(old(self)@.mqtt_received, delta.mqtt_received as nat),
                mqtt_sent: advanced(old(self)@.mqtt_sent, delta.mqtt_sent as nat),
                zmq_received: advanced(old(self)@.zmq_received, delta.zmq_received as nat),
                zmq_sent: advanced(old(self)@.zmq_sent, delta.zmq_sent as nat),
                errors: advanced(old(self)@.errors, delta.error_count as nat),
                latencies: old(self)@.latencies,
            }),
    {
        self.mqtt_messages_received = self.mqtt_messages_received.saturating_add(
            delta.mqtt_received,
        );
        self.mqtt_messages_sent = self.mqtt_messages_sent.saturating_add(delta.mqtt_sent);
        self.zmq_messages_received = self.zmq_messages_received.saturating_add(delta.zmq_received);
        self.zmq_messages_sent = self.zmq_messages_sent.saturating_add(delta.zmq_sent);
        self.errors_total = self.errors_total.saturating_add(delta.error_count);
    }

    /// Records the latency of one forwarded message, in microseconds. The
    /// reservoir keeps the last thousand samples.
    pub fn record_latency(&mut self, latency_us: u64)
        ensures
            no_counter_fell(old(self)@, final(self)@),
            final(self)@ == (MetricsView {
                latencies: with_sample(old(self)@.latencies, latency_us),
                ..old(self)@
            }),
            old(self)@.latencies.len() <= LATENCY_CAPACITY ==> final(self)@.latencies.len()
                <= LATENCY_CAPACITY,
    {
        if self.latency_samples.len() >= LATENCY_CAPACITY {
            let ghost before = self.latency_samples@;
            self.latency_samples.remove(0);
            assert(self.latency_samples@ == before.drop_first());
        }
        self.latency_samples.push(latency_us);
    }

    /// Messages received from MQTT brokers.
    pub fn mqtt_messages_received(&self) -> (count: u64)
        ensures
            count == self@.mqtt_received,
    {
        self.mqtt_messages_received
    }

    /// Messages published to MQTT brokers.
    pub fn mqtt_messages_sent(&self) -> (count: u64)
        ensures
            count == self@.mqtt_sent,
    {
        self.mqtt_messages_sent
    }

    /// Messages received from ZeroMQ sockets.
    pub fn zmq_messages_received(&self) -> (count: u64)
        ensures
            count == self@.zmq_received,
    {
        self.zmq_messages_received
    }

    /// Messages published to ZeroMQ sockets.
    pub fn zmq_messages_sent(&self) -> (count: u64)
        ensures
            count == self@.zmq_sent,
    {
        self.zmq_messages_sent
    }

    /// Errors counted.
    pub fn errors_total(&self) -> (count: u64)
        ensures
            count == self@.errors,
    {
        self.errors_total
    }

    /// How many latency samples the reservoir holds.
    pub fn latency_count(&self) -> (count: usize)
        ensures
            count == self@.latencies.len(),
    {
        self.latency_samples.len()
    }

    /// Messages forwarded: those published to either family.
    pub fn total_forwarded(&self) -> (total: u64)
        ensures
            total == advanced(self@.mqtt_sent, self@.zmq_sent as nat),
    {
        self.mqtt_messages_sent.saturating_add(self.zmq_messages_sent)
    }

    /// The median, the 95th and the 99th percentile of the latencies in the
    /// reservoir, in microseconds; zeros without samples.
    pub fn latency_quantiles(&self) -> (quantiles: (u64, u64, u64))
        ensures
            quantiles.0 == quantile(self@.latencies, 50),
            quantiles.1 == quantile(self@.latencies, 95),
            quantiles.2 == quantile(self@.latencies, 99),
    {
        let count = self.latency_samples.len();
        if count == 0 {
            return (0, 0, 0);
        }
        let sorted = sorted_copy(&self.latency_samples);
        proof {
            lemma_at_most_is_total();
            self.latency_samples@.lemma_sort_by_ensures(at_most());
            vstd::seq_lib::to_multiset_len(self.latency_samples@);
            vstd::seq_lib::to_multiset_len(sorted@);
        }
        (sorted[share(count, 50)], sorted[share(count, 95)], sorted[share(count, 99)])
    }

    /// The scrape text: every counter with its help and type lines, the
    /// uptime, the messages forwarded, and the latency summary.
    pub fn render_prometheus(&self, uptime_millis: u64) -> (text: String)
        ensures
            text@ == exposition(self@, uptime_millis),
    {
        let (median, high, highest) = self.latency_quantiles();
        let mut out = String::new();
        push_counter(
            &mut out,
            "bridge_mqtt_messages_received_total",
            "Total MQTT messages received",
            "counter",
            self.mqtt_messages_received,
        );
        push_counter(
            &mut out,
            "bridge_mqtt_messages_sent_total",
            "Total MQTT messages sent",
            "counter",
            self.mqtt_messages_sent,
        );
        push_counter(
            &mut out,
            "bridge_zmq_messages_received_total",
            "Total ZeroMQ messages received",
            "counter",
            self.zmq_messages_received,
        );
        push_counter(
            &mut out,
            "bridge_zmq_messages_sent_total",
            "Total ZeroMQ messages sent",
            "counter",
            self.zmq_messages_sent,
        );
        push_counter(
            &mut out,
            "bridge_errors_total",
            "Total errors encountered",
            "counter",
            self.errors_total,
        );
        push_metric_head(&mut out, "bridge_uptime_seconds", "Uptime in seconds", "gauge");
        out.append("bridge_uptime_seconds ");
        push_seconds(&mut out, uptime_millis);
        out.append("\n\n");
        push_counter(
            &mut out,
            "bridge_messages_forwarded_total",
            "Total messages forwarded",
            "counter",
            self.total_forwarded(),
        );
        push_metric_head(
            &mut out,
            "bridge_latency_milliseconds",
            "Message forwarding latency",
            "summary",
        );
        push_quantile(&mut out, "0.5", median);
        push_quantile(&mut out, "0.95", high);
        push_quantile(&mut out, "0.99", highest);
        out
    }
}

impl Default for Metrics {
    fn default() -> (metrics: Self)
        ensures
            metrics@ == (MetricsView {
                mqtt_received: 0,
                mqtt_sent: 0,
                zmq_received: 0,
                zmq_sent: 0,
                errors: 0,
                latencies: Seq::empty(),
            }),
    {
        Self::new()
    }
}

} // verus!
