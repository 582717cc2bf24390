use vstd::prelude::*;
use vstd::string::*;

use crate::filter::utc_now_rfc3339;
use crate::text::{decimal_text, hundredths_string, hundredths_text, tenths_string, tenths_text, u128_text};

verus! {

/// Most latency samples the window holds.
pub const LATENCY_WINDOW_CAPACITY: usize = 1000;

/// How many of the oldest samples leave the window when it overflows.
pub const LATENCY_EVICTION_BATCH: usize = 500;

/// A point-in-time reading of the counters and the latency window.
///
/// Rates are given in hundredths of a percent, latencies in milliseconds.
#[derive(Debug, Clone, PartialEq)]
pub struct MetricsData {
    pub messages_received: u64,
    pub messages_processed: u64,
    pub alerts_generated: u64,
    pub processing_errors: u64,
    pub connection_errors: u64,
    pub publish_errors: u64,
    pub latency_samples: u64,
    pub latency_total_ms: u128,
    pub max_processing_latency_ms: u64,
    pub uptime_seconds: u64,
    pub filter_hit_rate_hundredths: u128,
    pub timestamp: String,
}

/// Pipeline counters and a bounded window of recent processing latencies.
pub struct MetricsCollector {
    messages_received: u64,
    messages_processed: u64,
    alerts_generated: u64,
    processing_errors: u64,
    connection_errors: u64,
    publish_errors: u64,
    processing_latencies: Vec<u64>,
}

/// The counters and the latency window, as plain values.
pub struct MetricsView {
    pub messages_received: u64,
    pub messages_processed: u64,
    pub alerts_generated: u64,
    pub processing_errors: u64,
    pub connection_errors: u64,
    pub publish_errors: u64,
    pub latencies: Seq<u64>,
}

impl View for MetricsCollector {
    type V = MetricsView;

    closed spec fn view(&self) -> MetricsView {
        MetricsView {
            messages_received: self.messages_received,
            messages_processed: self.messages_processed,
            alerts_generated: self.alerts_generated,
            processing_errors: self.processing_errors,
            connection_errors: self.connection_errors,
            publish_errors: self.publish_errors,
            latencies: self.processing_latencies@,
        }
    }
}

/// A counter after one increment; it stays at its maximum once there.
pub open spec fn bumped(n: u64) -> u64 {
    if n < u64::MAX {
        (n + 1) as u64
    } else {
        n
    }
}

/// The window after one more sample: once it exceeds its capacity, the
/// oldest batch of samples is dropped.
pub open spec fn window_after(w: Seq<u64>, sample: u64) -> Seq<u64> {
    let p = w.push(sample);
    if p.len() > LATENCY_WINDOW_CAPACITY {
        p.subrange(LATENCY_EVICTION_BATCH as int, p.len() as int)
    } else {
        p
    }
}

pub open spec fn seq_total(s: Seq<u64>) -> int
    decreases s.len(),
{
    if s.len() == 0 {
        0
    } else {
        seq_total(s.drop_last()) + s.last()
    }
}

pub open spec fn seq_max(s: Seq<u64>) -> u64
    decreases s.len(),
{
    if s.len() == 0 {
        0
    } else if seq_max(s.drop_last()) >= s.last() {
        seq_max(s.drop_last())
    } else {
        s.last()
    }
}

/// Alerts per processed message, in hundredths of a percent; zero before
/// anything was processed.
pub open spec fn hit_rate_hundredths(alerts: u64, processed: u64) -> int {
    if processed == 0 {
        0
    } else {
        (alerts as int * 10000) / (processed as int)
    }
}

impl MetricsView {
    /// Every counter at zero and no latency samples.
    pub open spec fn is_zero(self) -> bool {
        &&& self.messages_received == 0
        &&& self.messages_processed == 0
        &&& self.alerts_generated == 0
        &&& self.processing_errors == 0
        &&& self.connection_errors == 0
        &&& self.publish_errors == 0
        &&& self.latencies.len() == 0
    }

    /// The reading that these values give.
    pub open spec fn reads_as(self, d: MetricsData) -> bool {
        &&& d.messages_received == self.messages_received
        &&& d.messages_processed == self.messages_processed
        &&& d.alerts_generated == self.alerts_generated
        &&& d.processing_errors == self.processing_errors
        &&& d.connection_errors == self.connection_errors
        &&& d.publish_errors == self.publish_errors
        &&& d.latency_samples == self.latencies.len()
        &&& d.latency_total_ms == seq_total(self.latencies)
        &&& d.max_processing_latency_ms == seq_max(self.latencies)
        &&& d.filter_hit_rate_hundredths == hit_rate_hundredths(
            self.alerts_generated,
            self.messages_processed,
        )
    }
}

/// Alerts per processed message in tenths of a percent, rounded down.
pub open spec fn hit_rate_tenths(alerts: u64, processed: u64) -> nat {
    if processed == 0 {
        0
    } else {
        ((alerts as int * 1000) / (processed as int)) as nat
    }
}

/// Mean latency of the window in hundredths of a millisecond, rounded down.
pub open spec fn mean_latency_hundredths(w: Seq<u64>) -> nat {
    if w.len() == 0 {
        0
    } else {
        ((seq_total(w) * 100) / (w.len() as int)) as nat
    }
}

/// The one-line summary of a collector's state.
pub open spec fn summary_text(m: MetricsView) -> Seq<char> {
    "Processed: "@ + decimal_text(m.messages_processed as nat) + ", Alerts: "@ + decimal_text(
        m.alerts_generated as nat,
    ) + ", Errors: "@ + decimal_text(m.processing_errors as nat) + ", Hit Rate: "@ + tenths_text(
        hit_rate_tenths(m.alerts_generated, m.messages_processed),
    ) + "%, Avg Latency: "@ + hundredths_text(mean_latency_hundredths(m.latencies)) + "ms"@
}

/// Recording a sample never takes the window past its capacity.
pub proof fn lemma_window_stays_bounded(w: Seq<u64>, sample: u64)
    requires
        w.len() <= LATENCY_WINDOW_CAPACITY,
    ensures
        window_after(w, sample).len() <= LATENCY_WINDOW_CAPACITY,
{
}

/// When a full window takes one more sample, its oldest batch leaves at once:
/// what stays is the newer half of the old samples, then the new one.
pub proof fn lemma_full_window_evicts_oldest_batch(w: Seq<u64>, sample: u64)
    requires
        w.len() == LATENCY_WINDOW_CAPACITY,
    ensures
        window_after(w, sample) == w.subrange(
            LATENCY_EVICTION_BATCH as int,
            LATENCY_WINDOW_CAPACITY as int,
        ).push(sample),
        window_after(w, sample).len() == LATENCY_WINDOW_CAPACITY - LATENCY_EVICTION_BATCH + 1,
{
    assert(window_after(w, sample) =~= w.subrange(
        LATENCY_EVICTION_BATCH as int,
        LATENCY_WINDOW_CAPACITY as int,
    ).push(sample));
}

proof fn lemma_total_bound(s: Seq<u64>)
    ensures
        0 <= seq_total(s) <= s.len() * 18446744073709551615,
    decreases s.len(),
{
    if s.len() > 0 {
        lemma_total_bound(s.drop_last());
    }
}

impl MetricsCollector {
    /// The latency window never exceeds its capacity.
    pub closed spec fn wf(&self) -> bool {
        self.processing_latencies@.len() <= LATENCY_WINDOW_CAPACITY
    }

    pub proof fn lemma_window_bounded(&self)
        requires
            self.wf(),
        ensures
            self@.latencies.len() <= LATENCY_WINDOW_CAPACITY,
    {
    }

    /// A collector with every counter at zero and an empty window.
    pub fn new() -> (r: MetricsCollector)
        ensures
            r.wf(),
            r@.is_zero(),
    {
        MetricsCollector {
            messages_received: 0,
            messages_processed: 0,
            alerts_generated: 0,
            processing_errors: 0,
            connection_errors: 0,
            publish_errors: 0,
            processing_latencies: Vec::new(),
        }
    }

    pub fn increment_messages_received(&mut self)
        requires
            old(self).wf(),
        ensures
            final(self).wf(),
            final(self)@ == (MetricsView {
                messages_received: bumped(old(self)@.messages_received),
                ..old(self)@
            }),
    {
        self.messages_received = self.messages_received.saturating_add(1);
    }

    pub fn increment_messages_processed(&mut self)
        requires
            old(self).wf(),
        ensures
            final(self).wf(),
            final(self)@ == (MetricsView {
                messages_processed: bumped(old(self)@.messages_processed),
                ..old(self)@
            }),
    {
        self.messages_processed = self.messages_processed.saturating_add(1);
    }

    pub fn increment_alerts_generated(&mut self)
        requires
            old(self).wf(),
        ensures
            final(self).wf(),
            final(self)@ == (MetricsView {
                alerts_generated: bumped(old(self)@.alerts_generated),
                ..old(self)@
            }),
    {
        self.alerts_generated = self.alerts_generated.saturating_add(1);
    }

    pub fn increment_processing_errors(&mut self)
        requires
            old(self).wf(),
        ensures
            final(self).wf(),
            final(self)@ == (MetricsView {
                processing_errors: bumped(old(self)@.processing_errors),
                ..old(self)@
            }),
    {
        self.processing_errors = self.processing_errors.saturating_add(1);
    }

    pub fn increment_connection_errors(&mut self)
        requires
            old(self).wf(),
        ensures
            final(self).wf(),
            final(self)@ == (MetricsView {
                connection_errors: bumped(old(self)@.connection_errors),
                ..old(self)@
            }),
    {
        self.connection_errors = self.connection_errors.saturating_add(1);
    }

    pub fn increment_publish_errors(&mut self)
        requires
            old(self).wf(),
        ensures
            final(self).wf(),
            final(self)@ == (MetricsView {
                publish_errors: bumped(old(self)@.publish_errors),
                ..old(self)@
            }),
    {
        self.publish_errors = self.publish_errors.saturating_add(1);
    }

    /// Adds one latency sample; when the window then exceeds its capacity,
    /// its oldest batch of samples is dropped at once.
    pub fn record_processing_latency(&mut self, latency_ms: u64)
        requires
            old(self).wf(),
        ensures
            final(self).wf(),
            final(self)@ == (MetricsView {
                latencies: window_after(old(self)@.latencies, latency_ms),
                ..old(self)@
            }),
    {
        self.processing_latencies.push(latency_ms);
        if self.processing_latencies.len() > LATENCY_WINDOW_CAPACITY {
            let newer = self.processing_latencies.split_off(LATENCY_EVICTION_BATCH);
            self.processing_latencies = newer;
        }
    }

    /// A reading of the counters and of the latency window.
    pub fn get_metrics(&self, uptime_seconds: u64) -> (r: MetricsData)
        requires
            self.wf(),
        ensures
            self@.reads_as(r),
            r.uptime_seconds == uptime_seconds,
    {
        let n = self.processing_latencies.len();
        let mut total: u128 = 0;
        let mut max: u64 = 0;
        let mut i: usize = 0;
        while i < n
            invariant
                n == self.processing_latencies@.len(),
                n <= LATENCY_WINDOW_CAPACITY,
                i <= n,
                total == seq_total(self.processing_latencies@.subrange(0, i as int)),
                max == seq_max(self.processing_latencies@.subrange(0, i as int)),
            decreases n - i,
        {
            let ghost before = self.processing_latencies@.subrange(0, i as int);
            let ghost after = self.processing_latencies@.subrange(0, i + 1);
            proof {
                assert(after.drop_last() =~= before);
                lemma_total_bound(before);
            }
            let x = self.processing_latencies[i];
            total = total + x as u128;
            if x > max {
                max = x;
            }
            i = i + 1;
        }
        proof {
            assert(self.processing_latencies@.subrange(0, n as int) =~= self.processing_latencies@);
        }
        let rate: u128 = if self.messages_processed > 0 {
            (self.alerts_generated as u128 * 10000) / (self.messages_processed as u128)
        } else {
            0
        };
        MetricsData {
            messages_received: self.messages_received,
            messages_processed: self.messages_processed,
            alerts_generated: self.alerts_generated,
            processing_errors: self.processing_errors,
            connection_errors: self.connection_errors,
            publish_errors: self.publish_errors,
            latency_samples: n as u64,
            latency_total_ms: total,
            max_processing_latency_ms: max,
            uptime_seconds,
            filter_hit_rate_hundredths: rate,
            timestamp: utc_now_rfc3339(),
        }
    }

    /// A one-line summary: counts, hit rate and mean latency.
    pub fn get_summary(&self) -> (r: String)
        requires
            self.wf(),
        ensures
            r@ == summary_text(self@),
    {
        let m = self.get_metrics(0);
        let tenths: u128 = if m.messages_processed > 0 {
            (m.alerts_generated as u128 * 1000) / (m.messages_processed as u128)
        } else {
            0
        };
        proof {
            lemma_total_bound(self@.latencies);
        }
        let mean: u128 = if m.latency_samples > 0 {
            (m.latency_total_ms * 100) / (m.latency_samples as u128)
        } else {
            0
        };
        String::from_str("Processed: ").concat(u128_text(m.messages_processed as u128).as_str()).concat(
            ", Alerts: ",
        ).concat(u128_text(m.alerts_generated as u128).as_str()).concat(", Errors: ").concat(
            u128_text(m.processing_errors as u128).as_str(),
        ).concat(", Hit Rate: ").concat(tenths_string(tenths).as_str()).concat(
            "%, Avg Latency: ",
        ).concat(hundredths_string(mean).as_str()).concat("ms")
    }

    /// Zeroes every counter and empties the latency window.
    pub fn reset(&mut self)
        ensures
            final(self).wf(),
            final(self)@.is_zero(),
    {
        self.messages_received = 0;
        self.messages_processed = 0;
        self.alerts_generated = 0;
        self.processing_errors = 0;
        self.connection_errors = 0;
        self.publish_errors = 0;
        self.processing_latencies.clear();
    }
}

impl Default for MetricsCollector {
    fn default() -> (r: MetricsCollector)
        ensures
            r.wf(),
            r@.is_zero(),
    {
        MetricsCollector::new()
    }
}

} // verus!
