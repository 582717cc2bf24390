use vstd::prelude::*;

use crate::filter::{
    alert_for, generate_quality_alert, should_alert, should_trigger_alert, QualityControlAlert,
};
use crate::message::{parse_welding_message, MessageError, WeldingMessage};
use crate::metrics::{bumped, window_after, MetricsCollector, MetricsView};

verus! {

/// Seconds to wait after a failed poll of the broker connection.
pub const RECONNECT_BACKOFF_SECONDS: u64 = 5;

/// Capacity of the queue between ingestion and processing.
pub const QUEUE_CAPACITY: usize = 100;

/// What a poll of the broker connection brought.
#[derive(Debug, Clone, PartialEq)]
pub enum BrokerEvent {
    /// A message published on a subscribed topic, with its raw payload.
    Publish { topic: String, payload: Vec<u8> },
    /// Any other protocol event.
    Other,
    /// The poll failed.
    PollError,
}

/// What the ingest loop does next.
#[derive(Debug, Clone, PartialEq)]
pub enum IngestAction {
    /// Hand the item to the processing queue.
    Enqueue { topic: String, payload: String },
    /// Poll again.
    Continue,
    /// Wait this many seconds, then poll again.
    Backoff { seconds: u64 },
}

/// How the handling of one queued item ended.
#[derive(Debug, Clone, Copy, PartialEq, Eq, Structural)]
pub enum ItemResult {
    /// An alert was raised and published.
    Published,
    /// An alert was raised but could not be published.
    PublishFailed,
    /// The message raised no alert.
    NoAlert,
    /// The message could not be decoded or was not a valid operation.
    Failed,
}

/// The text that a payload reads as in UTF-8, with each invalid sequence
/// replaced, as `String::from_utf8_lossy` gives it.
pub uninterp spec fn lossy_text(b: Seq<u8>) -> Seq<char>;

/// Relies on `String::from_utf8_lossy`: the result depends on the bytes alone.
#[verifier::external_body]
fn utf8_lossy(b: &[u8]) -> (r: String)
    ensures
        r@ == lossy_text(b@),
{
    String::from_utf8_lossy(b).into_owned()
}

/// The counters after one step of the ingest loop.
pub open spec fn after_event(m: MetricsView, event: BrokerEvent) -> MetricsView {
    match event {
        BrokerEvent::Publish { .. } => MetricsView {
            messages_received: bumped(m.messages_received),
            ..m
        },
        BrokerEvent::Other => m,
        BrokerEvent::PollError => MetricsView {
            connection_errors: bumped(m.connection_errors),
            ..m
        },
    }
}

/// The counters after one queued item has been handled.
pub open spec fn after_item(m: MetricsView, result: ItemResult, latency_ms: u64) -> MetricsView {
    let counted = match result {
        ItemResult::Published => MetricsView { alerts_generated: bumped(m.alerts_generated), ..m },
        ItemResult::PublishFailed => MetricsView { publish_errors: bumped(m.publish_errors), ..m },
        ItemResult::NoAlert => m,
        ItemResult::Failed => MetricsView { processing_errors: bumped(m.processing_errors), ..m },
    };
    MetricsView {
        latencies: window_after(counted.latencies, latency_ms),
        messages_processed: bumped(counted.messages_processed),
        ..counted
    }
}

/// One step of the ingest loop: a published message is counted and queued, a
/// failed poll is counted and waited out, anything else is passed over.
pub fn ingest_step(metrics: &mut MetricsCollector, event: BrokerEvent) -> (r: IngestAction)
    requires
        old(metrics).wf(),
    ensures
        final(metrics).wf(),
        final(metrics)@ == after_event(old(metrics)@, event),
        event matches BrokerEvent::Publish { topic, payload } ==> (r matches IngestAction::Enqueue {
            topic: t,
            payload: p,
        } && t == topic && p@ == lossy_text(payload@)),
        event is Other ==> r == IngestAction::Continue,
        event is PollError ==> r == (IngestAction::Backoff { seconds: RECONNECT_BACKOFF_SECONDS }),
{
    match event {
        BrokerEvent::Publish { topic, payload } => {
            let text = utf8_lossy(payload.as_slice());
            metrics.increment_messages_received();
            IngestAction::Enqueue { topic, payload: text }
        },
        BrokerEvent::Other => IngestAction::Continue,
        BrokerEvent::PollError => {
            metrics.increment_connection_errors();
            IngestAction::Backoff { seconds: RECONNECT_BACKOFF_SECONDS }
        },
    }
}

/// Validates a decoded reading and, when the alert rule fires, builds its alert.
pub fn process_welding_message(decoded: Option<WeldingMessage>) -> (r: Result<
    Option<QualityControlAlert>,
    MessageError,
>)
    ensures
        decoded is None ==> r == Err::<Option<QualityControlAlert>, MessageError>(
            MessageError::Decode,
        ),
        decoded matches Some(m) ==> (!m.valid() ==> r == Err::<
            Option<QualityControlAlert>,
            MessageError,
        >(MessageError::InvalidOperation)),
        decoded matches Some(m) ==> (m.valid() && !should_alert(m) ==> r == Ok::<
            Option<QualityControlAlert>,
            MessageError,
        >(None)),
        decoded matches Some(m) ==> (m.valid() && should_alert(m) ==> (r matches Ok(Some(a))
            && a@ == alert_for(m, a@.timestamp))),
{
    match parse_welding_message(decoded) {
        Ok(m) => {
            if should_trigger_alert(&m) {
                Ok(Some(generate_quality_alert(&m)))
            } else {
                Ok(None)
            }
        },
        Err(e) => Err(e),
    }
}

/// Records how one queued item ended: its outcome counter, its latency, and
/// one more processed message.
pub fn record_item(metrics: &mut MetricsCollector, result: ItemResult, latency_ms: u64)
    requires
        old(metrics).wf(),
    ensures
        final(metrics).wf(),
        final(metrics)@ == after_item(old(metrics)@, result, latency_ms),
{
    match result {
        ItemResult::Published => metrics.increment_alerts_generated(),
        ItemResult::PublishFailed => metrics.increment_publish_errors(),
        ItemResult::NoAlert => {},
        ItemResult::Failed => metrics.increment_processing_errors(),
    }
    metrics.record_processing_latency(latency_ms);
    metrics.increment_messages_processed();
}

} // verus!
