//! The aggregator: stamps each batch with the wall clock, renders both JSON
//! envelopes keyed by the device name, and fans the batch out — the storage
//! insert first, then the two transport publishes.

use vstd::prelude::*;

use crate::clock::now_millis;
use crate::definitions::AggregatorAction;
use crate::definitions::AttributeMessage;
use crate::definitions::TimeseriesMessage;
use crate::definitions::TransportAction;
use crate::json::attributes_envelope;
use crate::json::render_attributes_envelope;
use crate::json::render_timeseries_envelope;
use crate::json::timeseries_envelope;
use crate::json::views_of_frames;
use crate::queue::channel_recv;
use crate::queue::channel_send;
use crate::storage::Insert;
use crate::storage::SqliteStorageAction;

verus! {

/// The aggregator worker: its input queue and the sending ends of the
/// storage and transport queues.
pub struct Aggregator {
    aggregator_rx: std::sync::mpsc::Receiver<AggregatorAction>,
    storage_tx: std::sync::mpsc::Sender<SqliteStorageAction>,
    transport_tx: std::sync::mpsc::Sender<TransportAction>,
}

impl Aggregator {
    /// Builds the worker around its three queue ends.
    pub fn new(
        aggregator_rx: std::sync::mpsc::Receiver<AggregatorAction>,
        storage_tx: std::sync::mpsc::Sender<SqliteStorageAction>,
        transport_tx: std::sync::mpsc::Sender<TransportAction>,
    ) -> Aggregator {
        Aggregator { aggregator_rx, storage_tx, transport_tx }
    }

    /// Message fan-out: one accepted batch becomes exactly one storage
    /// insert and exactly two transport publishes, all three carrying the
    /// envelopes of the batch's device.  The device name is taken from the
    /// timeseries half, and both envelopes are keyed by it.
    pub fn aggregate(attributes: AttributeMessage, timeseries: TimeseriesMessage, ts: i64) -> (r: (
        SqliteStorageAction,
        TransportAction,
        TransportAction,
    ))
        ensures
            r.0 matches SqliteStorageAction::InsertBoth(ins) && ins.ts == ts && ins.device_name@
                == timeseries.0@ && (ins.timeseries_message matches Some(m) && m@
                == timeseries_envelope(timeseries.0@, views_of_frames(timeseries.1@))) && (
            ins.attributes_message matches Some(m) && m@ == attributes_envelope(
                timeseries.0@,
                attributes.1@,
            )),
            r.1 matches TransportAction::SendTimeseries(m) && m@ == timeseries_envelope(
                timeseries.0@,
                views_of_frames(timeseries.1@),
            ),
            r.2 matches TransportAction::SendAttributes(m) && m@ == attributes_envelope(
                timeseries.0@,
                attributes.1@,
            ),
    {
        let (device_name, frames) = timeseries;
        let timeseries_message = render_timeseries_envelope(&device_name, &frames);
        let attributes_message = render_attributes_envelope(&device_name, &attributes.1);
        let insert = SqliteStorageAction::InsertBoth(
            Insert {
                ts,
                device_name,
                timeseries_message: Some(timeseries_message.clone()),
                attributes_message: Some(attributes_message.clone()),
            },
        );
        (
            insert,
            TransportAction::SendTimeseries(timeseries_message),
            TransportAction::SendAttributes(attributes_message),
        )
    }

    /// Blocks for the next batch and fans it out.  The batch is stamped
    /// with the wall clock and its three outputs leave in the fixed order —
    /// storage first, then the timeseries publish, then the attributes
    /// publish — so local persistence is never behind the wire.  Send
    /// failures are dropped, as the worker never unwinds.  False once every
    /// poller is gone: the edge loop then stops.
    pub fn process(&self) -> (more: bool) {
        match channel_recv(&self.aggregator_rx) {
            None => false,
            Some(action) => {
                match action {
                    AggregatorAction::SendBoth(attributes, timeseries) => {
                        let ts = now_millis();
                        let (insert, send_series, send_attrs) = Aggregator::aggregate(
                            attributes,
                            timeseries,
                            ts,
                        );
                        let _ = channel_send(&self.storage_tx, insert);
                        let _ = channel_send(&self.transport_tx, send_series);
                        let _ = channel_send(&self.transport_tx, send_attrs);
                    },
                }
                true
            },
        }
    }
}

} // verus!
