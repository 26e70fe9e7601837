//! The transport worker's decisions: the canonical topic of each payload
//! kind and the quality-of-service mapping.  The broker session itself is
//! outside work driven at the edge.

use vstd::prelude::*;
use vstd::string::StringExecFns;

use crate::definitions::MainConfig;
use crate::definitions::TransportAction;
use crate::storage::SqliteStorageAction;

verus! {

/// The topic attribute envelopes are published on.
pub fn attributes_topic() -> (s: String)
    ensures
        s@ == "v1/gateway/attributes"@,
{
    String::from_str("v1/gateway/attributes")
}

/// The topic timeseries envelopes are published on.
pub fn telemetry_topic() -> (s: String)
    ensures
        s@ == "v1/gateway/telemetry"@,
{
    String::from_str("v1/gateway/telemetry")
}

/// Maps a configured quality-of-service integer to the broker QoS level:
/// 0, 1 and 2 stand for themselves, anything else falls back to
/// at-least-once.
pub fn qos_from_config(qos: u8) -> (r: u8)
    ensures
        r == (if qos == 0 || qos == 1 || qos == 2 {
            qos
        } else {
            1u8
        }),
{
    match qos {
        0 => 0,
        1 => 1,
        2 => 2,
        _ => 1,
    }
}

/// Plans one publish: each transport action goes out on its canonical
/// topic, the body unchanged.
pub fn plan_publish(action: &TransportAction) -> (r: (String, String))
    ensures
        action matches TransportAction::SendTimeseries(body) ==> r.0@ == "v1/gateway/telemetry"@
            && r.1@ == body@,
        action matches TransportAction::SendAttributes(body) ==> r.0@ == "v1/gateway/attributes"@
            && r.1@ == body@,
{
    match action {
        TransportAction::SendTimeseries(body) => (telemetry_topic(), body.clone()),
        TransportAction::SendAttributes(body) => (attributes_topic(), body.clone()),
    }
}

/// The transport worker: the gateway configuration its session is built
/// from and its queue ends.  The broker loop runs at the edge with
/// `plan_publish` deciding topic and body.
pub struct MqttTransport {
    pub config: MainConfig,
    pub storage_tx: std::sync::mpsc::Sender<SqliteStorageAction>,
    pub transport_rx: std::sync::mpsc::Receiver<TransportAction>,
}

impl MqttTransport {
    /// Builds the worker around its configuration and queue ends.
    pub fn new(
        config: MainConfig,
        storage_tx: std::sync::mpsc::Sender<SqliteStorageAction>,
        transport_rx: std::sync::mpsc::Receiver<TransportAction>,
    ) -> (r: MqttTransport)
        ensures
            r.config == config,
    {
        MqttTransport { config, storage_tx, transport_rx }
    }
}

} // verus!
