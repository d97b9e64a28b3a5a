//! The body of an anomaly receipt.

use vstd::prelude::*;

use crate::anomaly::{LavaAnomaly, LavaAnomalyView};
use crate::router::{RoutingDecision, RoutingDecisionView};
use crate::suite::ContentHash;

verus! {

/// An anomaly, what was decided about it, and the content address of the
/// anomaly for lookups across chains.
#[derive(Debug, PartialEq, Eq)]
pub struct AnomalyPayload {
    pub anomaly: LavaAnomaly,
    pub decision: RoutingDecision,
    pub anomaly_hash: ContentHash,
}

/// The model of an [`AnomalyPayload`].
pub struct AnomalyPayloadView {
    pub anomaly: LavaAnomalyView,
    pub decision: RoutingDecisionView,
    pub anomaly_hash: Seq<u8>,
}

impl View for AnomalyPayload {
    type V = AnomalyPayloadView;

    open spec fn view(&self) -> AnomalyPayloadView {
        AnomalyPayloadView {
            anomaly: self.anomaly@,
            decision: self.decision@,
            anomaly_hash: self.anomaly_hash@,
        }
    }
}

impl Clone for AnomalyPayload {
    fn clone(&self) -> (copy: Self)
        ensures
            copy@ == self@,
    {
        AnomalyPayload {
            anomaly: self.anomaly.clone(),
            decision: self.decision.clone(),
            anomaly_hash: self.anomaly_hash,
        }
    }
}

impl LavaAnomalyView {
    /// The content address of the anomaly: the digest of its JSON text.
    pub open spec fn content_address(self) -> Seq<u8> {
        crate::suite::content_digest(vstd::utf8::encode_utf8(self.json()))
    }
}

impl AnomalyPayloadView {
    /// The content address is that of the anomaly.
    pub open spec fn well_addressed(self) -> bool {
        self.anomaly_hash == self.anomaly.content_address()
    }
}

impl AnomalyPayload {
    /// The tag of anomaly receipts in a chain.
    pub const KIND: &'static str = "lava.anomaly";

    /// The payload of `anomaly` and `decision`, with the content address of
    /// the anomaly.
    pub fn from(anomaly: LavaAnomaly, decision: RoutingDecision) -> (payload: Result<
        Self,
        serde_json::Error,
    >)
        ensures
            payload matches Ok(p) && p.anomaly == anomaly && p.decision == decision
                && p@.well_addressed() && p.anomaly_hash.0@ == crate::suite::content_digest(
                vstd::utf8::encode_utf8(anomaly@.json()),
            ),
    {
        let json = anomaly.to_json()?;
        let anomaly_hash = ContentHash::of(json.as_str().as_bytes());
        Ok(AnomalyPayload::addressed(anomaly, decision, anomaly_hash))
    }

    /// The payload of `anomaly` and `decision`, with `anomaly_hash` for the
    /// content address.
    pub fn addressed(
        anomaly: LavaAnomaly,
        decision: RoutingDecision,
        anomaly_hash: ContentHash,
    ) -> (payload: Self)
        ensures
            payload.anomaly == anomaly,
            payload.decision == decision,
            payload.anomaly_hash == anomaly_hash,
    {
        AnomalyPayload { anomaly, decision, anomaly_hash }
    }
}

} // verus!
