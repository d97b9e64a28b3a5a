//! Typed anomaly routing for infrastructure controllers.
//!
//! A controller that notices something wrong (drift, a failed synthesis, a
//! failed apply, a blocked dependency, a policy violation) emits a
//! [`LavaAnomaly`]. An [`AnomalyRouter`] weighs it against a
//! [`RemediationPolicy`] and answers with a [`RoutingDecision`]: what to do,
//! when to look again, and whom to notify.
//!
//! ```text
//! LavaAnomaly + RemediationPolicy
//!   -> AnomalyRouter::route -> RoutingDecision { action, requeue_after, escalation }
//!        AutoCorrect      the controller reconverges
//!        RequireApproval  the controller halts and waits for an approval
//!        Escalate         the first tier of the ladder is notified
//!        Alert / NoOp     the anomaly is logged and chained, nothing more
//! ```
//!
//! An [`AnomalyPayload`] pairs an anomaly with its decision and with the
//! content address of the anomaly, ready to be chained as a receipt.
//!
//! Contracts speak of views: every public type has a mathematical model, and
//! every function says what it does to the models. What each operation does to
//! the values that it is given is stated and proved in [`behaviour`], and what
//! holds of the library as a whole in [`laws`].

pub mod anomaly;
pub mod behaviour;
pub mod encoding;
pub mod escalation;
mod json_lemmas;
pub mod laws;
pub mod payload;
pub mod policy;
pub mod router;
pub mod string_map;
pub mod suite;
pub mod text;
pub mod time;

pub use anomaly::{AnomalyKind, LavaAnomaly};
pub use escalation::{default_wait, EscalationLadder, EscalationTier, NotifyTarget};
pub use payload::AnomalyPayload;
pub use policy::{RemediationAction, RemediationPolicy};
pub use router::{AnomalyRouter, MockRouter, PolicyRouter, RouterError, RoutingDecision};
pub use suite::{ContentHash, ResourceAddress, Severity};
pub use time::{Duration, Timestamp};
