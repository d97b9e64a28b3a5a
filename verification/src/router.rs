//! From an anomaly and a policy to a decision.

use vstd::prelude::*;
use vstd::string::StringExecFns;

use crate::anomaly::LavaAnomaly;
use crate::escalation::{EscalationTier, EscalationTierView};
use crate::policy::{RemediationAction, RemediationPolicy, RemediationPolicyView};
use crate::suite::Severity;
use crate::time::Duration;

verus! {

/// What a router answers.
#[derive(Debug, PartialEq, Eq)]
pub struct RoutingDecision {
    pub action: RemediationAction,
    /// When the controller should look again.
    pub requeue_after: Duration,
    /// Whom to notify, when the action is `Escalate`.
    pub escalation: Option<EscalationTier>,
}

/// The model of a [`RoutingDecision`], with the delay in nanoseconds.
pub struct RoutingDecisionView {
    pub action: RemediationAction,
    pub requeue_after: int,
    pub escalation: Option<EscalationTierView>,
}

impl View for RoutingDecision {
    type V = RoutingDecisionView;

    open spec fn view(&self) -> RoutingDecisionView {
        RoutingDecisionView {
            action: self.action,
            requeue_after: self.requeue_after@,
            escalation: match self.escalation {
                Some(tier) => Some(tier@),
                None => None,
            },
        }
    }
}

impl Clone for RoutingDecision {
    fn clone(&self) -> (copy: Self)
        ensures
            copy@ == self@,
    {
        RoutingDecision {
            action: self.action,
            requeue_after: self.requeue_after,
            escalation: match &self.escalation {
                Some(tier) => Some(tier.clone()),
                None => None,
            },
        }
    }
}

/// Why a router could not decide.
#[derive(Debug)]
pub enum RouterError {
    /// The escalation has nobody to go to.
    Escalation(String),
}

/// The model of a [`RouterError`].
pub enum RouterErrorView {
    Escalation(Seq<char>),
}

impl View for RouterError {
    type V = RouterErrorView;

    open spec fn view(&self) -> RouterErrorView {
        match self {
            RouterError::Escalation(reason) => RouterErrorView::Escalation(reason@),
        }
    }
}

impl RouterError {
    /// The error in words.
    pub fn message(&self) -> (text: String)
        ensures
            text@ == match self@ {
                RouterErrorView::Escalation(reason) => "escalation: "@ + reason,
            },
    {
        match self {
            RouterError::Escalation(reason) => String::from("escalation: ").concat(
                reason.as_str(),
            ),
        }
    }
}

/// The model of what a router returns.
pub open spec fn outcome(result: Result<RoutingDecision, RouterError>) -> Result<
    RoutingDecisionView,
    RouterErrorView,
> {
    match result {
        Ok(decision) => Ok(decision@),
        Err(error) => Err(error@),
    }
}

/// How many seconds pass before the controller looks again.
pub open spec fn requeue_seconds(action: RemediationAction) -> int {
    match action {
        RemediationAction::NoOp => 600,
        RemediationAction::Alert => 300,
        RemediationAction::AutoCorrect => 30,
        RemediationAction::RequireApproval => 120,
        RemediationAction::Escalate => 60,
    }
}

/// The decision that `policy` asks for when an anomaly is of `severity`.
pub open spec fn policy_outcome(policy: RemediationPolicyView, severity: Severity) -> Result<
    RoutingDecisionView,
    RouterErrorView,
> {
    let action = policy.action_for(severity);
    let requeue_after = requeue_seconds(action) * crate::time::NANOS_PER_SECOND;
    if action != RemediationAction::Escalate {
        Ok(RoutingDecisionView { action, requeue_after, escalation: None })
    } else {
        match policy.escalation {
            Some(tiers) if tiers.len() > 0 => Ok(
                RoutingDecisionView { action, requeue_after, escalation: Some(tiers[0]) },
            ),
            _ => Err(RouterErrorView::Escalation("Escalate set but no ladder"@)),
        }
    }
}

/// Decides what to do about an anomaly. [`PolicyRouter`] is the one to use;
/// [`MockRouter`] drives a controller without a policy.
pub trait AnomalyRouter {
    /// What to do about `anomaly` under `policy`.
    fn route(&self, anomaly: &LavaAnomaly, policy: &RemediationPolicy) -> (result: Result<
        RoutingDecision,
        RouterError,
    >);
}

/// The router that follows the policy.
#[derive(Clone, Copy, Debug, Default)]
pub struct PolicyRouter;

impl AnomalyRouter for PolicyRouter {
    /// The action that `policy` sets for the severity of `anomaly`, the delay
    /// that goes with it and, for an escalation, the first tier of the ladder.
    /// It fails only when it has to escalate and there is no first tier.
    fn route(&self, anomaly: &LavaAnomaly, policy: &RemediationPolicy) -> (result: Result<
        RoutingDecision,
        RouterError,
    >)
        ensures
            outcome(result) == policy_outcome(policy@, anomaly@.severity),
    {
        let action = policy.action_for(anomaly.severity);
        let requeue_after = match action {
            RemediationAction::NoOp => Duration::minutes(10),
            RemediationAction::Alert => Duration::minutes(5),
            RemediationAction::AutoCorrect => Duration::seconds(30),
            RemediationAction::RequireApproval => Duration::minutes(2),
            RemediationAction::Escalate => Duration::minutes(1),
        };
        let escalation = if action == RemediationAction::Escalate {
            match &policy.escalation {
                Some(ladder) if ladder.tiers.len() > 0 => Some(ladder.tiers[0].clone()),
                _ => {
                    return Err(
                        RouterError::Escalation(String::from("Escalate set but no ladder")),
                    );
                },
            }
        } else {
            None
        };
        Ok(RoutingDecision { action, requeue_after, escalation })
    }
}

/// The router that always answers the same.
pub struct MockRouter {
    pub decision: RoutingDecision,
}

impl MockRouter {
    /// A router that answers `decision`.
    #[must_use]
    pub fn returning(decision: RoutingDecision) -> (router: Self)
        ensures
            router.decision == decision,
    {
        MockRouter { decision }
    }
}

impl AnomalyRouter for MockRouter {
    /// The decision that the router was made with, whatever the arguments.
    fn route(&self, anomaly: &LavaAnomaly, policy: &RemediationPolicy) -> (result: Result<
        RoutingDecision,
        RouterError,
    >)
        ensures
            outcome(result) == Ok::<RoutingDecisionView, RouterErrorView>(self.decision@),
    {
        Ok(self.decision.clone())
    }
}

} // verus!
