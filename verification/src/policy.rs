//! What an operator wants done about anomalies of each severity.

use vstd::prelude::*;

use crate::escalation::{EscalationLadder, EscalationTierView};
use crate::suite::Severity;

verus! {

/// What a controller does about an anomaly.
#[derive(Clone, Copy, Debug, PartialEq, Eq, Structural)]
pub enum RemediationAction {
    /// Suppress the anomaly; go on as before.
    NoOp,
    /// Log and persist the anomaly and tell the operator.
    Alert,
    /// Reconverge without asking.
    AutoCorrect,
    /// Halt and wait for an approval.
    RequireApproval,
    /// Notify the tiers of the escalation ladder.
    Escalate,
}

/// One action per severity, and the ladder that `Escalate` uses.
#[derive(Debug, PartialEq, Eq)]
pub struct RemediationPolicy {
    /// The action for cosmetic anomalies.
    pub cosmetic: RemediationAction,
    /// The action for functional anomalies.
    pub functional: RemediationAction,
    /// The action for critical anomalies.
    pub critical: RemediationAction,
    /// The ladder, read only when the action is `Escalate`.
    pub escalation: Option<EscalationLadder>,
}

/// The model of a [`RemediationPolicy`].
pub struct RemediationPolicyView {
    pub cosmetic: RemediationAction,
    pub functional: RemediationAction,
    pub critical: RemediationAction,
    pub escalation: Option<Seq<EscalationTierView>>,
}

impl View for RemediationPolicy {
    type V = RemediationPolicyView;

    open spec fn view(&self) -> RemediationPolicyView {
        RemediationPolicyView {
            cosmetic: self.cosmetic,
            functional: self.functional,
            critical: self.critical,
            escalation: match self.escalation {
                Some(ladder) => Some(ladder@),
                None => None,
            },
        }
    }
}

impl Clone for RemediationPolicy {
    fn clone(&self) -> (copy: Self)
        ensures
            copy@ == self@,
    {
        RemediationPolicy {
            cosmetic: self.cosmetic,
            functional: self.functional,
            critical: self.critical,
            escalation: match &self.escalation {
                Some(ladder) => Some(ladder.clone()),
                None => None,
            },
        }
    }
}

impl RemediationPolicyView {
    /// The policy of an operator who set nothing.
    pub open spec fn default_policy() -> Self {
        RemediationPolicyView {
            cosmetic: RemediationAction::Alert,
            functional: RemediationAction::AutoCorrect,
            critical: RemediationAction::RequireApproval,
            escalation: None,
        }
    }

    /// The action that the policy sets for `severity`.
    pub open spec fn action_for(self, severity: Severity) -> RemediationAction {
        match severity {
            Severity::Cosmetic => self.cosmetic,
            Severity::Functional => self.functional,
            Severity::Critical => self.critical,
        }
    }
}

impl Default for RemediationPolicy {
    fn default() -> (policy: Self)
        ensures
            policy@ == RemediationPolicyView::default_policy(),
            policy.cosmetic == RemediationAction::Alert,
            policy.functional == RemediationAction::AutoCorrect,
            policy.critical == RemediationAction::RequireApproval,
            policy.escalation is None,
    {
        RemediationPolicy {
            cosmetic: RemediationAction::Alert,
            functional: RemediationAction::AutoCorrect,
            critical: RemediationAction::RequireApproval,
            escalation: None,
        }
    }
}

impl RemediationPolicy {
    /// The action for an anomaly of `severity`.
    #[must_use]
    pub fn action_for(&self, severity: Severity) -> (action: RemediationAction)
        ensures
            action == self@.action_for(severity),
            severity == Severity::Cosmetic ==> action == self.cosmetic,
            severity == Severity::Functional ==> action == self.functional,
            severity == Severity::Critical ==> action == self.critical,
    {
        match severity {
            Severity::Cosmetic => self.cosmetic,
            Severity::Functional => self.functional,
            Severity::Critical => self.critical,
        }
    }
}

} // verus!
