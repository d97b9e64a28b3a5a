//! Whom to notify, in which order, and how long to wait in between.

use indexmap::IndexMap;
use vstd::prelude::*;

use crate::string_map::map_clone;
use crate::time::Duration;

verus! {

/// A typed notification address. Sending is up to the consumer; this crate
/// only says where to.
#[derive(Debug, PartialEq, Eq)]
pub enum NotifyTarget {
    Slack { webhook_secret_ref: String },
    Ntfy { topic: String },
    Pagerduty { service_key_secret_ref: String },
    Email { address: String },
    Webhook { url: String, secret_ref: Option<String> },
    /// Any other target: a name and its parameters.
    Custom { name: String, params: IndexMap<String, String> },
}

/// The model of a [`NotifyTarget`].
pub enum NotifyTargetView {
    Slack { webhook_secret_ref: Seq<char> },
    Ntfy { topic: Seq<char> },
    Pagerduty { service_key_secret_ref: Seq<char> },
    Email { address: Seq<char> },
    Webhook { url: Seq<char>, secret_ref: Option<Seq<char>> },
    Custom { name: Seq<char>, params: Seq<(Seq<char>, Seq<char>)> },
}

impl View for NotifyTarget {
    type V = NotifyTargetView;

    open spec fn view(&self) -> NotifyTargetView {
        match self {
            NotifyTarget::Slack { webhook_secret_ref } => NotifyTargetView::Slack {
                webhook_secret_ref: webhook_secret_ref@,
            },
            NotifyTarget::Ntfy { topic } => NotifyTargetView::Ntfy { topic: topic@ },
            NotifyTarget::Pagerduty { service_key_secret_ref } => NotifyTargetView::Pagerduty {
                service_key_secret_ref: service_key_secret_ref@,
            },
            NotifyTarget::Email { address } => NotifyTargetView::Email { address: address@ },
            NotifyTarget::Webhook { url, secret_ref } => NotifyTargetView::Webhook {
                url: url@,
                secret_ref: match secret_ref {
                    Some(text) => Some(text@),
                    None => None,
                },
            },
            NotifyTarget::Custom { name, params } => NotifyTargetView::Custom {
                name: name@,
                params: crate::string_map::map_entries(*params),
            },
        }
    }
}

impl Clone for NotifyTarget {
    fn clone(&self) -> (copy: Self)
        ensures
            copy@ == self@,
    {
        match self {
            NotifyTarget::Slack { webhook_secret_ref } => NotifyTarget::Slack {
                webhook_secret_ref: webhook_secret_ref.clone(),
            },
            NotifyTarget::Ntfy { topic } => NotifyTarget::Ntfy { topic: topic.clone() },
            NotifyTarget::Pagerduty { service_key_secret_ref } => NotifyTarget::Pagerduty {
                service_key_secret_ref: service_key_secret_ref.clone(),
            },
            NotifyTarget::Email { address } => NotifyTarget::Email { address: address.clone() },
            NotifyTarget::Webhook { url, secret_ref } => NotifyTarget::Webhook {
                url: url.clone(),
                secret_ref: match secret_ref {
                    Some(text) => Some(text.clone()),
                    None => None,
                },
            },
            NotifyTarget::Custom { name, params } => NotifyTarget::Custom {
                name: name.clone(),
                params: map_clone(params),
            },
        }
    }
}

/// One step of a ladder.
#[derive(Debug, PartialEq, Eq)]
pub struct EscalationTier {
    pub target: NotifyTarget,
    /// How long to wait before the next tier is notified.
    pub wait_before_next: Duration,
}

/// The model of an [`EscalationTier`], with the wait in nanoseconds.
pub struct EscalationTierView {
    pub target: NotifyTargetView,
    pub wait_before_next: int,
}

impl View for EscalationTier {
    type V = EscalationTierView;

    open spec fn view(&self) -> EscalationTierView {
        EscalationTierView { target: self.target@, wait_before_next: self.wait_before_next@ }
    }
}

impl Clone for EscalationTier {
    fn clone(&self) -> (copy: Self)
        ensures
            copy@ == self@,
    {
        EscalationTier { target: self.target.clone(), wait_before_next: self.wait_before_next }
    }
}

/// The wait of a tier that sets none: a quarter of an hour.
pub fn default_wait() -> (wait: Duration)
    ensures
        wait@ == 15 * 60 * crate::time::NANOS_PER_SECOND,
{
    Duration::minutes(15)
}

/// The tiers of an escalation, the first to be notified first.
#[derive(Debug, PartialEq, Eq)]
pub struct EscalationLadder {
    pub tiers: Vec<EscalationTier>,
}

impl View for EscalationLadder {
    type V = Seq<EscalationTierView>;

    open spec fn view(&self) -> Seq<EscalationTierView> {
        self.tiers@.map_values(|tier: EscalationTier| tier@)
    }
}

impl Clone for EscalationLadder {
    fn clone(&self) -> (copy: Self)
        ensures
            copy@ == self@,
    {
        let mut tiers: Vec<EscalationTier> = Vec::new();
        for i in 0..self.tiers.len()
            invariant
                tiers.len() == i,
                forall|j: int| 0 <= j < i ==> #[trigger] tiers@[j]@ == self.tiers@[j]@,
        {
            tiers.push(self.tiers[i].clone());
        }
        EscalationLadder { tiers }
    }
}

} // verus!
