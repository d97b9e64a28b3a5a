//! What each operation does to the values that it is given: laws over the
//! arguments of a call and what it returned, field by field.

use core::cmp::Ordering;
use vstd::prelude::*;
use vstd::std_specs::cmp::{PartialEqSpec, PartialOrdSpec};

use crate::anomaly::{AnomalyKind, LavaAnomaly, LavaAnomalyView};
use crate::escalation::{
    EscalationLadder, EscalationTier, NotifyTarget, NotifyTargetView,
};
use crate::payload::AnomalyPayload;
use crate::policy::{RemediationAction, RemediationPolicy};
use crate::router::{
    AnomalyRouter, MockRouter, PolicyRouter, RouterError, RouterErrorView, RoutingDecision,
    RoutingDecisionView,
};
use crate::suite::{ContentHash, ResourceAddress, ResourceAddressView, Severity};
use crate::time::{Duration, Timestamp};

verus! {

// Conversions into text.

/// What a value is converted to is what its `Into<String>` gives.
pub proof fn conversion_is_into<Source: Into<String>>(source: Source, text: String)
    ensures
        crate::text::converts_to(source, text) <==> call_ensures(
            <Source as Into<String>>::into,
            (source,),
            text,
        ),
{
}

/// Text converts to itself, borrowed or owned.
pub proof fn text_converts_to_itself(borrowed: &str, owned: String, text: String)
    ensures
        crate::text::converts_to(borrowed, text) ==> text@ == borrowed@,
        crate::text::converts_to(owned, text) ==> text == owned,
{
}

// Anomalies.

/// Each kind has its tag.
pub proof fn as_str_gives_the_tag(kind: AnomalyKind, text: &'static str)
    requires
        call_ensures(AnomalyKind::as_str, (kind,), text),
    ensures
        kind == AnomalyKind::DriftDetected ==> text@ == "DriftDetected"@,
        kind == AnomalyKind::SynthesisFailure ==> text@ == "SynthesisFailure"@,
        kind == AnomalyKind::ApplyFailure ==> text@ == "ApplyFailure"@,
        kind == AnomalyKind::DependencyBlocked ==> text@ == "DependencyBlocked"@,
        kind == AnomalyKind::PolicyViolation ==> text@ == "PolicyViolation"@,
        kind == AnomalyKind::Custom ==> text@ == "Custom"@,
{
}

/// The model of an address holds its parts.
pub proof fn address_model(address: ResourceAddress)
    ensures
        address@.cluster == address.cluster@,
        address@.namespace == address.namespace@,
        address@.name == address.name@,
{
}

/// The model of an anomaly holds what the anomaly holds.
pub proof fn anomaly_model(anomaly: LavaAnomaly)
    ensures
        anomaly@.kind == anomaly.kind,
        anomaly@.severity == anomaly.severity,
        anomaly@.source == anomaly.source@,
        anomaly@.message == anomaly.message@,
        anomaly@.emitted_at == anomaly.emitted_at@,
        anomaly@.metadata == crate::string_map::map_entries(anomaly.metadata),
        anomaly@.extension_kind is Some <==> anomaly.extension_kind is Some,
        anomaly.extension_kind matches Some(name) ==> anomaly@.extension_kind == Some(name@),
{
}

/// A bare anomaly has the kind, the severity, the source, the message and the
/// instant that it is given, and nothing else attached.
pub proof fn bare_anomaly_keeps_what_it_is_given(
    kind: AnomalyKind,
    severity: Severity,
    source: ResourceAddressView,
    message: Seq<char>,
    emitted_at: (int, int),
)
    ensures
        ({
            let anomaly = LavaAnomalyView::bare(kind, severity, source, message, emitted_at);
            &&& anomaly.kind == kind
            &&& anomaly.severity == severity
            &&& anomaly.source.cluster == source.cluster
            &&& anomaly.source.namespace == source.namespace
            &&& anomaly.source.name == source.name
            &&& anomaly.message == message
            &&& anomaly.emitted_at == emitted_at
            &&& anomaly.extension_kind is None
            &&& anomaly.metadata.len() == 0
        }),
{
}

/// Naming the kind of an anomaly changes the extension kind to that name and
/// no other field, whatever the anomaly; setting a key changes the metadata
/// and no other field.
pub proof fn attachments_change_one_field(
    anomaly: LavaAnomalyView,
    name: Seq<char>,
    key: Seq<char>,
    value: Seq<char>,
)
    ensures
        ({
            let named = anomaly.with_extension_kind(name);
            let tagged = anomaly.with_metadata(key, value);
            &&& named.extension_kind == Some(name)
            &&& named.kind == anomaly.kind && tagged.kind == anomaly.kind
            &&& named.severity == anomaly.severity && tagged.severity == anomaly.severity
            &&& named.source == anomaly.source && tagged.source == anomaly.source
            &&& named.message == anomaly.message && tagged.message == anomaly.message
            &&& named.emitted_at == anomaly.emitted_at && tagged.emitted_at == anomaly.emitted_at
            &&& named.metadata == anomaly.metadata
            &&& tagged.extension_kind == anomaly.extension_kind
            &&& tagged.metadata.contains((key, value))
        }),
{
    crate::laws::metadata_reads_back(anomaly, key, value);
    assert(anomaly.with_metadata(key, value).metadata.contains((key, value)));
}

/// A copy of an address is the address.
pub proof fn address_copies_are_the_same(address: ResourceAddress, copy: ResourceAddress)
    requires
        call_ensures(<ResourceAddress as Clone>::clone, (&address,), copy),
    ensures
        copy == address,
{
}

/// An address has the parts that it was made of, each in its place.
pub proof fn address_keeps_its_parts<C: Into<String>, N: Into<String>, R: Into<String>>(
    cluster: C,
    namespace: N,
    name: R,
    address: ResourceAddress,
)
    requires
        call_ensures(ResourceAddress::new::<C, N, R>, (cluster, namespace, name), address),
    ensures
        call_ensures(<C as Into<String>>::into, (cluster,), address.cluster),
        call_ensures(<N as Into<String>>::into, (namespace,), address.namespace),
        call_ensures(<R as Into<String>>::into, (name,), address.name),
{
}

/// An anomaly has the kind, the severity, the source, the message and the
/// instant that it was made with, and nothing else attached.
pub proof fn emitted_keeps_what_it_is_given(
    kind: AnomalyKind,
    severity: Severity,
    source: ResourceAddress,
    message: String,
    emitted_at: Timestamp,
    anomaly: LavaAnomaly,
)
    requires
        call_ensures(
            LavaAnomaly::emitted,
            (kind, severity, source, message, emitted_at),
            anomaly,
        ),
    ensures
        anomaly.kind == kind,
        anomaly.severity == severity,
        anomaly.source == source,
        anomaly.message == message,
        anomaly.emitted_at == emitted_at,
        anomaly.extension_kind is None,
        crate::string_map::map_entries(anomaly.metadata).len() == 0,
{
}

/// A new anomaly has the kind, the severity and the source that it was made
/// with, the text of its message, an instant that the clock gave, and nothing
/// else attached.
pub proof fn new_keeps_what_it_is_given<M: Into<String>>(
    kind: AnomalyKind,
    severity: Severity,
    source: ResourceAddress,
    message: M,
    anomaly: LavaAnomaly,
)
    requires
        call_ensures(LavaAnomaly::new::<M>, (kind, severity, source, message), anomaly),
    ensures
        anomaly.kind == kind,
        anomaly.severity == severity,
        anomaly.source == source,
        call_ensures(<M as Into<String>>::into, (message,), anomaly.message),
        call_ensures(Timestamp::now, (), anomaly.emitted_at),
        anomaly.extension_kind is None,
        crate::string_map::map_entries(anomaly.metadata).len() == 0,
{
}

/// Naming the kind of an anomaly sets that name, whatever the anomaly, and
/// leaves every other field as it was.
pub proof fn with_extension_kind_sets_the_name_alone<N: Into<String>>(
    before: LavaAnomaly,
    name: N,
    after: LavaAnomaly,
)
    requires
        call_ensures(LavaAnomaly::with_extension_kind::<N>, (before, name), after),
    ensures
        after.extension_kind matches Some(text) && call_ensures(
            <N as Into<String>>::into,
            (name,),
            text,
        ),
        after.kind == before.kind,
        after.severity == before.severity,
        after.source == before.source,
        after.message == before.message,
        after.emitted_at == before.emitted_at,
        after.metadata == before.metadata,
{
}

/// Setting a key attaches the value to it and to nothing else, whatever the
/// anomaly: the key stands in the metadata once with that value, every other
/// pair and the order of the keys stay, and every other field is as it was.
pub proof fn with_metadata_sets_the_key_alone<K: Into<String>, V: Into<String>>(
    before: LavaAnomaly,
    key: K,
    value: V,
    after: LavaAnomaly,
)
    requires
        call_ensures(LavaAnomaly::with_metadata::<K, V>, (before, key, value), after),
    ensures
        exists|k: String, v: String|
            #![trigger crate::text::converts_to(key, k), crate::text::converts_to(value, v)]
            {
                let old_pairs = crate::string_map::map_entries(before.metadata);
                let new_pairs = crate::string_map::map_entries(after.metadata);
                &&& call_ensures(<K as Into<String>>::into, (key,), k)
                &&& call_ensures(<V as Into<String>>::into, (value,), v)
                &&& crate::text::converts_to(key, k)
                &&& crate::text::converts_to(value, v)
                &&& new_pairs.contains((k@, v@))
                &&& forall|i: int|
                    0 <= i < new_pairs.len() && (#[trigger] new_pairs[i]).0 == k@ ==> new_pairs[i].1
                        == v@
                &&& forall|i: int|
                    0 <= i < old_pairs.len() ==> (#[trigger] new_pairs[i]).0 == old_pairs[i].0 && (
                    old_pairs[i].0 != k@ ==> new_pairs[i].1 == old_pairs[i].1)
                &&& new_pairs.len() == old_pairs.len() || {
                    &&& new_pairs.len() == old_pairs.len() + 1
                    &&& new_pairs.last() == (k@, v@)
                    &&& forall|i: int|
                        0 <= i < old_pairs.len() ==> (#[trigger] old_pairs[i]).0 != k@
                }
            },
        after.kind == before.kind,
        after.extension_kind == before.extension_kind,
        after.severity == before.severity,
        after.source == before.source,
        after.message == before.message,
        after.emitted_at == before.emitted_at,
{
    let (k, v) = choose|k: String, v: String|
        #![trigger crate::text::converts_to(key, k), crate::text::converts_to(value, v)]
        {
            &&& crate::text::converts_to(key, k)
            &&& crate::text::converts_to(value, v)
            &&& after@ == before@.with_metadata(k@, v@)
            &&& crate::string_map::map_entries(after.metadata).contains((k@, v@))
        };
    assert(crate::text::converts_to(key, k) && crate::text::converts_to(value, v));
    assert(crate::string_map::map_entries(after.metadata) == after@.metadata);
    assert(crate::string_map::map_entries(before.metadata) == before@.metadata);
    crate::laws::metadata_reads_back(before@, k@, v@);
    crate::laws::metadata_keeps_its_order(before@, k@, v@);
}

/// A copy of an anomaly tells the same.
pub proof fn anomaly_copies_are_alike(anomaly: LavaAnomaly, copy: LavaAnomaly)
    requires
        call_ensures(<LavaAnomaly as Clone>::clone, (&anomaly,), copy),
    ensures
        copy.kind == anomaly.kind,
        copy.severity == anomaly.severity,
        copy.extension_kind is Some <==> anomaly.extension_kind is Some,
        copy.extension_kind is Some ==> copy.extension_kind->0@ == anomaly.extension_kind->0@,
        copy.source.cluster@ == anomaly.source.cluster@,
        copy.source.namespace@ == anomaly.source.namespace@,
        copy.source.name@ == anomaly.source.name@,
        copy.message@ == anomaly.message@,
        copy.emitted_at@ == anomaly.emitted_at@,
        crate::string_map::map_entries(copy.metadata) == crate::string_map::map_entries(
            anomaly.metadata,
        ),
{
    assert(copy@ == anomaly@);
    assert(copy@.source == anomaly@.source);
    assert(copy@.extension_kind == anomaly@.extension_kind);
}

// Policies.

/// The default policy alerts on cosmetic anomalies, corrects functional ones,
/// asks for approval of critical ones, and has no ladder.
pub proof fn default_policy_fields(policy: RemediationPolicy)
    requires
        call_ensures(<RemediationPolicy as Default>::default, (), policy),
    ensures
        policy.cosmetic == RemediationAction::Alert,
        policy.functional == RemediationAction::AutoCorrect,
        policy.critical == RemediationAction::RequireApproval,
        policy.escalation is None,
{
}

/// The model of a policy holds its actions and its ladder, and takes the action
/// for a severity from the field of that severity.
pub proof fn policy_model(policy: RemediationPolicy)
    ensures
        policy@.cosmetic == policy.cosmetic,
        policy@.functional == policy.functional,
        policy@.critical == policy.critical,
        policy@.escalation is Some <==> policy.escalation is Some,
        policy.escalation matches Some(ladder) ==> policy@.escalation == Some(ladder@),
        policy@.action_for(Severity::Cosmetic) == policy.cosmetic,
        policy@.action_for(Severity::Functional) == policy.functional,
        policy@.action_for(Severity::Critical) == policy.critical,
{
}

/// The action for a severity is the field of that severity, whatever the other
/// fields hold.
pub proof fn action_for_reads_its_own_field(
    policy: RemediationPolicy,
    severity: Severity,
    action: RemediationAction,
)
    requires
        call_ensures(RemediationPolicy::action_for, (&policy, severity), action),
    ensures
        severity == Severity::Cosmetic ==> action == policy.cosmetic,
        severity == Severity::Functional ==> action == policy.functional,
        severity == Severity::Critical ==> action == policy.critical,
{
}

/// A copy of a policy tells the same.
pub proof fn policy_copies_are_alike(policy: RemediationPolicy, copy: RemediationPolicy, i: int)
    requires
        call_ensures(<RemediationPolicy as Clone>::clone, (&policy,), copy),
    ensures
        copy.cosmetic == policy.cosmetic,
        copy.functional == policy.functional,
        copy.critical == policy.critical,
        copy.escalation is Some <==> policy.escalation is Some,
        policy.escalation matches Some(ladder) ==> {
            &&& copy.escalation->0.tiers.len() == ladder.tiers.len()
            &&& 0 <= i < ladder.tiers.len() ==> copy.escalation->0.tiers@[i]@ == ladder.tiers@[i]@
        },
{
    assert(copy@ == policy@);
    assert(copy@.escalation == policy@.escalation);
    if let Some(ladder) = policy.escalation {
        assert(copy.escalation->0@ == ladder@);
        assert(copy.escalation->0@.len() == ladder@.len());
        if 0 <= i < ladder.tiers.len() {
            assert(copy.escalation->0@[i] == ladder@[i]);
        }
    }
}

// Ladders.

/// The model of a target holds what the target holds.
pub proof fn target_model(target: NotifyTarget)
    ensures
        match target {
            NotifyTarget::Slack { webhook_secret_ref } => target@ == (NotifyTargetView::Slack {
                webhook_secret_ref: webhook_secret_ref@,
            }),
            NotifyTarget::Ntfy { topic } => target@ == (NotifyTargetView::Ntfy { topic: topic@ }),
            NotifyTarget::Pagerduty { service_key_secret_ref } => target@
                == (NotifyTargetView::Pagerduty {
                service_key_secret_ref: service_key_secret_ref@,
            }),
            NotifyTarget::Email { address } => target@ == (NotifyTargetView::Email {
                address: address@,
            }),
            NotifyTarget::Webhook { url, secret_ref: None } => target@
                == (NotifyTargetView::Webhook { url: url@, secret_ref: None }),
            NotifyTarget::Webhook { url, secret_ref: Some(text) } => target@
                == (NotifyTargetView::Webhook { url: url@, secret_ref: Some(text@) }),
            NotifyTarget::Custom { name, params } => target@ == (NotifyTargetView::Custom {
                name: name@,
                params: crate::string_map::map_entries(params),
            }),
        },
{
}

/// The model of a tier holds its target and its wait.
pub proof fn tier_model(tier: EscalationTier)
    ensures
        tier@.target == tier.target@,
        tier@.wait_before_next == tier.wait_before_next@,
{
}

/// The model of a ladder holds its tiers in their order.
pub proof fn ladder_model(ladder: EscalationLadder)
    ensures
        ladder@.len() == ladder.tiers.len(),
        forall|i: int| 0 <= i < ladder.tiers.len() ==> #[trigger] ladder@[i] == ladder.tiers@[i]@,
{
}

/// A copy of a target is the same target, and a copy of a ladder has the same
/// tiers in the same order.
pub proof fn ladder_copies_are_alike(
    target: NotifyTarget,
    target_copy: NotifyTarget,
    ladder: EscalationLadder,
    copy: EscalationLadder,
)
    requires
        call_ensures(<NotifyTarget as Clone>::clone, (&target,), target_copy),
        call_ensures(<EscalationLadder as Clone>::clone, (&ladder,), copy),
    ensures
        target_copy@ == target@,
        copy.tiers.len() == ladder.tiers.len(),
        forall|i: int|
            0 <= i < ladder.tiers.len() ==> (#[trigger] copy.tiers@[i])@ == ladder.tiers@[i]@,
{
    assert(copy@ == ladder@);
    assert(copy@.len() == ladder@.len());
    assert forall|i: int| 0 <= i < ladder.tiers.len() implies (#[trigger] copy.tiers@[i])@
        == ladder.tiers@[i]@ by {
        assert(copy@[i] == ladder@[i]);
    }
}

/// A copy of a tier notifies the same target and waits as long.
pub proof fn tier_copies_are_alike(tier: EscalationTier, copy: EscalationTier)
    requires
        call_ensures(<EscalationTier as Clone>::clone, (&tier,), copy),
    ensures
        copy.target@ == tier.target@,
        copy.wait_before_next@ == tier.wait_before_next@,
{
    assert(copy@ == tier@);
    tier_model(tier);
    tier_model(copy);
}

/// A tier that sets no wait waits for fifteen minutes.
pub proof fn default_wait_is_fifteen_minutes(wait: Duration)
    requires
        call_ensures(crate::escalation::default_wait, (), wait),
    ensures
        wait@ == 900_000_000_000int,
{
}

// Routing.

/// Routing by policy takes the action from the field of the anomaly's severity
/// and the delay that goes with the action. Only an escalation names a tier,
/// the first of the ladder, and only an escalation without one fails.
pub proof fn route_follows_the_policy(
    router: PolicyRouter,
    anomaly: LavaAnomaly,
    policy: RemediationPolicy,
    result: Result<RoutingDecision, RouterError>,
)
    requires
        call_ensures(
            <PolicyRouter as AnomalyRouter>::route,
            (&router, &anomaly, &policy),
            result,
        ),
    ensures
        ({
            let action = match anomaly.severity {
                Severity::Cosmetic => policy.cosmetic,
                Severity::Functional => policy.functional,
                Severity::Critical => policy.critical,
            };
            let stranded = action == RemediationAction::Escalate && match policy.escalation {
                Some(ladder) => ladder.tiers.len() == 0,
                None => true,
            };
            &&& result is Err <==> stranded
            &&& result matches Err(RouterError::Escalation(reason)) ==> reason@
                == "Escalate set but no ladder"@
            &&& result matches Ok(decision) ==> {
                &&& decision.action == action
                &&& action == RemediationAction::NoOp ==> decision.requeue_after@
                    == 600_000_000_000int
                &&& action == RemediationAction::Alert ==> decision.requeue_after@
                    == 300_000_000_000int
                &&& action == RemediationAction::AutoCorrect ==> decision.requeue_after@
                    == 30_000_000_000int
                &&& action == RemediationAction::RequireApproval ==> decision.requeue_after@
                    == 120_000_000_000int
                &&& action == RemediationAction::Escalate ==> decision.requeue_after@
                    == 60_000_000_000int
                &&& decision.escalation is Some <==> action == RemediationAction::Escalate
                &&& decision.escalation matches Some(tier) ==> {
                    &&& tier.target@ == policy.escalation->0.tiers@[0].target@
                    &&& tier.wait_before_next@ == policy.escalation->0.tiers@[0].wait_before_next@
                }
            }
        }),
{
    if let Ok(decision) = result {
        assert(decision@ == crate::router::policy_outcome(policy@, anomaly.severity)->Ok_0);
        if let Some(tier) = decision.escalation {
            assert(decision@.escalation == Some(tier@));
            ladder_model(policy.escalation->0);
            assert(tier@ == policy.escalation->0@[0]);
            tier_model(tier);
            tier_model(policy.escalation->0.tiers@[0]);
        }
    }
}

/// The model of a decision holds what the decision holds, and the model of a
/// router's answer is that of the decision or of the error in it.
pub proof fn answer_model(decision: RoutingDecision, reason: String)
    ensures
        decision@.action == decision.action,
        decision@.requeue_after == decision.requeue_after@,
        decision@.escalation is Some <==> decision.escalation is Some,
        decision.escalation matches Some(tier) ==> decision@.escalation == Some(tier@),
        RouterError::Escalation(reason)@ == RouterErrorView::Escalation(reason@),
        crate::router::outcome(Ok(decision)) == Ok::<RoutingDecisionView, RouterErrorView>(
            decision@,
        ),
        crate::router::outcome(Err(RouterError::Escalation(reason))) == Err::<
            RoutingDecisionView,
            RouterErrorView,
        >(RouterErrorView::Escalation(reason@)),
{
}

/// A mock router holds the decision that it was made with.
pub proof fn returning_keeps_the_decision(decision: RoutingDecision, router: MockRouter)
    requires
        call_ensures(MockRouter::returning, (decision,), router),
    ensures
        router.decision == decision,
{
}

/// A mock router answers its decision, whatever the anomaly and the policy.
pub proof fn mock_answers_its_decision(
    router: MockRouter,
    anomaly: LavaAnomaly,
    policy: RemediationPolicy,
    result: Result<RoutingDecision, RouterError>,
)
    requires
        call_ensures(<MockRouter as AnomalyRouter>::route, (&router, &anomaly, &policy), result),
    ensures
        result matches Ok(decision) && {
            &&& decision.action == router.decision.action
            &&& decision.requeue_after@ == router.decision.requeue_after@
            &&& decision.escalation is Some <==> router.decision.escalation is Some
            &&& decision.escalation matches Some(tier) ==> {
                &&& tier.target@ == router.decision.escalation->0.target@
                &&& tier.wait_before_next@ == router.decision.escalation->0.wait_before_next@
            }
        },
{
    assert(result is Ok);
    let decision = result->Ok_0;
    assert(decision@ == router.decision@);
    assert(decision@.escalation == router.decision@.escalation);
    if let Some(tier) = decision.escalation {
        assert(tier@ == router.decision.escalation->0@);
        tier_model(tier);
        tier_model(router.decision.escalation->0);
    }
}

/// A copy of a decision tells the same.
pub proof fn decision_copies_are_alike(decision: RoutingDecision, copy: RoutingDecision)
    requires
        call_ensures(<RoutingDecision as Clone>::clone, (&decision,), copy),
    ensures
        copy.action == decision.action,
        copy.requeue_after@ == decision.requeue_after@,
        copy.escalation is Some <==> decision.escalation is Some,
        copy.escalation matches Some(tier) ==> {
            &&& tier.target@ == decision.escalation->0.target@
            &&& tier.wait_before_next@ == decision.escalation->0.wait_before_next@
        },
{
    assert(copy@ == decision@);
    assert(copy@.escalation == decision@.escalation);
    if let Some(tier) = copy.escalation {
        assert(tier@ == decision.escalation->0@);
        tier_model(tier);
        tier_model(decision.escalation->0);
    }
}

/// An error says that it is about the escalation, and then its reason.
pub proof fn error_message_ends_with_the_reason(reason: String, text: String)
    requires
        call_ensures(RouterError::message, (&RouterError::Escalation(reason),), text),
    ensures
        text@ == "escalation: "@ + reason@,
{
    assert(RouterError::Escalation(reason)@ == RouterErrorView::Escalation(reason@));
}

// The JSON text.

/// Inside a JSON string, texts are put together as they are outside.
pub proof fn json_chars_are_put_together(text: Seq<char>, more: Seq<char>)
    ensures
        crate::encoding::json_chars(text + more) == crate::encoding::json_chars(text)
            + crate::encoding::json_chars(more),
    decreases text.len(),
{
    if text.len() == 0 {
        assert(text + more =~= more);
        assert(crate::encoding::json_chars(text) + crate::encoding::json_chars(more)
            =~= crate::encoding::json_chars(more));
    } else {
        json_chars_are_put_together(text.drop_first(), more);
        assert((text + more).drop_first() =~= text.drop_first() + more);
        assert(crate::encoding::json_char(text[0]) + (crate::encoding::json_chars(text.drop_first())
            + crate::encoding::json_chars(more)) =~= crate::encoding::json_chars(text)
            + crate::encoding::json_chars(more));
    }
}

/// A text without quotes, backslashes and control characters stands in its
/// JSON string as it is.
pub proof fn plain_text_stands_as_it_is(text: Seq<char>)
    requires
        forall|i: int|
            0 <= i < text.len() ==> #[trigger] text[i] != '"' && text[i] != '\\' && 0x20
                <= text[i] as int,
    ensures
        crate::encoding::json_chars(text) == text,
        crate::encoding::json_text(text) == seq!['"'] + text + seq!['"'],
    decreases text.len(),
{
    if text.len() > 0 {
        let rest = text.drop_first();
        assert forall|i: int| 0 <= i < rest.len() implies #[trigger] rest[i] != '"' && rest[i]
            != '\\' && 0x20 <= rest[i] as int by {
            assert(rest[i] == text[i + 1]);
        }
        plain_text_stands_as_it_is(rest);
        assert(text =~= seq![text[0]] + rest);
    } else {
        assert(crate::encoding::json_chars(text) =~= text);
    }
}

/// The quote, the backslash and five control characters have short escapes; the
/// other control characters are written as `\u00` and two hexadecimal digits.
pub proof fn special_characters_are_escaped(c: char)
    ensures
        crate::encoding::json_char('"') == seq!['\\', '"'],
        crate::encoding::json_char('\\') == seq!['\\', '\\'],
        crate::encoding::json_char('\u{8}') == seq!['\\', 'b'],
        crate::encoding::json_char('\t') == seq!['\\', 't'],
        crate::encoding::json_char('\n') == seq!['\\', 'n'],
        crate::encoding::json_char('\u{c}') == seq!['\\', 'f'],
        crate::encoding::json_char('\r') == seq!['\\', 'r'],
        0x20 > c as int && c != '\u{8}' && c != '\t' && c != '\n' && c != '\u{c}' && c != '\r'
            ==> crate::encoding::json_char(c) == seq![
            '\\',
            'u',
            '0',
            '0',
            if 16 > c as int {
                '0'
            } else {
                '1'
            },
            "0123456789abcdef"@[c as int % 16],
        ],
{
    reveal_strlit("0123456789abcdef");
}

/// Each severity has its JSON string.
pub proof fn severities_in_json(severity: Severity)
    ensures
        severity == Severity::Cosmetic ==> crate::encoding::json_severity(severity)
            == "\"cosmetic\""@,
        severity == Severity::Functional ==> crate::encoding::json_severity(severity)
            == "\"functional\""@,
        severity == Severity::Critical ==> crate::encoding::json_severity(severity)
            == "\"critical\""@,
{
}

/// The JSON object of an address names its cluster, its namespace and its name,
/// each under its own key.
pub proof fn addresses_in_json(address: ResourceAddressView)
    ensures
        crate::encoding::json_address(address) == "{\"cluster\":"@ + crate::encoding::json_text(
            address.cluster,
        ) + ",\"namespace\":"@ + crate::encoding::json_text(address.namespace) + ",\"name\":"@
            + crate::encoding::json_text(address.name) + "}"@,
{
}

/// In the JSON object of a map, a pair more in front comes before the others.
pub proof fn pairs_in_json(
    key: Seq<char>,
    value: Seq<char>,
    entries: Seq<(Seq<char>, Seq<char>)>,
)
    ensures
        ({
            let pair = crate::encoding::json_text(key) + ":"@ + crate::encoding::json_text(value);
            let longer = seq![(key, value)] + entries;
            &&& crate::encoding::json_string_map(Seq::empty()) == "{"@ + "}"@
            &&& entries.len() == 0 ==> crate::encoding::json_string_map(longer) == "{"@ + pair
                + "}"@
            &&& entries.len() > 0 ==> crate::encoding::json_string_map(longer) == "{"@ + (pair
                + ","@ + crate::encoding::json_pairs(entries)) + "}"@
        }),
{
    let longer = seq![(key, value)] + entries;
    assert("{"@ + Seq::<char>::empty() =~= "{"@);
    assert(longer[0] == (key, value));
    assert(longer.drop_first() =~= entries);
}

/// The values of an anomaly are put together under their keys in the order of
/// the fields; a missing extension kind is `null`.
pub proof fn object_has_every_value_under_its_key(
    kind: AnomalyKind,
    extension_kind: Option<String>,
    severity: &str,
    source: &str,
    message: &str,
    emitted_at: &str,
    metadata: &str,
    json: String,
)
    requires
        call_ensures(
            crate::encoding::anomaly_object,
            (kind, extension_kind, severity, source, message, emitted_at, metadata),
            json,
        ),
    ensures
        ({
            let start = "{\"kind\":\""@ + kind.token() + "\",\"extensionKind\":"@;
            let rest = ",\"severity\":"@ + severity@ + ",\"source\":"@ + source@ + ",\"message\":"@
                + message@ + ",\"emittedAt\":"@ + emitted_at@ + ",\"metadata\":"@ + metadata@
                + "}"@;
            &&& extension_kind matches Some(name) ==> json@ == start + name@ + rest
            &&& extension_kind is None ==> json@ == start + "null"@ + rest
        }),
{
    let start = "{\"kind\":\""@ + kind.token() + "\",\"extensionKind\":"@;
    let name = match extension_kind {
        Some(text) => text@,
        None => "null"@,
    };
    let rest = ",\"severity\":"@ + severity@ + ",\"source\":"@ + source@ + ",\"message\":"@
        + message@ + ",\"emittedAt\":"@ + emitted_at@ + ",\"metadata\":"@ + metadata@ + "}"@;
    assert(json@ =~= start + name + rest);
}

/// The JSON text of an anomaly has each of its values under its own key, in the
/// order of the fields. Encoding always succeeds.
pub proof fn json_has_every_value_under_its_key(
    anomaly: LavaAnomaly,
    result: Result<String, serde_json::Error>,
)
    requires
        call_ensures(LavaAnomaly::to_json, (&anomaly,), result),
    ensures
        ({
            let start = "{\"kind\":\""@ + anomaly.kind.token() + "\",\"extensionKind\":"@;
            let rest = ",\"severity\":"@ + crate::encoding::json_severity(anomaly.severity)
                + ",\"source\":"@ + crate::encoding::json_address(anomaly.source@)
                + ",\"message\":"@ + crate::encoding::json_text(anomaly.message@)
                + ",\"emittedAt\":"@ + crate::encoding::json_instant(
                anomaly.emitted_at@.0,
                anomaly.emitted_at@.1,
            ) + ",\"metadata\":"@ + crate::encoding::json_string_map(
                crate::string_map::map_entries(anomaly.metadata),
            ) + "}"@;
            &&& result is Ok
            &&& anomaly.extension_kind matches Some(name) ==> result->Ok_0@ == start
                + crate::encoding::json_text(name@) + rest
            &&& anomaly.extension_kind is None ==> result->Ok_0@ == start + "null"@ + rest
        }),
{
    let start = "{\"kind\":\""@ + anomaly.kind.token() + "\",\"extensionKind\":"@;
    let name = match anomaly.extension_kind {
        Some(text) => crate::encoding::json_text(text@),
        None => "null"@,
    };
    let severity = crate::encoding::json_severity(anomaly.severity);
    let source = crate::encoding::json_address(anomaly.source@);
    let message = crate::encoding::json_text(anomaly.message@);
    let emitted_at = crate::encoding::json_instant(anomaly.emitted_at@.0, anomaly.emitted_at@.1);
    let metadata = crate::encoding::json_string_map(
        crate::string_map::map_entries(anomaly.metadata),
    );
    let rest = ",\"severity\":"@ + severity + ",\"source\":"@ + source + ",\"message\":"@ + message
        + ",\"emittedAt\":"@ + emitted_at + ",\"metadata\":"@ + metadata + "}"@;
    assert(result->Ok_0@ == start + name + ",\"severity\":"@ + severity + ",\"source\":"@ + source
        + ",\"message\":"@ + message + ",\"emittedAt\":"@ + emitted_at + ",\"metadata\":"@
        + metadata + "}"@);
    assert(result->Ok_0@ =~= start + name + rest);
}

// Receipts.

/// The model of a content address is its digest.
pub proof fn content_hash_model(hash: ContentHash)
    ensures
        hash@ == hash.0@,
{
}

/// The content address of bytes is their digest.
pub proof fn content_hash_is_the_digest(bytes: &[u8], hash: ContentHash)
    requires
        call_ensures(ContentHash::of, (bytes,), hash),
    ensures
        hash.0@ == crate::suite::content_digest(bytes@),
{
}

/// The content address in a payload is the digest of the text that the anomaly
/// encodes as, whatever its kind and whatever was decided. The payload keeps
/// the anomaly and the decision, and making it always succeeds.
pub proof fn payload_addresses_the_encoded_anomaly(
    anomaly: LavaAnomaly,
    decision: RoutingDecision,
    encoded: Result<String, serde_json::Error>,
    result: Result<AnomalyPayload, serde_json::Error>,
)
    requires
        call_ensures(LavaAnomaly::to_json, (&anomaly,), encoded),
        call_ensures(AnomalyPayload::from, (anomaly, decision), result),
    ensures
        encoded is Ok,
        result is Ok,
        result->Ok_0.anomaly == anomaly,
        result->Ok_0.decision == decision,
        result->Ok_0.anomaly_hash.0@ == crate::suite::content_digest(
            vstd::utf8::encode_utf8(encoded->Ok_0@),
        ),
{
}

/// Two payloads have the same content address if and only if the texts that
/// their anomalies encode as have the same digest.
pub proof fn payloads_share_an_address_only_with_the_text(
    anomaly: LavaAnomaly,
    decision: RoutingDecision,
    payload: AnomalyPayload,
    other_anomaly: LavaAnomaly,
    other_decision: RoutingDecision,
    other: AnomalyPayload,
)
    requires
        call_ensures(
            AnomalyPayload::from,
            (anomaly, decision),
            Ok::<AnomalyPayload, serde_json::Error>(payload),
        ),
        call_ensures(
            AnomalyPayload::from,
            (other_anomaly, other_decision),
            Ok::<AnomalyPayload, serde_json::Error>(other),
        ),
    ensures
        payload.anomaly_hash.0@ == other.anomaly_hash.0@ <==> crate::suite::content_digest(
            vstd::utf8::encode_utf8(anomaly@.json()),
        ) == crate::suite::content_digest(vstd::utf8::encode_utf8(other_anomaly@.json())),
{
}

/// A payload that is given its content address keeps all it is given.
pub proof fn addressed_keeps_what_it_is_given(
    anomaly: LavaAnomaly,
    decision: RoutingDecision,
    anomaly_hash: ContentHash,
    payload: AnomalyPayload,
)
    requires
        call_ensures(AnomalyPayload::addressed, (anomaly, decision, anomaly_hash), payload),
    ensures
        payload.anomaly == anomaly,
        payload.decision == decision,
        payload.anomaly_hash == anomaly_hash,
{
}

/// A copy of a payload tells the same.
pub proof fn payload_copies_are_alike(payload: AnomalyPayload, copy: AnomalyPayload)
    requires
        call_ensures(<AnomalyPayload as Clone>::clone, (&payload,), copy),
    ensures
        copy.anomaly@ == payload.anomaly@,
        copy.decision@ == payload.decision@,
        copy.anomaly_hash.0@ == payload.anomaly_hash.0@,
{
    assert(copy@ == payload@);
    assert(copy@.anomaly_hash == payload@.anomaly_hash);
}

/// Receipts of anomalies carry their own tag.
pub proof fn receipts_carry_the_anomaly_tag()
    ensures
        AnomalyPayload::KIND@ == "lava.anomaly"@,
{
}

// Spans and instants.

/// A minute is sixty seconds, and a second is a billion nanoseconds.
pub proof fn minutes_and_seconds(minutes: i64, seconds: i64, longer: Duration, shorter: Duration)
    ensures
        call_ensures(Duration::minutes, (minutes,), longer) ==> longer@ == minutes
            * 60_000_000_000int,
        call_ensures(Duration::seconds, (seconds,), shorter) ==> shorter@ == seconds
            * 1_000_000_000int,
{
}

/// A span is made of its parts and comes apart into them.
pub proof fn spans_come_apart_into_their_parts(
    secs: i64,
    nanos: i32,
    span: Duration,
    secs_back: i64,
    nanos_back: i32,
)
    requires
        call_ensures(Duration::from_parts, (secs, nanos), Some(span)),
        call_ensures(Duration::num_seconds, (&span,), secs_back),
        call_ensures(Duration::subsec_nanos, (&span,), nanos_back),
    ensures
        secs_back == secs,
        nanos_back == nanos,
        span@ == secs * 1_000_000_000int + nanos,
{
}

/// Two parts make a span if and only if the nanoseconds make up no second, have
/// the sign of the seconds, and the whole counts no more milliseconds than an
/// `i64` does, either way.
pub proof fn parts_of_a_span(secs: i64, nanos: i32, span: Option<Duration>)
    requires
        call_ensures(Duration::from_parts, (secs, nanos), span),
    ensures
        span is Some <==> {
            let length = secs * 1_000_000_000int + nanos;
            &&& -1_000_000_000 < nanos < 1_000_000_000
            &&& !(secs > 0 && nanos < 0)
            &&& !(secs < 0 && nanos > 0)
            &&& -9_223_372_036_854_775_807_000_000int <= length
            &&& length <= 9_223_372_036_854_775_807_000_000int
        },
{
}

/// Spans are equal when they are as long, and the shorter one is the lesser.
pub proof fn spans_compare_by_length(span: Duration, other: Duration)
    ensures
        span.eq_spec(&other) <==> span@ == other@,
        span.partial_cmp_spec(&other) == Some(Ordering::Less) <==> span@ < other@,
        span.partial_cmp_spec(&other) == Some(Ordering::Equal) <==> span@ == other@,
        span.partial_cmp_spec(&other) == Some(Ordering::Greater) <==> span@ > other@,
        Duration::obeys_eq_spec(),
        Duration::obeys_partial_cmp_spec(),
{
}

/// An instant is made of its parts and comes apart into them.
pub proof fn instants_come_apart_into_their_parts(
    secs: i64,
    nanos: u32,
    instant: Timestamp,
    secs_back: i64,
    nanos_back: u32,
)
    requires
        call_ensures(Timestamp::from_parts, (secs, nanos), Some(instant)),
        call_ensures(Timestamp::unix_seconds, (&instant,), secs_back),
        call_ensures(Timestamp::subsec_nanos, (&instant,), nanos_back),
    ensures
        secs_back == secs,
        nanos_back == nanos,
        instant@ == (secs as int, nanos as int),
{
}

/// Two parts make an instant if and only if the second lies in the years from
/// -262143 to 262142 and the nanoseconds make up less than two seconds.
pub proof fn parts_of_an_instant(secs: i64, nanos: u32, instant: Option<Timestamp>)
    requires
        call_ensures(Timestamp::from_parts, (secs, nanos), instant),
    ensures
        instant is Some <==> -8_334_601_228_800 <= secs <= 8_210_266_876_799 && nanos
            < 2_000_000_000,
{
}

/// What the clock reads is an instant within a second that is no leap second.
pub proof fn clock_readings_are_instants(instant: Timestamp)
    requires
        call_ensures(Timestamp::now, (), instant),
    ensures
        instant.read_from_the_clock(),
        -8_334_601_228_800 <= instant@.0 <= 8_210_266_876_799,
        0 <= instant@.1 < 1_000_000_000,
{
}

/// Instants are equal when both their parts are, and the earlier one is the
/// lesser.
pub proof fn instants_compare_by_time(instant: Timestamp, other: Timestamp)
    ensures
        instant.eq_spec(&other) <==> instant@ == other@,
        instant.partial_cmp_spec(&other) == Some(Ordering::Equal) <==> instant@ == other@,
        instant.partial_cmp_spec(&other) == Some(Ordering::Less) <==> instant@.0 < other@.0 || (
        instant@.0 == other@.0 && instant@.1 < other@.1),
        instant.partial_cmp_spec(&other) == Some(Ordering::Greater) <==> instant@.0 > other@.0 || (
        instant@.0 == other@.0 && instant@.1 > other@.1),
        Timestamp::obeys_eq_spec(),
        Timestamp::obeys_partial_cmp_spec(),
{
}

} // verus!
