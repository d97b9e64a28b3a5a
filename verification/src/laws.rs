//! What holds of the library as a whole.

use vstd::prelude::*;

use crate::anomaly::{AnomalyKind, LavaAnomalyView};
use crate::payload::AnomalyPayloadView;
use crate::policy::{RemediationAction, RemediationPolicyView};
use crate::router::{RouterErrorView, RoutingDecisionView};
use crate::suite::{ResourceAddressView, Severity};

verus! {

/// The default policy alerts on cosmetic anomalies, corrects functional ones
/// and asks for approval of critical ones. It always decides, and it never
/// names anybody to notify.
pub proof fn default_policy_always_decides(severity: Severity)
    ensures
        ({
            let policy = RemediationPolicyView::default_policy();
            &&& policy.action_for(Severity::Cosmetic) == RemediationAction::Alert
            &&& policy.action_for(Severity::Functional) == RemediationAction::AutoCorrect
            &&& policy.action_for(Severity::Critical) == RemediationAction::RequireApproval
            &&& crate::router::policy_outcome(policy, severity) matches Ok(decision)
                && decision.action == policy.action_for(severity) && decision.escalation is None
        }),
{
}

/// Routing by policy fails if and only if the policy asks to escalate and has
/// no ladder, or one without tiers. There is one error for both.
pub proof fn routing_fails_only_without_a_first_tier(
    policy: RemediationPolicyView,
    severity: Severity,
)
    ensures
        crate::router::policy_outcome(policy, severity) is Err <==> {
            &&& policy.action_for(severity) == RemediationAction::Escalate
            &&& policy.escalation matches Some(tiers) ==> tiers.len() == 0
        },
        crate::router::policy_outcome(policy, severity) matches Err(error) ==> error
            == RouterErrorView::Escalation("Escalate set but no ladder"@),
{
}

/// A decision takes the action that the policy sets for the severity. It names
/// somebody to notify if and only if that action is `Escalate`, and then it is
/// the first tier of the ladder.
pub proof fn decisions_follow_the_policy(
    policy: RemediationPolicyView,
    severity: Severity,
    decision: RoutingDecisionView,
)
    requires
        crate::router::policy_outcome(policy, severity) == Ok::<
            RoutingDecisionView,
            RouterErrorView,
        >(decision),
    ensures
        decision.action == policy.action_for(severity),
        decision.escalation is Some <==> decision.action == RemediationAction::Escalate,
        decision.escalation matches Some(tier) ==> {
            &&& policy.escalation matches Some(tiers)
            &&& tiers.len() > 0
            &&& tier == tiers[0]
        },
{
}

/// Of a policy, only the action for the severity and, for an escalation, the
/// first tier count: two policies that agree on these route alike, whatever
/// they say of other severities and whatever tiers come later.
pub proof fn only_the_action_and_the_first_tier_count(
    policy: RemediationPolicyView,
    other: RemediationPolicyView,
    severity: Severity,
)
    requires
        policy.action_for(severity) == other.action_for(severity),
        policy.action_for(severity) == RemediationAction::Escalate ==> {
            let first = |p: RemediationPolicyView|
                match p.escalation {
                    Some(tiers) if tiers.len() > 0 => Some(tiers[0]),
                    _ => None,
                };
            first(policy) == first(other)
        },
    ensures
        crate::router::policy_outcome(policy, severity) == crate::router::policy_outcome(
            other,
            severity,
        ),
{
}

/// Of an anomaly, only the severity counts: what is attached to it later does
/// not change how it is routed.
pub proof fn attachments_do_not_change_routing(
    anomaly: LavaAnomalyView,
    policy: RemediationPolicyView,
    key: Seq<char>,
    value: Seq<char>,
    name: Seq<char>,
)
    ensures
        crate::router::policy_outcome(policy, anomaly.with_metadata(key, value).severity)
            == crate::router::policy_outcome(policy, anomaly.severity),
        crate::router::policy_outcome(policy, anomaly.with_extension_kind(name).severity)
            == crate::router::policy_outcome(policy, anomaly.severity),
{
}

/// How urgent an action is.
pub open spec fn urgency(action: RemediationAction) -> int {
    match action {
        RemediationAction::NoOp => 0,
        RemediationAction::Alert => 1,
        RemediationAction::RequireApproval => 2,
        RemediationAction::Escalate => 3,
        RemediationAction::AutoCorrect => 4,
    }
}

/// The more urgent the action, the sooner the controller looks again, whatever
/// policies and severities the two decisions come from. No delay is zero.
pub proof fn urgent_actions_requeue_sooner(
    policy: RemediationPolicyView,
    severity: Severity,
    decision: RoutingDecisionView,
    other_policy: RemediationPolicyView,
    other_severity: Severity,
    other: RoutingDecisionView,
)
    requires
        crate::router::policy_outcome(policy, severity) == Ok::<
            RoutingDecisionView,
            RouterErrorView,
        >(decision),
        crate::router::policy_outcome(other_policy, other_severity) == Ok::<
            RoutingDecisionView,
            RouterErrorView,
        >(other),
    ensures
        urgency(decision.action) < urgency(other.action) <==> other.requeue_after
            < decision.requeue_after,
        decision.action == other.action <==> decision.requeue_after == other.requeue_after,
        0 < decision.requeue_after,
{
}

/// The tags of two kinds differ, so a tag tells the kind.
pub proof fn kind_tokens_are_distinct(kind: AnomalyKind, other: AnomalyKind)
    ensures
        kind.token() == other.token() <==> kind == other,
{
    if kind.token() == other.token() {
        crate::json_lemmas::lemma_token(kind, other, Seq::empty(), Seq::empty());
    }
}

/// Metadata reads back as it was written: after a key was set, it stands in
/// the metadata with the new value and with no other, and every other pair
/// stays.
pub proof fn metadata_reads_back(anomaly: LavaAnomalyView, key: Seq<char>, value: Seq<char>)
    ensures
        ({
            let after = anomaly.with_metadata(key, value).metadata;
            &&& forall|v: Seq<char>| #[trigger] after.contains((key, v)) <==> v == value
            &&& forall|k: Seq<char>, v: Seq<char>|
                k != key ==> (#[trigger] after.contains((k, v)) <==> anomaly.metadata.contains(
                    (k, v),
                ))
        }),
{
    let before = anomaly.metadata;
    let after = anomaly.with_metadata(key, value).metadata;
    if crate::string_map::has_key(before, key) {
        let at = choose|i: int| 0 <= i < before.len() && #[trigger] before[i].0 == key;
        assert(after[at] == (key, value));
    } else {
        assert(after[before.len() as int] == (key, value));
    }
    assert forall|k: Seq<char>, v: Seq<char>|
        k != key && before.contains((k, v)) implies #[trigger] after.contains((k, v)) by {
        let i = choose|i: int| 0 <= i < before.len() && before[i] == (k, v);
        assert(after[i] == (k, v));
    }
    assert forall|k: Seq<char>, v: Seq<char>| #[trigger] after.contains((k, v)) implies (k == key
        && v == value) || (k != key && before.contains((k, v))) by {
        let i = choose|i: int| 0 <= i < after.len() && after[i] == (k, v);
        if i < before.len() {
            assert(before[i].0 == k);
            assert(k != key ==> before[i] == (k, v));
        }
    }
}

/// Keys that are distinct stay distinct.
pub proof fn metadata_keys_stay_distinct(
    anomaly: LavaAnomalyView,
    key: Seq<char>,
    value: Seq<char>,
)
    requires
        crate::string_map::distinct_keys(anomaly.metadata),
    ensures
        crate::string_map::distinct_keys(anomaly.with_metadata(key, value).metadata),
{
}

/// Metadata keeps its order: a key that was there stays where it was, a new
/// key goes last, and no other key moves.
pub proof fn metadata_keeps_its_order(anomaly: LavaAnomalyView, key: Seq<char>, value: Seq<char>)
    ensures
        ({
            let before = anomaly.metadata;
            let after = anomaly.with_metadata(key, value).metadata;
            &&& after.len() == if crate::string_map::has_key(before, key) {
                before.len()
            } else {
                before.len() + 1
            }
            &&& forall|i: int| 0 <= i < before.len() ==> #[trigger] after[i].0 == before[i].0
            &&& !crate::string_map::has_key(before, key) ==> after.last() == (key, value)
        }),
{
}

/// The last value that a key was set to is the one that counts.
pub proof fn last_metadata_value_wins(
    anomaly: LavaAnomalyView,
    key: Seq<char>,
    value: Seq<char>,
    last: Seq<char>,
)
    ensures
        anomaly.with_metadata(key, value).with_metadata(key, last) == anomaly.with_metadata(
            key,
            last,
        ),
{
    let once = anomaly.with_metadata(key, value).metadata;
    let before = anomaly.metadata;
    if crate::string_map::has_key(before, key) {
        let at = choose|i: int| 0 <= i < before.len() && #[trigger] before[i].0 == key;
        assert(once[at].0 == key);
    } else {
        assert(once[before.len() as int].0 == key);
    }
    assert(crate::string_map::entries_insert(once, key, last)
        =~= crate::string_map::entries_insert(before, key, last));
}

/// The last extension kind counts, and it does not matter whether metadata
/// comes before or after it.
pub proof fn extension_kind_is_independent_of_metadata(
    anomaly: LavaAnomalyView,
    name: Seq<char>,
    last: Seq<char>,
    key: Seq<char>,
    value: Seq<char>,
)
    ensures
        anomaly.with_extension_kind(name).with_extension_kind(last)
            == anomaly.with_extension_kind(last),
        anomaly.with_extension_kind(name).with_metadata(key, value) == anomaly.with_metadata(
            key,
            value,
        ).with_extension_kind(name),
{
}

/// A new anomaly has metadata with distinct keys, namely none.
pub proof fn bare_anomaly_has_no_metadata(
    kind: AnomalyKind,
    severity: Severity,
    source: ResourceAddressView,
    message: Seq<char>,
    emitted_at: (int, int),
)
    ensures
        ({
            let anomaly = LavaAnomalyView::bare(kind, severity, source, message, emitted_at);
            &&& anomaly.metadata.len() == 0
            &&& crate::string_map::distinct_keys(anomaly.metadata)
            &&& anomaly.extension_kind is None
        }),
{
}

/// The JSON text of an anomaly opens with its kind: `{"kind":"`, the tag and a
/// closing quote.
pub proof fn json_opens_with_the_kind(anomaly: LavaAnomalyView)
    ensures
        ({
            let opening = "{\"kind\":\""@ + anomaly.kind.token() + "\""@;
            opening.is_prefix_of(anomaly.json())
        }),
{
    let opening = "{\"kind\":\""@ + anomaly.kind.token() + "\""@;
    reveal_strlit("\"");
    reveal_strlit("\",\"extensionKind\":");
    assert(opening =~= anomaly.json().subrange(0, opening.len() as int));
}

/// Two texts have the same JSON string only if they are the same.
pub proof fn json_text_tells_the_text(text: Seq<char>, other: Seq<char>)
    ensures
        crate::encoding::json_text(text) == crate::encoding::json_text(other) <==> text == other,
{
    if crate::encoding::json_text(text) == crate::encoding::json_text(other) {
        crate::json_lemmas::lemma_json_text(text, other, Seq::empty(), Seq::empty());
    }
}

/// Two anomalies that were emitted at the same instant have the same JSON text
/// only if they are the same: the text leaves nothing out and runs nothing
/// together.
pub proof fn json_tells_the_anomaly(anomaly: LavaAnomalyView, other: LavaAnomalyView)
    requires
        anomaly.emitted_at == other.emitted_at,
    ensures
        anomaly.json() == other.json() <==> anomaly == other,
{
    if anomaly.json() == other.json() {
        crate::json_lemmas::lemma_json(anomaly, other);
    }
}

/// Two anomalies of any two instants have the same JSON text only if they are
/// the same, given that the texts of the instants tell these apart: unless the
/// instants are the same, neither text begins with the other.
pub proof fn json_tells_the_anomaly_and_its_instant(
    anomaly: LavaAnomalyView,
    other: LavaAnomalyView,
)
    requires
        ({
            let mine = crate::encoding::json_instant(anomaly.emitted_at.0, anomaly.emitted_at.1);
            let others = crate::encoding::json_instant(other.emitted_at.0, other.emitted_at.1);
            anomaly.emitted_at != other.emitted_at ==> !mine.is_prefix_of(others)
                && !others.is_prefix_of(mine)
        }),
    ensures
        anomaly.json() == other.json() <==> anomaly == other,
{
    if anomaly.json() == other.json() {
        crate::json_lemmas::lemma_json(anomaly, other);
    }
}

/// The date in the JSON text is the anomaly's own: when an anomaly is dated
/// anew, the text of the instant behind the key `emittedAt` becomes that of the
/// new instant, and nothing else in the text changes. So the two texts differ
/// wherever the texts of the two instants do.
pub proof fn json_follows_the_instant(anomaly: LavaAnomalyView, emitted_at: (int, int))
    ensures
        ({
            let dated = LavaAnomalyView { emitted_at, ..anomaly };
            let mine = crate::encoding::json_instant(anomaly.emitted_at.0, anomaly.emitted_at.1);
            let new = crate::encoding::json_instant(emitted_at.0, emitted_at.1);
            &&& exists|before: Seq<char>, after: Seq<char>|
                {
                    &&& anomaly.json() == #[trigger] (before + ",\"emittedAt\":"@ + mine + after)
                    &&& dated.json() == before + ",\"emittedAt\":"@ + new + after
                    &&& (",\"metadata\":"@).is_prefix_of(after)
                }
            &&& mine != new ==> anomaly.json() != dated.json()
        }),
{
    let dated = LavaAnomalyView { emitted_at, ..anomaly };
    crate::json_lemmas::lemma_date(anomaly);
    crate::json_lemmas::lemma_date(dated);
    let before = crate::json_lemmas::before_the_date(anomaly);
    let after = crate::json_lemmas::after_the_date(anomaly);
    let mine = crate::encoding::json_instant(anomaly.emitted_at.0, anomaly.emitted_at.1);
    let new = crate::encoding::json_instant(emitted_at.0, emitted_at.1);
    let start = before + ",\"emittedAt\":"@;
    assert(anomaly.json() == before + ",\"emittedAt\":"@ + mine + after);
    assert((",\"metadata\":"@) =~= after.take((",\"metadata\":"@).len() as int));
    if anomaly.json() == dated.json() {
        assert(start + mine + after =~= start + (mine + after));
        assert(start + new + after =~= start + (new + after));
        crate::json_lemmas::lemma_cancel(start, mine + after, new + after);
        assert(mine =~= (mine + after).take((mine + after).len() - after.len()));
        assert(new =~= (new + after).take((new + after).len() - after.len()));
    }
}

/// The content address of a payload tells of the anomaly alone: two payloads of
/// the same anomaly have the same one, whatever was decided.
pub proof fn content_address_ignores_the_decision(
    payload: AnomalyPayloadView,
    other: AnomalyPayloadView,
)
    requires
        payload.well_addressed(),
        other.well_addressed(),
        payload.anomaly == other.anomaly,
    ensures
        payload.anomaly_hash == other.anomaly_hash,
{
}

} // verus!
