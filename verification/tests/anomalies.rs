use lava_anomaly::{AnomalyKind, LavaAnomaly, ResourceAddress, Severity, Timestamp};

fn sample_anomaly(severity: Severity) -> LavaAnomaly {
    LavaAnomaly::new(
        AnomalyKind::DriftDetected,
        severity,
        ResourceAddress::new("rio", "infra", "prod-vpc"),
        "drift detected",
    )
    .with_metadata("fields_count", "3")
}

fn pairs(anomaly: &LavaAnomaly) -> Vec<(&str, &str)> {
    anomaly.metadata.iter().map(|(k, v)| (k.as_str(), v.as_str())).collect()
}

#[test]
fn anomaly_kind_token_round_trips_through_serde() {
    let a = sample_anomaly(Severity::Functional);
    let j = a.to_json().unwrap();
    assert!(j.contains(r#""kind":"DriftDetected""#));
}

#[test]
fn custom_anomaly_carries_extension_kind() {
    let a = LavaAnomaly::new(
        AnomalyKind::Custom,
        Severity::Functional,
        ResourceAddress::new("c", "n", "x"),
        "custom signal",
    )
    .with_extension_kind("my-controller.RateLimitHit");
    assert_eq!(a.extension_kind.as_deref(), Some("my-controller.RateLimitHit"));
}

#[test]
fn kind_tokens_are_stable_and_distinct() {
    let kinds = [
        (AnomalyKind::DriftDetected, "DriftDetected"),
        (AnomalyKind::SynthesisFailure, "SynthesisFailure"),
        (AnomalyKind::ApplyFailure, "ApplyFailure"),
        (AnomalyKind::DependencyBlocked, "DependencyBlocked"),
        (AnomalyKind::PolicyViolation, "PolicyViolation"),
        (AnomalyKind::Custom, "Custom"),
    ];
    for (kind, token) in kinds {
        assert_eq!(kind.as_str(), token);
        for (other, other_token) in kinds {
            assert_eq!(kind == other, token == other_token);
        }
    }
}

#[test]
fn a_new_anomaly_is_bare_and_stamped_now() {
    let before = chrono::Utc::now().timestamp();
    let a = LavaAnomaly::new(
        AnomalyKind::ApplyFailure,
        Severity::Critical,
        ResourceAddress::new("rio", "infra", "prod-vpc"),
        String::from("apply failed"),
    );
    let after = chrono::Utc::now().timestamp();
    assert_eq!(a.kind, AnomalyKind::ApplyFailure);
    assert_eq!(a.severity, Severity::Critical);
    assert_eq!(a.source.cluster, "rio");
    assert_eq!(a.source.namespace, "infra");
    assert_eq!(a.source.name, "prod-vpc");
    assert_eq!(a.message, "apply failed");
    assert_eq!(a.extension_kind, None);
    assert!(a.metadata.is_empty());
    assert!(before <= a.emitted_at.unix_seconds() && a.emitted_at.unix_seconds() <= after);
}

/// A message that notes when it was turned into text.
struct SlowMessage<'a>(&'a std::cell::Cell<Option<(i64, u32)>>);

impl From<SlowMessage<'_>> for String {
    fn from(message: SlowMessage<'_>) -> String {
        let now = chrono::Utc::now();
        message.0.set(Some((now.timestamp(), now.timestamp_subsec_nanos())));
        String::from("slow")
    }
}

#[test]
fn the_message_is_converted_before_the_clock_is_read() {
    let converted = std::cell::Cell::new(None);
    let a = LavaAnomaly::new(
        AnomalyKind::ApplyFailure,
        Severity::Cosmetic,
        ResourceAddress::new("c", "n", "x"),
        SlowMessage(&converted),
    );
    let emitted = (a.emitted_at.unix_seconds(), a.emitted_at.subsec_nanos());
    assert!(converted.get().unwrap() <= emitted);
    assert_eq!(a.message, "slow");
}

#[test]
fn metadata_reads_back_in_the_order_it_came() {
    let a = sample_anomaly(Severity::Cosmetic)
        .with_metadata("code", "E101")
        .with_metadata("attempt", "1");
    assert_eq!(pairs(&a), vec![("fields_count", "3"), ("code", "E101"), ("attempt", "1")]);
    assert_eq!(a.metadata.get("code").map(String::as_str), Some("E101"));
}

#[test]
fn the_last_metadata_value_wins_and_keeps_its_place() {
    let a = sample_anomaly(Severity::Cosmetic)
        .with_metadata("code", "E101")
        .with_metadata("fields_count", "4");
    assert_eq!(pairs(&a), vec![("fields_count", "4"), ("code", "E101")]);
}

#[test]
fn attachments_commute() {
    let at = Timestamp::from_parts(1_700_000_000, 0).unwrap();
    let bare = LavaAnomaly::emitted(
        AnomalyKind::Custom,
        Severity::Functional,
        ResourceAddress::new("c", "n", "x"),
        String::from("signal"),
        at,
    );
    let one = bare.clone().with_extension_kind("first").with_extension_kind("k").with_metadata("a", "b");
    let two = bare.with_metadata("a", "b").with_extension_kind("k");
    assert_eq!(one, two);
}

#[test]
fn severities_are_ordered() {
    assert!(Severity::Cosmetic < Severity::Functional);
    assert!(Severity::Functional < Severity::Critical);
}
