use chrono::Timelike as _;
use lava_anomaly::encoding::anomaly_object;
use lava_anomaly::{
    AnomalyKind, AnomalyPayload, AnomalyRouter, ContentHash, Duration, LavaAnomaly, PolicyRouter,
    RemediationAction, RemediationPolicy, ResourceAddress, RoutingDecision, Severity, Timestamp,
};
use lava_outcome_chain::{
    verify_chain, InMemorySink, NoOpVerifier, NoSigning, OutcomeChain, Payload,
};
use serde::de::Error as _;
use serde::ser::{SerializeMap as _, SerializeStruct as _};
use serde::{Deserialize, Deserializer, Serialize, Serializer};

fn sample_anomaly(severity: Severity) -> LavaAnomaly {
    LavaAnomaly::new(
        AnomalyKind::DriftDetected,
        severity,
        ResourceAddress::new("rio", "infra", "prod-vpc"),
        "drift detected",
    )
    .with_metadata("fields_count", "3")
}

fn dated_anomaly(secs: i64, nanos: u32) -> LavaAnomaly {
    LavaAnomaly::emitted(
        AnomalyKind::Custom,
        Severity::Critical,
        ResourceAddress::new("rio", "infra", "prod-vpc"),
        String::from("line\none"),
        Timestamp::from_parts(secs, nanos).unwrap(),
    )
    .with_extension_kind("my \"kind\"")
    .with_metadata("b", "2")
    .with_metadata("a", "1")
}

fn approval() -> RoutingDecision {
    RoutingDecision {
        action: RemediationAction::RequireApproval,
        requeue_after: Duration::minutes(2),
        escalation: None,
    }
}

/// A receipt body that shows a payload to the chain.
#[derive(Clone, Debug)]
struct ReceiptBody(AnomalyPayload);

impl Serialize for ReceiptBody {
    fn serialize<S: Serializer>(&self, serializer: S) -> Result<S::Ok, S::Error> {
        let mut map = serializer.serialize_map(Some(3))?;
        map.serialize_entry("anomaly", &self.0.anomaly.to_json().unwrap())?;
        map.serialize_entry("decision", &format!("{:?}", self.0.decision))?;
        map.serialize_entry(
            "anomalyHash",
            &lava_outcome_chain::ContentHash(self.0.anomaly_hash.0),
        )?;
        map.end()
    }
}

impl<'de> Deserialize<'de> for ReceiptBody {
    fn deserialize<D: Deserializer<'de>>(_: D) -> Result<Self, D::Error> {
        Err(D::Error::custom("receipt bodies are only written here"))
    }
}

impl Payload for ReceiptBody {
    const KIND: &'static str = AnomalyPayload::KIND;
}

#[test]
fn anomaly_payload_chains_via_outcome_chain_machinery() {
    let mut chain = OutcomeChain::new(InMemorySink::<ReceiptBody>::default(), NoSigning);
    let p1 = AnomalyPayload::from(
        sample_anomaly(Severity::Functional),
        PolicyRouter
            .route(&sample_anomaly(Severity::Functional), &RemediationPolicy::default())
            .unwrap(),
    )
    .unwrap();
    let p2 = AnomalyPayload::from(
        sample_anomaly(Severity::Critical),
        RoutingDecision {
            action: RemediationAction::RequireApproval,
            requeue_after: Duration::minutes(2),
            escalation: None,
        },
    )
    .unwrap();
    chain.append(ReceiptBody(p1)).unwrap();
    chain.append(ReceiptBody(p2)).unwrap();
    let receipts = chain.read_all().unwrap();
    assert_eq!(receipts.len(), 2);
    assert_eq!(receipts[1].prev_hash, receipts[0].content_hash);
    verify_chain(&receipts, &NoOpVerifier).unwrap();
    assert_eq!(receipts[0].kind, "lava.anomaly");
}

#[test]
fn json_text_of_an_anomaly() {
    let expected = concat_lines(&[
        r#"{"kind":"Custom","extensionKind":"my \"kind\"","severity":"critical","#,
        r#""source":{"cluster":"rio","namespace":"infra","name":"prod-vpc"},"#,
        r#""message":"line\none","emittedAt":"2023-11-14T22:13:20Z","#,
        r#""metadata":{"b":"2","a":"1"}}"#,
    ]);
    assert_eq!(dated_anomaly(1_700_000_000, 0).to_json().unwrap(), expected);
}

fn concat_lines(lines: &[&str]) -> String {
    lines.concat()
}

#[test]
fn json_text_escapes_quotes_backslashes_and_controls() {
    let mut anomaly = dated_anomaly(1_700_000_000, 0);
    anomaly.message = "\"\\/\u{8}\t\n\u{c}\r\u{0}\u{b}\u{1f} \u{7f}\u{e9}\u{1f30b}".into();
    let json = anomaly.to_json().unwrap();
    let expected = concat_lines(&[
        r#","message":"\"\\/\b\t\n\f\r\u0000\u000b\u001f "#,
        "\u{7f}\u{e9}\u{1f30b}",
        r#"","emittedAt":"#,
    ]);
    assert!(json.contains(&expected));
}

#[test]
fn different_anomalies_have_different_json() {
    let anomaly = dated_anomaly(1_700_000_000, 0);
    let json = anomaly.to_json().unwrap();
    let mut other = anomaly.clone();
    other.message = "line\\none".into();
    assert_ne!(other.to_json().unwrap(), json);
    let mut other = anomaly.clone();
    other.extension_kind = Some("null".into());
    assert_ne!(other.to_json().unwrap(), json);
    let nameless = LavaAnomaly { extension_kind: None, ..anomaly.clone() };
    assert_ne!(other.to_json().unwrap(), nameless.to_json().unwrap());
    let swapped = LavaAnomaly { metadata: Default::default(), ..anomaly.clone() }
        .with_metadata("a", "1")
        .with_metadata("b", "2");
    assert_ne!(swapped.to_json().unwrap(), json);
    let moved = LavaAnomaly { source: ResourceAddress::new("rioi", "nfra", "prod-vpc"), ..anomaly };
    assert_ne!(moved.to_json().unwrap(), json);
}

#[test]
fn json_text_without_attachments() {
    let tokens = [
        (Severity::Cosmetic, "cosmetic"),
        (Severity::Functional, "functional"),
        (Severity::Critical, "critical"),
    ];
    for (severity, token) in tokens {
        let anomaly = LavaAnomaly::emitted(
            AnomalyKind::SynthesisFailure,
            severity,
            ResourceAddress::new("", "", ""),
            String::new(),
            Timestamp::from_parts(0, 1_500_000).unwrap(),
        );
        let expected = format!(
            "{{\"kind\":\"SynthesisFailure\",\"extensionKind\":null,\"severity\":\"{}\",\
             \"source\":{{\"cluster\":\"\",\"namespace\":\"\",\"name\":\"\"}},\"message\":\"\",\
             \"emittedAt\":\"1970-01-01T00:00:00.001500Z\",\"metadata\":{{}}}}",
            token
        );
        assert_eq!(anomaly.to_json().unwrap(), expected);
    }
}

#[test]
fn encoded_values_are_framed_as_they_come() {
    assert_eq!(
        anomaly_object(AnomalyKind::Custom, None, "1", "2", "3", "4", "5"),
        r#"{"kind":"Custom","extensionKind":null,"severity":1,"source":2,"message":3,"emittedAt":4,"metadata":5}"#,
    );
    assert!(anomaly_object(AnomalyKind::Custom, Some("0".into()), "1", "2", "3", "4", "5")
        .starts_with(r#"{"kind":"Custom","extensionKind":0,"severity":1"#));
}

#[test]
fn json_text_opens_with_the_kind() {
    assert!(sample_anomaly(Severity::Cosmetic)
        .to_json()
        .unwrap()
        .starts_with(r#"{"kind":"DriftDetected""#));
}

/// An anomaly as a seven-field record with serde's own struct protocol.
struct Record<'a>(&'a LavaAnomaly);

impl Serialize for Record<'_> {
    fn serialize<S: Serializer>(&self, serializer: S) -> Result<S::Ok, S::Error> {
        let a = self.0;
        let severity = match a.severity {
            Severity::Cosmetic => lava_drift::Severity::Cosmetic,
            Severity::Functional => lava_drift::Severity::Functional,
            Severity::Critical => lava_drift::Severity::Critical,
        };
        let source = lava_outcome_chain::ResourceAddress::new(
            a.source.cluster.as_str(),
            a.source.namespace.as_str(),
            a.source.name.as_str(),
        );
        let emitted_at =
            chrono::DateTime::from_timestamp(a.emitted_at.unix_seconds(), 0)
                .unwrap()
                .naive_utc()
                .with_nanosecond(a.emitted_at.subsec_nanos())
                .unwrap()
                .and_utc();
        let mut record = serializer.serialize_struct("LavaAnomaly", 7)?;
        record.serialize_field("kind", a.kind.as_str())?;
        record.serialize_field("extensionKind", &a.extension_kind)?;
        record.serialize_field("severity", &severity)?;
        record.serialize_field("source", &source)?;
        record.serialize_field("message", &a.message)?;
        record.serialize_field("emittedAt", &emitted_at)?;
        record.serialize_field("metadata", &a.metadata)?;
        record.end()
    }
}

#[test]
fn content_address_is_the_hash_of_the_serde_encoding() {
    let anomalies = vec![
        sample_anomaly(Severity::Functional),
        dated_anomaly(1_700_000_000, 0),
        dated_anomaly(-1, 999_999_999),
        dated_anomaly(59, 1_250_000_000),
        dated_anomaly(58, 1_500_000_000),
        dated_anomaly(8_210_266_876_799, 1_999_999_999),
        dated_anomaly(253_402_300_800, 1),
        dated_anomaly(1, 0).with_metadata("quote\" slash\\ tab\t bell\u{7}", "caf\u{e9} \u{1f30b}"),
    ];
    for anomaly in anomalies {
        let json = serde_json::to_string(&Record(&anomaly)).unwrap();
        assert_eq!(anomaly.to_json().unwrap(), json);
        let expected = lava_outcome_chain::ContentHash::of_value(&Record(&anomaly)).unwrap();
        let payload = AnomalyPayload::from(anomaly, approval()).unwrap();
        assert_eq!(payload.anomaly_hash.0, expected.0);
    }
}

#[test]
fn content_hash_of_no_bytes() {
    let hash = lava_outcome_chain::ContentHash(ContentHash::of(b"").0);
    assert_eq!(
        hash.hex(),
        "af1349b9f5f9a1a6a0404dea36dcc9499bcb25c9adc112b7cc9a93cae41f3262",
    );
}

#[test]
fn payload_keeps_the_anomaly_and_the_decision() {
    let anomaly = dated_anomaly(1_700_000_000, 0);
    let payload = AnomalyPayload::from(anomaly.clone(), approval()).unwrap();
    assert_eq!(payload.anomaly, anomaly);
    assert_eq!(payload.decision, approval());
    assert_eq!(payload.clone(), payload);
    let hash = ContentHash([7; 32]);
    let addressed = AnomalyPayload::addressed(anomaly.clone(), approval(), hash);
    assert_eq!(addressed.anomaly, anomaly);
    assert_eq!(addressed.decision, approval());
    assert_eq!(addressed.anomaly_hash, hash);
}

#[test]
fn content_address_ignores_the_decision() {
    let anomaly = dated_anomaly(1_700_000_000, 0);
    let other = RoutingDecision {
        action: RemediationAction::NoOp,
        requeue_after: Duration::minutes(10),
        escalation: None,
    };
    let one = AnomalyPayload::from(anomaly.clone(), approval()).unwrap();
    let two = AnomalyPayload::from(anomaly.clone(), other).unwrap();
    assert_eq!(one.anomaly_hash, two.anomaly_hash);
    let three = AnomalyPayload::from(anomaly.with_metadata("c", "3"), approval()).unwrap();
    assert_ne!(one.anomaly_hash, three.anomaly_hash);
}
