use indexmap::IndexMap;
use lava_anomaly::{
    default_wait, AnomalyKind, AnomalyRouter, Duration, EscalationLadder, EscalationTier,
    LavaAnomaly, MockRouter, NotifyTarget, PolicyRouter, RemediationAction, RemediationPolicy,
    ResourceAddress, RouterError, RoutingDecision, Severity,
};

const SEVERITIES: [Severity; 3] = [Severity::Cosmetic, Severity::Functional, Severity::Critical];

const ACTIONS: [RemediationAction; 5] = [
    RemediationAction::NoOp,
    RemediationAction::Alert,
    RemediationAction::AutoCorrect,
    RemediationAction::RequireApproval,
    RemediationAction::Escalate,
];

fn sample_anomaly(severity: Severity) -> LavaAnomaly {
    LavaAnomaly::new(
        AnomalyKind::DriftDetected,
        severity,
        ResourceAddress::new("rio", "infra", "prod-vpc"),
        "drift detected",
    )
    .with_metadata("fields_count", "3")
}

fn ntfy(topic: &str, minutes: i64) -> EscalationTier {
    EscalationTier {
        target: NotifyTarget::Ntfy { topic: topic.into() },
        wait_before_next: Duration::minutes(minutes),
    }
}

fn uniform(action: RemediationAction, tiers: Option<Vec<EscalationTier>>) -> RemediationPolicy {
    RemediationPolicy {
        cosmetic: action,
        functional: action,
        critical: action,
        escalation: tiers.map(|tiers| EscalationLadder { tiers }),
    }
}

#[test]
fn default_policy_assigns_typed_actions() {
    let p = RemediationPolicy::default();
    assert_eq!(p.action_for(Severity::Cosmetic), RemediationAction::Alert);
    assert_eq!(p.action_for(Severity::Functional), RemediationAction::AutoCorrect);
    assert_eq!(p.action_for(Severity::Critical), RemediationAction::RequireApproval);
}

#[test]
fn policy_router_picks_action_from_policy() {
    let policy = RemediationPolicy::default();
    let anomaly = sample_anomaly(Severity::Functional);
    let decision = PolicyRouter.route(&anomaly, &policy).unwrap();
    assert_eq!(decision.action, RemediationAction::AutoCorrect);
}

#[test]
fn policy_router_picks_first_tier_when_action_is_escalate() {
    let mut policy = RemediationPolicy::default();
    policy.critical = RemediationAction::Escalate;
    policy.escalation = Some(EscalationLadder {
        tiers: vec![
            EscalationTier {
                target: NotifyTarget::Ntfy { topic: "tier-0".into() },
                wait_before_next: Duration::minutes(15),
            },
            EscalationTier {
                target: NotifyTarget::Pagerduty { service_key_secret_ref: "/cofre/pd".into() },
                wait_before_next: Duration::minutes(30),
            },
        ],
    });
    let decision = PolicyRouter
        .route(&sample_anomaly(Severity::Critical), &policy)
        .unwrap();
    assert_eq!(decision.action, RemediationAction::Escalate);
    match decision.escalation.unwrap().target {
        NotifyTarget::Ntfy { topic } => assert_eq!(topic, "tier-0"),
        _ => panic!("unexpected tier"),
    }
}

#[test]
fn policy_router_errors_on_escalate_without_ladder() {
    let mut policy = RemediationPolicy::default();
    policy.critical = RemediationAction::Escalate;
    let err = PolicyRouter
        .route(&sample_anomaly(Severity::Critical), &policy)
        .unwrap_err();
    assert!(matches!(err, RouterError::Escalation(_)));
}

#[test]
fn mock_router_returns_supplied_decision() {
    let d = RoutingDecision {
        action: RemediationAction::NoOp,
        requeue_after: Duration::minutes(1),
        escalation: None,
    };
    let r = MockRouter::returning(d.clone());
    let got = r
        .route(&sample_anomaly(Severity::Cosmetic), &RemediationPolicy::default())
        .unwrap();
    assert_eq!(got, d);
}

#[test]
fn requeue_after_shortens_with_action_urgency() {
    let policy = RemediationPolicy::default();
    let auto = PolicyRouter
        .route(&sample_anomaly(Severity::Functional), &policy)
        .unwrap();
    let alert = PolicyRouter
        .route(&sample_anomaly(Severity::Cosmetic), &policy)
        .unwrap();
    assert!(auto.requeue_after < alert.requeue_after);
}

#[test]
fn every_action_has_its_delay() {
    let expected = [600, 300, 30, 120, 60];
    for (action, seconds) in ACTIONS.into_iter().zip(expected) {
        let policy = uniform(action, Some(vec![ntfy("ops", 1)]));
        let decision = PolicyRouter
            .route(&sample_anomaly(Severity::Functional), &policy)
            .unwrap();
        assert_eq!(decision.action, action);
        assert_eq!(decision.requeue_after, Duration::seconds(seconds));
        assert_eq!(decision.requeue_after.num_seconds(), seconds);
    }
}

#[test]
fn more_urgent_actions_requeue_sooner() {
    let by_urgency = [
        RemediationAction::NoOp,
        RemediationAction::Alert,
        RemediationAction::RequireApproval,
        RemediationAction::Escalate,
        RemediationAction::AutoCorrect,
    ];
    let delays: Vec<Duration> = by_urgency
        .into_iter()
        .map(|action| {
            PolicyRouter
                .route(
                    &sample_anomaly(Severity::Critical),
                    &uniform(action, Some(vec![ntfy("ops", 1)])),
                )
                .unwrap()
                .requeue_after
        })
        .collect();
    for pair in delays.windows(2) {
        assert!(pair[1] < pair[0]);
    }
}

#[test]
fn default_policy_decides_on_every_severity() {
    let policy = RemediationPolicy::default();
    for severity in SEVERITIES {
        let decision = PolicyRouter.route(&sample_anomaly(severity), &policy).unwrap();
        assert_eq!(decision.action, policy.action_for(severity));
        assert_eq!(decision.escalation, None);
    }
}

#[test]
fn escalation_is_named_only_when_escalating() {
    for action in ACTIONS {
        let policy = uniform(action, Some(vec![ntfy("ops", 1)]));
        let decision = PolicyRouter
            .route(&sample_anomaly(Severity::Cosmetic), &policy)
            .unwrap();
        assert_eq!(decision.escalation.is_some(), action == RemediationAction::Escalate);
    }
}

#[test]
fn an_empty_ladder_is_no_ladder() {
    let policy = uniform(RemediationAction::Escalate, Some(vec![]));
    let err = PolicyRouter
        .route(&sample_anomaly(Severity::Functional), &policy)
        .unwrap_err();
    match &err {
        RouterError::Escalation(reason) => assert_eq!(reason, "Escalate set but no ladder"),
    }
    assert_eq!(err.message(), "escalation: Escalate set but no ladder");
}

#[test]
fn a_missing_ladder_matters_only_when_escalating() {
    for action in ACTIONS {
        let result = PolicyRouter.route(
            &sample_anomaly(Severity::Functional),
            &uniform(action, None),
        );
        assert_eq!(result.is_err(), action == RemediationAction::Escalate);
    }
}

#[test]
fn later_tiers_do_not_matter() {
    let one = uniform(RemediationAction::Escalate, Some(vec![ntfy("first", 1)]));
    let two = uniform(
        RemediationAction::Escalate,
        Some(vec![ntfy("first", 1), ntfy("second", 2)]),
    );
    let anomaly = sample_anomaly(Severity::Critical);
    assert_eq!(
        PolicyRouter.route(&anomaly, &one).unwrap(),
        PolicyRouter.route(&anomaly, &two).unwrap(),
    );
}

#[test]
fn attachments_do_not_change_the_route() {
    let policy = RemediationPolicy::default();
    let plain = PolicyRouter.route(&sample_anomaly(Severity::Critical), &policy).unwrap();
    let attached = sample_anomaly(Severity::Critical)
        .with_metadata("owner", "ops")
        .with_extension_kind("other");
    assert_eq!(PolicyRouter.route(&attached, &policy).unwrap(), plain);
}

#[test]
fn escalation_copies_every_kind_of_target() {
    let targets = vec![
        NotifyTarget::Slack { webhook_secret_ref: "/cofre/slack".into() },
        NotifyTarget::Ntfy { topic: "ops".into() },
        NotifyTarget::Pagerduty { service_key_secret_ref: "/cofre/pd".into() },
        NotifyTarget::Email { address: "ops@example".into() },
        NotifyTarget::Webhook { url: "https://example".into(), secret_ref: None },
        NotifyTarget::Webhook { url: "https://example".into(), secret_ref: Some("/s".into()) },
        NotifyTarget::Custom {
            name: "mqtt".into(),
            params: IndexMap::from_iter([
                ("broker".to_string(), "tcp://x".to_string()),
                ("client".to_string(), "lava".to_string()),
            ]),
        },
    ];
    for target in targets {
        let tier = EscalationTier { target, wait_before_next: default_wait() };
        let policy = uniform(RemediationAction::Escalate, Some(vec![tier]));
        let decision = PolicyRouter
            .route(&sample_anomaly(Severity::Cosmetic), &policy.clone())
            .unwrap();
        let first = &policy.escalation.as_ref().unwrap().tiers[0];
        assert_eq!(decision.escalation.as_ref(), Some(first));
    }
}

#[test]
fn mock_router_ignores_its_arguments() {
    let decision = RoutingDecision {
        action: RemediationAction::Escalate,
        requeue_after: Duration::seconds(7),
        escalation: Some(ntfy("ops", 3)),
    };
    let router = MockRouter::returning(decision.clone());
    for severity in SEVERITIES {
        for action in ACTIONS {
            let got = router.route(&sample_anomaly(severity), &uniform(action, None)).unwrap();
            assert_eq!(got, decision);
        }
    }
}
