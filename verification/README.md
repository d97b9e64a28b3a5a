# lava-anomaly

Typed anomaly routing for infrastructure controllers, verified with Verus.

A controller emits a `LavaAnomaly`; a router weighs it against a
`RemediationPolicy` and returns a `RoutingDecision`.

| Severity | Default action |
|---|---|
| Cosmetic | Alert |
| Functional | AutoCorrect |
| Critical | RequireApproval |

| Action | Looks again after |
|---|---|
| NoOp | 10 minutes |
| Alert | 5 minutes |
| RequireApproval | 2 minutes |
| Escalate | 1 minute |
| AutoCorrect | 30 seconds |

`Escalate` picks the first tier of the policy's ladder; without one, routing
fails.

## Layout

| Module | Holds |
|---|---|
| `anomaly` | `AnomalyKind`, `LavaAnomaly` and its builders |
| `policy` | `RemediationAction`, `RemediationPolicy` |
| `escalation` | `NotifyTarget`, `EscalationTier`, `EscalationLadder` |
| `router` | `AnomalyRouter`, `PolicyRouter`, `MockRouter`, `RoutingDecision` |
| `encoding` | the JSON text of an anomaly |
| `payload` | `AnomalyPayload`, the body of an anomaly receipt |
| `suite` | `Severity`, `ResourceAddress`, `ContentHash` |
| `time` | `Duration`, `Timestamp` |
| `string_map`, `text` | ordered string maps, conversions into text |
| `laws` | what holds of the library as a whole |
| `json_lemmas` | why the JSON text of an anomaly can be read back |

`app/` holds the serde types, their conversions and the receipt body that
outcome chains take.

## What is trusted

Verus proves every function of `src/` from the contracts of a few small
functions around `chrono`, `indexmap`, `serde_json`, `lava-drift` and
`lava-outcome-chain`, and of two conversions of the standard library: from
`&str` to `String`, and from a type to itself. Each of them names the outside
function and says what is believed of it.
