//! Anomalies, as controllers emit them.

use indexmap::IndexMap;
use vstd::prelude::*;

use crate::string_map::{map_clone, map_insert, map_new};
use crate::suite::{ResourceAddress, ResourceAddressView, Severity};
use crate::time::Timestamp;

verus! {

/// The stable tag of an anomaly, which routing keys and dashboards match on.
#[derive(Clone, Copy, Debug, PartialEq, Eq, Structural)]
pub enum AnomalyKind {
    /// The resource differs from the last applied plan.
    DriftDetected,
    /// The source did not synthesize.
    SynthesisFailure,
    /// The apply returned an error.
    ApplyFailure,
    /// A dependency was not in its expected phase.
    DependencyBlocked,
    /// A gate reported a policy violation.
    PolicyViolation,
    /// A custom controller's own kind, named by `extension_kind`.
    Custom,
}

impl AnomalyKind {
    /// The text of the tag.
    pub open spec fn token(self) -> Seq<char> {
        match self {
            AnomalyKind::DriftDetected => "DriftDetected"@,
            AnomalyKind::SynthesisFailure => "SynthesisFailure"@,
            AnomalyKind::ApplyFailure => "ApplyFailure"@,
            AnomalyKind::DependencyBlocked => "DependencyBlocked"@,
            AnomalyKind::PolicyViolation => "PolicyViolation"@,
            AnomalyKind::Custom => "Custom"@,
        }
    }

    /// The tag as text.
    #[must_use]
    pub fn as_str(self) -> (text: &'static str)
        ensures
            text@ == self.token(),
    {
        match self {
            AnomalyKind::DriftDetected => "DriftDetected",
            AnomalyKind::SynthesisFailure => "SynthesisFailure",
            AnomalyKind::ApplyFailure => "ApplyFailure",
            AnomalyKind::DependencyBlocked => "DependencyBlocked",
            AnomalyKind::PolicyViolation => "PolicyViolation",
            AnomalyKind::Custom => "Custom",
        }
    }
}

/// One anomaly.
#[derive(Debug, PartialEq, Eq)]
pub struct LavaAnomaly {
    pub kind: AnomalyKind,
    /// The controller's own name for the kind, when `kind` is `Custom`.
    pub extension_kind: Option<String>,
    pub severity: Severity,
    pub source: ResourceAddress,
    pub message: String,
    pub emitted_at: Timestamp,
    /// Structured context, such as a count of drifted fields or an error code.
    pub metadata: IndexMap<String, String>,
}

/// The model of a [`LavaAnomaly`].
pub struct LavaAnomalyView {
    pub kind: AnomalyKind,
    pub extension_kind: Option<Seq<char>>,
    pub severity: Severity,
    pub source: ResourceAddressView,
    pub message: Seq<char>,
    pub emitted_at: (int, int),
    pub metadata: Seq<(Seq<char>, Seq<char>)>,
}

impl View for LavaAnomaly {
    type V = LavaAnomalyView;

    open spec fn view(&self) -> LavaAnomalyView {
        LavaAnomalyView {
            kind: self.kind,
            extension_kind: match self.extension_kind {
                Some(name) => Some(name@),
                None => None,
            },
            severity: self.severity,
            source: self.source@,
            message: self.message@,
            emitted_at: self.emitted_at@,
            metadata: crate::string_map::map_entries(self.metadata),
        }
    }
}

impl Clone for LavaAnomaly {
    fn clone(&self) -> (copy: Self)
        ensures
            copy@ == self@,
    {
        LavaAnomaly {
            kind: self.kind,
            extension_kind: match &self.extension_kind {
                Some(name) => Some(name.clone()),
                None => None,
            },
            severity: self.severity,
            source: self.source.clone(),
            message: self.message.clone(),
            emitted_at: self.emitted_at,
            metadata: map_clone(&self.metadata),
        }
    }
}

impl LavaAnomalyView {
    /// An anomaly with nothing attached to it yet.
    pub open spec fn bare(
        kind: AnomalyKind,
        severity: Severity,
        source: ResourceAddressView,
        message: Seq<char>,
        emitted_at: (int, int),
    ) -> Self {
        LavaAnomalyView {
            kind,
            extension_kind: None,
            severity,
            source,
            message,
            emitted_at,
            metadata: Seq::empty(),
        }
    }

    /// The anomaly with `key` set to `value` in its metadata.
    pub open spec fn with_metadata(self, key: Seq<char>, value: Seq<char>) -> Self {
        LavaAnomalyView {
            metadata: crate::string_map::entries_insert(self.metadata, key, value),
            ..self
        }
    }

    /// The anomaly with `name` for its extension kind.
    pub open spec fn with_extension_kind(self, name: Seq<char>) -> Self {
        LavaAnomalyView { extension_kind: Some(name), ..self }
    }
}

impl LavaAnomaly {
    /// An anomaly of `kind` that is emitted now, with nothing attached to it.
    /// When "now" is, the system clock decides.
    ///
    /// # Panics
    /// Panics when the clock is set before 1970 or past the year 262142.
    #[must_use]
    pub fn new<M: Into<String>>(
        kind: AnomalyKind,
        severity: Severity,
        source: ResourceAddress,
        message: M,
    ) -> (anomaly: Self)
        ensures
            crate::text::converts_to(message, anomaly.message),
            anomaly@ == LavaAnomalyView::bare(
                kind,
                severity,
                source@,
                anomaly.message@,
                anomaly.emitted_at@,
            ),
            anomaly.kind == kind,
            anomaly.severity == severity,
            anomaly.source == source,
            anomaly.extension_kind is None,
            crate::string_map::map_entries(anomaly.metadata).len() == 0,
            call_ensures(Timestamp::now, (), anomaly.emitted_at),
            anomaly.emitted_at.read_from_the_clock(),
            crate::time::instant_parts(anomaly.emitted_at@.0, anomaly.emitted_at@.1),
            anomaly.emitted_at@.1 < crate::time::NANOS_PER_SECOND,
    {
        let text: String = message.into();
        let emitted_at = Timestamp::now();
        LavaAnomaly::emitted(kind, severity, source, text, emitted_at)
    }

    /// An anomaly of `kind` that was emitted at `emitted_at`, with nothing
    /// attached to it.
    #[must_use]
    pub fn emitted(
        kind: AnomalyKind,
        severity: Severity,
        source: ResourceAddress,
        message: String,
        emitted_at: Timestamp,
    ) -> (anomaly: Self)
        ensures
            anomaly@ == LavaAnomalyView::bare(kind, severity, source@, message@, emitted_at@),
            anomaly.kind == kind,
            anomaly.severity == severity,
            anomaly.source == source,
            anomaly.message == message,
            anomaly.emitted_at == emitted_at,
            anomaly.extension_kind is None,
            crate::string_map::map_entries(anomaly.metadata).len() == 0,
    {
        LavaAnomaly {
            kind,
            extension_kind: None,
            severity,
            source,
            message,
            emitted_at,
            metadata: map_new(),
        }
    }

    /// The anomaly with `key` set to `value` in its metadata.
    #[must_use]
    pub fn with_metadata<K: Into<String>, V: Into<String>>(self, key: K, value: V) -> (anomaly:
        Self)
        ensures
            exists|k: String, v: String|
                #![trigger crate::text::converts_to(key, k), crate::text::converts_to(value, v)]
                {
                    &&& crate::text::converts_to(key, k)
                    &&& crate::text::converts_to(value, v)
                    &&& anomaly@ == self@.with_metadata(k@, v@)
                    &&& crate::string_map::map_entries(anomaly.metadata).contains((k@, v@))
                },
            anomaly.kind == self.kind,
            anomaly.extension_kind == self.extension_kind,
            anomaly.severity == self.severity,
            anomaly.source == self.source,
            anomaly.message == self.message,
            anomaly.emitted_at == self.emitted_at,
    {
        let mut anomaly = self;
        let key_text: String = key.into();
        let value_text: String = value.into();
        assert(crate::text::converts_to(key, key_text));
        assert(crate::text::converts_to(value, value_text));
        let ghost k = key_text@;
        let ghost v = value_text@;
        map_insert(&mut anomaly.metadata, key_text, value_text);
        proof {
            crate::laws::metadata_reads_back(self@, k, v);
            assert(anomaly@.metadata.contains((k, v)));
        }
        anomaly
    }

    /// The anomaly with `name` for its extension kind, which means something
    /// only when its kind is `Custom`.
    #[must_use]
    pub fn with_extension_kind<N: Into<String>>(self, name: N) -> (anomaly: Self)
        ensures
            exists|n: String| #[trigger]
                crate::text::converts_to(name, n) && anomaly@ == self@.with_extension_kind(n@)
                    && anomaly.extension_kind == Some(n),
            anomaly.kind == self.kind,
            anomaly.severity == self.severity,
            anomaly.source == self.source,
            anomaly.message == self.message,
            anomaly.emitted_at == self.emitted_at,
            anomaly.metadata == self.metadata,
    {
        let mut anomaly = self;
        let text: String = name.into();
        assert(crate::text::converts_to(name, text));
        anomaly.extension_kind = Some(text);
        anomaly
    }
}

} // verus!
