//! The JSON text of an anomaly, which its content address is taken of.
//!
//! The object and its keys are this library's own format; every value in it
//! is encoded by the crate that the value belongs to.

use indexmap::IndexMap;
use vstd::prelude::*;
use vstd::string::StringExecFns;

use crate::anomaly::{AnomalyKind, LavaAnomaly, LavaAnomalyView};
use crate::suite::{ResourceAddress, ResourceAddressView, Severity};

verus! {

/// The error of the `serde_json` crate. Verus sees nothing inside it.
#[verifier::external_type_specification]
#[verifier::external_body]
pub struct ExJsonError(serde_json::Error);

/// The lower-case hexadecimal digit of a number below sixteen.
pub open spec fn hex_digit(n: int) -> char {
    if n < 10 {
        (n + '0' as int) as char
    } else {
        (n - 10 + 'a' as int) as char
    }
}

/// How a character is written inside a JSON string: the quote, the backslash
/// and the control characters are escaped, everything else stands for itself.
pub open spec fn json_char(c: char) -> Seq<char> {
    if c == '"' || c == '\\' {
        seq!['\\', c]
    } else if c == '\u{8}' {
        seq!['\\', 'b']
    } else if c == '\t' {
        seq!['\\', 't']
    } else if c == '\n' {
        seq!['\\', 'n']
    } else if c == '\u{c}' {
        seq!['\\', 'f']
    } else if c == '\r' {
        seq!['\\', 'r']
    } else if 0x20 > c as int {
        seq!['\\', 'u', '0', '0', hex_digit(c as int / 16), hex_digit(c as int % 16)]
    } else {
        seq![c]
    }
}

/// The characters of a text, as they stand inside a JSON string.
pub open spec fn json_chars(text: Seq<char>) -> Seq<char>
    decreases text.len(),
{
    if text.len() == 0 {
        Seq::empty()
    } else {
        json_char(text[0]) + json_chars(text.drop_first())
    }
}

/// The JSON string of a text.
pub open spec fn json_text(text: Seq<char>) -> Seq<char> {
    seq!['"'] + json_chars(text) + seq!['"']
}

/// One key and its value in a JSON object.
pub open spec fn json_pair(pair: (Seq<char>, Seq<char>)) -> Seq<char> {
    json_text(pair.0) + ":"@ + json_text(pair.1)
}

/// The pairs of a JSON object, with commas in between.
pub open spec fn json_pairs(entries: Seq<(Seq<char>, Seq<char>)>) -> Seq<char>
    decreases entries.len(),
{
    if entries.len() == 0 {
        Seq::empty()
    } else if entries.len() == 1 {
        json_pair(entries[0])
    } else {
        json_pair(entries[0]) + ","@ + json_pairs(entries.drop_first())
    }
}

/// The JSON object of `entries`, in their order.
pub open spec fn json_string_map(entries: Seq<(Seq<char>, Seq<char>)>) -> Seq<char> {
    "{"@ + json_pairs(entries) + "}"@
}

/// The JSON object of an address.
pub open spec fn json_address(address: ResourceAddressView) -> Seq<char> {
    "{\"cluster\":"@ + json_text(address.cluster) + ",\"namespace\":"@ + json_text(
        address.namespace,
    ) + ",\"name\":"@ + json_text(address.name) + "}"@
}

/// What `serde_json::to_string` makes of the `chrono` instant that is `secs`
/// seconds and `nanos` nanoseconds after the beginning of 1970: a JSON string
/// in the format of RFC 3339.
pub uninterp spec fn json_instant(secs: int, nanos: int) -> Seq<char>;

/// The JSON string of a severity.
pub open spec fn json_severity(severity: Severity) -> Seq<char> {
    match severity {
        Severity::Cosmetic => "\"cosmetic\""@,
        Severity::Functional => "\"functional\""@,
        Severity::Critical => "\"critical\""@,
    }
}

/// `serde_json::to_string` of a string: it succeeds on every string and writes
/// it in quotes. It escapes the quote, the backslash and the control characters
/// below the space, five of these in short, the others by their number in four
/// hexadecimal digits, and leaves everything else as it is.
#[verifier::external_body]
fn encode_text(text: &str) -> (json: Result<String, serde_json::Error>)
    ensures
        json is Ok,
        json->Ok_0@ == json_text(text@),
{
    serde_json::to_string(text)
}

/// `serde_json::to_string` of a string-to-string `IndexMap`: its keys are
/// strings, so it succeeds; the JSON object has the pairs in the map's order,
/// each key and each value encoded as a string is.
#[verifier::external_body]
fn encode_string_map(map: &IndexMap<String, String>) -> (json: Result<String, serde_json::Error>)
    ensures
        json is Ok,
        json->Ok_0@ == json_string_map(crate::string_map::map_entries(*map)),
{
    serde_json::to_string(map)
}

/// `serde_json::to_string` of a `ResourceAddress` of `lava_outcome_chain`: it
/// succeeds on every address; the JSON object has the cluster, the namespace
/// and the name, in this order, each encoded as a string is.
#[verifier::external_body]
fn encode_address(address: &ResourceAddress) -> (json: Result<String, serde_json::Error>)
    ensures
        json is Ok,
        json->Ok_0@ == json_address(address@),
{
    serde_json::to_string(
        &lava_outcome_chain::ResourceAddress::new(
            address.cluster.as_str(),
            address.namespace.as_str(),
            address.name.as_str(),
        ),
    )
}

/// `serde_json::to_string` of the instant that `DateTime::from_timestamp` of
/// `chrono` makes of the whole seconds and `with_nanosecond` completes. The
/// parts name an instant, so there is one; it encodes without fail, and the
/// JSON depends on the parts alone.
#[verifier::external_body]
fn encode_instant(secs: i64, nanos: u32) -> (json: Result<String, serde_json::Error>)
    requires
        crate::time::instant_parts(secs as int, nanos as int),
    ensures
        json is Ok,
        json->Ok_0@ == json_instant(secs as int, nanos as int),
{
    let whole = chrono::DateTime::from_timestamp(secs, 0).unwrap();
    let instant = chrono::Timelike::with_nanosecond(&whole.naive_utc(), nanos).unwrap();
    serde_json::to_string(&instant.and_utc())
}

/// `serde_json::to_string` of a `Severity` of `lava_drift`: the lower-case
/// name of the variant, in quotes.
#[verifier::external_body]
fn encode_severity(severity: Severity) -> (json: Result<String, serde_json::Error>)
    ensures
        json is Ok,
        json->Ok_0@ == json_severity(severity),
{
    serde_json::to_string(
        &match severity {
            Severity::Cosmetic => lava_drift::Severity::Cosmetic,
            Severity::Functional => lava_drift::Severity::Functional,
            Severity::Critical => lava_drift::Severity::Critical,
        },
    )
}

/// The JSON object of an anomaly whose values are already encoded: the keys in
/// camel case and in the order of the fields.
pub open spec fn anomaly_object_text(
    kind: AnomalyKind,
    extension_kind: Option<Seq<char>>,
    severity: Seq<char>,
    source: Seq<char>,
    message: Seq<char>,
    emitted_at: Seq<char>,
    metadata: Seq<char>,
) -> Seq<char> {
    "{\"kind\":\""@ + kind.token() + "\",\"extensionKind\":"@ + (match extension_kind {
        Some(name) => name,
        None => "null"@,
    }) + ",\"severity\":"@ + severity + ",\"source\":"@ + source + ",\"message\":"@ + message
        + ",\"emittedAt\":"@ + emitted_at + ",\"metadata\":"@ + metadata + "}"@
}

/// Puts the encoded values of an anomaly together.
pub fn anomaly_object(
    kind: AnomalyKind,
    extension_kind: Option<String>,
    severity: &str,
    source: &str,
    message: &str,
    emitted_at: &str,
    metadata: &str,
) -> (json: String)
    ensures
        json@ == anomaly_object_text(
            kind,
            match extension_kind {
                Some(name) => Some(name@),
                None => None,
            },
            severity@,
            source@,
            message@,
            emitted_at@,
            metadata@,
        ),
{
    let mut json = String::from("{\"kind\":\"");
    json.append(kind.as_str());
    json.append("\",\"extensionKind\":");
    match extension_kind {
        Some(name) => json.append(name.as_str()),
        None => json.append("null"),
    }
    json.append(",\"severity\":");
    json.append(severity);
    json.append(",\"source\":");
    json.append(source);
    json.append(",\"message\":");
    json.append(message);
    json.append(",\"emittedAt\":");
    json.append(emitted_at);
    json.append(",\"metadata\":");
    json.append(metadata);
    json.append("}");
    json
}

impl LavaAnomalyView {
    /// The JSON text of the anomaly.
    pub open spec fn json(self) -> Seq<char> {
        anomaly_object_text(
            self.kind,
            match self.extension_kind {
                Some(name) => Some(json_text(name)),
                None => None,
            },
            json_severity(self.severity),
            json_address(self.source),
            json_text(self.message),
            json_instant(self.emitted_at.0, self.emitted_at.1),
            json_string_map(self.metadata),
        )
    }
}

impl LavaAnomaly {
    /// The JSON text of the anomaly.
    pub fn to_json(&self) -> (json: Result<String, serde_json::Error>)
        ensures
            json matches Ok(text) && text@ == self@.json(),
    {
        let extension_kind = match &self.extension_kind {
            Some(name) => Some(encode_text(name.as_str())?),
            None => None,
        };
        let severity = encode_severity(self.severity)?;
        let source = encode_address(&self.source)?;
        let message = encode_text(self.message.as_str())?;
        let secs: i64 = self.emitted_at.unix_seconds();
        let nanos: u32 = self.emitted_at.subsec_nanos();
        let emitted_at = encode_instant(secs, nanos)?;
        let metadata = encode_string_map(&self.metadata)?;
        Ok(
            anomaly_object(
                self.kind,
                extension_kind,
                severity.as_str(),
                source.as_str(),
                message.as_str(),
                emitted_at.as_str(),
                metadata.as_str(),
            ),
        )
    }
}

} // verus!
