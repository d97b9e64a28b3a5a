//! Why the JSON text of a value can be read back: each lemma takes two texts
//! that begin with an encoded value and concludes that the values are the same
//! and that the same follows them.

use vstd::prelude::*;

use crate::anomaly::{AnomalyKind, LavaAnomalyView};
use crate::suite::{ResourceAddressView, Severity};

verus! {

/// What follows a common beginning is the same.
pub(crate) proof fn lemma_cancel(start: Seq<char>, x: Seq<char>, y: Seq<char>)
    requires
        start + x == start + y,
    ensures
        x == y,
{
    assert(x =~= (start + x).skip(start.len() as int));
    assert(y =~= (start + y).skip(start.len() as int));
}

/// Texts are put together in any order.
proof fn lemma_assoc(x: Seq<char>, y: Seq<char>, z: Seq<char>)
    ensures
        x + y + z == x + (y + z),
{
    assert(x + y + z =~= x + (y + z));
}

proof fn lemma_json_char(c: char, d: char, x: Seq<char>, y: Seq<char>)
    requires
        crate::encoding::json_char(c) + x == crate::encoding::json_char(d) + y,
    ensures
        c == d,
        x == y,
{
    let cs = crate::encoding::json_char(c);
    let ds = crate::encoding::json_char(d);
    let text = cs + x;
    assert(forall|i: int| 0 <= i < cs.len() ==> text[i] == cs[i]);
    assert(text == ds + y);
    assert(forall|i: int| 0 <= i < ds.len() ==> text[i] == ds[i]);
    assert(cs[0] == ds[0]);
    if cs.len() > 1 && ds.len() > 1 {
        assert(cs[1] == ds[1]);
        if cs.len() > 2 && ds.len() > 2 {
            assert(cs[4] == ds[4]);
            assert(cs[5] == ds[5]);
        }
    }
    lemma_cancel(cs, x, y);
}

proof fn lemma_json_chars(a: Seq<char>, b: Seq<char>, x: Seq<char>, y: Seq<char>)
    requires
        crate::encoding::json_chars(a) + (seq!['"'] + x) == crate::encoding::json_chars(b) + (
        seq!['"'] + y),
    ensures
        a == b,
        x == y,
    decreases a.len(),
{
    let text = crate::encoding::json_chars(a) + (seq!['"'] + x);
    if a.len() > 0 {
        lemma_assoc(
            crate::encoding::json_char(a[0]),
            crate::encoding::json_chars(a.drop_first()),
            seq!['"'] + x,
        );
        assert(text[0] == crate::encoding::json_char(a[0])[0]);
    } else {
        assert(text =~= seq!['"'] + x);
        assert(text[0] == '"');
    }
    if b.len() > 0 {
        lemma_assoc(
            crate::encoding::json_char(b[0]),
            crate::encoding::json_chars(b.drop_first()),
            seq!['"'] + y,
        );
        assert(text[0] == crate::encoding::json_char(b[0])[0]);
    } else {
        assert(text =~= seq!['"'] + y);
        assert(text[0] == '"');
    }
    if a.len() > 0 && b.len() > 0 {
        let a_rest = crate::encoding::json_chars(a.drop_first()) + (seq!['"'] + x);
        let b_rest = crate::encoding::json_chars(b.drop_first()) + (seq!['"'] + y);
        lemma_json_char(a[0], b[0], a_rest, b_rest);
        lemma_json_chars(a.drop_first(), b.drop_first(), x, y);
        assert(a =~= seq![a[0]] + a.drop_first());
        assert(b =~= seq![b[0]] + b.drop_first());
    } else {
        assert(a =~= b);
        lemma_cancel(seq!['"'], x, y);
    }
}

pub(crate) proof fn lemma_json_text(a: Seq<char>, b: Seq<char>, x: Seq<char>, y: Seq<char>)
    requires
        crate::encoding::json_text(a) + x == crate::encoding::json_text(b) + y,
    ensures
        a == b,
        x == y,
{
    assert(crate::encoding::json_text(a) + x =~= seq!['"'] + (crate::encoding::json_chars(a) + (
    seq!['"'] + x)));
    assert(crate::encoding::json_text(b) + y =~= seq!['"'] + (crate::encoding::json_chars(b) + (
    seq!['"'] + y)));
    lemma_cancel(
        seq!['"'],
        crate::encoding::json_chars(a) + (seq!['"'] + x),
        crate::encoding::json_chars(b) + (seq!['"'] + y),
    );
    lemma_json_chars(a, b, x, y);
}

proof fn lemma_json_pair(
    a: (Seq<char>, Seq<char>),
    b: (Seq<char>, Seq<char>),
    x: Seq<char>,
    y: Seq<char>,
)
    requires
        crate::encoding::json_pair(a) + x == crate::encoding::json_pair(b) + y,
    ensures
        a == b,
        x == y,
{
    let a_rest = ":"@ + (crate::encoding::json_text(a.1) + x);
    let b_rest = ":"@ + (crate::encoding::json_text(b.1) + y);
    assert(crate::encoding::json_pair(a) + x =~= crate::encoding::json_text(a.0) + a_rest);
    assert(crate::encoding::json_pair(b) + y =~= crate::encoding::json_text(b.0) + b_rest);
    lemma_json_text(a.0, b.0, a_rest, b_rest);
    lemma_cancel(
        ":"@,
        crate::encoding::json_text(a.1) + x,
        crate::encoding::json_text(b.1) + y,
    );
    lemma_json_text(a.1, b.1, x, y);
}

/// What follows the first pair of an object, up to its end.
spec fn after_first_pair(entries: Seq<(Seq<char>, Seq<char>)>, end: Seq<char>) -> Seq<char> {
    if entries.len() == 1 {
        "}"@ + end
    } else {
        ","@ + (crate::encoding::json_pairs(entries.drop_first()) + ("}"@ + end))
    }
}

proof fn lemma_first_pair(entries: Seq<(Seq<char>, Seq<char>)>, end: Seq<char>)
    requires
        entries.len() > 0,
    ensures
        crate::encoding::json_pairs(entries) + ("}"@ + end) == crate::encoding::json_pair(
            entries[0],
        ) + after_first_pair(entries, end),
        (crate::encoding::json_pairs(entries) + ("}"@ + end))[0] == '"',
{
    assert(crate::encoding::json_pairs(entries) + ("}"@ + end) =~= crate::encoding::json_pair(
        entries[0],
    ) + after_first_pair(entries, end));
}

proof fn lemma_json_pairs(
    a: Seq<(Seq<char>, Seq<char>)>,
    b: Seq<(Seq<char>, Seq<char>)>,
    x: Seq<char>,
    y: Seq<char>,
)
    requires
        crate::encoding::json_pairs(a) + ("}"@ + x) == crate::encoding::json_pairs(b) + ("}"@ + y),
    ensures
        a == b,
        x == y,
    decreases a.len(),
{
    reveal_strlit("}");
    reveal_strlit(",");
    let text = crate::encoding::json_pairs(a) + ("}"@ + x);
    if a.len() == 0 {
        assert(text =~= "}"@ + x);
    } else {
        lemma_first_pair(a, x);
    }
    if b.len() == 0 {
        assert(text =~= "}"@ + y);
    } else {
        lemma_first_pair(b, y);
    }
    if a.len() > 0 && b.len() > 0 {
        let a_rest = after_first_pair(a, x);
        let b_rest = after_first_pair(b, y);
        lemma_json_pair(a[0], b[0], a_rest, b_rest);
        assert(a_rest[0] == b_rest[0]);
        assert(a =~= seq![a[0]] + a.drop_first());
        assert(b =~= seq![b[0]] + b.drop_first());
        if a.len() == 1 {
            assert(a.drop_first() =~= b.drop_first());
            lemma_cancel("}"@, x, y);
        } else {
            lemma_cancel(
                ","@,
                crate::encoding::json_pairs(a.drop_first()) + ("}"@ + x),
                crate::encoding::json_pairs(b.drop_first()) + ("}"@ + y),
            );
            lemma_json_pairs(a.drop_first(), b.drop_first(), x, y);
        }
    } else {
        assert(text[0] == '}');
        assert(a =~= b);
        lemma_cancel("}"@, x, y);
    }
}

pub(crate) proof fn lemma_json_string_map(
    a: Seq<(Seq<char>, Seq<char>)>,
    b: Seq<(Seq<char>, Seq<char>)>,
    x: Seq<char>,
    y: Seq<char>,
)
    requires
        crate::encoding::json_string_map(a) + x == crate::encoding::json_string_map(b) + y,
    ensures
        a == b,
        x == y,
{
    let a_rest = crate::encoding::json_pairs(a) + ("}"@ + x);
    let b_rest = crate::encoding::json_pairs(b) + ("}"@ + y);
    assert(crate::encoding::json_string_map(a) + x =~= "{"@ + a_rest);
    assert(crate::encoding::json_string_map(b) + y =~= "{"@ + b_rest);
    lemma_cancel("{"@, a_rest, b_rest);
    lemma_json_pairs(a, b, x, y);
}

/// The text of an address, taken apart.
spec fn address_from_the_left(address: ResourceAddressView, end: Seq<char>) -> Seq<char> {
    "{\"cluster\":"@ + (crate::encoding::json_text(address.cluster) + (",\"namespace\":"@ + (
    crate::encoding::json_text(address.namespace) + (",\"name\":"@ + (crate::encoding::json_text(
        address.name,
    ) + ("}"@ + end))))))
}

proof fn lemma_json_address(
    a: ResourceAddressView,
    b: ResourceAddressView,
    x: Seq<char>,
    y: Seq<char>,
)
    requires
        crate::encoding::json_address(a) + x == crate::encoding::json_address(b) + y,
    ensures
        a == b,
        x == y,
{
    assert(crate::encoding::json_address(a) + x =~= address_from_the_left(a, x));
    assert(crate::encoding::json_address(b) + y =~= address_from_the_left(b, y));
    let a3 = crate::encoding::json_text(a.name) + ("}"@ + x);
    let b3 = crate::encoding::json_text(b.name) + ("}"@ + y);
    let a2 = crate::encoding::json_text(a.namespace) + (",\"name\":"@ + a3);
    let b2 = crate::encoding::json_text(b.namespace) + (",\"name\":"@ + b3);
    let a1 = crate::encoding::json_text(a.cluster) + (",\"namespace\":"@ + a2);
    let b1 = crate::encoding::json_text(b.cluster) + (",\"namespace\":"@ + b2);
    lemma_cancel("{\"cluster\":"@, a1, b1);
    lemma_json_text(a.cluster, b.cluster, ",\"namespace\":"@ + a2, ",\"namespace\":"@ + b2);
    lemma_cancel(",\"namespace\":"@, a2, b2);
    lemma_json_text(a.namespace, b.namespace, ",\"name\":"@ + a3, ",\"name\":"@ + b3);
    lemma_cancel(",\"name\":"@, a3, b3);
    lemma_json_text(a.name, b.name, "}"@ + x, "}"@ + y);
    lemma_cancel("}"@, x, y);
}

/// The tags of different kinds differ within their first two characters.
pub(crate) proof fn lemma_token(a: AnomalyKind, b: AnomalyKind, x: Seq<char>, y: Seq<char>)
    requires
        a.token() + x == b.token() + y,
    ensures
        a == b,
        x == y,
{
    reveal_strlit("DriftDetected");
    reveal_strlit("SynthesisFailure");
    reveal_strlit("ApplyFailure");
    reveal_strlit("DependencyBlocked");
    reveal_strlit("PolicyViolation");
    reveal_strlit("Custom");
    let text = a.token() + x;
    assert(text[0] == a.token()[0] && text[1] == a.token()[1]);
    assert(text == b.token() + y);
    assert(text[0] == b.token()[0] && text[1] == b.token()[1]);
    lemma_cancel(a.token(), x, y);
}

/// The texts of different severities differ within their first three characters.
proof fn lemma_json_severity(a: Severity, b: Severity, x: Seq<char>, y: Seq<char>)
    requires
        crate::encoding::json_severity(a) + x == crate::encoding::json_severity(b) + y,
    ensures
        a == b,
        x == y,
{
    reveal_strlit("\"cosmetic\"");
    reveal_strlit("\"functional\"");
    reveal_strlit("\"critical\"");
    let text = crate::encoding::json_severity(a) + x;
    assert(text[2] == crate::encoding::json_severity(a)[2]);
    assert(text == crate::encoding::json_severity(b) + y);
    assert(text[2] == crate::encoding::json_severity(b)[2]);
    lemma_cancel(crate::encoding::json_severity(a), x, y);
}

/// The text of an extension kind, or of its absence.
spec fn extension_text(name: Option<Seq<char>>) -> Seq<char> {
    match name {
        Some(text) => crate::encoding::json_text(text),
        None => "null"@,
    }
}

proof fn lemma_extension_text(
    a: Option<Seq<char>>,
    b: Option<Seq<char>>,
    x: Seq<char>,
    y: Seq<char>,
)
    requires
        extension_text(a) + x == extension_text(b) + y,
    ensures
        a == b,
        x == y,
{
    reveal_strlit("null");
    let text = extension_text(a) + x;
    assert(text[0] == extension_text(a)[0]);
    assert(text == extension_text(b) + y);
    assert(text[0] == extension_text(b)[0]);
    if let (Some(p), Some(q)) = (a, b) {
        lemma_json_text(p, q, x, y);
    } else {
        lemma_cancel("null"@, x, y);
    }
}

/// The part of an anomaly's text that begins with its message.
spec fn from_the_message(a: LavaAnomalyView) -> Seq<char> {
    crate::encoding::json_text(a.message) + (",\"emittedAt\":"@ + (crate::encoding::json_instant(
        a.emitted_at.0,
        a.emitted_at.1,
    ) + (",\"metadata\":"@ + (crate::encoding::json_string_map(a.metadata) + "}"@))))
}

/// The part of an anomaly's text that begins with its severity.
spec fn from_the_severity(a: LavaAnomalyView) -> Seq<char> {
    crate::encoding::json_severity(a.severity) + (",\"source\":"@ + (crate::encoding::json_address(
        a.source,
    ) + (",\"message\":"@ + from_the_message(a))))
}

/// The text of an anomaly, taken apart.
spec fn from_the_left(a: LavaAnomalyView) -> Seq<char> {
    "{\"kind\":\""@ + (a.kind.token() + ("\",\"extensionKind\":"@ + (extension_text(
        a.extension_kind,
    ) + (",\"severity\":"@ + from_the_severity(a)))))
}

proof fn lemma_from_the_left(a: LavaAnomalyView)
    ensures
        a.json() == from_the_left(a),
{
    let instant = crate::encoding::json_instant(a.emitted_at.0, a.emitted_at.1);
    let metadata = crate::encoding::json_string_map(a.metadata);
    let message = crate::encoding::json_text(a.message);
    let source = crate::encoding::json_address(a.source);
    let severity = crate::encoding::json_severity(a.severity);
    let l1 = "{\"kind\":\""@ + a.kind.token();
    let l2 = l1 + "\",\"extensionKind\":"@;
    let l3 = l2 + extension_text(a.extension_kind);
    let l4 = l3 + ",\"severity\":"@;
    let l5 = l4 + severity;
    let l6 = l5 + ",\"source\":"@;
    let l7 = l6 + source;
    let l8 = l7 + ",\"message\":"@;
    let l9 = l8 + message;
    let l10 = l9 + ",\"emittedAt\":"@;
    let l11 = l10 + instant;
    let l12 = l11 + ",\"metadata\":"@;
    let l13 = l12 + metadata;
    let r13 = metadata + "}"@;
    let r12 = ",\"metadata\":"@ + r13;
    let r11 = instant + r12;
    let r10 = ",\"emittedAt\":"@ + r11;
    let r9 = message + r10;
    let r8 = ",\"message\":"@ + r9;
    let r7 = source + r8;
    let r6 = ",\"source\":"@ + r7;
    let r5 = severity + r6;
    let r4 = ",\"severity\":"@ + r5;
    let r3 = extension_text(a.extension_kind) + r4;
    let r2 = "\",\"extensionKind\":"@ + r3;
    assert(a.json() == l13 + "}"@);
    lemma_assoc(l12, metadata, "}"@);
    lemma_assoc(l11, ",\"metadata\":"@, r13);
    lemma_assoc(l10, instant, r12);
    lemma_assoc(l9, ",\"emittedAt\":"@, r11);
    lemma_assoc(l8, message, r10);
    lemma_assoc(l7, ",\"message\":"@, r9);
    lemma_assoc(l6, source, r8);
    lemma_assoc(l5, ",\"source\":"@, r7);
    lemma_assoc(l4, severity, r6);
    lemma_assoc(l3, ",\"severity\":"@, r5);
    lemma_assoc(l2, extension_text(a.extension_kind), r4);
    lemma_assoc(l1, "\",\"extensionKind\":"@, r3);
    lemma_assoc("{\"kind\":\""@, a.kind.token(), r2);
}

/// Two texts that begin alike: one of the beginnings is a prefix of the other.
proof fn lemma_prefixes(start: Seq<char>, other: Seq<char>, x: Seq<char>, y: Seq<char>)
    requires
        start + x == other + y,
    ensures
        start.is_prefix_of(other) || other.is_prefix_of(start),
{
    let text = start + x;
    assert(start =~= text.take(start.len() as int));
    assert(text == other + y);
    assert(other =~= text.take(other.len() as int));
    if start.len() <= other.len() {
        assert(start =~= other.take(start.len() as int));
    } else {
        assert(other =~= start.take(other.len() as int));
    }
}

/// Two anomalies with the same text are the same, if the text of an instant
/// tells it from the other.
pub(crate) proof fn lemma_json(a: LavaAnomalyView, b: LavaAnomalyView)
    requires
        ({
            let mine = crate::encoding::json_instant(a.emitted_at.0, a.emitted_at.1);
            let other = crate::encoding::json_instant(b.emitted_at.0, b.emitted_at.1);
            mine.is_prefix_of(other) || other.is_prefix_of(mine) ==> a.emitted_at == b.emitted_at
        }),
        a.json() == b.json(),
    ensures
        a == b,
{
    lemma_from_the_left(a);
    lemma_from_the_left(b);
    let instant = crate::encoding::json_instant(a.emitted_at.0, a.emitted_at.1);
    let a6 = crate::encoding::json_string_map(a.metadata) + "}"@;
    let b6 = crate::encoding::json_string_map(b.metadata) + "}"@;
    let a5 = instant + (",\"metadata\":"@ + a6);
    let b_instant = crate::encoding::json_instant(b.emitted_at.0, b.emitted_at.1);
    let b5 = b_instant + (",\"metadata\":"@ + b6);
    let a4 = crate::encoding::json_address(a.source) + (",\"message\":"@ + from_the_message(a));
    let b4 = crate::encoding::json_address(b.source) + (",\"message\":"@ + from_the_message(b));
    let a2 = extension_text(a.extension_kind) + (",\"severity\":"@ + from_the_severity(a));
    let b2 = extension_text(b.extension_kind) + (",\"severity\":"@ + from_the_severity(b));
    let a1 = a.kind.token() + ("\",\"extensionKind\":"@ + a2);
    let b1 = b.kind.token() + ("\",\"extensionKind\":"@ + b2);
    lemma_cancel("{\"kind\":\""@, a1, b1);
    lemma_token(a.kind, b.kind, "\",\"extensionKind\":"@ + a2, "\",\"extensionKind\":"@ + b2);
    lemma_cancel("\",\"extensionKind\":"@, a2, b2);
    lemma_extension_text(
        a.extension_kind,
        b.extension_kind,
        ",\"severity\":"@ + from_the_severity(a),
        ",\"severity\":"@ + from_the_severity(b),
    );
    lemma_cancel(",\"severity\":"@, from_the_severity(a), from_the_severity(b));
    lemma_json_severity(a.severity, b.severity, ",\"source\":"@ + a4, ",\"source\":"@ + b4);
    lemma_cancel(",\"source\":"@, a4, b4);
    lemma_json_address(
        a.source,
        b.source,
        ",\"message\":"@ + from_the_message(a),
        ",\"message\":"@ + from_the_message(b),
    );
    lemma_cancel(",\"message\":"@, from_the_message(a), from_the_message(b));
    lemma_json_text(a.message, b.message, ",\"emittedAt\":"@ + a5, ",\"emittedAt\":"@ + b5);
    lemma_cancel(",\"emittedAt\":"@, a5, b5);
    lemma_prefixes(instant, b_instant, ",\"metadata\":"@ + a6, ",\"metadata\":"@ + b6);
    lemma_cancel(instant, ",\"metadata\":"@ + a6, ",\"metadata\":"@ + b6);
    lemma_cancel(",\"metadata\":"@, a6, b6);
    lemma_json_string_map(a.metadata, b.metadata, "}"@, "}"@);
}

/// The text of an anomaly up to the key of its date.
pub(crate) open spec fn before_the_date(a: LavaAnomalyView) -> Seq<char> {
    "{\"kind\":\""@ + a.kind.token() + "\",\"extensionKind\":"@ + (match a.extension_kind {
        Some(text) => crate::encoding::json_text(text),
        None => "null"@,
    }) + ",\"severity\":"@ + crate::encoding::json_severity(a.severity) + ",\"source\":"@
        + crate::encoding::json_address(a.source) + ",\"message\":"@ + crate::encoding::json_text(
        a.message,
    )
}

/// The text of an anomaly behind its date.
pub(crate) open spec fn after_the_date(a: LavaAnomalyView) -> Seq<char> {
    ",\"metadata\":"@ + (crate::encoding::json_string_map(a.metadata) + "}"@)
}

pub(crate) proof fn lemma_date(a: LavaAnomalyView)
    ensures
        a.json() == before_the_date(a) + ",\"emittedAt\":"@ + crate::encoding::json_instant(
            a.emitted_at.0,
            a.emitted_at.1,
        ) + after_the_date(a),
{
    let start = before_the_date(a) + ",\"emittedAt\":"@ + crate::encoding::json_instant(
        a.emitted_at.0,
        a.emitted_at.1,
    );
    let metadata = crate::encoding::json_string_map(a.metadata);
    assert(a.json() == start + ",\"metadata\":"@ + metadata + "}"@);
    lemma_assoc(start + ",\"metadata\":"@, metadata, "}"@);
    lemma_assoc(start, ",\"metadata\":"@, metadata + "}"@);
}

} // verus!
