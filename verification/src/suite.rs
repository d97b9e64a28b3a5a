//! The values that anomalies share with the rest of the suite.

use vstd::prelude::*;

verus! {

/// How bad an anomaly is: `Cosmetic < Functional < Critical`.
#[derive(Clone, Copy, Debug, PartialEq, Eq, PartialOrd, Ord, Hash, Structural)]
pub enum Severity {
    /// No promise is broken (a label changed).
    Cosmetic,
    /// The next apply would change behaviour (an attribute changed).
    Functional,
    /// A resource would be deleted or recreated.
    Critical,
}

/// Which resource an anomaly comes from: cluster, namespace and name.
#[derive(Debug, PartialEq, Eq)]
pub struct ResourceAddress {
    pub cluster: String,
    pub namespace: String,
    pub name: String,
}

/// The model of a [`ResourceAddress`].
pub struct ResourceAddressView {
    pub cluster: Seq<char>,
    pub namespace: Seq<char>,
    pub name: Seq<char>,
}

impl View for ResourceAddress {
    type V = ResourceAddressView;

    open spec fn view(&self) -> ResourceAddressView {
        ResourceAddressView {
            cluster: self.cluster@,
            namespace: self.namespace@,
            name: self.name@,
        }
    }
}

impl Clone for ResourceAddress {
    fn clone(&self) -> (copy: Self)
        ensures
            copy == *self,
    {
        ResourceAddress::new(self.cluster.clone(), self.namespace.clone(), self.name.clone())
    }
}

impl ResourceAddress {
    /// The address of `name` in `namespace` of `cluster`.
    pub fn new<C: Into<String>, N: Into<String>, R: Into<String>>(
        cluster: C,
        namespace: N,
        name: R,
    ) -> (address: Self)
        ensures
            crate::text::converts_to(cluster, address.cluster),
            crate::text::converts_to(namespace, address.namespace),
            crate::text::converts_to(name, address.name),
    {
        ResourceAddress {
            cluster: cluster.into(),
            namespace: namespace.into(),
            name: name.into(),
        }
    }
}

/// The content address of a run of bytes: its 32-byte digest. Its view is the
/// digest.
#[derive(Clone, Copy, Debug, PartialEq, Eq, Hash)]
pub struct ContentHash(pub [u8; 32]);

impl View for ContentHash {
    type V = Seq<u8>;

    open spec fn view(&self) -> Seq<u8> {
        self.0@
    }
}

/// What `ContentHash::of` of `lava_outcome_chain` returns: the BLAKE3 digest
/// of the bytes.
pub uninterp spec fn content_digest(bytes: Seq<u8>) -> Seq<u8>;

/// `ContentHash::of` of `lava_outcome_chain`: the digest depends on the bytes
/// alone.
#[verifier::external_body]
fn digest_of(bytes: &[u8]) -> (digest: [u8; 32])
    ensures
        digest@ == content_digest(bytes@),
{
    lava_outcome_chain::ContentHash::of(bytes).0
}

impl ContentHash {
    /// The content address of `bytes`.
    #[must_use]
    pub fn of(bytes: &[u8]) -> (hash: Self)
        ensures
            hash@ == content_digest(bytes@),
    {
        ContentHash(digest_of(bytes))
    }
}

} // verus!
