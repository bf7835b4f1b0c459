//! The event model: the closed set of fact types and their tagged union.
//!
//! Each fact is immutable; a new fact type requires extending [`Event`] and
//! every exhaustive consumer, which the compiler then enforces.

use vstd::prelude::*;

use crate::bytes::clone_bytes;

verus! {

/// Tenant identifier: the unit of isolation for credentials, resources and
/// ledger accounts.
pub type NamespaceName = String;

/// Opaque byte payload.
pub type Blob = Vec<u8>;

/// Consumption unit debited and credited by usage and payment activity.
pub type DCU = u64;

/// Caller-defined accounting period identifier.
pub type Epoch = u64;

/// Randomly generated 128-bit resource identifier.
pub type ResourceUuid = Blob;

/// Identifier of the cluster a fact originates from.
pub type ClusterUuid = Blob;

/// Identity of a resource within a namespace.
#[derive(Debug)]
pub struct ResourceMetadataV1 {
    pub namespace: NamespaceName,
    pub kind: String,
    pub name: String,
    pub uuid: ResourceUuid,
}

/// Mathematical image of [`ResourceMetadataV1`].
pub struct ResourceMetadataV1View {
    pub namespace: Seq<char>,
    pub kind: Seq<char>,
    pub name: Seq<char>,
    pub uuid: Seq<u8>,
}

impl View for ResourceMetadataV1 {
    type V = ResourceMetadataV1View;

    open spec fn view(&self) -> ResourceMetadataV1View {
        ResourceMetadataV1View {
            namespace: self.namespace@,
            kind: self.kind@,
            name: self.name@,
            uuid: self.uuid@,
        }
    }
}

/// Fact: a new tenant namespace exists.
#[derive(Debug)]
pub struct NamespaceMintedV1 {
    pub name: String,
    pub root_public_key: Blob,
}

/// Mathematical image of [`NamespaceMintedV1`].
pub struct NamespaceMintedV1View {
    pub name: Seq<char>,
    pub root_public_key: Seq<u8>,
}

impl View for NamespaceMintedV1 {
    type V = NamespaceMintedV1View;

    open spec fn view(&self) -> NamespaceMintedV1View {
        NamespaceMintedV1View { name: self.name@, root_public_key: self.root_public_key@ }
    }
}

/// Fact: a salted digest of an API-key secret was registered for a namespace.
#[derive(Debug)]
pub struct ApiKeyRegisteredV1 {
    pub namespace: String,
    pub digest: Blob,
    pub salt: Blob,
}

/// Mathematical image of [`ApiKeyRegisteredV1`].
pub struct ApiKeyRegisteredV1View {
    pub namespace: Seq<char>,
    pub digest: Seq<u8>,
    pub salt: Seq<u8>,
}

impl View for ApiKeyRegisteredV1 {
    type V = ApiKeyRegisteredV1View;

    open spec fn view(&self) -> ApiKeyRegisteredV1View {
        ApiKeyRegisteredV1View {
            namespace: self.namespace@,
            digest: self.digest@,
            salt: self.salt@,
        }
    }
}

/// Fact: a resource was created in a namespace.
#[derive(Debug)]
pub struct ResourceCreatedV1 {
    pub metadata: ResourceMetadataV1,
    pub manifest: Blob,
}

/// Mathematical image of [`ResourceCreatedV1`].
pub struct ResourceCreatedV1View {
    pub metadata: ResourceMetadataV1View,
    pub manifest: Seq<u8>,
}

impl View for ResourceCreatedV1 {
    type V = ResourceCreatedV1View;

    open spec fn view(&self) -> ResourceCreatedV1View {
        ResourceCreatedV1View { metadata: self.metadata@, manifest: self.manifest@ }
    }
}

/// Fact: a resource consumed `units` DCU during an epoch.
#[derive(Debug)]
pub struct ResourceUsageV1 {
    pub entry: Blob,
    pub epoch: Epoch,
    pub namespace: NamespaceName,
    pub resource: ResourceUuid,
    pub cluster: ClusterUuid,
    pub units: DCU,
}

/// Mathematical image of [`ResourceUsageV1`].
pub struct ResourceUsageV1View {
    pub entry: Seq<u8>,
    pub epoch: u64,
    pub namespace: Seq<char>,
    pub resource: Seq<u8>,
    pub cluster: Seq<u8>,
    pub units: u64,
}

impl View for ResourceUsageV1 {
    type V = ResourceUsageV1View;

    open spec fn view(&self) -> ResourceUsageV1View {
        ResourceUsageV1View {
            entry: self.entry@,
            epoch: self.epoch,
            namespace: self.namespace@,
            resource: self.resource@,
            cluster: self.cluster@,
            units: self.units,
        }
    }
}

/// Fact: an external payment settled `units` DCU for a namespace.
#[derive(Debug)]
pub struct UsagePaymentV1 {
    pub entry: Blob,
    pub epoch: Epoch,
    pub namespace: NamespaceName,
    pub cluster: ClusterUuid,
    pub units: DCU,
}

/// Mathematical image of [`UsagePaymentV1`].
pub struct UsagePaymentV1View {
    pub entry: Seq<u8>,
    pub epoch: u64,
    pub namespace: Seq<char>,
    pub cluster: Seq<u8>,
    pub units: u64,
}

impl View for UsagePaymentV1 {
    type V = UsagePaymentV1View;

    open spec fn view(&self) -> UsagePaymentV1View {
        UsagePaymentV1View {
            entry: self.entry@,
            epoch: self.epoch,
            namespace: self.namespace@,
            cluster: self.cluster@,
            units: self.units,
        }
    }
}

/// The closed tagged union of every fact the core can emit or consume.
#[derive(Debug)]
pub enum Event {
    NamespaceMintedV1(NamespaceMintedV1),
    ApiKeyRegisteredV1(ApiKeyRegisteredV1),
    ResourceCreatedV1(ResourceCreatedV1),
    ResourceUsageV1(ResourceUsageV1),
    UsagePaymentV1(UsagePaymentV1),
}

/// Mathematical image of [`Event`].
pub enum EventView {
    NamespaceMintedV1(NamespaceMintedV1View),
    ApiKeyRegisteredV1(ApiKeyRegisteredV1View),
    ResourceCreatedV1(ResourceCreatedV1View),
    ResourceUsageV1(ResourceUsageV1View),
    UsagePaymentV1(UsagePaymentV1View),
}

impl View for Event {
    type V = EventView;

    open spec fn view(&self) -> EventView {
        match self {
            Event::NamespaceMintedV1(e) => EventView::NamespaceMintedV1(e@),
            Event::ApiKeyRegisteredV1(e) => EventView::ApiKeyRegisteredV1(e@),
            Event::ResourceCreatedV1(e) => EventView::ResourceCreatedV1(e@),
            Event::ResourceUsageV1(e) => EventView::ResourceUsageV1(e@),
            Event::UsagePaymentV1(e) => EventView::UsagePaymentV1(e@),
        }
    }
}

impl Clone for ResourceMetadataV1 {
    /// A clone carries the same namespace, kind, name and uuid.
    fn clone(&self) -> (r: Self)
        ensures
            r@ == self@,
    {
        ResourceMetadataV1 {
            namespace: self.namespace.clone(),
            kind: self.kind.clone(),
            name: self.name.clone(),
            uuid: clone_bytes(&self.uuid),
        }
    }
}

impl Clone for NamespaceMintedV1 {
    /// A clone carries the same name and root public key.
    fn clone(&self) -> (r: Self)
        ensures
            r@ == self@,
    {
        NamespaceMintedV1 {
            name: self.name.clone(),
            root_public_key: clone_bytes(&self.root_public_key),
        }
    }
}

impl Clone for ApiKeyRegisteredV1 {
    /// A clone carries the same namespace, digest and salt.
    fn clone(&self) -> (r: Self)
        ensures
            r@ == self@,
    {
        ApiKeyRegisteredV1 {
            namespace: self.namespace.clone(),
            digest: clone_bytes(&self.digest),
            salt: clone_bytes(&self.salt),
        }
    }
}

impl Clone for ResourceCreatedV1 {
    /// A clone carries the same metadata and manifest.
    fn clone(&self) -> (r: Self)
        ensures
            r@ == self@,
    {
        ResourceCreatedV1 {
            metadata: self.metadata.clone(),
            manifest: clone_bytes(&self.manifest),
        }
    }
}

impl Clone for ResourceUsageV1 {
    /// A clone carries the same fields.
    fn clone(&self) -> (r: Self)
        ensures
            r@ == self@,
    {
        ResourceUsageV1 {
            entry: clone_bytes(&self.entry),
            epoch: self.epoch,
            namespace: self.namespace.clone(),
            resource: clone_bytes(&self.resource),
            cluster: clone_bytes(&self.cluster),
            units: self.units,
        }
    }
}

impl Clone for UsagePaymentV1 {
    /// A clone carries the same fields.
    fn clone(&self) -> (r: Self)
        ensures
            r@ == self@,
    {
        UsagePaymentV1 {
            entry: clone_bytes(&self.entry),
            epoch: self.epoch,
            namespace: self.namespace.clone(),
            cluster: clone_bytes(&self.cluster),
            units: self.units,
        }
    }
}

impl Clone for Event {
    /// A clone is the same fact.
    fn clone(&self) -> (r: Self)
        ensures
            r@ == self@,
    {
        match self {
            Event::NamespaceMintedV1(e) => Event::NamespaceMintedV1(e.clone()),
            Event::ApiKeyRegisteredV1(e) => Event::ApiKeyRegisteredV1(e.clone()),
            Event::ResourceCreatedV1(e) => Event::ResourceCreatedV1(e.clone()),
            Event::ResourceUsageV1(e) => Event::ResourceUsageV1(e.clone()),
            Event::UsagePaymentV1(e) => Event::UsagePaymentV1(e.clone()),
        }
    }
}

} // verus!
