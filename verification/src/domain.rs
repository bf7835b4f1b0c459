//! The domain engine: command validation, event emission and the projections
//! that apply facts onto the ledger store.

use vstd::prelude::*;

use crate::auth::MAX_SALT_LEN;
use crate::auth::MAX_SECRET_LEN;
use crate::auth::MIN_SALT_LEN;
use crate::auth::digest;
use crate::auth::digest_of;
use crate::auth::hashable;
use crate::bytes::bytes_eq;
use crate::bytes::clone_bytes;
use crate::event_dispatch::EventDispatch;
use crate::event_dispatch::EventReceipt;
use crate::event_dispatch::EventWrapperView;
use crate::events::ApiKeyRegisteredV1;
use crate::events::Blob;
use crate::events::ClusterUuid;
use crate::events::Event;
use crate::events::EventView;
use crate::events::NamespaceMintedV1;
use crate::events::NamespaceName;
use crate::events::ResourceCreatedV1;
use crate::events::ResourceMetadataV1;
use crate::events::ResourceUsageV1View;
use crate::events::UsagePaymentV1View;
use crate::fabric_state::AccountDelta;
use crate::fabric_state::AccountingRowView;
use crate::fabric_state::ApiKeyRowView;
use crate::fabric_state::ApiKeyView;
use crate::fabric_state::FabricState;
use crate::fabric_state::FabricStateView;
use crate::fabric_state::balance_accounts;
use crate::fabric_state::credit_total;
use crate::fabric_state::debit_total;
use crate::fabric_state::keys_for;
use crate::fabric_state::resources_for;
use crate::ids::fresh_uuid_bytes;

verus! {

/// Placeholder payload of an owner-signature credential.
pub type SignatureValue = String;

/// Timestamp carried by an owner-signature credential.
pub type AuthTimestamp = u64;

/// An API-key secret as presented by a caller.
pub type SecretValue = Vec<u8>;

/// 32-byte output of the credential hasher.
pub type HashDigest = [u8; 32];

/// Salt stored next to a credential digest.
pub type HashSalt = Vec<u8>;

/// Everything that can go wrong while validating a command, projecting a
/// fact, or reading the store.
#[derive(Debug, Clone, Copy, PartialEq, Eq, Structural)]
pub enum DomainError {
    /// Minting was asked for a namespace that already exists.
    NamespaceAlreadyExists,
    /// The command named a namespace that does not exist.
    NamespaceNotFound,
    /// No stored credential of the namespace matches the presented API key;
    /// the specific kind of an invalid-credential failure.
    InvalidApiKey,
    /// A ledger transaction's debits and credits do not sum to the same
    /// value.
    UnbalancedTransaction,
    /// The store refused an operation (a uniqueness constraint, or a sum
    /// that left the representable range).
    PersistenceError,
    /// The credential hasher failed on its input.
    HashingError,
}

/// Proof of authorization presented with a command: either an opaque
/// API-key secret or an owner-signature placeholder with a timestamp.
#[derive(Debug, Clone)]
pub enum Credential {
    OwnerSignatureV1(SignatureValue, AuthTimestamp),
    ApiKeyV1(SecretValue),
}

/// Mathematical image of [`Credential`].
pub enum CredentialView {
    OwnerSignatureV1(Seq<char>, u64),
    ApiKeyV1(Seq<u8>),
}

impl View for Credential {
    type V = CredentialView;

    open spec fn view(&self) -> CredentialView {
        match self {
            Credential::OwnerSignatureV1(sig, ts) => CredentialView::OwnerSignatureV1(sig@, *ts),
            Credential::ApiKeyV1(secret) => CredentialView::ApiKeyV1(secret@),
        }
    }
}

/// Account debited when a resource consumes DCU.
pub const CONSUMPTION_ACCOUNT: u64 = 1;

/// Account that pools consumption against payments.
pub const POOL_ACCOUNT: u64 = 2;

/// Account credited when an external payment settles DCU.
pub const SETTLEMENT_ACCOUNT: u64 = 3;

/// Engine-wide configuration.
pub struct Config {
    pub cluster: ClusterUuid,
}

/// The domain engine: validates commands against the ledger store, emits
/// facts through the dispatcher, and applies facts back onto the store.
/// Callers serialize all access to one engine value (single-writer).
pub struct Domain {
    pub config: Config,
    pub event_dispatch: EventDispatch,
    pub fabric_state: FabricState,
}

/// Command: register a salted API-key digest under a namespace.
pub struct RegisterApiKeyCmd {
    pub auth: Credential,
    pub namespace: NamespaceName,
    pub secret: SecretValue,
}

/// Command: create an opaque resource in a namespace.
pub struct CreateResourceCmd {
    pub auth: Credential,
    pub namespace: String,
    pub name: String,
    pub kind: String,
    pub manifest: Blob,
}

/// What `create_resource` hands back synchronously: the dispatch receipt
/// and the fresh resource identifier.
#[derive(Debug)]
pub struct CreateResourceAck {
    pub event_receipt: Vec<u8>,
    pub resource_uuid: Vec<u8>,
}

/// Query: list the resources of a namespace.
pub struct ListResourcesQuery {
    pub auth: Credential,
    pub resource_name: String,
    pub namespace_name: String,
}

/// One row of a listing answer.
#[derive(Debug)]
pub struct ListResourcesItem {
    pub metadata: ResourceMetadataV1,
    pub manifest: Blob,
    pub status: Blob,
}

/// Query: read the derived balance of a namespace.
pub struct ReadBalanceQuery {
    pub auth: Credential,
    pub namespace_name: String,
}

/// Balance answer: one `(account, debit, credit)` triple per account.
#[derive(Debug)]
pub struct ReadBalanceOutput {
    pub accounts: Vec<(u64, u64, u64)>,
}

/// A presented secret matches one stored credential: the salt is in the
/// hasher's range and recomputing the digest with it reproduces the stored
/// digest byte for byte.
pub open spec fn key_matches(secret: Seq<u8>, key: ApiKeyView) -> bool {
    &&& hashable(secret, key.salt)
    &&& digest_of(secret, key.salt) == key.digest
}

/// The API-key check: some stored credential of the namespace matches the
/// presented secret.  The check is a linear scan over the namespace's
/// credentials by design, bounded by the per-tenant key count.
pub open spec fn api_key_valid(state: FabricStateView, ns: Seq<char>, secret: Seq<u8>) -> bool {
    exists|k: int|
        0 <= k < keys_for(state.apikeys, ns).len() && key_matches(
            secret,
            keys_for(state.apikeys, ns)[k],
        )
}

/// Which credentials pass validation.  An owner signature is accepted
/// unconditionally: real signature verification against the namespace's
/// registered public key is an open gap of this design, flagged here
/// rather than silently relied upon.
pub open spec fn credentials_valid(
    state: FabricStateView,
    ns: Seq<char>,
    cred: CredentialView,
) -> bool {
    match cred {
        CredentialView::OwnerSignatureV1(_, _) => true,
        CredentialView::ApiKeyV1(secret) => api_key_valid(state, ns, secret),
    }
}

/// The two balanced rows a usage fact contributes: debit the consumption
/// account, credit the pool account.
pub open spec fn usage_transaction(evt: ResourceUsageV1View) -> Seq<AccountingRowView> {
    seq![
        AccountingRowView {
            epoch: evt.epoch,
            entry: evt.entry,
            cluster: evt.cluster,
            namespace: evt.namespace,
            resource: Some(evt.resource),
            account: CONSUMPTION_ACCOUNT,
            debit: Some(evt.units),
            credit: None,
        },
        AccountingRowView {
            epoch: evt.epoch,
            entry: evt.entry,
            cluster: evt.cluster,
            namespace: evt.namespace,
            resource: Some(evt.resource),
            account: POOL_ACCOUNT,
            debit: None,
            credit: Some(evt.units),
        },
    ]
}

/// The two balanced rows a payment fact contributes: debit the pool
/// account, credit the settlement account.  A payment is not attributable
/// to one resource, so its rows carry none.
pub open spec fn payment_transaction(evt: UsagePaymentV1View) -> Seq<AccountingRowView> {
    seq![
        AccountingRowView {
            epoch: evt.epoch,
            entry: evt.entry,
            cluster: evt.cluster,
            namespace: evt.namespace,
            resource: None,
            account: POOL_ACCOUNT,
            debit: Some(evt.units),
            credit: None,
        },
        AccountingRowView {
            epoch: evt.epoch,
            entry: evt.entry,
            cluster: evt.cluster,
            namespace: evt.namespace,
            resource: None,
            account: SETTLEMENT_ACCOUNT,
            debit: None,
            credit: Some(evt.units),
        },
    ]
}

impl Domain {
    /// Engine invariant: both owned components are well formed.
    pub open spec fn wf(&self) -> bool {
        &&& self.fabric_state.wf()
        &&& self.event_dispatch.wf()
    }

    /// Room for one more submission in the dispatcher's counter.
    pub open spec fn can_submit(&self) -> bool {
        self.event_dispatch@.total() < u64::MAX as int
    }

    /// Guard: the namespace must not exist yet.
    fn assert_available_namespace(&self, ns: &str) -> (r: Result<(), DomainError>)
        ensures
            r is Ok <==> !self.fabric_state.spec_namespace_exists(ns@),
            r is Err ==> r->Err_0 == DomainError::NamespaceAlreadyExists,
    {
        let exists = self.fabric_state.namespace_exists(ns)?;
        if exists {
            return Err(DomainError::NamespaceAlreadyExists);
        }
        Ok(())
    }

    /// Guard: the namespace must exist.
    fn assert_existing_namespace(&self, ns: &str) -> (r: Result<(), DomainError>)
        ensures
            r is Ok <==> self.fabric_state.spec_namespace_exists(ns@),
            r is Err ==> r->Err_0 == DomainError::NamespaceNotFound,
    {
        let exists = self.fabric_state.namespace_exists(ns)?;
        if !exists {
            return Err(DomainError::NamespaceNotFound);
        }
        Ok(())
    }

    /// The linear credential scan: fetch every stored `(digest, salt)` row
    /// of the namespace, recompute the digest of the presented secret with
    /// each salt, and succeed on the first byte-exact match.  Fails closed
    /// with `InvalidApiKey` when the list is empty or nothing matches; a
    /// row whose salt the hasher cannot take, or a secret beyond the
    /// hasher's range, can match nothing.
    fn assert_valid_api_key(&self, ns: &str, secret: &SecretValue) -> (r: Result<(), DomainError>)
        ensures
            r is Ok <==> api_key_valid(self.fabric_state@, ns@, secret@),
            r is Err ==> r->Err_0 == DomainError::InvalidApiKey,
    {
        let keys = self.fabric_state.get_all_api_keys_for_namespace(ns)?;
        let ghost key_views = keys_for(self.fabric_state@.apikeys, ns@);
        let mut i: usize = 0;
        while i < keys.len()
            invariant
                i <= keys.len(),
                key_views == keys_for(self.fabric_state@.apikeys, ns@),
                key_views == Seq::new(keys@.len(), |k: int| keys@[k]@),
                forall|k: int| 0 <= k < i ==> !key_matches(secret@, key_views[k]),
            decreases keys.len() - i,
        {
            let key = &keys[i];
            if secret.len() <= MAX_SECRET_LEN && key.salt.len() >= MIN_SALT_LEN && key.salt.len()
                <= MAX_SALT_LEN {
                match digest(secret.as_slice(), key.salt.as_slice()) {
                    Ok(redigest) => {
                        if bytes_eq(redigest.as_slice(), key.digest.as_slice()) {
                            proof {
                                assert(key_matches(secret@, key_views[i as int]));
                            }
                            return Ok(());
                        }
                    },
                    Err(e) => {
                        // provably unreachable: the bounds above are the
                        // hasher's exact domain
                        return Err(e);
                    },
                }
            }
            i = i + 1;
        }
        Err(DomainError::InvalidApiKey)
    }

    /// Validate the presented credential for a namespace.  An API key goes
    /// through the stored-credential scan; an owner signature is accepted
    /// unconditionally (an open gap of this design, see
    /// [`credentials_valid`]).
    fn assert_valid_credentials(&self, ns: &str, credential: &Credential) -> (r: Result<
        (),
        DomainError,
    >)
        ensures
            r is Ok <==> credentials_valid(self.fabric_state@, ns@, credential@),
            r is Err ==> r->Err_0 == DomainError::InvalidApiKey,
    {
        match credential {
            Credential::ApiKeyV1(secret) => self.assert_valid_api_key(ns, secret),
            Credential::OwnerSignatureV1(_, _) => Ok(()),
        }
    }

    /// Mint a namespace: refused with `NamespaceAlreadyExists` when the
    /// name is taken, otherwise a `NamespaceMintedV1` fact is emitted
    /// through the dispatcher for the projections to apply.
    pub fn mint_namespace(&mut self, name: NamespaceName, root_public_key: Blob) -> (r: Result<
        EventReceipt,
        DomainError,
    >)
        requires
            old(self).wf(),
            old(self).can_submit(),
        ensures
            final(self).wf(),
            final(self).fabric_state@ == old(self).fabric_state@,
            final(self).config.cluster@ == old(self).config.cluster@,
            r is Ok <==> !old(self).fabric_state.spec_namespace_exists(name@),
            r is Ok ==> {
                &&& r->Ok_0@.len() == 16
                &&& final(self).event_dispatch@.total() == old(self).event_dispatch@.total() + 1
                &&& final(self).event_dispatch@.event_at(old(self).event_dispatch@.total())
                    == (EventWrapperView {
                    event: EventView::NamespaceMintedV1(
                        crate::events::NamespaceMintedV1View {
                            name: name@,
                            root_public_key: root_public_key@,
                        },
                    ),
                    receipt: r->Ok_0@,
                })
            },
            r is Err ==> final(self).event_dispatch@ == old(self).event_dispatch@ && r->Err_0
                == DomainError::NamespaceAlreadyExists,
    {
        self.assert_available_namespace(name.as_str())?;
        let receipt = self.event_dispatch.submit_event(
            Event::NamespaceMintedV1(NamespaceMintedV1 { name, root_public_key }),
        )?;
        Ok(receipt)
    }

    /// Register an API key: the namespace must exist and the presented
    /// credential must validate; then a fresh random salt is drawn, the
    /// secret is digested with it, and an `ApiKeyRegisteredV1` fact is
    /// emitted for the projections to apply.
    pub fn register_apikey(&mut self, cmd: RegisterApiKeyCmd) -> (r: Result<(), DomainError>)
        requires
            old(self).wf(),
            old(self).can_submit(),
        ensures
            final(self).wf(),
            final(self).fabric_state@ == old(self).fabric_state@,
            final(self).config.cluster@ == old(self).config.cluster@,
            r is Ok <==> {
                &&& old(self).fabric_state.spec_namespace_exists(cmd.namespace@)
                &&& credentials_valid(old(self).fabric_state@, cmd.namespace@, cmd.auth@)
                &&& cmd.secret@.len() <= MAX_SECRET_LEN
            },
            r is Ok ==> {
                &&& final(self).event_dispatch@.total() == old(self).event_dispatch@.total() + 1
                &&& final(self).event_dispatch@.event_at(old(self).event_dispatch@.total()).event
                    matches EventView::ApiKeyRegisteredV1(e) && e.namespace == cmd.namespace@
                    && e.salt.len() == 16 && hashable(cmd.secret@, e.salt) && e.digest == digest_of(
                    cmd.secret@,
                    e.salt,
                )
            },
            r is Err ==> {
                &&& final(self).event_dispatch@ == old(self).event_dispatch@
                &&& r->Err_0 == (if !old(self).fabric_state.spec_namespace_exists(cmd.namespace@) {
                    DomainError::NamespaceNotFound
                } else if !credentials_valid(old(self).fabric_state@, cmd.namespace@, cmd.auth@) {
                    DomainError::InvalidApiKey
                } else {
                    DomainError::HashingError
                })
            },
    {
        self.assert_existing_namespace(cmd.namespace.as_str())?;
        self.assert_valid_credentials(cmd.namespace.as_str(), &cmd.auth)?;
        let salt = fresh_uuid_bytes();
        let digest_value = digest(cmd.secret.as_slice(), salt.as_slice())?;
        let digest_bytes = vstd::slice::slice_to_vec(digest_value.as_slice());
        self.event_dispatch.submit_event(
            Event::ApiKeyRegisteredV1(
                ApiKeyRegisteredV1 { namespace: cmd.namespace, digest: digest_bytes, salt },
            ),
        )?;
        Ok(())
    }

    /// Create a resource: the namespace must exist and the credential must
    /// validate; then a fresh 128-bit resource identifier is drawn, a
    /// `ResourceCreatedV1` fact is emitted, and the receipt and identifier
    /// are handed back synchronously — the one command whose emitted
    /// identifiers the caller needs immediately.
    pub fn create_resource(&mut self, cmd: CreateResourceCmd) -> (r: Result<
        CreateResourceAck,
        DomainError,
    >)
        requires
            old(self).wf(),
            old(self).can_submit(),
        ensures
            final(self).wf(),
            final(self).fabric_state@ == old(self).fabric_state@,
            final(self).config.cluster@ == old(self).config.cluster@,
            r is Ok <==> {
                &&& old(self).fabric_state.spec_namespace_exists(cmd.namespace@)
                &&& credentials_valid(old(self).fabric_state@, cmd.namespace@, cmd.auth@)
            },
            r is Ok ==> {
                &&& r->Ok_0.resource_uuid@.len() == 16
                &&& r->Ok_0.event_receipt@.len() == 16
                &&& final(self).event_dispatch@.total() == old(self).event_dispatch@.total() + 1
                &&& final(self).event_dispatch@.event_at(old(self).event_dispatch@.total())
                    == (EventWrapperView {
                    event: EventView::ResourceCreatedV1(
                        crate::events::ResourceCreatedV1View {
                            metadata: crate::events::ResourceMetadataV1View {
                                namespace: cmd.namespace@,
                                kind: cmd.kind@,
                                name: cmd.name@,
                                uuid: r->Ok_0.resource_uuid@,
                            },
                            manifest: cmd.manifest@,
                        },
                    ),
                    receipt: r->Ok_0.event_receipt@,
                })
            },
            r is Err ==> {
                &&& final(self).event_dispatch@ == old(self).event_dispatch@
                &&& r->Err_0 == (if !old(self).fabric_state.spec_namespace_exists(cmd.namespace@) {
                    DomainError::NamespaceNotFound
                } else {
                    DomainError::InvalidApiKey
                })
            },
    {
        self.assert_existing_namespace(cmd.namespace.as_str())?;
        self.assert_valid_credentials(cmd.namespace.as_str(), &cmd.auth)?;
        let resource_uuid = fresh_uuid_bytes();
        let event_receipt = self.event_dispatch.submit_event(
            Event::ResourceCreatedV1(
                ResourceCreatedV1 {
                    metadata: ResourceMetadataV1 {
                        namespace: cmd.namespace,
                        kind: cmd.kind,
                        name: cmd.name,
                        uuid: clone_bytes(&resource_uuid),
                    },
                    manifest: cmd.manifest,
                },
            ),
        )?;
        Ok(CreateResourceAck { event_receipt, resource_uuid })
    }

    /// List the resources of a namespace: the namespace must exist and the
    /// credential must validate; the answer carries every stored resource
    /// of the namespace in insertion order, with empty manifest and status
    /// blobs (the listing projection does not return them).
    pub fn list_resources(&self, query: ListResourcesQuery) -> (r: Result<
        Vec<ListResourcesItem>,
        DomainError,
    >)
        ensures
            r is Ok <==> {
                &&& self.fabric_state.spec_namespace_exists(query.namespace_name@)
                &&& credentials_valid(self.fabric_state@, query.namespace_name@, query.auth@)
            },
            r is Ok ==> {
                &&& r->Ok_0@.len() == resources_for(
                    self.fabric_state@.resources,
                    query.namespace_name@,
                ).len()
                &&& forall|k: int|
                    0 <= k < r->Ok_0@.len() ==> #[trigger] r->Ok_0@[k]@ == (ListResourcesItemView {
                        metadata: crate::events::ResourceMetadataV1View {
                            namespace: query.namespace_name@,
                            kind: resources_for(
                                self.fabric_state@.resources,
                                query.namespace_name@,
                            )[k].kind,
                            name: resources_for(
                                self.fabric_state@.resources,
                                query.namespace_name@,
                            )[k].name,
                            uuid: resources_for(
                                self.fabric_state@.resources,
                                query.namespace_name@,
                            )[k].uuid,
                        },
                        manifest: Seq::empty(),
                        status: Seq::empty(),
                    })
            },
            r is Err ==> r->Err_0 == (if !self.fabric_state.spec_namespace_exists(
                query.namespace_name@,
            ) {
                DomainError::NamespaceNotFound
            } else {
                DomainError::InvalidApiKey
            }),
    {
        self.assert_existing_namespace(query.namespace_name.as_str())?;
        self.assert_valid_credentials(query.namespace_name.as_str(), &query.auth)?;
        let rows = self.fabric_state.list_resources(query.namespace_name.as_str())?;
        let ghost projections = resources_for(self.fabric_state@.resources, query.namespace_name@);
        let mut items: Vec<ListResourcesItem> = Vec::new();
        let mut i: usize = 0;
        while i < rows.len()
            invariant
                i <= rows.len(),
                projections == resources_for(self.fabric_state@.resources, query.namespace_name@),
                projections == Seq::new(rows@.len(), |k: int| rows@[k]@),
                items@.len() == i,
                forall|k: int|
                    0 <= k < i ==> #[trigger] items@[k]@ == (ListResourcesItemView {
                        metadata: crate::events::ResourceMetadataV1View {
                            namespace: query.namespace_name@,
                            kind: projections[k].kind,
                            name: projections[k].name,
                            uuid: projections[k].uuid,
                        },
                        manifest: Seq::empty(),
                        status: Seq::empty(),
                    }),
            decreases rows.len() - i,
        {
            let row = &rows[i];
            items.push(
                ListResourcesItem {
                    metadata: ResourceMetadataV1 {
                        namespace: query.namespace_name.clone(),
                        kind: row.kind.clone(),
                        name: row.name.clone(),
                        uuid: clone_bytes(&row.uuid),
                    },
                    manifest: Vec::new(),
                    status: Vec::new(),
                },
            );
            i = i + 1;
        }
        Ok(items)
    }

    /// Read the derived balance of a namespace: the namespace must exist
    /// and the credential must validate; the answer lists each account of
    /// the namespace, in order of first appearance in the ledger, with the
    /// sums of its debits and credits.
    pub fn read_balance(&self, query: ReadBalanceQuery) -> (r: Result<
        ReadBalanceOutput,
        DomainError,
    >)
        ensures
            r is Ok <==> {
                &&& self.fabric_state.spec_namespace_exists(query.namespace_name@)
                &&& credentials_valid(self.fabric_state@, query.namespace_name@, query.auth@)
                &&& forall|k: int|
                    0 <= k < balance_accounts(
                        self.fabric_state@.accounting,
                        query.namespace_name@,
                    ).len() ==> debit_total(
                        self.fabric_state@.accounting,
                        query.namespace_name@,
                        balance_accounts(self.fabric_state@.accounting, query.namespace_name@)[k],
                    ) <= u64::MAX as int && credit_total(
                        self.fabric_state@.accounting,
                        query.namespace_name@,
                        balance_accounts(self.fabric_state@.accounting, query.namespace_name@)[k],
                    ) <= u64::MAX as int
            },
            r is Ok ==> {
                &&& r->Ok_0.accounts@.len() == balance_accounts(
                    self.fabric_state@.accounting,
                    query.namespace_name@,
                ).len()
                &&& forall|k: int|
                    0 <= k < r->Ok_0.accounts@.len() ==> #[trigger] r->Ok_0.accounts@[k].0
                        == balance_accounts(
                        self.fabric_state@.accounting,
                        query.namespace_name@,
                    )[k] && r->Ok_0.accounts@[k].1 as int == debit_total(
                        self.fabric_state@.accounting,
                        query.namespace_name@,
                        balance_accounts(self.fabric_state@.accounting, query.namespace_name@)[k],
                    ) && r->Ok_0.accounts@[k].2 as int == credit_total(
                        self.fabric_state@.accounting,
                        query.namespace_name@,
                        balance_accounts(self.fabric_state@.accounting, query.namespace_name@)[k],
                    )
            },
            r is Err ==> r->Err_0 == (if !self.fabric_state.spec_namespace_exists(
                query.namespace_name@,
            ) {
                DomainError::NamespaceNotFound
            } else if !credentials_valid(
                self.fabric_state@,
                query.namespace_name@,
                query.auth@,
            ) {
                DomainError::InvalidApiKey
            } else {
                DomainError::PersistenceError
            }),
    {
        self.assert_existing_namespace(query.namespace_name.as_str())?;
        self.assert_valid_credentials(query.namespace_name.as_str(), &query.auth)?;
        let accounts = self.fabric_state.read_balance(query.namespace_name.as_str())?;
        Ok(ReadBalanceOutput { accounts })
    }

    /// Projection: a `NamespaceMintedV1` fact inserts the namespace row.
    /// Non-existence is re-asserted first, so a duplicate delivery of the
    /// same fact is refused instead of corrupting the store.
    fn on_namespace_minted(&mut self, evt: NamespaceMintedV1) -> (r: Result<(), DomainError>)
        requires
            old(self).wf(),
        ensures
            final(self).wf(),
            final(self).event_dispatch@ == old(self).event_dispatch@,
            final(self).config.cluster@ == old(self).config.cluster@,
            r is Ok <==> !old(self).fabric_state.spec_namespace_exists(evt.name@),
            r is Ok ==> final(self).fabric_state@ == (FabricStateView {
                namespaces: old(self).fabric_state@.namespaces.push(evt.name@),
                ..old(self).fabric_state@
            }),
            r is Err ==> final(self).fabric_state@ == old(self).fabric_state@ && r->Err_0
                == DomainError::NamespaceAlreadyExists,
    {
        self.assert_available_namespace(evt.name.as_str())?;
        self.fabric_state.insert_namespace(evt.name.as_str())?;
        Ok(())
    }

    /// Projection: an `ApiKeyRegisteredV1` fact inserts the credential row.
    fn on_apikey_registered(&mut self, evt: ApiKeyRegisteredV1) -> (r: Result<(), DomainError>)
        requires
            old(self).wf(),
        ensures
            final(self).wf(),
            final(self).event_dispatch@ == old(self).event_dispatch@,
            final(self).config.cluster@ == old(self).config.cluster@,
            r is Ok,
            final(self).fabric_state@ == (FabricStateView {
                apikeys: old(self).fabric_state@.apikeys.push(
                    ApiKeyRowView { namespace: evt.namespace@, digest: evt.digest@, salt: evt.salt@ },
                ),
                ..old(self).fabric_state@
            }),
    {
        self.fabric_state.insert_api_key(
            evt.namespace.as_str(),
            evt.digest.as_slice(),
            evt.salt.as_slice(),
        )?;
        Ok(())
    }

    /// Projection: a `ResourceCreatedV1` fact inserts the resource row.
    fn on_resource_created(&mut self, evt: ResourceCreatedV1) -> (r: Result<(), DomainError>)
        requires
            old(self).wf(),
        ensures
            final(self).wf(),
            final(self).event_dispatch@ == old(self).event_dispatch@,
            final(self).config.cluster@ == old(self).config.cluster@,
            r is Ok,
            final(self).fabric_state@ == (FabricStateView {
                resources: old(self).fabric_state@.resources.push(
                    crate::fabric_state::ResourceRowView {
                        namespace: evt.metadata.namespace@,
                        kind: evt.metadata.kind@,
                        uuid: evt.metadata.uuid@,
                        name: evt.metadata.name@,
                        manifest: evt.manifest@,
                    },
                ),
                ..old(self).fabric_state@
            }),
    {
        self.fabric_state.insert_resource(
            evt.metadata.namespace.as_str(),
            evt.metadata.kind.as_str(),
            evt.metadata.uuid.as_slice(),
            evt.metadata.name.as_str(),
            evt.manifest.as_slice(),
        )?;
        Ok(())
    }

    /// Projection: a `ResourceUsageV1` fact appends one balanced ledger
    /// transaction — debit the consumption account, credit the pool
    /// account — tagged with the fact's epoch, entry, cluster, namespace
    /// and resource.
    fn on_resource_usage(&mut self, evt: crate::events::ResourceUsageV1) -> (r: Result<
        (),
        DomainError,
    >)
        requires
            old(self).wf(),
        ensures
            final(self).wf(),
            final(self).event_dispatch@ == old(self).event_dispatch@,
            final(self).config.cluster@ == old(self).config.cluster@,
            r is Ok,
            final(self).fabric_state@ == (FabricStateView {
                accounting: old(self).fabric_state@.accounting + usage_transaction(evt@),
                ..old(self).fabric_state@
            }),
    {
        let mut deltas: Vec<AccountDelta> = Vec::new();
        deltas.push(
            AccountDelta { account: CONSUMPTION_ACCOUNT, debit: Some(evt.units), credit: None },
        );
        deltas.push(AccountDelta { account: POOL_ACCOUNT, debit: None, credit: Some(evt.units) });
        proof {
            reveal_with_fuel(crate::fabric_state::delta_debit_total, 3);
            reveal_with_fuel(crate::fabric_state::delta_credit_total, 3);
            reveal_with_fuel(crate::fabric_state::transaction_rows, 3);
            let ds = deltas@;
            assert(ds.len() == 2);
            assert(ds.drop_last().len() == 1);
            assert(ds.drop_last().last() == ds[0]);
            assert(crate::fabric_state::balanced(ds));
            assert(crate::fabric_state::transaction_rows(
                evt.epoch,
                evt.entry@,
                evt.cluster@,
                evt.namespace@,
                Some(evt.resource@),
                ds,
            ) =~= usage_transaction(evt@));
        }
        self.fabric_state.insert_accounting(
            evt.epoch,
            evt.entry.as_slice(),
            evt.cluster.as_slice(),
            evt.namespace.as_str(),
            Some(evt.resource.as_slice()),
            deltas,
        )?;
        Ok(())
    }

    /// Projection: a `UsagePaymentV1` fact appends one balanced ledger
    /// transaction — debit the pool account, credit the settlement account
    /// — with no resource attribution.
    fn on_usage_payment(&mut self, evt: crate::events::UsagePaymentV1) -> (r: Result<
        (),
        DomainError,
    >)
        requires
            old(self).wf(),
        ensures
            final(self).wf(),
            final(self).event_dispatch@ == old(self).event_dispatch@,
            final(self).config.cluster@ == old(self).config.cluster@,
            r is Ok,
            final(self).fabric_state@ == (FabricStateView {
                accounting: old(self).fabric_state@.accounting + payment_transaction(evt@),
                ..old(self).fabric_state@
            }),
    {
        let mut deltas: Vec<AccountDelta> = Vec::new();
        deltas.push(AccountDelta { account: POOL_ACCOUNT, debit: Some(evt.units), credit: None });
        deltas.push(
            AccountDelta { account: SETTLEMENT_ACCOUNT, debit: None, credit: Some(evt.units) },
        );
        proof {
            reveal_with_fuel(crate::fabric_state::delta_debit_total, 3);
            reveal_with_fuel(crate::fabric_state::delta_credit_total, 3);
            reveal_with_fuel(crate::fabric_state::transaction_rows, 3);
            let ds = deltas@;
            assert(ds.len() == 2);
            assert(ds.drop_last().len() == 1);
            assert(ds.drop_last().last() == ds[0]);
            assert(crate::fabric_state::balanced(ds));
            assert(crate::fabric_state::transaction_rows(
                evt.epoch,
                evt.entry@,
                evt.cluster@,
                evt.namespace@,
                None,
                ds,
            ) =~= payment_transaction(evt@));
        }
        self.fabric_state.insert_accounting(
            evt.epoch,
            evt.entry.as_slice(),
            evt.cluster.as_slice(),
            evt.namespace.as_str(),
            None,
            deltas,
        )?;
        Ok(())
    }

    /// Apply one fact to the store, exhaustively over the closed event
    /// model.  Only the namespace projection can be refused (on duplicate
    /// delivery); every other fact is applied unconditionally, and the
    /// usage and payment projections always append balanced transactions.
    pub fn handle(&mut self, event: Event) -> (r: Result<(), DomainError>)
        requires
            old(self).wf(),
        ensures
            final(self).wf(),
            final(self).event_dispatch@ == old(self).event_dispatch@,
            final(self).config.cluster@ == old(self).config.cluster@,
            match event@ {
                EventView::NamespaceMintedV1(e) => {
                    &&& r is Ok <==> !old(self).fabric_state.spec_namespace_exists(e.name)
                    &&& r is Ok ==> final(self).fabric_state@ == (FabricStateView {
                        namespaces: old(self).fabric_state@.namespaces.push(e.name),
                        ..old(self).fabric_state@
                    })
                    &&& r is Err ==> final(self).fabric_state@ == old(self).fabric_state@
                        && r->Err_0 == DomainError::NamespaceAlreadyExists
                },
                EventView::ApiKeyRegisteredV1(e) => {
                    &&& r is Ok
                    &&& final(self).fabric_state@ == (FabricStateView {
                        apikeys: old(self).fabric_state@.apikeys.push(
                            ApiKeyRowView {
                                namespace: e.namespace,
                                digest: e.digest,
                                salt: e.salt,
                            },
                        ),
                        ..old(self).fabric_state@
                    })
                },
                EventView::ResourceCreatedV1(e) => {
                    &&& r is Ok
                    &&& final(self).fabric_state@ == (FabricStateView {
                        resources: old(self).fabric_state@.resources.push(
                            crate::fabric_state::ResourceRowView {
                                namespace: e.metadata.namespace,
                                kind: e.metadata.kind,
                                uuid: e.metadata.uuid,
                                name: e.metadata.name,
                                manifest: e.manifest,
                            },
                        ),
                        ..old(self).fabric_state@
                    })
                },
                EventView::ResourceUsageV1(e) => {
                    &&& r is Ok
                    &&& final(self).fabric_state@ == (FabricStateView {
                        accounting: old(self).fabric_state@.accounting + usage_transaction(e),
                        ..old(self).fabric_state@
                    })
                },
                EventView::UsagePaymentV1(e) => {
                    &&& r is Ok
                    &&& final(self).fabric_state@ == (FabricStateView {
                        accounting: old(self).fabric_state@.accounting + payment_transaction(e),
                        ..old(self).fabric_state@
                    })
                },
            },
    {
        match event {
            Event::NamespaceMintedV1(evt) => self.on_namespace_minted(evt),
            Event::ApiKeyRegisteredV1(evt) => self.on_apikey_registered(evt),
            Event::ResourceCreatedV1(evt) => self.on_resource_created(evt),
            Event::ResourceUsageV1(evt) => self.on_resource_usage(evt),
            Event::UsagePaymentV1(evt) => self.on_usage_payment(evt),
        }
    }
}

/// Mathematical image of [`ListResourcesItem`].
pub struct ListResourcesItemView {
    pub metadata: crate::events::ResourceMetadataV1View,
    pub manifest: Seq<u8>,
    pub status: Seq<u8>,
}

impl View for ListResourcesItem {
    type V = ListResourcesItemView;

    open spec fn view(&self) -> ListResourcesItemView {
        ListResourcesItemView {
            metadata: self.metadata@,
            manifest: self.manifest@,
            status: self.status@,
        }
    }
}

/// A namespace row inserted once stays: minting a fresh name is accepted
/// (its guard is exactly non-existence), the projection appends the name,
/// and from then on the same name is present, so a second mint — or a
/// duplicate delivery of the fact — is refused as `NamespaceAlreadyExists`.
pub proof fn lemma_mint_twice(state: FabricStateView, name: Seq<char>)
    requires
        !state.namespaces.contains(name),
    ensures
        state.namespaces.push(name).contains(name),
{
    assert(state.namespaces.push(name)[state.namespaces.len() as int] == name);
}

/// A namespace with no registered API key rejects every presented API-key
/// secret: the credential scan fails closed on an empty list.
pub proof fn lemma_no_keys_no_api_key_valid(
    state: FabricStateView,
    ns: Seq<char>,
    secret: Seq<u8>,
)
    requires
        keys_for(state.apikeys, ns).len() == 0,
    ensures
        !api_key_valid(state, ns, secret),
{
}

/// Every credential row of a namespace appears in that namespace's key
/// projection.
proof fn lemma_keys_for_contains(rows: Seq<ApiKeyRowView>, ns: Seq<char>, i: int)
    requires
        0 <= i < rows.len(),
        rows[i].namespace == ns,
    ensures
        keys_for(rows, ns).contains(ApiKeyView { digest: rows[i].digest, salt: rows[i].salt }),
    decreases rows.len(),
{
    let key = ApiKeyView { digest: rows[i].digest, salt: rows[i].salt };
    if i == rows.len() - 1 {
        assert(keys_for(rows, ns).last() == key);
        assert(keys_for(rows, ns).contains(key));
    } else {
        lemma_keys_for_contains(rows.drop_last(), ns, i);
        let rest = keys_for(rows.drop_last(), ns);
        let k = choose|k: int| 0 <= k < rest.len() && rest[k] == key;
        if rows.last().namespace == ns {
            assert(keys_for(rows, ns)[k] == key);
        } else {
            assert(keys_for(rows, ns)[k] == key);
        }
        assert(keys_for(rows, ns).contains(key));
    }
}

/// A secret whose salted digest is stored for a namespace verifies against
/// that namespace: recomputing the digest with the stored salt reproduces
/// the stored digest, so the credential scan accepts the secret.  (That a
/// different secret never reproduces the digest is collision resistance of
/// the hasher, a documented non-goal of this model; it is exercised by
/// tests, not claimed here.)
pub proof fn lemma_registered_secret_verifies(
    state: FabricStateView,
    ns: Seq<char>,
    secret: Seq<u8>,
    i: int,
)
    requires
        0 <= i < state.apikeys.len(),
        state.apikeys[i].namespace == ns,
        hashable(secret, state.apikeys[i].salt),
        state.apikeys[i].digest == digest_of(secret, state.apikeys[i].salt),
    ensures
        api_key_valid(state, ns, secret),
{
    lemma_keys_for_contains(state.apikeys, ns, i);
    let key = ApiKeyView { digest: state.apikeys[i].digest, salt: state.apikeys[i].salt };
    let keys = keys_for(state.apikeys, ns);
    let k = choose|k: int| 0 <= k < keys.len() && keys[k] == key;
    assert(key_matches(secret, keys[k]));
}

} // verus!
