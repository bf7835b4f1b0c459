//! The ledger/projection store: namespace existence, credential rows,
//! resource rows and the append-only accounting table with its derived
//! balance view.
//!
//! The store is the only state that more than one component reads; every
//! mutation goes through the named operations below, each of which is atomic
//! from the caller's point of view.  A ledger transaction (the rows sharing
//! one submission) is checked for double-entry balance before anything is
//! written, and is rejected whole when it does not balance.

use vstd::prelude::*;
use vstd::pervasive::VecAdditionalExecFns;
use vstd::slice::slice_to_vec;

use crate::bytes::clone_bytes;
use crate::domain::DomainError;

verus! {

/// A stored credential: `(digest, salt)` pair, as handed back to the
/// credential scan.
#[derive(Debug)]
pub struct ApiKey {
    pub digest: Vec<u8>,
    pub salt: Vec<u8>,
}

/// Mathematical image of [`ApiKey`].
pub struct ApiKeyView {
    pub digest: Seq<u8>,
    pub salt: Seq<u8>,
}

impl View for ApiKey {
    type V = ApiKeyView;

    open spec fn view(&self) -> ApiKeyView {
        ApiKeyView { digest: self.digest@, salt: self.salt@ }
    }
}

/// One row of the resource listing projection.
#[derive(Debug)]
pub struct ListResourceProj {
    pub name: String,
    pub uuid: Vec<u8>,
    pub kind: String,
}

/// Mathematical image of [`ListResourceProj`].
pub struct ListResourceProjView {
    pub name: Seq<char>,
    pub uuid: Seq<u8>,
    pub kind: Seq<char>,
}

impl View for ListResourceProj {
    type V = ListResourceProjView;

    open spec fn view(&self) -> ListResourceProjView {
        ListResourceProjView { name: self.name@, uuid: self.uuid@, kind: self.kind@ }
    }
}

/// One account's movement inside a ledger transaction.
#[derive(Debug, Clone, Copy)]
pub struct AccountDelta {
    pub account: u64,
    pub debit: Option<u64>,
    pub credit: Option<u64>,
}

/// A stored credential row.
struct ApiKeyRow {
    namespace: String,
    digest: Vec<u8>,
    salt: Vec<u8>,
}

/// Mathematical image of a credential row.
pub struct ApiKeyRowView {
    pub namespace: Seq<char>,
    pub digest: Seq<u8>,
    pub salt: Seq<u8>,
}

impl View for ApiKeyRow {
    type V = ApiKeyRowView;

    closed spec fn view(&self) -> ApiKeyRowView {
        ApiKeyRowView { namespace: self.namespace@, digest: self.digest@, salt: self.salt@ }
    }
}

/// A stored resource row.
struct ResourceRow {
    namespace: String,
    kind: String,
    uuid: Vec<u8>,
    name: String,
    manifest: Vec<u8>,
}

/// Mathematical image of a resource row.
pub struct ResourceRowView {
    pub namespace: Seq<char>,
    pub kind: Seq<char>,
    pub uuid: Seq<u8>,
    pub name: Seq<char>,
    pub manifest: Seq<u8>,
}

impl View for ResourceRow {
    type V = ResourceRowView;

    closed spec fn view(&self) -> ResourceRowView {
        ResourceRowView {
            namespace: self.namespace@,
            kind: self.kind@,
            uuid: self.uuid@,
            name: self.name@,
            manifest: self.manifest@,
        }
    }
}

/// A stored accounting-entry row.
struct AccountingRow {
    epoch: u64,
    entry: Vec<u8>,
    cluster: Vec<u8>,
    namespace: String,
    resource: Option<Vec<u8>>,
    account: u64,
    debit: Option<u64>,
    credit: Option<u64>,
}

/// Mathematical image of an accounting-entry row.
pub struct AccountingRowView {
    pub epoch: u64,
    pub entry: Seq<u8>,
    pub cluster: Seq<u8>,
    pub namespace: Seq<char>,
    pub resource: Option<Seq<u8>>,
    pub account: u64,
    pub debit: Option<u64>,
    pub credit: Option<u64>,
}

impl View for AccountingRow {
    type V = AccountingRowView;

    closed spec fn view(&self) -> AccountingRowView {
        AccountingRowView {
            epoch: self.epoch,
            entry: self.entry@,
            cluster: self.cluster@,
            namespace: self.namespace@,
            resource: match self.resource {
                Some(ref r) => Some(r@),
                None => None,
            },
            account: self.account,
            debit: self.debit,
            credit: self.credit,
        }
    }
}

/// Mathematical image of the whole store.
#[verifier::ext_equal]
pub struct FabricStateView {
    pub namespaces: Seq<Seq<char>>,
    pub apikeys: Seq<ApiKeyRowView>,
    pub resources: Seq<ResourceRowView>,
    pub accounting: Seq<AccountingRowView>,
}

/// Durable relational state of the fabric, held as in-memory tables.
pub struct FabricState {
    namespaces: Vec<String>,
    apikeys: Vec<ApiKeyRow>,
    resources: Vec<ResourceRow>,
    accounting: Vec<AccountingRow>,
}

impl View for FabricState {
    type V = FabricStateView;

    closed spec fn view(&self) -> FabricStateView {
        FabricStateView {
            namespaces: Seq::new(self.namespaces@.len(), |i: int| self.namespaces@[i]@),
            apikeys: Seq::new(self.apikeys@.len(), |i: int| self.apikeys@[i]@),
            resources: Seq::new(self.resources@.len(), |i: int| self.resources@[i]@),
            accounting: Seq::new(self.accounting@.len(), |i: int| self.accounting@[i]@),
        }
    }
}

/// No two namespace rows carry the same name.
pub open spec fn namespace_names_distinct(names: Seq<Seq<char>>) -> bool {
    forall|i: int, j: int| 0 <= i < j < names.len() ==> names[i] != names[j]
}

/// The credentials of `ns`, projected to `(digest, salt)`, in insertion
/// order.
pub open spec fn keys_for(rows: Seq<ApiKeyRowView>, ns: Seq<char>) -> Seq<ApiKeyView>
    decreases rows.len(),
{
    if rows.len() == 0 {
        Seq::empty()
    } else {
        let rest = keys_for(rows.drop_last(), ns);
        let last = rows.last();
        if last.namespace == ns {
            rest.push(ApiKeyView { digest: last.digest, salt: last.salt })
        } else {
            rest
        }
    }
}

/// The resources of `ns`, projected to `(name, uuid, kind)`, in insertion
/// order.
pub open spec fn resources_for(rows: Seq<ResourceRowView>, ns: Seq<char>) -> Seq<
    ListResourceProjView,
>
    decreases rows.len(),
{
    if rows.len() == 0 {
        Seq::empty()
    } else {
        let rest = resources_for(rows.drop_last(), ns);
        let last = rows.last();
        if last.namespace == ns {
            rest.push(ListResourceProjView { name: last.name, uuid: last.uuid, kind: last.kind })
        } else {
            rest
        }
    }
}

/// Debit amount a row contributes; an absent debit counts as zero.
pub open spec fn debit_amount(row: AccountingRowView) -> int {
    match row.debit {
        Some(d) => d as int,
        None => 0,
    }
}

/// Credit amount a row contributes; an absent credit counts as zero.
pub open spec fn credit_amount(row: AccountingRowView) -> int {
    match row.credit {
        Some(c) => c as int,
        None => 0,
    }
}

/// Sum of the debit amounts of the rows of `ns` and `account`.
pub open spec fn debit_total(rows: Seq<AccountingRowView>, ns: Seq<char>, account: u64) -> int
    decreases rows.len(),
{
    if rows.len() == 0 {
        0
    } else {
        debit_total(rows.drop_last(), ns, account) + (
        if rows.last().namespace == ns && rows.last().account == account {
            debit_amount(rows.last())
        } else {
            0
        })
    }
}

/// Sum of the credit amounts of the rows of `ns` and `account`.
pub open spec fn credit_total(rows: Seq<AccountingRowView>, ns: Seq<char>, account: u64) -> int
    decreases rows.len(),
{
    if rows.len() == 0 {
        0
    } else {
        credit_total(rows.drop_last(), ns, account) + (
        if rows.last().namespace == ns && rows.last().account == account {
            credit_amount(rows.last())
        } else {
            0
        })
    }
}

/// The accounts of `ns` that occur in `rows`, each once, in order of first
/// appearance.
pub open spec fn balance_accounts(rows: Seq<AccountingRowView>, ns: Seq<char>) -> Seq<u64>
    decreases rows.len(),
{
    if rows.len() == 0 {
        Seq::empty()
    } else {
        let rest = balance_accounts(rows.drop_last(), ns);
        let last = rows.last();
        if last.namespace == ns && !rest.contains(last.account) {
            rest.push(last.account)
        } else {
            rest
        }
    }
}

/// Sum of the explicit debits of a transaction's deltas.
pub open spec fn delta_debit_total(deltas: Seq<AccountDelta>) -> int
    decreases deltas.len(),
{
    if deltas.len() == 0 {
        0
    } else {
        delta_debit_total(deltas.drop_last()) + (
        match deltas.last().debit {
            Some(d) => d as int,
            None => 0,
        })
    }
}

/// Sum of the explicit credits of a transaction's deltas.
pub open spec fn delta_credit_total(deltas: Seq<AccountDelta>) -> int
    decreases deltas.len(),
{
    if deltas.len() == 0 {
        0
    } else {
        delta_credit_total(deltas.drop_last()) + (
        match deltas.last().credit {
            Some(c) => c as int,
            None => 0,
        })
    }
}

/// Double-entry balance of one ledger transaction: debits and credits sum to
/// the same value.
pub open spec fn balanced(deltas: Seq<AccountDelta>) -> bool {
    delta_debit_total(deltas) == delta_credit_total(deltas)
}

/// The rows that one ledger transaction contributes to the accounting
/// table, in delta order.
pub open spec fn transaction_rows(
    epoch: u64,
    entry: Seq<u8>,
    cluster: Seq<u8>,
    ns: Seq<char>,
    resource: Option<Seq<u8>>,
    deltas: Seq<AccountDelta>,
) -> Seq<AccountingRowView>
    decreases deltas.len(),
{
    if deltas.len() == 0 {
        Seq::empty()
    } else {
        transaction_rows(epoch, entry, cluster, ns, resource, deltas.drop_last()).push(
            AccountingRowView {
                epoch,
                entry,
                cluster,
                namespace: ns,
                resource,
                account: deltas.last().account,
                debit: deltas.last().debit,
                credit: deltas.last().credit,
            },
        )
    }
}

impl FabricState {
    /// Store invariant: namespace names are unique.
    pub open spec fn wf(&self) -> bool {
        namespace_names_distinct(self@.namespaces)
    }

    /// Whether a namespace row with this name exists.
    pub open spec fn spec_namespace_exists(&self, name: Seq<char>) -> bool {
        self@.namespaces.contains(name)
    }

    /// A fresh, empty store.
    pub fn ephemeral() -> (s: Self)
        ensures
            s.wf(),
            s@.namespaces == Seq::<Seq<char>>::empty(),
            s@.apikeys == Seq::<ApiKeyRowView>::empty(),
            s@.resources == Seq::<ResourceRowView>::empty(),
            s@.accounting == Seq::<AccountingRowView>::empty(),
    {
        let s = FabricState {
            namespaces: Vec::new(),
            apikeys: Vec::new(),
            resources: Vec::new(),
            accounting: Vec::new(),
        };
        proof {
            assert(s@.namespaces =~= Seq::<Seq<char>>::empty());
            assert(s@.apikeys =~= Seq::<ApiKeyRowView>::empty());
            assert(s@.resources =~= Seq::<ResourceRowView>::empty());
            assert(s@.accounting =~= Seq::<AccountingRowView>::empty());
        }
        s
    }

    /// Whether the namespace row exists.
    pub fn namespace_exists(&self, name: &str) -> (r: Result<bool, DomainError>)
        ensures
            r is Ok,
            r->Ok_0 == self.spec_namespace_exists(name@),
    {
        let mut i: usize = 0;
        let wanted = name.to_owned();
        while i < self.namespaces.len()
            invariant
                i <= self.namespaces.len(),
                wanted@ == name@,
                forall|j: int| 0 <= j < i ==> self@.namespaces[j] != name@,
            decreases self.namespaces.len() - i,
        {
            if self.namespaces[i] == wanted {
                proof {
                    assert(self@.namespaces[i as int] == name@);
                }
                return Ok(true);
            }
            i = i + 1;
        }
        proof {
            assert(forall|j: int|
                0 <= j < self@.namespaces.len() ==> self@.namespaces[j] != name@);
        }
        Ok(false)
    }

    /// Add a namespace row; refused when a row with the same name exists,
    /// which keeps the names unique.
    pub fn insert_namespace(&mut self, name: &str) -> (r: Result<(), DomainError>)
        requires
            old(self).wf(),
        ensures
            final(self).wf(),
            r is Ok <==> !old(self).spec_namespace_exists(name@),
            r is Ok ==> final(self)@ == (FabricStateView {
                namespaces: old(self)@.namespaces.push(name@),
                ..old(self)@
            }),
            r is Err ==> final(self)@ == old(self)@ && r->Err_0 == DomainError::PersistenceError,
    {
        let exists = match self.namespace_exists(name) {
            Ok(b) => b,
            Err(e) => {
                return Err(e);
            },
        };
        if exists {
            return Err(DomainError::PersistenceError);
        }
        let ghost pre = self@;
        self.namespaces.push(name.to_owned());
        proof {
            assert(self@.namespaces =~= pre.namespaces.push(name@));
            assert(self@.apikeys =~= pre.apikeys);
            assert(self@.resources =~= pre.resources);
            assert(self@.accounting =~= pre.accounting);
            assert(self@ =~= (FabricStateView { namespaces: pre.namespaces.push(name@), ..pre }));
        }
        Ok(())
    }

    /// Add a credential row for a namespace.  Multiple credentials per
    /// namespace are allowed; nothing is unique here.
    pub fn insert_api_key(&mut self, ns: &str, digest: &[u8], salt: &[u8]) -> (r: Result<
        (),
        DomainError,
    >)
        requires
            old(self).wf(),
        ensures
            final(self).wf(),
            r is Ok,
            final(self)@ == (FabricStateView {
                apikeys: old(self)@.apikeys.push(
                    ApiKeyRowView { namespace: ns@, digest: digest@, salt: salt@ },
                ),
                ..old(self)@
            }),
    {
        let ghost pre = self@;
        self.apikeys.push(
            ApiKeyRow {
                namespace: ns.to_owned(),
                digest: slice_to_vec(digest),
                salt: slice_to_vec(salt),
            },
        );
        proof {
            assert(self@.namespaces =~= pre.namespaces);
            assert(self@.apikeys =~= pre.apikeys.push(
                ApiKeyRowView { namespace: ns@, digest: digest@, salt: salt@ },
            ));
            assert(self@.resources =~= pre.resources);
            assert(self@.accounting =~= pre.accounting);
            assert(self@ =~= (FabricStateView {
                apikeys: pre.apikeys.push(
                    ApiKeyRowView { namespace: ns@, digest: digest@, salt: salt@ },
                ),
                ..pre
            }));
        }
        Ok(())
    }

    /// All credentials stored for a namespace, in insertion order.  The
    /// credential scan walks this list row by row.
    pub fn get_all_api_keys_for_namespace(&self, ns: &str) -> (r: Result<Vec<ApiKey>, DomainError>)
        ensures
            r is Ok,
            Seq::new(r->Ok_0@.len(), |i: int| r->Ok_0@[i]@) == keys_for(self@.apikeys, ns@),
    {
        let wanted = ns.to_owned();
        let mut out: Vec<ApiKey> = Vec::new();
        let mut i: usize = 0;
        while i < self.apikeys.len()
            invariant
                i <= self.apikeys.len(),
                wanted@ == ns@,
                Seq::new(out@.len(), |k: int| out@[k]@) =~= keys_for(
                    self@.apikeys.take(i as int),
                    ns@,
                ),
            decreases self.apikeys.len() - i,
        {
            let row = &self.apikeys[i];
            if row.namespace == wanted {
                out.push(ApiKey { digest: clone_bytes(&row.digest), salt: clone_bytes(&row.salt) });
            }
            i = i + 1;
            proof {
                assert(self@.apikeys.take(i as int).drop_last() =~= self@.apikeys.take(i as int - 1));
                assert(self@.apikeys.take(i as int).last() == self@.apikeys[i as int - 1]);
                assert(Seq::new(out@.len(), |k: int| out@[k]@) =~= keys_for(
                    self@.apikeys.take(i as int),
                    ns@,
                ));
            }
        }
        proof {
            assert(self@.apikeys.take(self@.apikeys.len() as int) =~= self@.apikeys);
        }
        Ok(out)
    }

    /// Add a resource row.
    pub fn insert_resource(
        &mut self,
        ns: &str,
        kind: &str,
        uuid: &[u8],
        name: &str,
        manifest: &[u8],
    ) -> (r: Result<(), DomainError>)
        requires
            old(self).wf(),
        ensures
            final(self).wf(),
            r is Ok,
            final(self)@ == (FabricStateView {
                resources: old(self)@.resources.push(
                    ResourceRowView {
                        namespace: ns@,
                        kind: kind@,
                        uuid: uuid@,
                        name: name@,
                        manifest: manifest@,
                    },
                ),
                ..old(self)@
            }),
    {
        let ghost pre = self@;
        self.resources.push(
            ResourceRow {
                namespace: ns.to_owned(),
                kind: kind.to_owned(),
                uuid: slice_to_vec(uuid),
                name: name.to_owned(),
                manifest: slice_to_vec(manifest),
            },
        );
        proof {
            let row = ResourceRowView {
                namespace: ns@,
                kind: kind@,
                uuid: uuid@,
                name: name@,
                manifest: manifest@,
            };
            assert(self@.namespaces =~= pre.namespaces);
            assert(self@.apikeys =~= pre.apikeys);
            assert(self@.resources =~= pre.resources.push(row));
            assert(self@.accounting =~= pre.accounting);
            assert(self@ =~= (FabricStateView { resources: pre.resources.push(row), ..pre }));
        }
        Ok(())
    }

    /// The `(name, uuid, kind)` projection of the resources of a namespace,
    /// in insertion order.
    pub fn list_resources(&self, ns: &str) -> (r: Result<Vec<ListResourceProj>, DomainError>)
        ensures
            r is Ok,
            Seq::new(r->Ok_0@.len(), |i: int| r->Ok_0@[i]@) == resources_for(self@.resources, ns@),
    {
        let wanted = ns.to_owned();
        let mut out: Vec<ListResourceProj> = Vec::new();
        let mut i: usize = 0;
        while i < self.resources.len()
            invariant
                i <= self.resources.len(),
                wanted@ == ns@,
                Seq::new(out@.len(), |k: int| out@[k]@) =~= resources_for(
                    self@.resources.take(i as int),
                    ns@,
                ),
            decreases self.resources.len() - i,
        {
            let row = &self.resources[i];
            if row.namespace == wanted {
                out.push(
                    ListResourceProj {
                        name: row.name.clone(),
                        uuid: clone_bytes(&row.uuid),
                        kind: row.kind.clone(),
                    },
                );
            }
            i = i + 1;
            proof {
                assert(self@.resources.take(i as int).drop_last() =~= self@.resources.take(
                    i as int - 1,
                ));
                assert(self@.resources.take(i as int).last() == self@.resources[i as int - 1]);
                assert(Seq::new(out@.len(), |k: int| out@[k]@) =~= resources_for(
                    self@.resources.take(i as int),
                    ns@,
                ));
            }
        }
        proof {
            assert(self@.resources.take(self@.resources.len() as int) =~= self@.resources);
        }
        Ok(out)
    }
}

/// An account not listed for `ns` has contributed nothing to its sums.
proof fn lemma_unseen_account_zero(rows: Seq<AccountingRowView>, ns: Seq<char>, account: u64)
    requires
        !balance_accounts(rows, ns).contains(account),
    ensures
        debit_total(rows, ns, account) == 0,
        credit_total(rows, ns, account) == 0,
    decreases rows.len(),
{
    if rows.len() > 0 {
        let rest = balance_accounts(rows.drop_last(), ns);
        let full = balance_accounts(rows, ns);
        assert forall|a: u64| rest.contains(a) implies full.contains(a) by {
            let idx = choose|idx: int| 0 <= idx < rest.len() && rest[idx] == a;
            if rows.last().namespace == ns && !rest.contains(rows.last().account) {
                assert(full[idx] == a);
            } else {
                assert(full[idx] == a);
            }
        }
        if rows.last().namespace == ns && rows.last().account == account {
            if rest.contains(account) {
                assert(full.contains(account));
            } else {
                assert(full == rest.push(account));
                assert(full[full.len() - 1] == account);
                assert(full.contains(account));
            }
            assert(false);
        }
        lemma_unseen_account_zero(rows.drop_last(), ns, account);
    }
}

/// Per-account sums grow by at most one row's amount per row.
proof fn lemma_totals_bounded(rows: Seq<AccountingRowView>, ns: Seq<char>, account: u64)
    ensures
        debit_total(rows, ns, account) <= rows.len() * (u64::MAX as int),
        credit_total(rows, ns, account) <= rows.len() * (u64::MAX as int),
    decreases rows.len(),
{
    if rows.len() > 0 {
        lemma_totals_bounded(rows.drop_last(), ns, account);
        assert((rows.len() - 1) * (u64::MAX as int) + (u64::MAX as int) == rows.len() * (
        u64::MAX as int)) by (nonlinear_arith);
    }
}

/// Per-account debit and credit sums distribute over concatenation of
/// accounting histories: appending more rows adds exactly their
/// contribution.  Together with [`lemma_balance_order_independent`] this is
/// the sense in which the ledger balance is additive and independent of
/// insertion order.
pub proof fn lemma_balance_additive(
    a: Seq<AccountingRowView>,
    b: Seq<AccountingRowView>,
    ns: Seq<char>,
    account: u64,
)
    ensures
        debit_total(a + b, ns, account) == debit_total(a, ns, account) + debit_total(
            b,
            ns,
            account,
        ),
        credit_total(a + b, ns, account) == credit_total(a, ns, account) + credit_total(
            b,
            ns,
            account,
        ),
    decreases b.len(),
{
    if b.len() == 0 {
        assert(a + b =~= a);
    } else {
        lemma_balance_additive(a, b.drop_last(), ns, account);
        assert((a + b).drop_last() =~= a + b.drop_last());
        assert((a + b).last() == b.last());
    }
}

/// Two accounting histories made of the same transactions in either order
/// give every account the same debit and credit sums.
pub proof fn lemma_balance_order_independent(
    a: Seq<AccountingRowView>,
    b: Seq<AccountingRowView>,
    ns: Seq<char>,
    account: u64,
)
    ensures
        debit_total(a + b, ns, account) == debit_total(b + a, ns, account),
        credit_total(a + b, ns, account) == credit_total(b + a, ns, account),
{
    lemma_balance_additive(a, b, ns, account);
    lemma_balance_additive(b, a, ns, account);
}

/// The accounting history that a sequence of ledger transactions builds
/// up, one transaction's rows after another.
pub open spec fn ledger_of(txs: Seq<Seq<AccountingRowView>>) -> Seq<AccountingRowView>
    decreases txs.len(),
{
    if txs.len() == 0 {
        Seq::empty()
    } else {
        ledger_of(txs.drop_last()) + txs.last()
    }
}

/// Elementwise sum of the per-transaction debit contributions of `ns` and
/// `account`.
pub open spec fn txs_debit_total(
    txs: Seq<Seq<AccountingRowView>>,
    ns: Seq<char>,
    account: u64,
) -> int
    decreases txs.len(),
{
    if txs.len() == 0 {
        0
    } else {
        txs_debit_total(txs.drop_last(), ns, account) + debit_total(txs.last(), ns, account)
    }
}

/// Elementwise sum of the per-transaction credit contributions of `ns` and
/// `account`.
pub open spec fn txs_credit_total(
    txs: Seq<Seq<AccountingRowView>>,
    ns: Seq<char>,
    account: u64,
) -> int
    decreases txs.len(),
{
    if txs.len() == 0 {
        0
    } else {
        txs_credit_total(txs.drop_last(), ns, account) + credit_total(txs.last(), ns, account)
    }
}

/// The ledger balance sums transactions elementwise: for any sequence of
/// transactions, every account's debit and credit sums over the whole
/// history equal the sums of that account's per-transaction contributions.
pub proof fn lemma_balance_sums_transactions(
    txs: Seq<Seq<AccountingRowView>>,
    ns: Seq<char>,
    account: u64,
)
    ensures
        debit_total(ledger_of(txs), ns, account) == txs_debit_total(txs, ns, account),
        credit_total(ledger_of(txs), ns, account) == txs_credit_total(txs, ns, account),
    decreases txs.len(),
{
    if txs.len() > 0 {
        lemma_balance_sums_transactions(txs.drop_last(), ns, account);
        lemma_balance_additive(ledger_of(txs.drop_last()), txs.last(), ns, account);
    }
}

/// Building the ledger from one run of transactions after another is the
/// same as building it from their concatenation.
pub proof fn lemma_ledger_of_concat(a: Seq<Seq<AccountingRowView>>, b: Seq<Seq<AccountingRowView>>)
    ensures
        ledger_of(a + b) =~= ledger_of(a) + ledger_of(b),
    decreases b.len(),
{
    if b.len() == 0 {
        assert(a + b =~= a);
        assert(ledger_of(b) =~= Seq::<AccountingRowView>::empty());
    } else {
        lemma_ledger_of_concat(a, b.drop_last());
        assert((a + b).drop_last() =~= a + b.drop_last());
        assert((a + b).last() == b.last());
    }
}

/// Two runs of the same transactions in either order give every account
/// the same balance sums: the ledger balance is independent of insertion
/// order.
pub proof fn lemma_ledger_order_independent(
    a: Seq<Seq<AccountingRowView>>,
    b: Seq<Seq<AccountingRowView>>,
    ns: Seq<char>,
    account: u64,
)
    ensures
        debit_total(ledger_of(a + b), ns, account) == debit_total(ledger_of(b + a), ns, account),
        credit_total(ledger_of(a + b), ns, account) == credit_total(ledger_of(b + a), ns, account),
{
    lemma_ledger_of_concat(a, b);
    lemma_ledger_of_concat(b, a);
    lemma_balance_order_independent(ledger_of(a), ledger_of(b), ns, account);
}

/// A created resource is retrievable: once its row is applied, the
/// namespace's listing projection ends with that resource, uuid included,
/// so the identifier handed back at creation appears in a subsequent list
/// query of the same namespace.
pub proof fn lemma_created_resource_is_listed(rows: Seq<ResourceRowView>, row: ResourceRowView)
    ensures
        resources_for(rows.push(row), row.namespace).len() > 0,
        resources_for(rows.push(row), row.namespace).last() == (ListResourceProjView {
            name: row.name,
            uuid: row.uuid,
            kind: row.kind,
        }),
{
    assert(rows.push(row).drop_last() =~= rows);
    assert(rows.push(row).last() == row);
}

/// First index in the partial balance whose account is `account`.
fn find_account(acc: &Vec<(u64, u128, u128)>, account: u64) -> (r: Option<usize>)
    ensures
        match r {
            Some(idx) => idx < acc@.len() && acc@[idx as int].0 == account,
            None => forall|k: int| 0 <= k < acc@.len() ==> acc@[k].0 != account,
        },
{
    let mut i: usize = 0;
    while i < acc.len()
        invariant
            i <= acc.len(),
            forall|k: int| 0 <= k < i ==> acc@[k].0 != account,
        decreases acc.len() - i,
    {
        if acc[i].0 == account {
            return Some(i);
        }
        i = i + 1;
    }
    None
}

impl FabricState {
    /// Append one balanced ledger transaction, atomically: either every row
    /// of the transaction becomes visible or none does.
    ///
    /// A transaction whose debits and credits do not sum to the same value
    /// is rejected whole with [`DomainError::UnbalancedTransaction`]; this
    /// is the double-entry invariant the rest of the design assumes.
    pub fn insert_accounting(
        &mut self,
        epoch: u64,
        entry: &[u8],
        cluster: &[u8],
        namespace: &str,
        resource: Option<&[u8]>,
        deltas: Vec<AccountDelta>,
    ) -> (r: Result<(), DomainError>)
        requires
            old(self).wf(),
        ensures
            final(self).wf(),
            r is Ok <==> balanced(deltas@),
            r is Ok ==> final(self)@ == (FabricStateView {
                accounting: old(self)@.accounting + transaction_rows(
                    epoch,
                    entry@,
                    cluster@,
                    namespace@,
                    (match resource {
                        Some(b) => Some(b@),
                        None => None,
                    }),
                    deltas@,
                ),
                ..old(self)@
            }),
            r is Err ==> final(self)@ == old(self)@ && r->Err_0
                == DomainError::UnbalancedTransaction,
    {
        let ghost rsrc: Option<Seq<u8>> = match resource {
            Some(b) => Some(b@),
            None => None,
        };
        let mut dsum: u128 = 0;
        let mut csum: u128 = 0;
        let mut i: usize = 0;
        while i < deltas.len()
            invariant
                i <= deltas.len(),
                dsum as int == delta_debit_total(deltas@.take(i as int)),
                csum as int == delta_credit_total(deltas@.take(i as int)),
                dsum as int <= (i as int) * (u64::MAX as int),
                csum as int <= (i as int) * (u64::MAX as int),
            decreases deltas.len() - i,
        {
            proof {
                assert(deltas@.take(i + 1).drop_last() =~= deltas@.take(i as int));
                assert(deltas@.take(i + 1).last() == deltas@[i as int]);
                assert((i as int) * (u64::MAX as int) + (u64::MAX as int) == (i + 1) * (
                u64::MAX as int)) by (nonlinear_arith);
                assert((i + 1) * (u64::MAX as int) <= (usize::MAX as int) * (u64::MAX as int)) by {
                    vstd::arithmetic::mul::lemma_mul_inequality(
                        i + 1,
                        usize::MAX as int,
                        u64::MAX as int,
                    );
                }
            }
            let d = &deltas[i];
            match d.debit {
                Some(v) => {
                    dsum = dsum + (v as u128);
                },
                None => {},
            }
            match d.credit {
                Some(v) => {
                    csum = csum + (v as u128);
                },
                None => {},
            }
            i = i + 1;
        }
        proof {
            assert(deltas@.take(deltas@.len() as int) =~= deltas@);
        }
        if dsum != csum {
            return Err(DomainError::UnbalancedTransaction);
        }
        let ghost pre = self@;
        let owned_ns = namespace.to_owned();
        let mut j: usize = 0;
        while j < deltas.len()
            invariant
                j <= deltas.len(),
                owned_ns@ == namespace@,
                self@.namespaces == pre.namespaces,
                self@.apikeys == pre.apikeys,
                self@.resources == pre.resources,
                self@.accounting =~= pre.accounting + transaction_rows(
                    epoch,
                    entry@,
                    cluster@,
                    namespace@,
                    rsrc,
                    deltas@.take(j as int),
                ),
                rsrc == (match resource {
                    Some(b) => Some(b@),
                    None => None,
                }),
            decreases deltas.len() - j,
        {
            let ghost before = self@;
            let d = &deltas[j];
            let row_resource: Option<Vec<u8>> = match resource {
                Some(b) => Some(slice_to_vec(b)),
                None => None,
            };
            self.accounting.push(
                AccountingRow {
                    epoch,
                    entry: slice_to_vec(entry),
                    cluster: slice_to_vec(cluster),
                    namespace: owned_ns.clone(),
                    resource: row_resource,
                    account: d.account,
                    debit: d.debit,
                    credit: d.credit,
                },
            );
            j = j + 1;
            proof {
                let rowv = AccountingRowView {
                    epoch,
                    entry: entry@,
                    cluster: cluster@,
                    namespace: namespace@,
                    resource: rsrc,
                    account: deltas@[j - 1].account,
                    debit: deltas@[j - 1].debit,
                    credit: deltas@[j - 1].credit,
                };
                assert(self@.namespaces =~= before.namespaces);
                assert(self@.apikeys =~= before.apikeys);
                assert(self@.resources =~= before.resources);
                assert(self@.accounting =~= before.accounting.push(rowv));
                assert(deltas@.take(j as int).drop_last() =~= deltas@.take(j as int - 1));
                assert(deltas@.take(j as int).last() == deltas@[j - 1]);
                assert(self@.accounting =~= pre.accounting + transaction_rows(
                    epoch,
                    entry@,
                    cluster@,
                    namespace@,
                    rsrc,
                    deltas@.take(j as int),
                ));
            }
        }
        proof {
            assert(deltas@.take(deltas@.len() as int) =~= deltas@);
            assert(self@ =~= (FabricStateView {
                accounting: pre.accounting + transaction_rows(
                    epoch,
                    entry@,
                    cluster@,
                    namespace@,
                    rsrc,
                    deltas@,
                ),
                ..pre
            }));
        }
        Ok(())
    }

    /// The derived balance view of a namespace: its accounts in order of
    /// first appearance, each with the sum of its debits and the sum of its
    /// credits.  Recomputed on every read; fails only when a sum leaves the
    /// representable range.
    pub fn read_balance(&self, ns: &str) -> (r: Result<Vec<(u64, u64, u64)>, DomainError>)
        ensures
            r is Ok <==> (forall|k: int|
                0 <= k < balance_accounts(self@.accounting, ns@).len() ==> debit_total(
                    self@.accounting,
                    ns@,
                    balance_accounts(self@.accounting, ns@)[k],
                ) <= u64::MAX as int && credit_total(
                    self@.accounting,
                    ns@,
                    balance_accounts(self@.accounting, ns@)[k],
                ) <= u64::MAX as int),
            r is Ok ==> {
                &&& r->Ok_0@.len() == balance_accounts(self@.accounting, ns@).len()
                &&& forall|k: int|
                    0 <= k < r->Ok_0@.len() ==> r->Ok_0@[k].0 == balance_accounts(
                        self@.accounting,
                        ns@,
                    )[k] && r->Ok_0@[k].1 as int == debit_total(
                        self@.accounting,
                        ns@,
                        balance_accounts(self@.accounting, ns@)[k],
                    ) && r->Ok_0@[k].2 as int == credit_total(
                        self@.accounting,
                        ns@,
                        balance_accounts(self@.accounting, ns@)[k],
                    )
            },
            r is Err ==> r->Err_0 == DomainError::PersistenceError,
    {
        let rows_len = self.accounting.len();
        let ghost rows = self@.accounting;
        let wanted = ns.to_owned();
        let mut acc: Vec<(u64, u128, u128)> = Vec::new();
        let mut i: usize = 0;
        proof {
            assert(rows.take(0) =~= Seq::<AccountingRowView>::empty());
        }
        while i < rows_len
            invariant
                i <= rows_len,
                rows_len == self.accounting.len(),
                rows == self@.accounting,
                wanted@ == ns@,
                acc@.len() == balance_accounts(rows.take(i as int), ns@).len(),
                forall|k: int|
                    0 <= k < acc@.len() ==> #[trigger] acc@[k].0 == balance_accounts(
                        rows.take(i as int),
                        ns@,
                    )[k] && acc@[k].1 as int == debit_total(rows.take(i as int), ns@, acc@[k].0)
                        && acc@[k].2 as int == credit_total(rows.take(i as int), ns@, acc@[k].0),
                forall|k1: int, k2: int|
                    0 <= k1 < k2 < acc@.len() ==> acc@[k1].0 != acc@[k2].0,
            decreases rows_len - i,
        {
            let ghost prefix = rows.take(i as int);
            let ghost prefix1 = rows.take(i + 1);
            proof {
                assert(prefix1.drop_last() =~= prefix);
                assert(prefix1.last() == rows[i as int]);
            }
            let row = &self.accounting[i];
            if row.namespace == wanted {
                match find_account(&acc, row.account) {
                    Some(idx) => {
                        proof {
                            lemma_totals_bounded(prefix, ns@, acc@[idx as int].0);
                            assert(i as int <= u64::MAX as int);
                            assert((i as int) * (u64::MAX as int) + (u64::MAX as int)
                                < u128::MAX as int) by (nonlinear_arith)
                                requires
                                    0 <= i as int <= u64::MAX as int,
                            ;
                        }
                        let mut e = acc[idx];
                        match row.debit {
                            Some(v) => {
                                e.1 = e.1 + (v as u128);
                            },
                            None => {},
                        }
                        match row.credit {
                            Some(v) => {
                                e.2 = e.2 + (v as u128);
                            },
                            None => {},
                        }
                        acc.set(idx, e);
                        proof {
                            assert(balance_accounts(prefix1, ns@) =~= balance_accounts(
                                prefix,
                                ns@,
                            ));
                        }
                    },
                    None => {
                        proof {
                            assert forall|a: u64|
                                balance_accounts(prefix, ns@).contains(a) implies exists|k: int|
                                0 <= k < acc@.len() && acc@[k].0 == a by {
                                let idx = choose|idx: int|
                                    0 <= idx < balance_accounts(prefix, ns@).len()
                                        && balance_accounts(prefix, ns@)[idx] == a;
                                assert(acc@[idx].0 == a);
                            }
                            assert(!balance_accounts(prefix, ns@).contains(row.account));
                            lemma_unseen_account_zero(prefix, ns@, row.account);
                        }
                        let d: u128 = match row.debit {
                            Some(v) => v as u128,
                            None => 0,
                        };
                        let c: u128 = match row.credit {
                            Some(v) => v as u128,
                            None => 0,
                        };
                        acc.push((row.account, d, c));
                        proof {
                            assert(balance_accounts(prefix1, ns@) =~= balance_accounts(
                                prefix,
                                ns@,
                            ).push(row.account));
                        }
                    },
                }
            } else {
                proof {
                    assert(balance_accounts(prefix1, ns@) =~= balance_accounts(prefix, ns@));
                }
            }
            i = i + 1;
        }
        proof {
            assert(rows.take(rows_len as int) =~= rows);
        }
        let mut out: Vec<(u64, u64, u64)> = Vec::new();
        let mut k: usize = 0;
        let acc_len = acc.len();
        while k < acc_len
            invariant
                k <= acc_len,
                acc_len == acc@.len(),
                rows == self@.accounting,
                acc@.len() == balance_accounts(rows, ns@).len(),
                forall|m: int|
                    0 <= m < acc@.len() ==> #[trigger] acc@[m].0 == balance_accounts(rows, ns@)[m]
                        && acc@[m].1 as int == debit_total(rows, ns@, acc@[m].0) && acc@[m].2 as int
                        == credit_total(rows, ns@, acc@[m].0),
                out@.len() == k,
                forall|m: int|
                    0 <= m < k ==> #[trigger] out@[m].0 == acc@[m].0 && out@[m].1 as int
                        == acc@[m].1 as int && out@[m].2 as int == acc@[m].2 as int,
                forall|m: int| 0 <= m < k ==> acc@[m].1 <= u64::MAX && acc@[m].2 <= u64::MAX,
            decreases acc_len - k,
        {
            let e = acc[k];
            if e.1 > u64::MAX as u128 || e.2 > u64::MAX as u128 {
                proof {
                    let accounts = balance_accounts(rows, ns@);
                    assert(acc@[k as int].0 == accounts[k as int]);
                    assert(debit_total(rows, ns@, accounts[k as int]) > u64::MAX as int
                        || credit_total(rows, ns@, accounts[k as int]) > u64::MAX as int);
                }
                return Err(DomainError::PersistenceError);
            }
            out.push((e.0, e.1 as u64, e.2 as u64));
            k = k + 1;
        }
        proof {
            let accounts = balance_accounts(rows, ns@);
            assert forall|m: int| 0 <= m < accounts.len() implies debit_total(
                rows,
                ns@,
                accounts[m],
            ) <= u64::MAX as int && credit_total(rows, ns@, accounts[m]) <= u64::MAX as int by {
                assert(acc@[m].0 == accounts[m]);
            }
            assert forall|m: int| 0 <= m < out@.len() implies out@[m].0 == accounts[m]
                && out@[m].1 as int == debit_total(rows, ns@, accounts[m]) && out@[m].2 as int
                == credit_total(rows, ns@, accounts[m]) by {
                assert(acc@[m].0 == accounts[m]);
                assert(out@[m].0 == acc@[m].0);
            }
        }
        Ok(out)
    }
}

} // verus!
