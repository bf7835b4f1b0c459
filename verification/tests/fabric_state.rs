use dmtrd::domain::DomainError;
use dmtrd::fabric_state::AccountDelta;
use dmtrd::fabric_state::FabricState;

#[test]
fn test_namespace_persistence() {
    let mut db = FabricState::ephemeral();

    assert_eq!(db.namespace_exists("ns1").unwrap(), false);

    db.insert_namespace("ns1").unwrap();

    assert_eq!(db.namespace_exists("ns1").unwrap(), true);
}

#[test]
fn test_apikeys_persistence() {
    let mut db = FabricState::ephemeral();

    db.insert_namespace("ns1").unwrap();
    db.insert_api_key("ns1", b"0123", b"9876").unwrap();
    db.insert_api_key("ns1", b"4567", b"5432").unwrap();

    db.insert_namespace("ns2").unwrap();
    db.insert_api_key("ns2", b"abcd", b"zyxw").unwrap();

    let mut keys = db.get_all_api_keys_for_namespace("ns1").unwrap();
    assert_eq!(keys.len(), 2);
    let item = keys.remove(0);
    assert_eq!(item.digest, b"0123");
    assert_eq!(item.salt, b"9876");
    let item = keys.remove(0);
    assert_eq!(item.digest, b"4567");
    assert_eq!(item.salt, b"5432");

    let mut keys = db.get_all_api_keys_for_namespace("ns2").unwrap();
    assert_eq!(keys.len(), 1);
    let item = keys.remove(0);
    assert_eq!(item.digest, b"abcd");
    assert_eq!(item.salt, b"zyxw");
}

#[test]
fn duplicate_namespace_is_a_persistence_error() {
    let mut db = FabricState::ephemeral();

    db.insert_namespace("ns1").unwrap();
    let err = db.insert_namespace("ns1").unwrap_err();
    assert_eq!(err, DomainError::PersistenceError);

    // the duplicate insert left the store as it was
    assert_eq!(db.namespace_exists("ns1").unwrap(), true);
}

#[test]
fn balanced_transaction_is_visible() {
    let mut db = FabricState::ephemeral();

    db.insert_namespace("ns1").unwrap();
    db.insert_resource("ns1", "pod", b"resource1", "mypod", b"")
        .unwrap();

    db.insert_accounting(
        1,
        b"entry1",
        b"cluster1",
        "ns1",
        Some(b"resource1"),
        vec![
            AccountDelta {
                account: 1,
                debit: Some(400),
                credit: None,
            },
            AccountDelta {
                account: 2,
                debit: None,
                credit: Some(400),
            },
        ],
    )
    .unwrap();

    let balance = db.read_balance("ns1").unwrap();
    assert_eq!(balance, vec![(1, 400, 0), (2, 0, 400)]);
}

#[test]
fn unbalanced_transaction_is_rejected_whole() {
    let mut db = FabricState::ephemeral();

    db.insert_namespace("ns1").unwrap();
    let err = db
        .insert_accounting(
            1,
            b"entry1",
            b"cluster1",
            "ns1",
            None,
            vec![
                AccountDelta {
                    account: 1,
                    debit: Some(500),
                    credit: None,
                },
                AccountDelta {
                    account: 2,
                    debit: None,
                    credit: Some(400),
                },
            ],
        )
        .unwrap_err();
    assert_eq!(err, DomainError::UnbalancedTransaction);

    // none of the transaction's rows became visible
    let balance = db.read_balance("ns1").unwrap();
    assert_eq!(balance, Vec::new());
}

#[test]
fn identical_credentials_may_coexist() {
    // no uniqueness constraint on digest or salt
    let mut db = FabricState::ephemeral();
    db.insert_namespace("ns1").unwrap();
    db.insert_api_key("ns1", b"same-digest", b"samesalt").unwrap();
    db.insert_api_key("ns1", b"same-digest", b"samesalt").unwrap();

    let keys = db.get_all_api_keys_for_namespace("ns1").unwrap();
    assert_eq!(keys.len(), 2);
    assert_eq!(keys[0].digest, keys[1].digest);
    assert_eq!(keys[0].salt, keys[1].salt);
}

#[test]
fn balance_overflow_is_a_persistence_error() {
    let mut db = FabricState::ephemeral();
    db.insert_namespace("ns1").unwrap();
    for entry in [b"e1", b"e2"] {
        db.insert_accounting(
            1,
            entry,
            b"c",
            "ns1",
            None,
            vec![
                AccountDelta {
                    account: 1,
                    debit: Some(u64::MAX),
                    credit: None,
                },
                AccountDelta {
                    account: 2,
                    debit: None,
                    credit: Some(u64::MAX),
                },
            ],
        )
        .unwrap();
    }

    // account 1 now owes 2 * u64::MAX debit, which the balance view
    // cannot represent
    let err = db.read_balance("ns1").unwrap_err();
    assert_eq!(err, DomainError::PersistenceError);
}

fn usage_deltas(units: u64) -> Vec<AccountDelta> {
    vec![
        AccountDelta {
            account: 1,
            debit: Some(units),
            credit: None,
        },
        AccountDelta {
            account: 2,
            debit: None,
            credit: Some(units),
        },
    ]
}

fn payment_deltas(units: u64) -> Vec<AccountDelta> {
    vec![
        AccountDelta {
            account: 2,
            debit: Some(units),
            credit: None,
        },
        AccountDelta {
            account: 3,
            debit: None,
            credit: Some(units),
        },
    ]
}

#[test]
fn balance_is_additive_and_order_independent() {
    // the same two balanced transactions, inserted in either order, give
    // every account the sum of its contributions
    let mut ab = FabricState::ephemeral();
    ab.insert_namespace("ns1").unwrap();
    ab.insert_accounting(7, b"e1", b"c", "ns1", None, usage_deltas(500))
        .unwrap();
    ab.insert_accounting(7, b"e2", b"c", "ns1", None, payment_deltas(400))
        .unwrap();

    let mut ba = FabricState::ephemeral();
    ba.insert_namespace("ns1").unwrap();
    ba.insert_accounting(7, b"e2", b"c", "ns1", None, payment_deltas(400))
        .unwrap();
    ba.insert_accounting(7, b"e1", b"c", "ns1", None, usage_deltas(500))
        .unwrap();

    let mut sorted_ab = ab.read_balance("ns1").unwrap();
    let mut sorted_ba = ba.read_balance("ns1").unwrap();
    sorted_ab.sort();
    sorted_ba.sort();
    assert_eq!(sorted_ab, sorted_ba);
    assert_eq!(sorted_ab, vec![(1, 500, 0), (2, 400, 500), (3, 0, 400)]);
}

#[test]
fn balance_accounts_come_in_first_appearance_order() {
    let mut db = FabricState::ephemeral();
    db.insert_namespace("ns1").unwrap();
    db.insert_accounting(1, b"e1", b"c", "ns1", None, payment_deltas(50))
        .unwrap();
    db.insert_accounting(1, b"e2", b"c", "ns1", None, usage_deltas(10))
        .unwrap();

    let balance = db.read_balance("ns1").unwrap();
    // account 2 appears first in the ledger, then 3, then 1
    assert_eq!(balance, vec![(2, 50, 10), (3, 0, 50), (1, 10, 0)]);
}

#[test]
fn balance_is_scoped_to_the_namespace() {
    let mut db = FabricState::ephemeral();
    db.insert_namespace("ns1").unwrap();
    db.insert_namespace("ns2").unwrap();
    db.insert_accounting(1, b"e1", b"c", "ns1", None, usage_deltas(100))
        .unwrap();

    assert_eq!(db.read_balance("ns2").unwrap(), Vec::new());
    assert_eq!(db.read_balance("ns1").unwrap(), vec![(1, 100, 0), (2, 0, 100)]);
}

#[test]
fn list_resources_projects_in_insertion_order() {
    let mut db = FabricState::ephemeral();
    db.insert_namespace("ns1").unwrap();
    db.insert_resource("ns1", "pod", b"u1", "first", b"m1").unwrap();
    db.insert_resource("ns1", "svc", b"u2", "second", b"m2").unwrap();
    db.insert_resource("ns2", "pod", b"u3", "other", b"m3").unwrap();

    let rows = db.list_resources("ns1").unwrap();
    assert_eq!(rows.len(), 2);
    assert_eq!(rows[0].name, "first");
    assert_eq!(rows[0].uuid, b"u1");
    assert_eq!(rows[0].kind, "pod");
    assert_eq!(rows[1].name, "second");
    assert_eq!(rows[1].uuid, b"u2");
    assert_eq!(rows[1].kind, "svc");
}
