use dmtrd::domain::Config;
use dmtrd::domain::CreateResourceCmd;
use dmtrd::domain::Credential;
use dmtrd::domain::Domain;
use dmtrd::domain::DomainError;
use dmtrd::domain::ListResourcesQuery;
use dmtrd::domain::ReadBalanceQuery;
use dmtrd::domain::RegisterApiKeyCmd;
use dmtrd::event_dispatch::EventDispatch;
use dmtrd::event_dispatch::RecvOutcome;
use dmtrd::event_dispatch::Subscription;
use dmtrd::events::Event;
use dmtrd::events::NamespaceMintedV1;
use dmtrd::events::ResourceUsageV1;
use dmtrd::events::UsagePaymentV1;
use dmtrd::fabric_state::FabricState;

fn new_domain() -> Domain {
    Domain {
        config: Config {
            cluster: b"123".to_vec(),
        },
        event_dispatch: EventDispatch::ephemeral(100),
        fabric_state: FabricState::ephemeral(),
    }
}

/// Apply every fact queued behind the subscription onto the store.
fn pump(domain: &mut Domain, subscription: &mut Subscription) {
    loop {
        match subscription.recv(&domain.event_dispatch) {
            RecvOutcome::Event(wrapper) => domain.handle(wrapper.0).unwrap(),
            RecvOutcome::Lagged(_) => panic!("projection fell behind"),
            RecvOutcome::Empty => break,
        }
    }
}

#[test]
fn happy_path() {
    let mut domain = new_domain();
    let mut subscription = domain.event_dispatch.subscribe();

    // extrinsic event
    domain
        .event_dispatch
        .submit_event(Event::NamespaceMintedV1(NamespaceMintedV1 {
            name: "ns1".into(),
            root_public_key: b"123".to_vec(),
        }))
        .unwrap();
    pump(&mut domain, &mut subscription);

    domain
        .register_apikey(RegisterApiKeyCmd {
            auth: Credential::OwnerSignatureV1("123".into(), 1234),
            namespace: "ns1".into(),
            secret: b"mybadpassword".to_vec(),
        })
        .unwrap();
    pump(&mut domain, &mut subscription);

    let res_ack = domain
        .create_resource(CreateResourceCmd {
            auth: Credential::ApiKeyV1(b"mybadpassword".to_vec()),
            namespace: "ns1".into(),
            name: "res1".into(),
            kind: "workers.demeter.run/v1alpha1".into(),
            manifest: b"abc".to_vec(),
        })
        .unwrap();
    assert_eq!(res_ack.resource_uuid.len(), 16);
    assert!(!res_ack.event_receipt.is_empty());
    pump(&mut domain, &mut subscription);

    // the created resource is retrievable through a list query
    let items = domain
        .list_resources(ListResourcesQuery {
            auth: Credential::ApiKeyV1(b"mybadpassword".to_vec()),
            resource_name: "".into(),
            namespace_name: "ns1".into(),
        })
        .unwrap();
    assert_eq!(items.len(), 1);
    assert_eq!(items[0].metadata.namespace, "ns1");
    assert_eq!(items[0].metadata.name, "res1");
    assert_eq!(items[0].metadata.kind, "workers.demeter.run/v1alpha1");
    assert_eq!(items[0].metadata.uuid, res_ack.resource_uuid);

    // extrinsic events
    domain
        .event_dispatch
        .submit_event(Event::ResourceUsageV1(ResourceUsageV1 {
            entry: b"1".to_vec(),
            epoch: 123,
            namespace: "ns1".into(),
            resource: res_ack.resource_uuid.clone(),
            cluster: b"cluster1".to_vec(),
            units: 500,
        }))
        .unwrap();
    domain
        .event_dispatch
        .submit_event(Event::UsagePaymentV1(UsagePaymentV1 {
            entry: b"1".to_vec(),
            epoch: 123,
            namespace: "ns1".into(),
            cluster: b"cluster1".to_vec(),
            units: 400,
        }))
        .unwrap();
    pump(&mut domain, &mut subscription);

    let balance = domain
        .read_balance(ReadBalanceQuery {
            auth: Credential::ApiKeyV1(b"mybadpassword".to_vec()),
            namespace_name: "ns1".into(),
        })
        .unwrap();
    assert_eq!(balance.accounts, vec![(1, 500, 0), (2, 400, 500), (3, 0, 400)]);
}

#[test]
fn minting_twice_fails_the_second_time() {
    let mut domain = new_domain();
    let mut subscription = domain.event_dispatch.subscribe();

    domain
        .mint_namespace("ns1".into(), b"123".to_vec())
        .unwrap();
    pump(&mut domain, &mut subscription);

    let err = domain
        .mint_namespace("ns1".into(), b"123".to_vec())
        .unwrap_err();
    assert_eq!(err, DomainError::NamespaceAlreadyExists);
}

#[test]
fn duplicate_fact_delivery_is_refused() {
    let mut domain = new_domain();

    let minted = |name: &str| {
        Event::NamespaceMintedV1(NamespaceMintedV1 {
            name: name.into(),
            root_public_key: b"123".to_vec(),
        })
    };

    domain.handle(minted("ns1")).unwrap();
    let err = domain.handle(minted("ns1")).unwrap_err();
    assert_eq!(err, DomainError::NamespaceAlreadyExists);
}

#[test]
fn api_key_check_fails_closed_without_keys() {
    let mut domain = new_domain();
    let mut subscription = domain.event_dispatch.subscribe();

    domain
        .mint_namespace("ns1".into(), b"123".to_vec())
        .unwrap();
    pump(&mut domain, &mut subscription);

    // no API key was ever registered: any presented key is refused
    let err = domain
        .create_resource(CreateResourceCmd {
            auth: Credential::ApiKeyV1(b"anything".to_vec()),
            namespace: "ns1".into(),
            name: "res1".into(),
            kind: "pod".into(),
            manifest: b"".to_vec(),
        })
        .unwrap_err();
    assert_eq!(err, DomainError::InvalidApiKey);
}

#[test]
fn wrong_password_is_an_invalid_credential() {
    let mut domain = new_domain();
    let mut subscription = domain.event_dispatch.subscribe();

    domain
        .mint_namespace("ns1".into(), b"123".to_vec())
        .unwrap();
    pump(&mut domain, &mut subscription);
    domain
        .register_apikey(RegisterApiKeyCmd {
            auth: Credential::OwnerSignatureV1("123".into(), 1234),
            namespace: "ns1".into(),
            secret: b"mybadpassword".to_vec(),
        })
        .unwrap();
    pump(&mut domain, &mut subscription);

    let err = domain
        .create_resource(CreateResourceCmd {
            auth: Credential::ApiKeyV1(b"wrong-password".to_vec()),
            namespace: "ns1".into(),
            name: "res1".into(),
            kind: "pod".into(),
            manifest: b"".to_vec(),
        })
        .unwrap_err();
    assert_eq!(err, DomainError::InvalidApiKey);
}

#[test]
fn commands_demand_an_existing_namespace() {
    let mut domain = new_domain();

    let err = domain
        .register_apikey(RegisterApiKeyCmd {
            auth: Credential::OwnerSignatureV1("123".into(), 1234),
            namespace: "missing".into(),
            secret: b"pw".to_vec(),
        })
        .unwrap_err();
    assert_eq!(err, DomainError::NamespaceNotFound);

    let err = domain
        .create_resource(CreateResourceCmd {
            auth: Credential::OwnerSignatureV1("123".into(), 1234),
            namespace: "missing".into(),
            name: "res1".into(),
            kind: "pod".into(),
            manifest: b"".to_vec(),
        })
        .unwrap_err();
    assert_eq!(err, DomainError::NamespaceNotFound);

    let err = domain
        .read_balance(ReadBalanceQuery {
            auth: Credential::OwnerSignatureV1("123".into(), 1234),
            namespace_name: "missing".into(),
        })
        .unwrap_err();
    assert_eq!(err, DomainError::NamespaceNotFound);

    let err = domain
        .list_resources(ListResourcesQuery {
            auth: Credential::OwnerSignatureV1("123".into(), 1234),
            resource_name: "".into(),
            namespace_name: "missing".into(),
        })
        .unwrap_err();
    assert_eq!(err, DomainError::NamespaceNotFound);
}
