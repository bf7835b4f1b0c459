use dmtrd::event_dispatch::EventDispatch;
use dmtrd::event_dispatch::RecvOutcome;
use dmtrd::events::Event;
use dmtrd::events::NamespaceMintedV1;

fn minted(name: &str) -> Event {
    Event::NamespaceMintedV1(NamespaceMintedV1 {
        name: name.into(),
        root_public_key: b"k".to_vec(),
    })
}

fn minted_name(event: &Event) -> &str {
    match event {
        Event::NamespaceMintedV1(e) => e.name.as_str(),
        _ => panic!("expected a namespace fact"),
    }
}

#[test]
fn subscriber_never_observes_earlier_facts() {
    let mut bus = EventDispatch::ephemeral(100);

    bus.submit_event(minted("before")).unwrap();

    // subscribing after the fact: it is not replayed
    let mut subscription = bus.subscribe();
    assert!(matches!(
        subscription.recv(&bus),
        RecvOutcome::Empty
    ));

    bus.submit_event(minted("after")).unwrap();
    match subscription.recv(&bus) {
        RecvOutcome::Event(wrapper) => assert_eq!(minted_name(&wrapper.0), "after"),
        other => panic!("expected the later fact, got {:?}", other),
    }
    assert!(matches!(subscription.recv(&bus), RecvOutcome::Empty));
}

#[test]
fn facts_arrive_in_submission_order() {
    let mut bus = EventDispatch::ephemeral(100);
    let mut subscription = bus.subscribe();

    bus.submit_event(minted("first")).unwrap();
    bus.submit_event(minted("second")).unwrap();

    match subscription.recv(&bus) {
        RecvOutcome::Event(wrapper) => assert_eq!(minted_name(&wrapper.0), "first"),
        other => panic!("expected a fact, got {:?}", other),
    }
    match subscription.recv(&bus) {
        RecvOutcome::Event(wrapper) => assert_eq!(minted_name(&wrapper.0), "second"),
        other => panic!("expected a fact, got {:?}", other),
    }
}

#[test]
fn receipts_are_minted_fresh_per_fact() {
    let mut bus = EventDispatch::ephemeral(100);

    let first = bus.submit_event(minted("a")).unwrap();
    let second = bus.submit_event(minted("b")).unwrap();
    assert_eq!(first.len(), 16);
    assert_eq!(second.len(), 16);
    assert_ne!(first, second);
}

#[test]
fn receipt_travels_with_the_fact() {
    let mut bus = EventDispatch::ephemeral(100);
    let mut subscription = bus.subscribe();

    let receipt = bus.submit_event(minted("a")).unwrap();
    match subscription.recv(&bus) {
        RecvOutcome::Event(wrapper) => assert_eq!(wrapper.1, receipt),
        other => panic!("expected a fact, got {:?}", other),
    }
}

#[test]
fn lagging_subscriber_is_told_how_much_it_lost() {
    let mut bus = EventDispatch::ephemeral(1);
    let mut subscription = bus.subscribe();

    bus.submit_event(minted("a")).unwrap();
    bus.submit_event(minted("b")).unwrap();
    bus.submit_event(minted("c")).unwrap();

    // only the newest fact is retained; the two older ones are reported lost
    match subscription.recv(&bus) {
        RecvOutcome::Lagged(n) => assert_eq!(n, 2),
        other => panic!("expected lag, got {:?}", other),
    }
    match subscription.recv(&bus) {
        RecvOutcome::Event(wrapper) => assert_eq!(minted_name(&wrapper.0), "c"),
        other => panic!("expected the retained fact, got {:?}", other),
    }
    assert!(matches!(subscription.recv(&bus), RecvOutcome::Empty));
}
