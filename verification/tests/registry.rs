use wasmadeus::signal::registry::Delivery;
use wasmadeus::signal::registry::Registry;
use wasmadeus::signal::registry::State;
use wasmadeus::signal::registry::Step;
use wasmadeus::signal::registry::SubscriberId;

fn ids(registry: &Registry<&'static str>) -> Vec<(usize, bool, Option<&'static str>)> {
    let mut out = Vec::new();
    let mut i = 0;
    while let Some(e) = registry.entry(i) {
        out.push((e.id().0, e.active(), e.notify().copied()));
        i += 1;
    }
    out
}

fn three() -> Registry<&'static str> {
    let mut r = Registry::new();
    for name in ["a", "b", "c"] {
        let id = r.next_id();
        assert!(matches!(r.push_subscriber(id, name, false), Delivery::Deferred));
    }
    r
}

#[test]
fn new_registry_is_empty_and_at_rest() {
    let r: Registry<&'static str> = Registry::new();
    assert_eq!(r.len(), 0);
    assert_eq!(r.state(), State::Idling);
    assert!(!r.needs_retain());
    assert!(r.entry(0).is_none());
    let d: Registry<&'static str> = Registry::default();
    assert_eq!(d.len(), 0);
}

#[test]
fn identifiers_count_up() {
    let mut r: Registry<&'static str> = Registry::new();
    assert_eq!(r.next_id(), SubscriberId(0));
    assert_eq!(r.next_id(), SubscriberId(1));
    assert_eq!(r.try_next_id(), Some(SubscriberId(2)));
    assert_eq!(r.next_id(), SubscriberId(3));
}

#[test]
fn push_appends_in_order() {
    let r = three();
    assert_eq!(
        ids(&r),
        vec![(0, true, Some("a")), (1, true, Some("b")), (2, true, Some("c"))]
    );
    assert_eq!(r.len(), 3);
}

#[test]
fn push_keeps_order_when_identifiers_arrive_late() {
    let mut r: Registry<&'static str> = Registry::new();
    let first = r.next_id();
    let second = r.next_id();
    assert!(matches!(r.push_subscriber(second, "second", false), Delivery::Deferred));
    assert!(matches!(r.push_subscriber(first, "first", false), Delivery::Deferred));
    assert_eq!(ids(&r), vec![(0, true, Some("first")), (1, true, Some("second"))]);
}

#[test]
fn push_rejects_unknown_and_used_identifiers() {
    let mut r = three();
    assert!(matches!(
        r.push_subscriber(SubscriberId(7), "x", false),
        Delivery::Rejected("x")
    ));
    assert!(matches!(
        r.push_subscriber(SubscriberId(1), "y", true),
        Delivery::Rejected("y")
    ));
    assert_eq!(r.len(), 3);
    assert_eq!(r.state(), State::Idling);
}

#[test]
fn push_with_value_at_rest_hands_the_callback_back() {
    let mut r = three();
    let id = r.next_id();
    match r.push_subscriber(id, "d", true) {
        Delivery::Now { notify, outer } => {
            assert_eq!(notify, "d");
            assert!(outer);
        }
        _ => panic!("expected a delivery"),
    }
    assert_eq!(r.state(), State::Subscribing);
    assert_eq!(ids(&r)[3], (3, true, None));
    let nested = r.next_id();
    match r.push_subscriber(nested, "e", true) {
        Delivery::Now { notify, outer } => {
            assert_eq!(notify, "e");
            assert!(!outer);
        }
        _ => panic!("expected a delivery"),
    }
    assert_eq!(r.restore(nested, "e"), None);
    assert_eq!(r.restore(id, "d"), None);
    assert!(r.finish().is_empty());
    assert_eq!(r.state(), State::Idling);
    assert_eq!(ids(&r)[3], (3, true, Some("d")));
    assert_eq!(ids(&r)[4], (4, true, Some("e")));
}

#[test]
fn push_during_pass_is_deferred() {
    let mut r = three();
    assert!(r.begin_notify());
    let id = r.next_id();
    assert!(matches!(r.push_subscriber(id, "d", true), Delivery::Deferred));
    assert_eq!(r.state(), State::Notifying);
    assert_eq!(ids(&r)[3], (3, true, Some("d")));
    match r.step(3) {
        Step::Call { id, notify } => {
            assert_eq!(id, SubscriberId(3));
            assert_eq!(notify, "d");
        }
        _ => panic!("expected a call"),
    }
    assert!(matches!(r.step(3), Step::Skip));
    assert!(matches!(r.step(4), Step::Done));
}

#[test]
fn find_and_rank_bisect() {
    let mut r = three();
    let _ = r.unsubscribe(SubscriberId(1));
    assert_eq!(r.find(SubscriberId(0)), Some(0));
    assert_eq!(r.find(SubscriberId(1)), None);
    assert_eq!(r.find(SubscriberId(2)), Some(1));
    assert_eq!(r.find(SubscriberId(9)), None);
    assert_eq!(r.rank(SubscriberId(0)), 0);
    assert_eq!(r.rank(SubscriberId(1)), 1);
    assert_eq!(r.rank(SubscriberId(2)), 1);
    assert_eq!(r.rank(SubscriberId(3)), 2);
}

#[test]
fn unsubscribe_at_rest_removes_at_once() {
    let mut r = three();
    let removed = r.unsubscribe(SubscriberId(1)).unwrap();
    assert_eq!(removed.id(), SubscriberId(1));
    assert_eq!(removed.notify(), Some(&"b"));
    assert_eq!(ids(&r), vec![(0, true, Some("a")), (2, true, Some("c"))]);
    assert!(r.unsubscribe(SubscriberId(1)).is_none());
    assert!(r.unsubscribe(SubscriberId(9)).is_none());
    assert_eq!(r.len(), 2);
    assert!(!r.needs_retain());
}

#[test]
fn unsubscribe_during_pass_is_lazy() {
    let mut r = three();
    assert!(r.begin_notify());
    assert!(!r.begin_notify());
    assert!(r.unsubscribe(SubscriberId(1)).is_none());
    assert!(r.needs_retain());
    assert_eq!(
        ids(&r),
        vec![(0, true, Some("a")), (1, false, Some("b")), (2, true, Some("c"))]
    );
    assert!(matches!(r.step(0), Step::Call { notify: "a", .. }));
    assert_eq!(r.restore(SubscriberId(0), "a"), None);
    assert!(matches!(r.step(1), Step::Skip));
    assert!(matches!(r.step(2), Step::Call { notify: "c", .. }));
    assert_eq!(r.restore(SubscriberId(2), "c"), None);
    assert!(matches!(r.step(3), Step::Done));
    let retired = r.finish();
    assert_eq!(retired.len(), 1);
    assert_eq!(retired[0].id(), SubscriberId(1));
    assert!(!retired[0].active());
    assert_eq!(r.state(), State::Idling);
    assert!(!r.needs_retain());
    assert_eq!(ids(&r), vec![(0, true, Some("a")), (2, true, Some("c"))]);
}

#[test]
fn retain_keeps_order_of_both_parts() {
    let mut r: Registry<&'static str> = Registry::new();
    for name in ["a", "b", "c", "d", "e"] {
        let id = r.next_id();
        let _ = r.push_subscriber(id, name, false);
    }
    assert!(r.retain().is_empty());
    assert!(r.begin_notify());
    for id in [3, 0, 4] {
        let _ = r.unsubscribe(SubscriberId(id));
    }
    let retired = r.retain();
    let gone: Vec<usize> = retired.iter().map(|e| e.id().0).collect();
    assert_eq!(gone, vec![0, 3, 4]);
    assert_eq!(ids(&r), vec![(1, true, Some("b")), (2, true, Some("c"))]);
    assert!(!r.needs_retain());
    assert_eq!(r.state(), State::Notifying);
}

#[test]
fn restore_hands_back_what_it_cannot_place() {
    let mut r = three();
    assert_eq!(r.restore(SubscriberId(1), "again"), Some("again"));
    assert_eq!(r.restore(SubscriberId(9), "nobody"), Some("nobody"));
    assert!(r.begin_notify());
    assert!(matches!(r.step(1), Step::Call { notify: "b", .. }));
    assert_eq!(r.restore(SubscriberId(1), "b2"), None);
    assert_eq!(ids(&r)[1], (1, true, Some("b2")));
}

#[test]
fn claim_id_counts_up() {
    let mut r: Registry<&'static str> = Registry::new();
    assert_eq!(r.claim_id(), SubscriberId(0));
    assert_eq!(r.claim_id(), SubscriberId(1));
    assert_eq!(r.next_id(), SubscriberId(2));
}

#[test]
fn settle_puts_back_and_closes_outer_deliveries_only() {
    let mut r = three();
    let id = r.next_id();
    assert!(matches!(r.push_subscriber(id, "d", true), Delivery::Now { outer: true, .. }));
    let _ = r.unsubscribe(SubscriberId(1));
    let (left, retired) = r.settle(id, "d", false);
    assert_eq!(left, None);
    assert!(retired.is_empty());
    assert_eq!(r.state(), State::Subscribing);
    assert_eq!(r.len(), 4);
    let (left, retired) = r.settle(id, "again", true);
    assert_eq!(left, Some("again"));
    assert_eq!(retired.len(), 1);
    assert_eq!(retired[0].id(), SubscriberId(1));
    assert_eq!(r.state(), State::Idling);
    assert_eq!(
        ids(&r),
        vec![(0, true, Some("a")), (2, true, Some("c")), (3, true, Some("d"))]
    );
}
