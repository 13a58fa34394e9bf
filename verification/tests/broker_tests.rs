use cindy::broker::{CindyBroker, DEFAULT_RETENTION_DAYS};

fn key(s: &str) -> String {
    String::from(s)
}

#[test]
fn subscribe_then_publish_observes_value() {
    let mut broker: CindyBroker<u64> = CindyBroker::new();
    let mut sub = broker.subscribe_to_on_day(key("puzzle-1"), 0);
    broker.publish_to_on_day(&key("puzzle-1"), 7, 0);
    assert_eq!(broker.poll_next(&mut sub), Some(&Some(7)));
    assert_eq!(broker.poll_next(&mut sub), None);
}

#[test]
fn fresh_subscription_observes_sentinel_before_any_publish() {
    let mut broker: CindyBroker<u64> = CindyBroker::new();
    let mut sub = broker.subscribe_to_on_day(key("quiet"), 0);
    assert_eq!(broker.poll_next(&mut sub), Some(&None));
    assert_eq!(broker.poll_next(&mut sub), None);
}

#[test]
fn late_subscription_observes_last_value_first() {
    let mut broker: CindyBroker<String> = CindyBroker::new();
    let _early = broker.subscribe_to_on_day(key("topic"), 0);
    broker.publish_to_on_day(&key("topic"), String::from("first"), 0);
    broker.publish_to_on_day(&key("topic"), String::from("second"), 0);
    let mut late = broker.subscribe_to_on_day(key("topic"), 0);
    assert_eq!(broker.poll_next(&mut late), Some(&Some(String::from("second"))));
    assert_eq!(broker.poll_next(&mut late), None);
}

#[test]
fn intermediate_values_coalesce_for_lagging_readers() {
    let mut broker: CindyBroker<u64> = CindyBroker::new();
    let mut sub = broker.subscribe_to_on_day(key("t"), 0);
    broker.publish_to_on_day(&key("t"), 1, 0);
    broker.publish_to_on_day(&key("t"), 2, 0);
    broker.publish_to_on_day(&key("t"), 3, 0);
    assert_eq!(broker.poll_next(&mut sub), Some(&Some(3)));
    assert_eq!(broker.poll_next(&mut sub), None);
}

#[test]
fn publish_without_subscribers_creates_no_slot() {
    let mut broker: CindyBroker<u64> = CindyBroker::new();
    broker.publish_to_on_day(&key("nobody"), 42, 0);
    assert!(!broker.has_slot(&key("nobody")));
    broker.publish(9);
    assert!(!broker.has_slot(&key("")));
}

#[test]
fn publish_to_all_matching_nothing_mutates_nothing() {
    let mut broker: CindyBroker<u64> = CindyBroker::new();
    let mut sub = broker.subscribe_to_on_day(key("alpha"), 0);
    broker.publish_to_all_on_day(|_k: &String| false, 5, 0);
    assert!(broker.has_slot(&key("alpha")));
    assert!(!broker.has_slot(&key("beta")));
    // the pending observation is still the untouched sentinel
    assert_eq!(broker.poll_next(&mut sub), Some(&None));
}

#[test]
fn publish_to_all_delivers_to_matching_keys_only() {
    let mut broker: CindyBroker<u64> = CindyBroker::new();
    let mut a = broker.subscribe_to_on_day(key("match-a"), 0);
    let mut b = broker.subscribe_to_on_day(key("other-b"), 0);
    broker.publish_to_all_on_day(|k: &String| k.starts_with("match"), 11, 0);
    assert_eq!(broker.poll_next(&mut a), Some(&Some(11)));
    assert_eq!(broker.poll_next(&mut b), Some(&None));
}

#[test]
fn default_retention_is_three_days() {
    let broker: CindyBroker<u64> = CindyBroker::new();
    assert_eq!(DEFAULT_RETENTION_DAYS, 3);
    assert_eq!(broker.retention(), 3);
}

#[test]
fn cleanup_removes_only_slots_past_the_window() {
    let mut broker: CindyBroker<u64> = CindyBroker::with_retention_days(3);
    let _sub = broker.subscribe_to_on_day(key("stale"), 0);
    broker.cleanup_on_day(2);
    assert!(broker.has_slot(&key("stale")));
    broker.cleanup_on_day(3);
    assert!(broker.has_slot(&key("stale")));
    broker.cleanup_on_day(4);
    assert!(!broker.has_slot(&key("stale")));
}

#[test]
fn any_access_resets_staleness() {
    let mut broker: CindyBroker<u64> = CindyBroker::with_retention_days(3);
    let _sub = broker.subscribe_to_on_day(key("kept"), 0);
    broker.publish_to_on_day(&key("kept"), 1, 3);
    broker.cleanup_on_day(6);
    assert!(broker.has_slot(&key("kept")));
    broker.cleanup_on_day(7);
    assert!(!broker.has_slot(&key("kept")));
}

#[test]
fn sweeping_an_absent_key_is_a_noop() {
    let mut broker: CindyBroker<u64> = CindyBroker::new();
    broker.cleanup_on_day(100);
    assert!(!broker.has_slot(&key("anything")));
}

#[test]
fn removed_slot_degrades_readers_gracefully() {
    let mut broker: CindyBroker<u64> = CindyBroker::with_retention_days(3);
    let mut old_sub = broker.subscribe_to_on_day(key("gone"), 0);
    broker.cleanup_on_day(10);
    assert!(!broker.subscription_live(&old_sub));
    assert_eq!(broker.poll_next(&mut old_sub), None);
    // a later subscription makes a fresh slot; the old reader stays detached
    let mut new_sub = broker.subscribe_to_on_day(key("gone"), 10);
    broker.publish_to_on_day(&key("gone"), 77, 10);
    assert_eq!(broker.poll_next(&mut old_sub), None);
    assert!(!broker.subscription_live(&old_sub));
    assert!(broker.subscription_live(&new_sub));
    assert_eq!(broker.poll_next(&mut new_sub), Some(&Some(77)));
}

#[test]
fn two_subscriptions_observe_identical_sequences() {
    let mut broker: CindyBroker<u64> = CindyBroker::new();
    let mut one = broker.subscribe_to_on_day(key("fan"), 0);
    let mut two = broker.subscribe_to_on_day(key("fan"), 0);
    let published = [10u64, 20, 30, 40];
    let mut seen_one = Vec::new();
    let mut seen_two = Vec::new();
    for v in published {
        broker.publish_to_on_day(&key("fan"), v, 0);
        seen_one.push(broker.poll_next(&mut one).cloned().unwrap());
        seen_two.push(broker.poll_next(&mut two).cloned().unwrap());
    }
    assert_eq!(seen_one, seen_two);
    let expected: Vec<Option<u64>> = published.iter().map(|v| Some(*v)).collect();
    assert_eq!(seen_one, expected);
}

#[test]
fn subscriptions_keep_their_key() {
    let mut broker: CindyBroker<u64> = CindyBroker::new();
    let sub = broker.subscribe_to_on_day(key("named"), 0);
    assert_eq!(sub.key().as_str(), "named");
    let global = broker.subscribe();
    assert_eq!(global.key().as_str(), "");
}

#[test]
fn clock_backed_publish_and_subscribe_work_together() {
    let mut broker: CindyBroker<u64> = CindyBroker::new();
    let mut sub = broker.subscribe_to(key("live"));
    broker.publish_to(key("live"), 123);
    assert_eq!(broker.poll_next(&mut sub), Some(&Some(123)));
    let mut global = broker.subscribe();
    broker.publish(9);
    assert_eq!(broker.poll_next(&mut global), Some(&Some(9)));
    broker.cleanup();
    // both slots were touched today, so the sweep keeps them
    assert!(broker.has_slot(&key("live")));
    assert!(broker.has_slot(&key("")));
}

#[test]
fn wake_channel_signals_publishes_and_slot_removal() {
    let mut broker: CindyBroker<u64> = CindyBroker::with_retention_days(1);
    let sub = broker.subscribe_to_on_day(key("waked"), 0);
    let mut rx = sub.wake_handle().clone();
    assert_eq!(rx.has_changed().unwrap(), false);
    broker.publish_to_on_day(&key("waked"), 5, 0);
    assert_eq!(rx.has_changed().unwrap(), true);
    rx.borrow_and_update();
    broker.cleanup_on_day(5);
    // the slot and its sending end are gone: the channel reports closure
    assert!(rx.has_changed().is_err());
}

#[test]
fn publish_headroom_holds_on_fresh_and_used_brokers() {
    let mut broker: CindyBroker<u64> = CindyBroker::new();
    assert!(broker.has_publish_headroom());
    let _sub = broker.subscribe_to_on_day(key("hr"), 0);
    broker.publish_to_on_day(&key("hr"), 1, 0);
    assert!(broker.has_publish_headroom());
    assert_eq!(broker.publish_count(&key("hr")), Some(1));
}
