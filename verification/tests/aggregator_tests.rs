use block_mesh_manager::aggregator::{
    save_to_db_enabled, AggregatorAction, AggregatorEvent, SetToAggregator, SetToMessage,
};
use block_mesh_manager::clock::{seconds_between, UtcTime};

fn at(secs: i64, nanos: u32) -> UtcTime {
    UtcTime { secs, nanos }
}

fn message(user_id: u128, name: &str, value: &str) -> AggregatorEvent {
    AggregatorEvent::SetTo(SetToMessage {
        user_id,
        name: name.to_string(),
        value: value.to_string(),
    })
}

#[test]
fn seconds_between_rounds_toward_zero() {
    assert_eq!(seconds_between(at(10, 0), at(12, 999_999_999)), 2);
    assert_eq!(seconds_between(at(10, 500_000_000), at(11, 400_000_000)), 0);
    assert_eq!(seconds_between(at(12, 999_999_999), at(10, 0)), -2);
    assert_eq!(seconds_between(at(11, 0), at(10, 500_000_000)), 0);
    assert_eq!(seconds_between(at(i64::MIN, 0), at(i64::MAX, 0)), u64::MAX as i128);
}

#[test]
fn started_now_reads_the_clock() {
    let agg = SetToAggregator::started_now(3, 7);
    assert!(agg.prev().nanos < 1_000_000_000);
    assert!(agg.prev().secs > 1_600_000_000);
    assert_eq!(agg.count(), 0);
    assert_eq!(agg.agg_size(), 3);
    assert_eq!(agg.time_limit(), 7);
    assert!(agg.pending().is_empty());
}

#[test]
fn batch_is_due_at_the_batch_size() {
    let mut agg = SetToAggregator::new(2, 1000, at(100, 0));
    match agg.step(message(1, "a", "1"), at(101, 0), at(101, 1)) {
        AggregatorAction::Continue => {}
        _ => panic!("no batch after one message"),
    }
    assert_eq!(agg.count(), 1);
    assert_eq!(agg.prev(), at(101, 1));
    match agg.step(message(2, "b", "2"), at(102, 0), at(102, 1)) {
        AggregatorAction::Flush { calls, count } => {
            assert_eq!(count, 2);
            assert_eq!(calls.len(), 2);
            assert_eq!(calls[&1], ("a".to_string(), "1".to_string()));
            assert_eq!(calls[&2], ("b".to_string(), "2".to_string()));
        }
        _ => panic!("a batch after two messages"),
    }
    assert_eq!(agg.count(), 0);
    assert!(agg.pending().is_empty());
}

#[test]
fn latest_value_per_user_wins() {
    let mut agg = SetToAggregator::new(3, 1000, at(0, 0));
    agg.step(message(7, "a", "1"), at(1, 0), at(1, 0));
    agg.step(message(7, "b", "2"), at(2, 0), at(2, 0));
    assert_eq!(agg.pending().len(), 1);
    match agg.step(message(8, "c", "3"), at(3, 0), at(3, 0)) {
        AggregatorAction::Flush { calls, count } => {
            assert_eq!(count, 3);
            assert_eq!(calls.len(), 2);
            assert_eq!(calls[&7], ("b".to_string(), "2".to_string()));
        }
        _ => panic!("a batch after three messages"),
    }
}

#[test]
fn batch_is_due_after_the_time_limit() {
    let mut agg = SetToAggregator::new(100, 5, at(0, 0));
    match agg.step(message(1, "a", "1"), at(5, 999_999_999), at(6, 0)) {
        AggregatorAction::Continue => {}
        _ => panic!("five whole seconds are not more than the limit"),
    }
    match agg.step(message(2, "a", "1"), at(12, 0), at(12, 0)) {
        AggregatorAction::Flush { count, .. } => assert_eq!(count, 2),
        _ => panic!("six seconds are more than the limit"),
    }
}

#[test]
fn every_message_is_a_batch_when_the_size_is_not_positive() {
    let mut agg = SetToAggregator::new(0, 1000, at(0, 0));
    match agg.step(message(1, "a", "1"), at(0, 1), at(0, 2)) {
        AggregatorAction::Flush { count, .. } => assert_eq!(count, 1),
        _ => panic!("batch size zero flushes each message"),
    }
}

#[test]
fn closed_channel_stops_and_keeps_pending_values() {
    let mut agg = SetToAggregator::new(10, 1000, at(0, 0));
    agg.step(message(1, "a", "1"), at(1, 0), at(1, 0));
    match agg.step(AggregatorEvent::Closed, at(2, 0), at(2, 0)) {
        AggregatorAction::Stop => {}
        _ => panic!("closed channel stops"),
    }
    assert_eq!(agg.count(), 1);
    assert_eq!(agg.prev(), at(1, 0));
}

#[test]
fn lagged_and_other_messages_change_nothing() {
    let mut agg = SetToAggregator::new(10, 1000, at(0, 0));
    for event in [AggregatorEvent::Lagged, AggregatorEvent::Other] {
        match agg.step(event, at(50, 0), at(50, 0)) {
            AggregatorAction::Continue => {}
            _ => panic!("nothing to do"),
        }
    }
    assert_eq!(agg.count(), 0);
    assert_eq!(agg.prev(), at(0, 0));
}

#[test]
fn handle_reads_the_clock_for_messages() {
    let mut agg = SetToAggregator::started_now(10, 1_000_000);
    match agg.handle(message(1, "a", "1")) {
        AggregatorAction::Continue => {}
        _ => panic!("one message is no batch"),
    }
    assert_eq!(agg.count(), 1);
    match agg.handle(AggregatorEvent::Closed) {
        AggregatorAction::Stop => {}
        _ => panic!("closed channel stops"),
    }
}

#[test]
fn save_to_db_only_for_exact_true() {
    assert!(save_to_db_enabled(Some("true".to_string())));
    assert!(!save_to_db_enabled(Some("false".to_string())));
    assert!(!save_to_db_enabled(Some("TRUE".to_string())));
    assert!(!save_to_db_enabled(Some(" true".to_string())));
    assert!(!save_to_db_enabled(None));
}

#[test]
fn seven_messages_with_batch_size_three_give_two_batches() {
    let mut agg = SetToAggregator::new(3, 1000, at(0, 0));
    let mut flushed_after = Vec::new();
    for k in 1..=7u128 {
        if let AggregatorAction::Flush { .. } = agg.step(message(k, "a", "1"), at(k as i64, 0), at(k as i64, 0)) {
            flushed_after.push(k);
        }
    }
    assert_eq!(flushed_after, vec![3, 6]);
    assert_eq!(agg.count(), 1);
    assert_eq!(agg.pending().len(), 1);
}

#[test]
fn batch_size_one_flushes_each_message() {
    let mut agg = SetToAggregator::new(1, 1000, at(0, 0));
    for k in 1..=3u128 {
        match agg.step(message(k, "a", "1"), at(1, 0), at(1, 0)) {
            AggregatorAction::Flush { count, calls } => {
                assert_eq!(count, 1);
                assert_eq!(calls.len(), 1);
            }
            _ => panic!("each message is a batch"),
        }
    }
}

#[test]
fn ignored_and_lagged_events_do_not_count_toward_a_batch() {
    let mut agg = SetToAggregator::new(2, 1000, at(0, 0));
    let mut flushes = 0;
    let mut t = 0i64;
    for round in 0..3 {
        for event in [message(round, "a", "1"), AggregatorEvent::Other, AggregatorEvent::Lagged] {
            t += 1;
            if let AggregatorAction::Flush { count, .. } = agg.step(event, at(t, 0), at(t, 0)) {
                assert_eq!(count, 2);
                flushes += 1;
            }
        }
    }
    assert_eq!(flushes, 1);
    assert_eq!(agg.count(), 1);
}
