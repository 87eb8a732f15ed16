use market_maker::utils::history::TrimmedHistory;

#[test]
fn history_drops_oldest_chunk_past_limit() {
    let mut history = TrimmedHistory::new(5, 2);
    for x in 1..=5u32 {
        history.push(x);
    }
    assert_eq!(history.items().clone(), vec![1, 2, 3, 4, 5]);
    history.push(6);
    assert_eq!(history.items().clone(), vec![3, 4, 5, 6]);
    assert_eq!(history.len(), 4);
    history.push(7);
    assert_eq!(history.items().clone(), vec![3, 4, 5, 6, 7]);
}

#[test]
fn history_with_production_limits() {
    let mut history = TrimmedHistory::new(10000, 1000);
    for x in 0..10001u64 {
        history.push(x);
    }
    assert_eq!(history.len(), 9001);
    assert_eq!(history.items()[0], 1000);
    assert_eq!(*history.items().last().unwrap(), 10000);
}

#[test]
fn recent_returns_last_records_in_order() {
    let mut history = TrimmedHistory::new(10, 1);
    assert!(history.is_empty());
    assert!(history.recent(3).is_empty());
    for x in [10i64, 20, 30, 40] {
        history.push(x);
    }
    assert_eq!(history.recent(2), vec![30, 40]);
    assert_eq!(history.recent(4), vec![10, 20, 30, 40]);
    assert_eq!(history.recent(9), vec![10, 20, 30, 40]);
    assert_eq!(history.recent(0), Vec::<i64>::new());
}
