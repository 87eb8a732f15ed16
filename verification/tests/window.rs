use market_maker::utils::window::RecentWindow;

fn contents(window: &RecentWindow<u32>) -> Vec<u32> {
    window.items().iter().copied().collect()
}

#[test]
fn window_keeps_the_latest_items_in_order() {
    let mut window = RecentWindow::new(3);
    assert!(window.is_empty());
    assert_eq!(window.capacity(), 3);
    for x in 1..=5 {
        window.push(x);
    }
    assert_eq!(contents(&window), vec![3, 4, 5]);
    assert_eq!(window.len(), 3);
    assert_eq!(*window.get(0), 3);
    assert_eq!(window.back(), Some(&5));
}

#[test]
fn window_below_capacity_keeps_everything() {
    let mut window = RecentWindow::new(10);
    window.push(7);
    window.push(8);
    assert_eq!(contents(&window), vec![7, 8]);
}

#[test]
fn zero_capacity_window_stays_empty() {
    let mut window: RecentWindow<u32> = RecentWindow::new(0);
    window.push(1);
    assert!(window.is_empty());
    assert_eq!(window.back(), None);
}

#[test]
fn set_replaces_one_item() {
    let mut window = RecentWindow::new(4);
    for x in [10, 20, 30] {
        window.push(x);
    }
    window.set(1, 99);
    assert_eq!(contents(&window), vec![10, 99, 30]);
    window.push(40);
    window.push(50);
    assert_eq!(contents(&window), vec![99, 30, 40, 50]);
}
