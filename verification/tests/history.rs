//! History window FIFO, capacity and running-maximum behavior.

use nbmon::history::HistoryWindow;

#[test]
fn window_never_exceeds_capacity() {
    let mut window = HistoryWindow::new(3, 100);
    for i in 0..50u64 {
        window.append(i, i * 2);
        assert!(window.download_rates.len() <= 3);
        assert_eq!(window.download_rates.len(), window.upload_rates.len());
    }
}

#[test]
fn window_keeps_last_entries_in_order() {
    let mut window = HistoryWindow::new(3, 100);
    window.append(10, 1);
    window.append(20, 2);
    window.append(30, 3);
    window.append(40, 4);
    assert_eq!(window.download_rates, vec![20, 30, 40]);
    assert_eq!(window.upload_rates, vec![2, 3, 4]);
}

#[test]
fn window_suffix_after_many_appends() {
    let capacity = 5usize;
    let mut window = HistoryWindow::new(capacity, 100);
    for i in 0..37u64 {
        window.append(i, 100 + i);
    }
    assert_eq!(window.download_rates, vec![32, 33, 34, 35, 36]);
    assert_eq!(window.upload_rates, vec![132, 133, 134, 135, 136]);
}

#[test]
fn clear_empties_and_resets_maxima_to_floor() {
    let mut window = HistoryWindow::new(4, 1000);
    window.append(50000, 60000);
    window.append(70000, 80000);
    assert!(window.max_download_rate >= 70000);
    window.clear();
    assert!(window.download_rates.is_empty());
    assert!(window.upload_rates.is_empty());
    assert_eq!(window.max_download_rate, 1000);
    assert_eq!(window.max_upload_rate, 1000);
    assert_eq!(window.capacity, 4);
    window.append(42, 43);
    assert_eq!(window.download_rates, vec![42]);
    assert_eq!(window.upload_rates, vec![43]);
    assert_eq!(window.download_rates.first(), window.download_rates.last());
}

#[test]
fn running_max_applies_headroom_and_never_decays() {
    let mut window = HistoryWindow::new(10, 100);
    window.append(1000, 2000);
    assert_eq!(window.max_download_rate, 1100);
    assert_eq!(window.max_upload_rate, 2200);
    window.append(10, 10);
    assert_eq!(window.max_download_rate, 1100);
    assert_eq!(window.max_upload_rate, 2200);
    window.append(2000, 10);
    assert_eq!(window.max_download_rate, 2200);
}

#[test]
fn running_max_stays_at_floor_for_small_rates() {
    let mut window = HistoryWindow::new(10, 1_000_000);
    window.append(500, 600);
    assert_eq!(window.max_download_rate, 1_000_000);
    assert_eq!(window.max_upload_rate, 1_000_000);
}

#[test]
fn headroom_saturates_near_the_top() {
    let mut window = HistoryWindow::new(2, 0);
    window.append(u64::MAX, 0);
    assert_eq!(window.max_download_rate, u64::MAX);
}
