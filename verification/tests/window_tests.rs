use lib::{PickupNote, PreparationWindow};
use std::time::Duration;

#[test]
fn test_preparation_window_creation() {
    let pw = PreparationWindow::new(Duration::from_secs(30));
    assert_eq!(pw.total_time(), Duration::from_secs(30));
    assert_eq!(pw.used_time(), Duration::ZERO);
    assert_eq!(pw.remaining(), Duration::from_secs(30));
    assert!(!pw.is_active());
}

#[test]
fn test_preparation_window_open_close() {
    let mut pw = PreparationWindow::new(Duration::from_secs(30));
    pw.open();
    assert!(pw.is_active());
    pw.close();
    assert!(!pw.is_active());
}

#[test]
fn test_preparation_window_urgent() {
    let mut pw = PreparationWindow::new(Duration::from_secs(10));
    assert!(!pw.is_urgent());
    pw.use_time(Duration::from_secs(8));
    assert!(pw.is_urgent());
}

#[test]
fn test_preparation_window_pickups() {
    let mut pw = PreparationWindow::new(Duration::from_secs(30));
    pw.add_pickup(PickupNote::new("p1", "First pickup"));
    pw.add_pickup(PickupNote::new("p2", "Second pickup"));
    assert_eq!(pw.pickup_count(), 2);
    assert_eq!(pw.pending_pickups().len(), 2);
    assert_eq!(pw.completed_pickups().len(), 0);
}

#[test]
fn test_preparation_window_sufficient_time() {
    let mut pw = PreparationWindow::new(Duration::from_secs(10));
    pw.add_pickup(PickupNote::new("p1", "Quick").with_duration(Duration::from_secs(2)));
    pw.add_pickup(PickupNote::new("p2", "Also quick").with_duration(Duration::from_secs(3)));
    assert!(pw.has_sufficient_time());

    pw.use_time(Duration::from_secs(8));
    assert!(!pw.has_sufficient_time());
}

#[test]
fn test_preparation_window_essential_complete() {
    let mut pw = PreparationWindow::new(Duration::from_secs(30));
    let mut essential = PickupNote::new("e1", "Must do").with_criticality(9);
    essential.complete();
    pw.add_pickup(essential);
    pw.add_pickup(PickupNote::new("o1", "Optional").with_criticality(2));
    assert!(pw.essential_pickups_complete());
}

#[test]
fn remaining_takes_off_used_time() {
    let mut pw = PreparationWindow::new(Duration::from_secs(10));
    pw.use_time(Duration::from_millis(2500));
    assert_eq!(pw.remaining(), Duration::from_millis(7500));
    assert_eq!(pw.used_time(), Duration::from_millis(2500));
    pw.use_time(Duration::from_secs(20));
    assert_eq!(pw.remaining(), Duration::ZERO);
    assert_eq!(pw.used_time(), Duration::from_millis(22500));
}

#[test]
fn urgent_means_less_than_a_quarter_left() {
    let mut pw = PreparationWindow::new(Duration::from_secs(4));
    pw.use_time(Duration::from_secs(3));
    // exactly a quarter left: not urgent
    assert!(!pw.is_urgent());
    pw.use_time(Duration::from_nanos(1));
    assert!(pw.is_urgent());
}

#[test]
fn zero_window_is_urgent() {
    let pw = PreparationWindow::new(Duration::ZERO);
    assert!(pw.is_urgent());
    assert_eq!(pw.remaining(), Duration::ZERO);
    assert!(pw.has_sufficient_time());
}

#[test]
fn try_use_time_refuses_overflow() {
    let mut pw = PreparationWindow::new(Duration::from_secs(10));
    assert!(pw.try_use_time(Duration::from_secs(1)));
    assert_eq!(pw.used_time(), Duration::from_secs(1));
    assert!(!pw.try_use_time(Duration::MAX));
    assert_eq!(pw.used_time(), Duration::from_secs(1));
}

#[test]
fn only_pending_pickups_need_time() {
    let mut pw = PreparationWindow::new(Duration::from_secs(5));
    let mut done = PickupNote::new("d", "done").with_duration(Duration::from_secs(4));
    done.complete();
    pw.add_pickup(done);
    pw.add_pickup(PickupNote::new("p", "pending").with_duration(Duration::from_secs(5)));
    assert!(pw.has_sufficient_time());
    pw.use_time(Duration::from_nanos(1));
    assert!(!pw.has_sufficient_time());
}

#[test]
fn pickups_are_sorted_by_status() {
    let mut pw = PreparationWindow::new(Duration::from_secs(5));
    let mut a = PickupNote::new("a", "a");
    a.complete();
    let mut b = PickupNote::new("b", "b");
    b.fail("bad");
    let mut c = PickupNote::new("c", "c");
    c.start();
    pw.add_pickup(a);
    pw.add_pickup(b);
    pw.add_pickup(c);
    pw.add_pickup(PickupNote::new("d", "d"));
    assert_eq!(pw.pickups().len(), 4);
    assert_eq!(pw.pickups()[2].id(), "c");
    let pending = pw.pending_pickups();
    assert_eq!(pending.len(), 1);
    assert_eq!(pending[0].id(), "d");
    let completed = pw.completed_pickups();
    assert_eq!(completed.len(), 1);
    assert_eq!(completed[0].id(), "a");
    let failed = pw.failed_pickups();
    assert_eq!(failed.len(), 1);
    assert_eq!(failed[0].id(), "b");
}

#[test]
fn essential_pickup_not_done_blocks() {
    let mut pw = PreparationWindow::new(Duration::from_secs(5));
    assert!(pw.essential_pickups_complete());
    pw.add_pickup(PickupNote::new("e", "e").with_criticality(8));
    assert!(!pw.essential_pickups_complete());
}

#[test]
fn remaining_wall_after_open() {
    let mut pw = PreparationWindow::new(Duration::from_secs(30));
    assert!(pw.remaining_wall().is_none());
    pw.open();
    let left = pw.remaining_wall().unwrap();
    assert!(left <= Duration::from_secs(30));
}

#[test]
fn active_follows_last_open_or_close() {
    let mut pw = PreparationWindow::new(Duration::from_secs(3));
    assert!(!pw.is_active());
    pw.open();
    pw.add_pickup(PickupNote::new("a", "a"));
    pw.use_time(Duration::from_secs(1));
    assert!(pw.is_active());
    pw.close();
    pw.use_time(Duration::from_secs(1));
    assert!(!pw.is_active());
    pw.open();
    assert!(pw.is_active());
}

#[test]
fn used_time_is_the_sum_of_uses() {
    let mut pw = PreparationWindow::new(Duration::from_secs(10));
    pw.use_time(Duration::from_secs(1));
    pw.open();
    pw.use_time(Duration::from_millis(500));
    pw.close();
    pw.use_time(Duration::from_secs(2));
    assert_eq!(pw.used_time(), Duration::from_millis(3500));
    assert_eq!(pw.remaining(), Duration::from_millis(6500));
    assert_eq!(pw.total_time(), Duration::from_secs(10));
}

#[test]
fn can_use_time_tells_overflow() {
    let mut pw = PreparationWindow::new(Duration::from_secs(10));
    assert!(pw.can_use_time(Duration::MAX));
    pw.use_time(Duration::from_nanos(1));
    assert!(!pw.can_use_time(Duration::MAX));
    assert!(pw.can_use_time(Duration::from_secs(5)));
}

#[test]
fn nanoseconds_of_a_duration() {
    assert_eq!(lib::clock::duration_as_nanos(Duration::from_millis(1500)), 1_500_000_000);
    assert_eq!(lib::clock::duration_as_nanos(Duration::MAX), lib::MAX_DURATION_NANOS);
}
