//! Buffer health with the content's cost in hundredths of a minute.

use cazzmachine_lib::buffer::{approximate_cost_hundredths, compute_buffer_health};
use cazzmachine_lib::crawler::needs_refill;

#[test]
fn test_zero_pending_empty() {
    let health = compute_buffer_health(0, 0, 1, 5);
    assert_eq!(health, "empty");
}

#[test]
fn test_one_thread_level_one_healthy() {
    // 5 items * 0.5 min = 2.5 min > 1 min demand
    let health = compute_buffer_health(5, 250, 1, 1);
    assert_eq!(health, "healthy");
}

#[test]
fn test_eight_threads_level_nine_critical() {
    // demand = 5 * 8 = 40 minutes; 5 min < 10 min (25% of 40)
    let health = compute_buffer_health(10, 500, 8, 9);
    assert_eq!(health, "critical");
}

#[test]
fn test_same_pending_different_health() {
    let health_low = compute_buffer_health(20, 1000, 1, 1);
    let health_high = compute_buffer_health(20, 1000, 8, 9);
    assert_eq!(health_low, "healthy");
    assert_eq!(health_high, "low");
}

#[test]
fn test_one_thread_level_five_moderate() {
    let health = compute_buffer_health(5, 250, 1, 5);
    assert_eq!(health, "moderate");
}

#[test]
fn test_four_threads_level_five_low() {
    let health = compute_buffer_health(10, 500, 4, 5);
    assert_eq!(health, "low");
}

#[test]
fn test_boundary_25_percent_critical() {
    let health = compute_buffer_health(2, 99, 4, 1);
    assert_eq!(health, "critical");
}

#[test]
fn test_boundary_50_percent_low() {
    let health = compute_buffer_health(4, 199, 4, 1);
    assert_eq!(health, "low");
}

#[test]
fn test_boundary_100_percent_healthy() {
    let health = compute_buffer_health(8, 400, 4, 1);
    assert_eq!(health, "healthy");
}

#[test]
fn test_empty_cost_at_level_one_returns_critical() {
    let health = compute_buffer_health(10, 0, 1, 1);
    assert_eq!(health, "critical");
}

#[test]
fn test_eight_threads_level_one_low() {
    let health = compute_buffer_health(6, 300, 8, 1);
    assert_eq!(health, "low");
}

#[test]
fn test_one_thread_level_nine_moderate() {
    let health = compute_buffer_health(8, 400, 1, 9);
    assert_eq!(health, "moderate");
}

#[test]
fn exact_thresholds_belong_to_the_better_label() {
    // demand 4 minutes: a quarter is 1, a half is 2
    assert_eq!(compute_buffer_health(1, 100, 4, 1), "low");
    assert_eq!(compute_buffer_health(1, 200, 4, 1), "moderate");
    assert_eq!(compute_buffer_health(1, 399, 4, 1), "moderate");
}

#[test]
fn pending_items_cost_half_a_minute_each() {
    assert_eq!(approximate_cost_hundredths(0), 0);
    assert_eq!(approximate_cost_hundredths(7), 350);
    // 10 items at level 9 with 8 threads: critical, so a refill is due
    let health = compute_buffer_health(10, approximate_cost_hundredths(10), 8, 9);
    assert!(needs_refill(health, 9));
    let health = compute_buffer_health(10, approximate_cost_hundredths(10), 1, 1);
    assert!(!needs_refill(health, 1));
}
