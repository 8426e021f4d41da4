use spaces_desktop::helper;
use spaces_desktop::helpers::height_to_est;
use spaces_desktop::text::decimal_string;
use spaces_desktop::util;

#[test]
fn estimate_is_now_at_the_tip() {
    assert_eq!(height_to_est(100, 100), "now");
    assert_eq!(height_to_est(0, 0), "now");
    assert_eq!(height_to_est(99, 100), "now");
    assert_eq!(height_to_est(0, u32::MAX), "now");
    assert_eq!(height_to_est(u32::MAX, u32::MAX), "now");
}

#[test]
fn estimate_of_the_next_block() {
    assert_eq!(height_to_est(101, 100), "in 10 minutes");
    assert_eq!(height_to_est(1, 0), "in 10 minutes");
    assert_eq!(height_to_est(u32::MAX, u32::MAX - 1), "in 10 minutes");
}

#[test]
fn estimate_in_minutes_up_to_five_blocks() {
    assert_eq!(height_to_est(102, 100), "in 20 minutes");
    assert_eq!(height_to_est(105, 100), "in 50 minutes");
}

#[test]
fn estimate_in_hours_up_to_a_day() {
    assert_eq!(height_to_est(106, 100), "in 1 hours");
    assert_eq!(height_to_est(107, 100), "in 1 hours 10 minutes");
    assert_eq!(height_to_est(111, 100), "in 1 hours 50 minutes");
    assert_eq!(height_to_est(112, 100), "in 2 hours");
    assert_eq!(height_to_est(243, 100), "in 23 hours 50 minutes");
    assert_eq!(height_to_est(244, 100), "in 24 hours");
}

#[test]
fn estimate_in_days_with_hours_left_over() {
    assert_eq!(height_to_est(245, 100), "in 1 days");
    assert_eq!(height_to_est(249, 100), "in 1 days");
    assert_eq!(height_to_est(250, 100), "in 1 days 1 hours");
    assert_eq!(height_to_est(150, 0), "in 1 days 1 hours");
    assert_eq!(height_to_est(287, 0), "in 1 days 23 hours");
    assert_eq!(height_to_est(288, 0), "in 2 days");
    assert_eq!(height_to_est(u32::MAX, 0), "in 29826161 days 18 hours");
}

#[test]
fn the_helper_module_gives_the_same_estimate() {
    assert_eq!(helper::height_to_est(250, 100), height_to_est(250, 100));
    assert_eq!(helper::height_to_est(100, 100), "now");
}

#[test]
fn the_util_module_gives_the_same_estimate() {
    assert_eq!(util::height_to_est(100, 100), "now");
    assert_eq!(util::height_to_est(5, 9), "now");
    assert_eq!(util::height_to_est(103, 100), "in 30 minutes");
    assert_eq!(util::height_to_est(106, 100), "in 1 hours");
    assert_eq!(util::height_to_est(107, 100), "in 1 hours 10 minutes");
    assert_eq!(util::height_to_est(244, 100), "in 24 hours");
    assert_eq!(util::height_to_est(245, 100), "in 1 days");
    assert_eq!(util::height_to_est(250, 100), "in 1 days 1 hours");
    assert_eq!(util::height_to_est(150, 0), "in 1 days 1 hours");
    assert_eq!(util::height_to_est(388, 100), "in 2 days");
    assert_eq!(util::height_to_est(u32::MAX, 0), "in 29826161 days 18 hours");
    for (block, tip) in [(0, 0), (1, 0), (6, 0), (7, 0), (144, 0), (145, 0), (1000, 10)] {
        assert_eq!(util::height_to_est(block, tip), height_to_est(block, tip));
    }
}

#[test]
fn decimal_strings() {
    assert_eq!(decimal_string(0), "0");
    assert_eq!(decimal_string(7), "7");
    assert_eq!(decimal_string(10), "10");
    assert_eq!(decimal_string(1234567890), "1234567890");
    assert_eq!(decimal_string(u64::MAX), "18446744073709551615");
}
