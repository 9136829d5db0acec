use streak_badge::date::Date;
use streak_badge::index::ContributionIndex;
use streak_badge::index::DayCount;
use streak_badge::streak::current_streak;
use streak_badge::streak::longest_streak;
use streak_badge::window::window_metrics;

fn d(y: u32, m: u32, day: u32) -> Date {
    Date::from_ymd(y, m, day).unwrap()
}

fn dc(y: u32, m: u32, day: u32, count: u32) -> DayCount {
    DayCount { date: d(y, m, day), count }
}

#[test]
fn scenario_zero_today_breaks_current_streak() {
    let index = ContributionIndex::build(vec![
        dc(2024, 1, 1, 3),
        dc(2024, 1, 2, 1),
        dc(2024, 1, 3, 0),
    ]);
    assert_eq!(current_streak(&index, d(2024, 1, 3)), 0);
    assert_eq!(longest_streak(&index), 2);
}

#[test]
fn scenario_single_active_day() {
    let index = ContributionIndex::build(vec![dc(2024, 1, 5, 2)]);
    assert_eq!(current_streak(&index, d(2024, 1, 5)), 1);
    assert_eq!(longest_streak(&index), 1);
}

#[test]
fn scenario_empty_index() {
    let index = ContributionIndex::build(vec![]);
    let today = d(2024, 6, 15);
    assert_eq!(current_streak(&index, today), 0);
    assert_eq!(longest_streak(&index), 0);
    let (active, total, heights) = window_metrics(&index, today);
    assert_eq!(active, 0);
    assert_eq!(total, 0);
    assert_eq!(heights.len(), 30);
    for h in heights {
        assert_eq!(h, 4);
    }
}

#[test]
fn scenario_clamped_bars_exact_total() {
    let today = d(2024, 3, 20);
    let index = ContributionIndex::build(vec![dc(2024, 3, 18, 6), dc(2024, 3, 19, 10)]);
    let (active, total, heights) = window_metrics(&index, today);
    assert_eq!(active, 2);
    assert_eq!(total, 16);
    assert_eq!(heights[27], 34);
    assert_eq!(heights[28], 34);
    assert_eq!(heights[29], 4);
}

#[test]
fn lookup_is_zero_for_absent_dates() {
    let index = ContributionIndex::build(vec![dc(2024, 1, 5, 2)]);
    assert_eq!(index.lookup(d(2024, 1, 5)), 2);
    assert_eq!(index.lookup(d(2024, 1, 4)), 0);
    assert_eq!(index.lookup(d(1999, 12, 31)), 0);
}

#[test]
fn duplicate_date_last_write_wins() {
    let index = ContributionIndex::build(vec![dc(2024, 1, 5, 7), dc(2024, 1, 5, 0)]);
    assert_eq!(index.lookup(d(2024, 1, 5)), 0);
    let index2 = ContributionIndex::build(vec![dc(2024, 1, 5, 0), dc(2024, 1, 5, 7)]);
    assert_eq!(index2.lookup(d(2024, 1, 5)), 7);
}

#[test]
fn reordering_entries_changes_no_metric() {
    let today = d(2024, 2, 10);
    let a = vec![dc(2024, 2, 8, 1), dc(2024, 2, 9, 4), dc(2024, 2, 10, 2), dc(2024, 1, 1, 9)];
    let b = vec![dc(2024, 1, 1, 9), dc(2024, 2, 10, 2), dc(2024, 2, 8, 1), dc(2024, 2, 9, 4)];
    let ia = ContributionIndex::build(a);
    let ib = ContributionIndex::build(b);
    assert_eq!(current_streak(&ia, today), current_streak(&ib, today));
    assert_eq!(longest_streak(&ia), longest_streak(&ib));
    let (act_a, tot_a, h_a) = window_metrics(&ia, today);
    let (act_b, tot_b, h_b) = window_metrics(&ib, today);
    assert_eq!(act_a, act_b);
    assert_eq!(tot_a, tot_b);
    assert_eq!(h_a, h_b);
}

#[test]
fn current_streak_counts_back_from_today() {
    let today = d(2024, 3, 3);
    let index = ContributionIndex::build(vec![
        dc(2024, 2, 28, 5),
        dc(2024, 2, 29, 1),
        dc(2024, 3, 1, 2),
        dc(2024, 3, 2, 1),
        dc(2024, 3, 3, 4),
    ]);
    assert_eq!(current_streak(&index, today), 5);
    assert_eq!(current_streak(&index, d(2024, 3, 2)), 4);
    assert_eq!(current_streak(&index, d(2024, 3, 4)), 0);
}

#[test]
fn run_of_n_days_gives_streak_n() {
    let mut entries = Vec::new();
    for day in 10..=16 {
        entries.push(dc(2024, 5, day, 1));
    }
    let index = ContributionIndex::build(entries);
    assert_eq!(current_streak(&index, d(2024, 5, 16)), 7);
}

#[test]
fn longest_streak_ignores_today_and_gaps() {
    let index = ContributionIndex::build(vec![
        dc(2024, 1, 1, 1),
        dc(2024, 1, 2, 2),
        dc(2024, 1, 3, 3),
        dc(2024, 1, 5, 1),
        dc(2024, 1, 8, 0),
        dc(2024, 2, 1, 4),
    ]);
    assert_eq!(longest_streak(&index), 3);
    assert!(longest_streak(&index) >= current_streak(&index, d(2024, 1, 5)));
}

#[test]
fn longest_streak_spans_zero_gap_reset() {
    let index = ContributionIndex::build(vec![
        dc(2024, 1, 1, 1),
        dc(2024, 1, 2, 1),
        dc(2024, 1, 3, 0),
        dc(2024, 1, 4, 1),
    ]);
    assert_eq!(longest_streak(&index), 2);
}

#[test]
fn window_counts_only_trailing_30_days() {
    let today = d(2024, 6, 30);
    let index = ContributionIndex::build(vec![
        dc(2024, 6, 1, 2),
        dc(2024, 6, 30, 3),
        dc(2024, 5, 31, 9),
    ]);
    let (active, total, heights) = window_metrics(&index, today);
    assert_eq!(active, 2);
    assert_eq!(total, 5);
    assert_eq!(heights[0], 2 * 6 + 4);
    assert_eq!(heights[29], 3 * 6 + 4);
}

#[test]
fn window_active_at_most_total() {
    let today = d(2024, 6, 30);
    let index = ContributionIndex::build(vec![
        dc(2024, 6, 28, 1),
        dc(2024, 6, 29, 1),
        dc(2024, 6, 30, 1),
    ]);
    let (active, total, _) = window_metrics(&index, today);
    assert_eq!(active, 3);
    assert_eq!(total, 3);
}

#[test]
fn window_near_calendar_origin() {
    let today = Date::from_day_number(5);
    let index = ContributionIndex::build(vec![DayCount { date: Date::from_day_number(0), count: 2 }]);
    let (active, total, heights) = window_metrics(&index, today);
    assert_eq!(active, 1);
    assert_eq!(total, 2);
    assert_eq!(heights[24], 2 * 6 + 4);
}
