use streak_badge::badge::compute_badge;
use streak_badge::badge::compute_metrics;
use streak_badge::badge::sum_stars;
use streak_badge::date::Date;
use streak_badge::index::ContributionIndex;
use streak_badge::index::DayCount;
use streak_badge::render::ProfileSummary;
use streak_badge::render::render;

fn d(y: u32, m: u32, day: u32) -> Date {
    Date::from_ymd(y, m, day).unwrap()
}

fn dc(y: u32, m: u32, day: u32, count: u32) -> DayCount {
    DayCount { date: d(y, m, day), count }
}

fn sample_profile() -> ProfileSummary {
    ProfileSummary {
        repo_count: 12,
        star_count: 34,
        follower_count: 56,
        following_count: 78,
        total_contributions: 910,
    }
}

fn sample_entries() -> Vec<DayCount> {
    vec![dc(2024, 3, 18, 6), dc(2024, 3, 19, 10), dc(2024, 3, 20, 1)]
}

#[test]
fn badge_interpolates_all_numbers() {
    let svg = compute_badge(sample_entries(), d(2024, 3, 20), &sample_profile());
    assert!(svg.contains(">🔥 3</text>"));
    assert!(svg.contains(">🏆 3</text>"));
    assert!(svg.contains(">📈 3/30</text>"));
    assert!(svg.contains("Repos 12 · Stars 34 · Followers 56 · Following 78 · Commits(30d) 17 · Total 910"));
}

#[test]
fn badge_is_self_contained_svg() {
    let svg = compute_badge(sample_entries(), d(2024, 3, 20), &sample_profile());
    assert!(svg.starts_with("\n<svg width=\"560\" height=\"240\""));
    assert!(svg.ends_with("</svg>\n"));
    assert!(svg.contains("xmlns=\"http://www.w3.org/2000/svg\""));
    // No external resource references: fonts are named, never fetched.
    assert!(!svg.contains("href"));
    assert!(!svg.contains("@import"));
}

#[test]
fn badge_bars_use_clamped_heights() {
    let svg = compute_badge(sample_entries(), d(2024, 3, 20), &sample_profile());
    // Bars 27 and 28 (counts 6 and 10) share the clamped height 34.
    assert!(svg.contains("<rect x=\"186\" y=\"126\" width=\"4\" height=\"34\" rx=\"1\"/>"));
    assert!(svg.contains("<rect x=\"192\" y=\"126\" width=\"4\" height=\"34\" rx=\"1\"/>"));
    // Bar 29 (count 1) has height 10 at baseline 160.
    assert!(svg.contains("<rect x=\"198\" y=\"150\" width=\"4\" height=\"10\" rx=\"1\"/>"));
    // An empty day renders the base offset 4.
    assert!(svg.contains("<rect x=\"24\" y=\"156\" width=\"4\" height=\"4\" rx=\"1\"/>"));
}

#[test]
fn pipeline_is_deterministic() {
    let a = compute_badge(sample_entries(), d(2024, 3, 20), &sample_profile());
    let b = compute_badge(sample_entries(), d(2024, 3, 20), &sample_profile());
    assert_eq!(a, b);
}

#[test]
fn pipeline_is_order_independent() {
    let reordered = vec![dc(2024, 3, 20, 1), dc(2024, 3, 18, 6), dc(2024, 3, 19, 10)];
    let a = compute_badge(sample_entries(), d(2024, 3, 20), &sample_profile());
    let b = compute_badge(reordered, d(2024, 3, 20), &sample_profile());
    assert_eq!(a, b);
}

#[test]
fn empty_index_badge_shows_zeros() {
    let svg = compute_badge(Vec::new(), d(2024, 3, 20), &sample_profile());
    assert!(svg.contains(">🔥 0</text>"));
    assert!(svg.contains(">🏆 0</text>"));
    assert!(svg.contains(">📈 0/30</text>"));
    assert!(svg.contains("Commits(30d) 0 ·"));
}

#[test]
fn metrics_assemble_all_fields() {
    let index = ContributionIndex::build(sample_entries());
    let m = compute_metrics(&index, d(2024, 3, 20));
    assert_eq!(m.current_streak, 3);
    assert_eq!(m.longest_streak, 3);
    assert_eq!(m.window_active_days, 3);
    assert_eq!(m.window_total, 17);
    assert_eq!(m.bar_heights.len(), 30);
    let svg = render(&m, &sample_profile());
    let again = compute_badge(sample_entries(), d(2024, 3, 20), &sample_profile());
    assert_eq!(svg, again);
}

#[test]
fn render_formats_large_numbers_plainly() {
    let index = ContributionIndex::build(Vec::new());
    let mut m = compute_metrics(&index, d(2024, 3, 20));
    m.current_streak = 1234567890123;
    let profile = sample_profile();
    let svg = render(&m, &profile);
    assert!(svg.contains(">🔥 1234567890123</text>"));
}

#[test]
fn sum_stars_adds_per_repo_counts() {
    assert_eq!(sum_stars(&Vec::new()), 0);
    assert_eq!(sum_stars(&vec![1, 2, 3]), 6);
    assert_eq!(sum_stars(&vec![4294967295, 4294967295]), 8589934590);
}
