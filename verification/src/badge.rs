use vstd::prelude::*;
use crate::date::Date;
use crate::index::ContributionIndex;
use crate::index::DayCount;
use crate::index::count_of;
use crate::index::index_map_of;
use crate::render::Metrics;
use crate::render::ProfileSummary;
use crate::render::badge_svg;
use crate::render::render;
use crate::streak::current_streak;
use crate::streak::is_longest_streak;
use crate::streak::longest_of;
use crate::streak::longest_streak;
use crate::streak::streak_ending;
use crate::window::bar_height;
use crate::window::heights_of;
use crate::window::window_active;
use crate::window::window_metrics;
use crate::window::window_total;

verus! {

/// Derives every metric of the index for the injected "today": current
/// streak, longest streak, and the trailing 30-day window.
pub fn compute_metrics(index: &ContributionIndex, today: Date) -> (m: Metrics)
    ensures
        m.current_streak as nat == streak_ending(index@, today@),
        m.longest_streak as nat == longest_of(index@),
        is_longest_streak(index@, m.longest_streak as nat),
        m.window_active_days as nat == window_active(index@, today@, 30),
        m.window_total as nat == window_total(index@, today@, 30),
        m.bar_heights@ == heights_of(index@, today@),
        m.wf(),
{
    let cur = current_streak(index, today);
    let lon = longest_streak(index);
    let (active, total, heights) = window_metrics(index, today);
    let m = Metrics {
        current_streak: cur,
        longest_streak: lon,
        window_active_days: active,
        window_total: total,
        bar_heights: heights,
    };
    proof {
        assert(m.bar_heights@ =~= heights_of(index@, today@));
        assert forall|j: int| 0 <= j < 30 implies #[trigger] m.bar_heights@[j] <= 34 by {
            assert(m.bar_heights@[j] as nat == bar_height(count_of(index@, today@ - 29 + j)));
        }
    }
    m
}

/// The sum of a sequence of star counts, last repository peeled first.
pub open spec fn sum_of(s: Seq<u32>) -> nat
    decreases s.len(),
{
    if s.len() == 0 {
        0
    } else {
        sum_of(s.drop_last()) + s.last() as nat
    }
}

/// The total star count: the sum of the per-repository star counts.
pub fn sum_stars(stars: &Vec<u32>) -> (r: u64)
    requires
        stars@.len() <= 0xffff_ffff,
    ensures
        r as nat == sum_of(stars@),
{
    let mut acc: u64 = 0;
    let mut i: usize = 0;
    proof {
        assert(stars@.take(0) =~= Seq::<u32>::empty());
    }
    while i < stars.len()
        invariant
            i <= stars@.len(),
            stars@.len() <= 0xffff_ffff,
            acc as nat == sum_of(stars@.take(i as int)),
            acc as int <= i * 0xffff_ffff,
        decreases stars@.len() - i,
    {
        proof {
            assert(stars@.take(i as int + 1).drop_last() =~= stars@.take(i as int));
            assert(stars@.take(i as int + 1).last() == stars@[i as int]);
        }
        acc = acc + stars[i] as u64;
        i = i + 1;
    }
    proof {
        assert(stars@.take(stars@.len() as int) =~= stars@);
    }
    acc
}

/// The full pipeline: normalize the entries into the index, derive the
/// metrics, and render the badge. The result is exactly `badge_svg` of
/// spec-level functions of the inputs, so running the pipeline twice with
/// identical inputs and the identical injected "today" yields
/// byte-identical output.
pub fn compute_badge(entries: Vec<DayCount>, today: Date, profile: &ProfileSummary) -> (svg:
    String)
    ensures
        svg@ == badge_svg(
            streak_ending(index_map_of(entries@), today@),
            longest_of(index_map_of(entries@)),
            window_active(index_map_of(entries@), today@, 30),
            heights_of(index_map_of(entries@), today@),
            profile.repo_count as nat,
            profile.star_count as nat,
            profile.follower_count as nat,
            profile.following_count as nat,
            window_total(index_map_of(entries@), today@, 30),
            profile.total_contributions as nat,
        ),
{
    let index = ContributionIndex::build(entries);
    let m = compute_metrics(&index, today);
    render(&m, profile)
}

} // verus!
