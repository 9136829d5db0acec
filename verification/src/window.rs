use vstd::prelude::*;
use crate::date::Date;
use crate::index::ContributionIndex;
use crate::index::count_of;

verus! {

/// How many of the `k` days ending at (and including) day `today` have a
/// positive count.
pub open spec fn window_active(m: Map<int, nat>, today: int, k: nat) -> nat
    decreases k,
{
    if k == 0 {
        0
    } else {
        window_active(m, today - 1, (k - 1) as nat) + if count_of(m, today) > 0 {
            1nat
        } else {
            0nat
        }
    }
}

/// The sum of the counts of the `k` days ending at day `today`. Clamping
/// is a rendering decision only: this total is exact.
pub open spec fn window_total(m: Map<int, nat>, today: int, k: nat) -> nat
    decreases k,
{
    if k == 0 {
        0
    } else {
        window_total(m, today - 1, (k - 1) as nat) + count_of(m, today)
    }
}

/// The rendered height of one bar: the count clamped at 5 (to bound the
/// bar visually), scaled by 6 and lifted by a base offset of 4.
pub open spec fn bar_height(c: nat) -> nat {
    (if c < 5 {
        c
    } else {
        5nat
    }) * 6 + 4
}

/// Trailing 30-day window ending at (and including) `today`: the number of
/// active days, the exact (unclamped) total of the counts, and the 30 bar
/// heights, oldest day first.
pub fn window_metrics(index: &ContributionIndex, today: Date) -> (r: (u32, u64, Vec<u32>))
    ensures
        r.0 as nat == window_active(index@, today@, 30),
        r.1 as nat == window_total(index@, today@, 30),
        r.2@.len() == 30,
        forall|j: int|
            0 <= j < 30 ==> r.2@[j] as nat == bar_height(count_of(index@, today@ - 29 + j)),
{
    let dn = today.day_number();
    let mut active: u32 = 0;
    let mut total: u64 = 0;
    let mut heights: Vec<u32> = Vec::new();
    let mut j: usize = 0;
    proof {
        index.lemma_dates_nonneg();
    }
    while j < 30
        invariant
            j <= 30,
            dn as int == today@,
            forall|d: int| d < 0 ==> count_of(index@, d) == 0,
            active as nat == window_active(index@, today@ - 30 + j, j as nat),
            total as nat == window_total(index@, today@ - 30 + j, j as nat),
            active <= j,
            total as int <= j * 0xffff_ffff,
            heights@.len() == j,
            forall|jj: int|
                0 <= jj < j ==> heights@[jj] as nat == bar_height(
                    count_of(index@, today@ - 29 + jj),
                ),
        decreases 30 - j,
    {
        let off: u32 = 29 - (j as u32);
        let c: u32 = if dn >= off {
            index.lookup(Date::from_day_number(dn - off))
        } else {
            0
        };
        proof {
            if dn < off {
                assert(today@ - 29 + j < 0);
                assert(count_of(index@, today@ - 29 + j) == 0);
            }
            assert(c as nat == count_of(index@, today@ - 29 + j));
        }
        if c > 0 {
            active = active + 1;
            total = total + c as u64;
        }
        let clamped: u32 = if c < 5 {
            c
        } else {
            5
        };
        heights.push(clamped * 6 + 4);
        j = j + 1;
    }
    (active, total, heights)
}

/// The 30 bar heights the window ending at day `today` renders, oldest
/// day first.
pub open spec fn heights_of(m: Map<int, nat>, today: int) -> Seq<u32> {
    Seq::new(30, |j: int| bar_height(count_of(m, today - 29 + j)) as u32)
}

/// LAW: over any window, at most `k` of its `k` days are active; the
/// window total is at least the number of active days, since each active
/// day contributes at least 1; and the two are equal when every day's
/// count is at most 1.
pub proof fn lemma_window_bounds(m: Map<int, nat>, today: int, k: nat)
    ensures
        window_active(m, today, k) <= k,
        window_active(m, today, k) <= window_total(m, today, k),
        (forall|d: int| count_of(m, d) <= 1) ==> window_active(m, today, k) == window_total(
            m,
            today,
            k,
        ),
    decreases k,
{
    if k > 0 {
        lemma_window_bounds(m, today - 1, (k - 1) as nat);
    }
}

} // verus!
