use vstd::prelude::*;
use crate::date::Date;
use crate::index::ContributionIndex;
use crate::index::count_of;

verus! {

/// The number of consecutive days with a positive count ending at (and
/// including) day `d`, walking backward; 0 when day `d` itself has count 0.
/// Indices are keyed by day numbers, so no day below 0 is ever active.
pub open spec fn streak_ending(m: Map<int, nat>, d: int) -> nat
    decreases d + 1,
{
    if d < 0 || count_of(m, d) == 0 {
        0
    } else {
        1 + streak_ending(m, d - 1)
    }
}

/// `r` bounds the streak ending at every day, and — unless it is 0 — some
/// day attains it: `r` is the length of the longest run of consecutive
/// active dates anywhere in the index.
pub open spec fn is_longest_streak(m: Map<int, nat>, r: nat) -> bool {
    &&& forall|d: int| #[trigger] streak_ending(m, d) <= r
    &&& (r == 0 || exists|d: int| #[trigger] streak_ending(m, d) == r)
}

/// The longest-ever streak length. `is_longest_streak` holds of at most
/// one value, so this `choose` is determined whenever it holds of any.
pub open spec fn longest_of(m: Map<int, nat>) -> nat {
    choose|r: nat| is_longest_streak(m, r)
}

/// At most one value can be the longest streak length.
pub proof fn lemma_longest_unique(m: Map<int, nat>, r1: nat, r2: nat)
    requires
        is_longest_streak(m, r1),
        is_longest_streak(m, r2),
    ensures
        r1 == r2,
{
    if r1 < r2 {
        let d = choose|d: int| #[trigger] streak_ending(m, d) == r2;
        assert(streak_ending(m, d) <= r1);
    }
    if r2 < r1 {
        let d = choose|d: int| #[trigger] streak_ending(m, d) == r1;
        assert(streak_ending(m, d) <= r2);
    }
}

/// Current streak: starting at `today`, steps backward one day at a time,
/// counting days with a positive count, and stops at the first day with
/// count 0. The empty index gives 0, and the walk terminates for any
/// finite index because only finitely many days are recorded.
pub fn current_streak(index: &ContributionIndex, today: Date) -> (r: u64)
    ensures
        r as nat == streak_ending(index@, today@),
{
    let dn = today.day_number();
    let mut n: u64 = 0;
    let mut d: u32 = dn;
    loop
        invariant
            dn as int == today@,
            d <= dn,
            n as int == dn - d,
            streak_ending(index@, today@) == n + streak_ending(index@, d as int),
        decreases d,
    {
        let c = index.lookup(Date::from_day_number(d));
        if c == 0 {
            return n;
        }
        n = n + 1;
        if d == 0 {
            proof {
                assert(streak_ending(index@, -1) == 0);
            }
            return n;
        }
        d = d - 1;
    }
}

/// Longest streak: the maximum, over every date present with a positive
/// count, of the run of consecutive active days ending there. Ties are not
/// distinguished — only the length is reported — and "today" plays no part.
pub fn longest_streak(index: &ContributionIndex) -> (r: u64)
    ensures
        is_longest_streak(index@, r as nat),
        r as nat == longest_of(index@),
{
    let ds = index.positive_dates();
    let mut best: u64 = 0;
    let mut i: usize = 0;
    while i < ds.len()
        invariant
            i <= ds@.len(),
            forall|d: int| count_of(index@, d) > 0 ==> exists|k: int|
                0 <= k < ds@.len() && ds@[k]@ == d,
            forall|k: int| 0 <= k < i ==> #[trigger] streak_ending(index@, ds@[k]@) <= best as nat,
            best == 0 || exists|d: int| #[trigger] streak_ending(index@, d) == best as nat,
        decreases ds@.len() - i,
    {
        let w = current_streak(index, ds[i]);
        if w > best {
            best = w;
        }
        i = i + 1;
    }
    proof {
        assert forall|d: int| #[trigger] streak_ending(index@, d) <= best as nat by {
            if streak_ending(index@, d) > 0 {
                assert(count_of(index@, d) > 0);
                let k = choose|k: int| 0 <= k < ds@.len() && ds@[k]@ == d;
                assert(streak_ending(index@, ds@[k]@) <= best as nat);
            }
        }
        assert(is_longest_streak(index@, best as nat));
        lemma_longest_unique(index@, longest_of(index@), best as nat);
    }
    best
}

/// LAW: when every date has count 0, both the current streak (for any
/// "today") and the longest streak are 0.
pub proof fn lemma_all_zero_no_streaks(m: Map<int, nat>, today: int)
    requires
        forall|d: int| count_of(m, d) == 0,
    ensures
        streak_ending(m, today) == 0,
        is_longest_streak(m, 0),
        longest_of(m) == 0,
{
    assert forall|d: int| #[trigger] streak_ending(m, d) <= 0 by {
        assert(count_of(m, d) == 0);
    }
    assert(is_longest_streak(m, 0));
    lemma_longest_unique(m, longest_of(m), 0);
}

/// LAW: if the `n` consecutive days ending `today` each have a positive
/// count and the day just before that run has count 0 (or is absent), the
/// current streak is exactly `n`. The first premise says that indices are
/// keyed by day numbers, so no negative day is ever active.
pub proof fn lemma_run_gives_current_streak(m: Map<int, nat>, today: int, n: nat)
    requires
        forall|d: int| d < 0 ==> count_of(m, d) == 0,
        forall|d: int| today - n < d <= today ==> count_of(m, d) > 0,
        count_of(m, today - n) == 0,
    ensures
        streak_ending(m, today) == n,
    decreases n,
{
    if n == 0 {
        assert(count_of(m, today) == 0);
    } else {
        assert(count_of(m, today) > 0);
        assert(today >= 0);
        lemma_run_gives_current_streak(m, today - 1, (n - 1) as nat);
    }
}

/// LAW: the longest streak is at least the current streak — the run
/// ending today is one instance of a run.
pub proof fn lemma_longest_ge_current(m: Map<int, nat>, r: nat, today: int)
    requires
        is_longest_streak(m, r),
    ensures
        streak_ending(m, today) <= r,
{
}

} // verus!
