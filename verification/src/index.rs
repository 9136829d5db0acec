use vstd::prelude::*;
use crate::date::Date;

verus! {

broadcast use vstd::seq_lib::group_to_multiset_ensures;

/// One day's recorded activity: a calendar date and its non-negative count.
#[derive(Clone, Copy, PartialEq, Eq, Structural)]
pub struct DayCount {
    pub date: Date,
    pub count: u32,
}

/// The date-to-count mapping a sequence of entries denotes: every entry
/// inserts its date, and a later entry for the same date silently
/// overwrites an earlier one (last-write-wins).
pub open spec fn index_map_of(s: Seq<DayCount>) -> Map<int, nat>
    decreases s.len(),
{
    if s.len() == 0 {
        Map::empty()
    } else {
        index_map_of(s.drop_last()).insert(s.last().date@, s.last().count as nat)
    }
}

/// The count recorded for day `d`, where absence means zero activity.
pub open spec fn count_of(m: Map<int, nat>, d: int) -> nat {
    if m.dom().contains(d) {
        m[d]
    } else {
        0
    }
}

/// No two entries name the same calendar date.
pub open spec fn distinct_dates(s: Seq<DayCount>) -> bool {
    forall|i: int, j: int| 0 <= i < j < s.len() ==> s[i].date@ != s[j].date@
}

/// A lookup keyed by calendar date, built once per run from a finite list
/// of `DayCount`. A date that never appeared in the input yields 0, never
/// an error.
pub struct ContributionIndex {
    entries: Vec<DayCount>,
}

impl View for ContributionIndex {
    type V = Map<int, nat>;

    closed spec fn view(&self) -> Map<int, nat> {
        index_map_of(self.entries@)
    }
}

proof fn lemma_index_map_take_step(s: Seq<DayCount>, k: int)
    requires
        1 <= k <= s.len(),
    ensures
        index_map_of(s.take(k)) == index_map_of(s.take(k - 1)).insert(
            s[k - 1].date@,
            s[k - 1].count as nat,
        ),
{
    assert(s.take(k).drop_last() =~= s.take(k - 1));
    assert(s.take(k).last() == s[k - 1]);
}

/// Every key of the denoted map is the date of some entry.
proof fn lemma_index_map_dom(s: Seq<DayCount>)
    ensures
        forall|d: int|
            index_map_of(s).dom().contains(d) ==> exists|i: int|
                0 <= i < s.len() && s[i].date@ == d,
    decreases s.len(),
{
    if s.len() > 0 {
        lemma_index_map_dom(s.drop_last());
        assert forall|d: int| index_map_of(s).dom().contains(d) implies exists|i: int|
            0 <= i < s.len() && s[i].date@ == d by {
            if d == s.last().date@ {
                assert(s[s.len() - 1].date@ == d);
            } else {
                assert(index_map_of(s.drop_last()).dom().contains(d));
                let i = choose|i: int| 0 <= i < s.drop_last().len() && s.drop_last()[i].date@ == d;
                assert(s[i].date@ == d);
            }
        }
    }
}

/// With distinct dates, each entry's date is a key and carries that
/// entry's count.
proof fn lemma_index_map_entry(s: Seq<DayCount>, i: int)
    requires
        distinct_dates(s),
        0 <= i < s.len(),
    ensures
        index_map_of(s).dom().contains(s[i].date@),
        index_map_of(s)[s[i].date@] == s[i].count as nat,
    decreases s.len(),
{
    if i == s.len() - 1 {
        assert(s.last() == s[i]);
    } else {
        assert(distinct_dates(s.drop_last()));
        assert(s.drop_last()[i] == s[i]);
        lemma_index_map_entry(s.drop_last(), i);
        assert(s[i].date@ != s.last().date@);
    }
}

proof fn lemma_dup_entry_count(s: Seq<DayCount>, i: int, j: int)
    requires
        0 <= i < j < s.len(),
        s[i] == s[j],
    ensures
        s.to_multiset().count(s[i]) >= 2,
{
    assert(s.remove(i).to_multiset() =~= s.to_multiset().remove(s[i]));
    assert(s.remove(i)[j - 1] == s[j]);
    assert(s.remove(i).contains(s[j]));
    assert(s.remove(i).to_multiset().count(s[i]) > 0);
}

proof fn lemma_count_ge_2_dup_date(s: Seq<DayCount>, e: DayCount)
    requires
        s.to_multiset().count(e) >= 2,
    ensures
        !distinct_dates(s),
{
    assert(s.to_multiset().count(e) > 0);
    assert(s.contains(e));
    let i = choose|i: int| 0 <= i < s.len() && s[i] == e;
    assert(s.remove(i).to_multiset() =~= s.to_multiset().remove(e));
    assert(s.remove(i).to_multiset().count(e) >= 1);
    assert(s.remove(i).contains(e));
    let k = choose|k: int| 0 <= k < s.remove(i).len() && s.remove(i)[k] == e;
    if k < i {
        assert(s.remove(i)[k] == s[k]);
        assert(s[k].date@ == s[i].date@);
    } else {
        assert(s.remove(i)[k] == s[k + 1]);
        assert(s[i].date@ == s[k + 1].date@);
    }
}

/// LAW (order-independence): reordering the input `DayCount` list does not
/// change the index it denotes, provided no date occurs twice — the
/// last-write-wins rule for literal duplicate dates is the only
/// order-dependent behaviour. Every derived metric of this library is a
/// function of this map alone, so no computed metric changes either.
pub proof fn lemma_build_order_independent(s1: Seq<DayCount>, s2: Seq<DayCount>)
    requires
        s1.to_multiset() == s2.to_multiset(),
        distinct_dates(s1),
    ensures
        index_map_of(s1) == index_map_of(s2),
{
    assert forall|i: int, j: int| 0 <= i < j < s2.len() implies s2[i].date@ != s2[j].date@ by {
        if s2[i].date@ == s2[j].date@ {
            if s2[i] == s2[j] {
                lemma_dup_entry_count(s2, i, j);
                lemma_count_ge_2_dup_date(s1, s2[i]);
            } else {
                assert(s2.contains(s2[i]));
                assert(s2.contains(s2[j]));
                assert(s2.to_multiset().count(s2[i]) > 0);
                assert(s2.to_multiset().count(s2[j]) > 0);
                assert(s1.to_multiset().count(s2[i]) > 0);
                assert(s1.to_multiset().count(s2[j]) > 0);
                assert(s1.contains(s2[i]));
                assert(s1.contains(s2[j]));
                let a = choose|a: int| 0 <= a < s1.len() && s1[a] == s2[i];
                let b = choose|b: int| 0 <= b < s1.len() && s1[b] == s2[j];
                assert(a != b);
                assert(s1[a].date@ == s1[b].date@);
            }
        }
    }
    lemma_index_map_dom(s1);
    lemma_index_map_dom(s2);
    assert forall|d: int|
        index_map_of(s1).dom().contains(d) == index_map_of(s2).dom().contains(d) by {
        if index_map_of(s1).dom().contains(d) {
            let i = choose|i: int| 0 <= i < s1.len() && s1[i].date@ == d;
            assert(s1.contains(s1[i]));
            assert(s1.to_multiset().count(s1[i]) > 0);
            assert(s2.to_multiset().count(s1[i]) > 0);
            assert(s2.contains(s1[i]));
            let j = choose|j: int| 0 <= j < s2.len() && s2[j] == s1[i];
            lemma_index_map_entry(s2, j);
        }
        if index_map_of(s2).dom().contains(d) {
            let j = choose|j: int| 0 <= j < s2.len() && s2[j].date@ == d;
            assert(s2.contains(s2[j]));
            assert(s2.to_multiset().count(s2[j]) > 0);
            assert(s1.to_multiset().count(s2[j]) > 0);
            assert(s1.contains(s2[j]));
            let i = choose|i: int| 0 <= i < s1.len() && s1[i] == s2[j];
            lemma_index_map_entry(s1, i);
        }
    }
    assert(index_map_of(s1).dom() =~= index_map_of(s2).dom());
    assert forall|d: int| index_map_of(s1).dom().contains(d) implies index_map_of(s1)[d]
        == index_map_of(s2)[d] by {
        let i = choose|i: int| 0 <= i < s1.len() && s1[i].date@ == d;
        lemma_index_map_entry(s1, i);
        assert(s1.contains(s1[i]));
        assert(s1.to_multiset().count(s1[i]) > 0);
        assert(s2.to_multiset().count(s1[i]) > 0);
        assert(s2.contains(s1[i]));
        let j = choose|j: int| 0 <= j < s2.len() && s2[j] == s1[i];
        lemma_index_map_entry(s2, j);
    }
    assert(index_map_of(s1) =~= index_map_of(s2));
}

impl ContributionIndex {
    /// Normalizes raw entries into the index. If the same date appears
    /// twice, the later entry in input order overwrites the earlier one.
    pub fn build(entries: Vec<DayCount>) -> (r: ContributionIndex)
        ensures
            r@ == index_map_of(entries@),
    {
        ContributionIndex { entries }
    }

    /// The stored count for `d`, or 0 if the date is absent; never fails.
    pub fn lookup(&self, d: Date) -> (c: u32)
        ensures
            c as nat == count_of(self@, d@),
    {
        let dn = d.day_number();
        let n = self.entries.len();
        let mut i: usize = n;
        proof {
            assert(self.entries@.take(n as int) =~= self.entries@);
        }
        while i > 0
            invariant
                i <= self.entries@.len(),
                dn as int == d@,
                count_of(index_map_of(self.entries@), d@) == count_of(
                    index_map_of(self.entries@.take(i as int)),
                    d@,
                ),
            decreases i,
        {
            i = i - 1;
            let e = self.entries[i];
            proof {
                lemma_index_map_take_step(self.entries@, i as int + 1);
            }
            if e.date.day_number() == dn {
                return e.count;
            }
        }
        proof {
            assert(self.entries@.take(0) =~= Seq::<DayCount>::empty());
        }
        0
    }

    /// No negative integer is a key of the index: dates are day numbers.
    pub proof fn lemma_dates_nonneg(&self)
        ensures
            forall|d: int| d < 0 ==> count_of(self@, d) == 0,
    {
        Self::lemma_keys_nonneg(self.entries@);
    }

    proof fn lemma_keys_nonneg(s: Seq<DayCount>)
        ensures
            forall|d: int| index_map_of(s).dom().contains(d) ==> 0 <= d,
        decreases s.len(),
    {
        if s.len() > 0 {
            Self::lemma_keys_nonneg(s.drop_last());
            crate::date::lemma_date_view_nonneg(s.last().date);
            assert forall|d: int| index_map_of(s).dom().contains(d) implies 0 <= d by {
                if d != s.last().date@ {
                    assert(index_map_of(s.drop_last()).dom().contains(d));
                }
            }
        }
    }

    /// Every date with a positive count, each possibly more than once, and
    /// nothing else: the raw material for the longest-streak scan.
    pub fn positive_dates(&self) -> (r: Vec<Date>)
        ensures
            forall|k: int| 0 <= k < r@.len() ==> count_of(self@, #[trigger] r@[k]@) > 0,
            forall|d: int| count_of(self@, d) > 0 ==> exists|k: int|
                0 <= k < r@.len() && r@[k]@ == d,
    {
        let mut r: Vec<Date> = Vec::new();
        let n = self.entries.len();
        let mut i: usize = 0;
        while i < n
            invariant
                n == self.entries@.len(),
                i <= n,
                forall|k: int| 0 <= k < r@.len() ==> count_of(self@, #[trigger] r@[k]@) > 0,
                forall|j: int|
                    0 <= j < i && count_of(self@, #[trigger] self.entries@[j].date@) > 0
                        ==> exists|k: int| 0 <= k < r@.len() && r@[k]@ == self.entries@[j].date@,
            decreases n - i,
        {
            let e = self.entries[i];
            let c = self.lookup(e.date);
            let ghost r0 = r@;
            if c > 0 {
                r.push(e.date);
            }
            proof {
                if c > 0 {
                    assert(r@ == r0.push(e.date));
                    assert forall|k: int| 0 <= k < r@.len() implies count_of(
                        self@,
                        #[trigger] r@[k]@,
                    ) > 0 by {
                        if k < r0.len() {
                            assert(r@[k] == r0[k]);
                        } else {
                            assert(r@[k] == e.date);
                        }
                    }
                    assert forall|j: int|
                        0 <= j < i + 1 && count_of(self@, #[trigger] self.entries@[j].date@)
                            > 0 implies exists|k: int|
                        0 <= k < r@.len() && r@[k]@ == self.entries@[j].date@ by {
                        if j < i {
                            let k = choose|k: int|
                                0 <= k < r0.len() && r0[k]@ == self.entries@[j].date@;
                            assert(r@[k] == r0[k]);
                            assert(r@[k]@ == self.entries@[j].date@);
                        } else {
                            assert(r@[r@.len() - 1]@ == e.date@);
                        }
                    }
                } else {
                    assert(count_of(self@, self.entries@[i as int].date@) == 0);
                }
            }
            i = i + 1;
        }
        proof {
            lemma_index_map_dom(self.entries@);
            assert forall|d: int| count_of(self@, d) > 0 implies exists|k: int|
                0 <= k < r@.len() && r@[k]@ == d by {
                assert(self@.dom().contains(d));
                let j = choose|j: int| 0 <= j < self.entries@.len() && self.entries@[j].date@ == d;
                assert(count_of(self@, self.entries@[j].date@) > 0);
            }
        }
        r
    }
}

} // verus!
