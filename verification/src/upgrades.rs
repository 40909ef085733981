//! Choosing the lines of a spell upgrade offer from the configured rolls.
//!
//! The applicable rolls are split into upgrades and downsides, each pool is
//! shuffled, a number of upgrades and of downsides is taken, and an offer
//! that contains the removal of downsides is reduced to that line alone.
use vstd::prelude::*;
use crate::spells::{SpellKind, SpellUpgrade, applicable, is_applicable};
use crate::random::random_shuffle;

verus! {

/// A configured roll, as far as the choice of lines reads it.
#[derive(Clone, Copy, Debug, PartialEq, Eq, Structural)]
pub struct RollEntry {
    pub upgrade: SpellUpgrade,
    pub is_downside: bool,
}

/// The positions, in order, of the first `k` entries that apply to a spell
/// of `kind` and are downsides exactly when `downside` holds.
pub open spec fn pool_upto(
    entries: Seq<RollEntry>,
    kind: SpellKind,
    has_downsides: bool,
    downside: bool,
    k: int,
) -> Seq<usize>
    decreases k,
{
    if k <= 0 {
        Seq::empty()
    } else {
        let before = pool_upto(entries, kind, has_downsides, downside, k - 1);
        let e = entries[k - 1];
        if e.is_downside == downside && applicable(e.upgrade, kind, has_downsides) {
            before.push((k - 1) as usize)
        } else {
            before
        }
    }
}

/// The positions of all entries of one pool.
pub open spec fn pool_of(entries: Seq<RollEntry>, kind: SpellKind, has_downsides: bool, downside: bool) -> Seq<usize> {
    pool_upto(entries, kind, has_downsides, downside, entries.len() as int)
}

/// The number of upgrade lines offered: two more with better upgrades, two
/// more when downsides are rolled, and three more with both.
pub open spec fn line_count(rolls_per_upgrade: nat, more_rolls: bool, rolling_downsides: bool) -> nat {
    if more_rolls && rolling_downsides {
        rolls_per_upgrade + 3
    } else if more_rolls || rolling_downsides {
        rolls_per_upgrade + 2
    } else {
        rolls_per_upgrade
    }
}

pub open spec fn min_nat(a: nat, b: nat) -> nat {
    if a < b { a } else { b }
}

/// The lines taken from the two pools, in their order: first the upgrades,
/// then the downsides.
pub open spec fn taken_lines(up: Seq<usize>, down: Seq<usize>, count: nat, downsides: nat) -> Seq<usize> {
    up.take(min_nat(count, up.len()) as int) + down.take(min_nat(downsides, down.len()) as int)
}

/// The position in `lines` of the first line that removes downsides.
pub open spec fn first_removal(entries: Seq<RollEntry>, lines: Seq<usize>) -> Option<int>
    decreases lines.len(),
{
    if lines.len() == 0 {
        None
    } else {
        match first_removal(entries, lines.drop_last()) {
            Some(j) => Some(j),
            None => if entries[lines.last() as int].upgrade == SpellUpgrade::RemoveDownsides {
                Some(lines.len() - 1)
            } else {
                None
            },
        }
    }
}

/// An offer that contains the removal of downsides is that line alone.
pub open spec fn collapse_removal(entries: Seq<RollEntry>, lines: Seq<usize>) -> Seq<usize> {
    match first_removal(entries, lines) {
        Some(j) => seq![lines[j]],
        None => lines,
    }
}

/// No downside is rolled when none applies.
pub open spec fn rolled_downsides(pool_len: nat, rolls: nat) -> nat {
    if pool_len == 0 { 0 } else { rolls }
}

/// The offered lines, given the two pools in their shuffled order.
pub open spec fn offered_lines(
    entries: Seq<RollEntry>,
    up: Seq<usize>,
    down: Seq<usize>,
    rolls_per_upgrade: nat,
    more_rolls: bool,
    downsides: nat,
) -> Seq<usize> {
    collapse_removal(
        entries,
        taken_lines(up, down, line_count(rolls_per_upgrade, more_rolls, downsides > 0), downsides),
    )
}

/// The two pools of an offer: the positions of the applicable upgrades and
/// of the applicable downsides, in entry order.
pub fn upgrade_pools(entries: &Vec<RollEntry>, kind: SpellKind, has_downsides: bool) -> (r: (
    Vec<usize>,
    Vec<usize>,
))
    ensures
        r.0@ == pool_of(entries@, kind, has_downsides, false),
        r.1@ == pool_of(entries@, kind, has_downsides, true),
{
    let mut up: Vec<usize> = Vec::new();
    let mut down: Vec<usize> = Vec::new();
    let mut i: usize = 0;
    while i < entries.len()
        invariant
            i <= entries.len(),
            up@ == pool_upto(entries@, kind, has_downsides, false, i as int),
            down@ == pool_upto(entries@, kind, has_downsides, true, i as int),
        decreases entries.len() - i,
    {
        let e = entries[i];
        if is_applicable(e.upgrade, kind, has_downsides) {
            if e.is_downside {
                down.push(i);
            } else {
                up.push(i);
            }
        }
        i = i + 1;
    }
    (up, down)
}

/// The number of upgrade lines offered.
pub fn upgrade_line_count(rolls_per_upgrade: usize, more_rolls: bool, rolling_downsides: bool) -> (r: usize)
    requires
        rolls_per_upgrade + 3 <= usize::MAX,
    ensures
        r == line_count(rolls_per_upgrade as nat, more_rolls, rolling_downsides),
{
    if more_rolls && rolling_downsides {
        rolls_per_upgrade + 3
    } else if more_rolls || rolling_downsides {
        rolls_per_upgrade + 2
    } else {
        rolls_per_upgrade
    }
}

/// The offered lines, given the two pools in the order in which they are
/// drawn from.
pub fn pick_upgrade_lines(
    entries: &Vec<RollEntry>,
    up: &Vec<usize>,
    down: &Vec<usize>,
    rolls_per_upgrade: usize,
    more_rolls: bool,
    downsides: usize,
) -> (r: Vec<usize>)
    requires
        rolls_per_upgrade + 3 <= usize::MAX,
        forall|j: int| 0 <= j < up.len() ==> #[trigger] up@[j] < entries.len(),
        forall|j: int| 0 <= j < down.len() ==> #[trigger] down@[j] < entries.len(),
    ensures
        r@ == offered_lines(entries@, up@, down@, rolls_per_upgrade as nat, more_rolls, downsides as nat),
{
    let count = upgrade_line_count(rolls_per_upgrade, more_rolls, downsides > 0);
    let n_up = if count < up.len() { count } else { up.len() };
    let n_down = if downsides < down.len() { downsides } else { down.len() };
    let ghost taken = taken_lines(up@, down@, count as nat, downsides as nat);
    let mut lines: Vec<usize> = Vec::new();
    let mut i: usize = 0;
    while i < n_up
        invariant
            n_up <= up.len(),
            i <= n_up,
            lines@ == up@.take(i as int),
        decreases n_up - i,
    {
        lines.push(up[i]);
        proof {
            assert(up@.take(i + 1) =~= up@.take(i as int).push(up@[i as int]));
        }
        i = i + 1;
    }
    let mut k: usize = 0;
    while k < n_down
        invariant
            n_up <= up.len(),
            n_down <= down.len(),
            k <= n_down,
            lines@ == up@.take(n_up as int) + down@.take(k as int),
        decreases n_down - k,
    {
        lines.push(down[k]);
        proof {
            assert(down@.take(k + 1) =~= down@.take(k as int).push(down@[k as int]));
            assert(up@.take(n_up as int) + down@.take(k + 1) =~= (up@.take(n_up as int) + down@.take(
                k as int,
            )).push(down@[k as int]));
        }
        k = k + 1;
    }
    assert(lines@ =~= taken);
    assert(forall|j: int| 0 <= j < lines.len() ==> #[trigger] lines@[j] < entries.len());
    let mut m: usize = 0;
    while m < lines.len()
        invariant
            lines@ == taken,
            taken == taken_lines(
                up@,
                down@,
                line_count(rolls_per_upgrade as nat, more_rolls, downsides > 0),
                downsides as nat,
            ),
            m <= lines.len(),
            forall|j: int| 0 <= j < lines.len() ==> #[trigger] lines@[j] < entries.len(),
            first_removal(entries@, lines@.take(m as int)) is None,
        decreases lines.len() - m,
    {
        proof {
            assert(lines@.take(m + 1).drop_last() =~= lines@.take(m as int));
        }
        if entries[lines[m]].upgrade == SpellUpgrade::RemoveDownsides {
            proof {
                lemma_first_removal_extends(entries@, lines@, m as int);
            }
            let single = vec![lines[m]];
            assert(single@ =~= seq![lines@[m as int]]);
            assert(first_removal(entries@, lines@) == Some(m as int));
            assert(collapse_removal(entries@, lines@) == single@);
            return single;
        }
        m = m + 1;
    }
    proof {
        assert(lines@.take(lines.len() as int) =~= lines@);
    }
    lines
}

proof fn lemma_first_removal_extends(entries: Seq<RollEntry>, lines: Seq<usize>, m: int)
    requires
        0 <= m < lines.len(),
        forall|j: int| 0 <= j < lines.len() ==> #[trigger] lines[j] < entries.len(),
        first_removal(entries, lines.take(m)) is None,
        entries[lines[m] as int].upgrade == SpellUpgrade::RemoveDownsides,
    ensures
        first_removal(entries, lines) == Some(m),
    decreases lines.len(),
{
    if lines.len() == m + 1 {
        assert(lines.drop_last() =~= lines.take(m));
    } else {
        assert(lines.drop_last().take(m) =~= lines.take(m));
        lemma_first_removal_extends(entries, lines.drop_last(), m);
    }
}

/// Chooses the lines of an upgrade offer for a spell of `kind`: the
/// applicable upgrades and downsides are each shuffled, and then as many are
/// taken as `offered_lines` says. `downside_rolls` counts the downsides
/// rolled; with no applicable downside none is rolled.
///
/// The result is a list of positions in `entries`; which shuffle comes out
/// is chance, so the contract states the result for some order of each pool.
pub fn select_upgrade_lines(
    entries: &Vec<RollEntry>,
    kind: SpellKind,
    has_downsides: bool,
    rolls_per_upgrade: usize,
    more_rolls: bool,
    downside_rolls: usize,
) -> (r: Vec<usize>)
    requires
        rolls_per_upgrade + 3 <= usize::MAX,
    ensures
        exists|up: Seq<usize>, down: Seq<usize>|
            {
                &&& up.to_multiset() == pool_of(entries@, kind, has_downsides, false).to_multiset()
                &&& up.len() == pool_of(entries@, kind, has_downsides, false).len()
                &&& down.to_multiset() == pool_of(entries@, kind, has_downsides, true).to_multiset()
                &&& down.len() == pool_of(entries@, kind, has_downsides, true).len()
                &&& r@ == #[trigger] offered_lines(
                    entries@,
                    up,
                    down,
                    rolls_per_upgrade as nat,
                    more_rolls,
                    rolled_downsides(down.len(), downside_rolls as nat),
                )
            },
{
    let (mut up, mut down) = upgrade_pools(entries, kind, has_downsides);
    let downsides = if down.len() == 0 { 0 } else { downside_rolls };
    proof {
        lemma_pool_in_range(entries@, kind, has_downsides, false, entries.len() as int);
        lemma_pool_in_range(entries@, kind, has_downsides, true, entries.len() as int);
    }
    let ghost up0 = up@;
    let ghost down0 = down@;
    random_shuffle(&mut up);
    random_shuffle(&mut down);
    proof {
        lemma_multiset_bound(up0, up@, entries.len());
        lemma_multiset_bound(down0, down@, entries.len());
    }
    let r = pick_upgrade_lines(entries, &up, &down, rolls_per_upgrade, more_rolls, downsides);
    assert(r@ == offered_lines(
        entries@,
        up@,
        down@,
        rolls_per_upgrade as nat,
        more_rolls,
        rolled_downsides(down@.len(), downside_rolls as nat),
    ));
    r
}

proof fn lemma_pool_in_range(entries: Seq<RollEntry>, kind: SpellKind, has_downsides: bool, downside: bool, k: int)
    requires
        0 <= k <= entries.len(),
    ensures
        forall|j: int|
            0 <= j < pool_upto(entries, kind, has_downsides, downside, k).len() ==> #[trigger] pool_upto(
                entries,
                kind,
                has_downsides,
                downside,
                k,
            )[j] < k,
    decreases k,
{
    if k > 0 {
        lemma_pool_in_range(entries, kind, has_downsides, downside, k - 1);
        let before = pool_upto(entries, kind, has_downsides, downside, k - 1);
        let now = pool_upto(entries, kind, has_downsides, downside, k);
        assert forall|j: int| 0 <= j < now.len() implies #[trigger] now[j] < k by {
            if j < before.len() {
                assert(now[j] == before[j]);
            }
        }
    }
}

proof fn lemma_multiset_bound(a: Seq<usize>, b: Seq<usize>, bound: usize)
    requires
        a.to_multiset() == b.to_multiset(),
        forall|j: int| 0 <= j < a.len() ==> #[trigger] a[j] < bound,
    ensures
        forall|j: int| 0 <= j < b.len() ==> #[trigger] b[j] < bound,
{
    broadcast use vstd::seq_lib::group_to_multiset_ensures;
    assert forall|j: int| 0 <= j < b.len() implies #[trigger] b[j] < bound by {
        assert(b.to_multiset().count(b[j]) > 0);
        assert(a.contains(b[j]));
    }
}


proof fn lemma_pool_members(entries: Seq<RollEntry>, kind: SpellKind, has_downsides: bool, downside: bool, k: int)
    requires
        0 <= k <= entries.len(),
        entries.len() <= usize::MAX,
    ensures
        forall|j: int|
            0 <= j < pool_upto(entries, kind, has_downsides, downside, k).len() ==> {
                let i = #[trigger] pool_upto(entries, kind, has_downsides, downside, k)[j];
                &&& i < k
                &&& entries[i as int].is_downside == downside
                &&& applicable(entries[i as int].upgrade, kind, has_downsides)
            },
    decreases k,
{
    if k > 0 {
        lemma_pool_members(entries, kind, has_downsides, downside, k - 1);
        let before = pool_upto(entries, kind, has_downsides, downside, k - 1);
        let now = pool_upto(entries, kind, has_downsides, downside, k);
        assert forall|j: int| 0 <= j < now.len() implies {
            let i = #[trigger] now[j];
            &&& i < k
            &&& entries[i as int].is_downside == downside
            &&& applicable(entries[i as int].upgrade, kind, has_downsides)
        } by {
            let e = entries[k - 1];
            if e.is_downside == downside && applicable(e.upgrade, kind, has_downsides) {
                assert(now == before.push((k - 1) as usize));
                if j < before.len() {
                    assert(now[j] == before[j]);
                } else {
                    assert(now[j] == (k - 1) as usize);
                }
            } else {
                assert(now == before);
                assert(now[j] == before[j]);
            }
        }
    }
}

proof fn lemma_taken_from_pools(up: Seq<usize>, down: Seq<usize>, count: nat, downsides: nat)
    ensures
        forall|j: int|
            0 <= j < taken_lines(up, down, count, downsides).len() ==> up.contains(
                #[trigger] taken_lines(up, down, count, downsides)[j],
            ) || down.contains(taken_lines(up, down, count, downsides)[j]),
{
    let a = up.take(min_nat(count, up.len()) as int);
    let b = down.take(min_nat(downsides, down.len()) as int);
    let t = taken_lines(up, down, count, downsides);
    assert forall|j: int| 0 <= j < t.len() implies up.contains(#[trigger] t[j]) || down.contains(t[j]) by {
        if j < a.len() {
            assert(t[j] == up[j]);
        } else {
            assert(t[j] == down[j - a.len()]);
        }
    }
}

/// Every line of an offer applies to the spell it is offered for: whatever
/// order the pools were shuffled into, each offered position names a
/// configured roll that `is_applicable` accepts for the spell.
pub proof fn lemma_offered_lines_applicable(
    entries: Seq<RollEntry>,
    kind: SpellKind,
    has_downsides: bool,
    up: Seq<usize>,
    down: Seq<usize>,
    rolls_per_upgrade: nat,
    more_rolls: bool,
    downsides: nat,
)
    requires
        entries.len() <= usize::MAX,
        up.to_multiset() == pool_of(entries, kind, has_downsides, false).to_multiset(),
        down.to_multiset() == pool_of(entries, kind, has_downsides, true).to_multiset(),
    ensures
        forall|j: int|
            0 <= j < offered_lines(entries, up, down, rolls_per_upgrade, more_rolls, downsides).len() ==> {
                let i = #[trigger] offered_lines(entries, up, down, rolls_per_upgrade, more_rolls, downsides)[j];
                &&& 0 <= i < entries.len()
                &&& applicable(entries[i as int].upgrade, kind, has_downsides)
            },
{
    broadcast use vstd::seq_lib::group_to_multiset_ensures;
    let count = line_count(rolls_per_upgrade, more_rolls, downsides > 0);
    let t = taken_lines(up, down, count, downsides);
    let o = offered_lines(entries, up, down, rolls_per_upgrade, more_rolls, downsides);
    let pu = pool_of(entries, kind, has_downsides, false);
    let pd = pool_of(entries, kind, has_downsides, true);
    lemma_pool_members(entries, kind, has_downsides, false, entries.len() as int);
    lemma_pool_members(entries, kind, has_downsides, true, entries.len() as int);
    lemma_taken_from_pools(up, down, count, downsides);
    assert forall|x: usize| t.contains(x) implies 0 <= x < entries.len() && applicable(
        entries[x as int].upgrade,
        kind,
        has_downsides,
    ) by {
        let j = choose|j: int| 0 <= j < t.len() && t[j] == x;
        if up.contains(x) {
            assert(up.to_multiset().count(x) > 0);
            assert(pu.contains(x));
            let m = choose|m: int| 0 <= m < pu.len() && pu[m] == x;
            assert(pu[m] == x);
        } else {
            assert(down.contains(t[j]));
            assert(down.to_multiset().count(x) > 0);
            assert(pd.contains(x));
            let m = choose|m: int| 0 <= m < pd.len() && pd[m] == x;
            assert(pd[m] == x);
        }
    }
    assert forall|j: int| 0 <= j < o.len() implies {
        let i = #[trigger] o[j];
        &&& 0 <= i < entries.len()
        &&& applicable(entries[i as int].upgrade, kind, has_downsides)
    } by {
        match first_removal(entries, t) {
            Some(m) => {
                lemma_first_removal_in_range(entries, t);
                assert(o[j] == t[m]);
                assert(t.contains(t[m]));
            },
            None => {
                assert(t.contains(t[j]));
            },
        }
    }
}

proof fn lemma_first_removal_in_range(entries: Seq<RollEntry>, lines: Seq<usize>)
    ensures
        first_removal(entries, lines) matches Some(m) ==> 0 <= m < lines.len(),
    decreases lines.len(),
{
    if lines.len() > 0 {
        lemma_first_removal_in_range(entries, lines.drop_last());
    }
}

/// An offer that contains the removal of downsides is that line alone.
pub proof fn lemma_removal_offered_alone(entries: Seq<RollEntry>, lines: Seq<usize>)
    requires
        first_removal(entries, lines) is Some,
    ensures
        collapse_removal(entries, lines).len() == 1,
{
}

} // verus!
