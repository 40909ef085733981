//! Spell casting decisions: which spell slots fire, and how chain
//! lightning bounces from a struck target.
use vstd::prelude::*;
use crate::combat::CombatantState;

verus! {

/// The slots among the first `k` that are ready: those whose cooldown is
/// not running.
pub open spec fn ready_upto(cooldown_running: Seq<bool>, k: int) -> Seq<usize>
    decreases k,
{
    if k <= 0 {
        Seq::empty()
    } else if cooldown_running[k - 1] {
        ready_upto(cooldown_running, k - 1)
    } else {
        ready_upto(cooldown_running, k - 1).push((k - 1) as usize)
    }
}

pub open spec fn min_int(a: int, b: int) -> int {
    if a < b { a } else { b }
}

/// The spell slots that cast now, in slot order. Nothing casts from a
/// disabled spell book or for a caster that is dead, reeling or stunned;
/// otherwise every slot that has both a spell and a state, and whose
/// cooldown is not running, casts.
pub fn ready_spell_slots(
    disabled: bool,
    status: CombatantState,
    num_spells: usize,
    cooldown_running: &Vec<bool>,
) -> (r: Vec<usize>)
    ensures
        (disabled || status.dead || status.reeling || status.stunned) ==> r@ == Seq::<usize>::empty(),
        !(disabled || status.dead || status.reeling || status.stunned) ==> r@ == ready_upto(
            cooldown_running@,
            min_int(num_spells as int, cooldown_running.len() as int),
        ),
{
    let mut r: Vec<usize> = Vec::new();
    if disabled || status.dead || status.reeling || status.stunned {
        return r;
    }
    let n = if num_spells < cooldown_running.len() { num_spells } else { cooldown_running.len() };
    let mut i: usize = 0;
    while i < n
        invariant
            n <= cooldown_running.len(),
            i <= n,
            r@ == ready_upto(cooldown_running@, i as int),
        decreases n - i,
    {
        if !cooldown_running[i] {
            r.push(i);
        }
        i = i + 1;
    }
    r
}

/// A combatant that a bouncing chain lightning might jump to.
#[derive(Clone, Copy, Debug, PartialEq, Eq, Structural)]
pub struct BounceCandidate {
    pub hp: u32,
    pub team: u8,
    /// Within the bounce range of the first detonation point.
    pub within_range: bool,
    /// The combatant the lightning just struck.
    pub is_struck: bool,
}

/// A candidate the lightning may jump to: alive, of another team, in
/// range, and not the one just struck.
pub open spec fn bounce_eligible(c: BounceCandidate, team: u8) -> bool {
    c.hp > 0 && c.team != team && c.within_range && !c.is_struck
}

/// The eligible candidates among the first `k`, in order.
pub open spec fn eligible_upto(cs: Seq<BounceCandidate>, team: u8, k: int) -> Seq<usize>
    decreases k,
{
    if k <= 0 {
        Seq::empty()
    } else if bounce_eligible(cs[k - 1], team) {
        eligible_upto(cs, team, k - 1).push((k - 1) as usize)
    } else {
        eligible_upto(cs, team, k - 1)
    }
}

/// The candidates the lightning jumps to: the first `children` eligible ones.
pub open spec fn bounce_targets(cs: Seq<BounceCandidate>, team: u8, children: int) -> Seq<usize> {
    let e = eligible_upto(cs, team, cs.len() as int);
    e.take(min_int(children, e.len() as int))
}

/// The bolts that a chain lightning spawns when it strikes.
#[derive(Clone, Debug)]
pub struct ChainBounce {
    /// The candidates that each get a bolt, in order.
    pub targets: Vec<usize>,
    /// The bounce number of the new bolts.
    pub bounces: u32,
    /// The bounces left to the new bolts.
    pub bounces_left: u32,
    /// The damage of each new bolt: the base damage times the new bounce
    /// number, or none when that product does not fit in `u32`.
    pub damage: Option<u32>,
}

/// The candidates a chain lightning bolt of `team` jumps to when it strikes:
/// the first `children` eligible ones, in order.
pub fn chain_bounce_targets(team: u8, children: usize, candidates: &Vec<BounceCandidate>) -> (r: Vec<usize>)
    ensures
        r@ == bounce_targets(candidates@, team, children as int),
{
    let mut eligible: Vec<usize> = Vec::new();
    let mut i: usize = 0;
    while i < candidates.len()
        invariant
            i <= candidates.len(),
            eligible@ == eligible_upto(candidates@, team, i as int),
        decreases candidates.len() - i,
    {
        let c = candidates[i];
        if c.hp > 0 && c.team != team && c.within_range && !c.is_struck {
            eligible.push(i);
        }
        i = i + 1;
    }
    let n = if children < eligible.len() { children } else { eligible.len() };
    let mut targets: Vec<usize> = Vec::new();
    let mut k: usize = 0;
    while k < n
        invariant
            n <= eligible.len(),
            k <= n,
            targets@ == eligible@.take(k as int),
        decreases n - k,
    {
        targets.push(eligible[k]);
        proof {
            assert(eligible@.take(k + 1) =~= eligible@.take(k as int).push(eligible@[k as int]));
        }
        k = k + 1;
    }
    targets
}

/// Plans the bounce of a chain lightning bolt of bounce number `bounces`
/// with `bounces_left` bounces left, of `team`, that jumps to at most
/// `children` candidates. A bolt with no bounce left, or with no eligible
/// candidate, spawns nothing. Otherwise each new bolt has one more bounce,
/// one bounce less left, and deals the base damage times its bounce number.
///
/// The bounce number only grows when a bolt is spawned, so it must have room
/// to grow only then.
pub fn plan_chain_bounce(
    bounces: u32,
    bounces_left: u32,
    children: usize,
    team: u8,
    base_damage: u32,
    candidates: &Vec<BounceCandidate>,
) -> (r: Option<ChainBounce>)
    requires
        bounces_left > 0 && bounce_targets(candidates@, team, children as int).len() > 0 ==> bounces < u32::MAX,
    ensures
        r is None <==> (bounces_left == 0 || bounce_targets(candidates@, team, children as int).len() == 0),
        r matches Some(b) ==> {
            &&& b.targets@ == bounce_targets(candidates@, team, children as int)
            &&& 0 < b.targets.len() <= children
            &&& b.bounces == bounces + 1
            &&& b.bounces_left == bounces_left - 1
            &&& b.damage == (if base_damage * (bounces + 1) <= u32::MAX {
                Some((base_damage * (bounces + 1)) as u32)
            } else {
                None
            })
        },
{
    if bounces_left == 0 {
        return None;
    }
    let targets = chain_bounce_targets(team, children, candidates);
    if targets.len() == 0 {
        return None;
    }
    let damage = base_damage.checked_mul(bounces + 1);
    Some(ChainBounce { targets, bounces: bounces + 1, bounces_left: bounces_left - 1, damage })
}

/// A chain of lightning bolts: a bolt, by its bounces left, and the bolts
/// its strike spawned.
pub struct BoltTree {
    pub bounces_left: u32,
    pub children: Seq<BoltTree>,
}

/// Whether every bolt of the chain spawned its children as
/// `plan_chain_bounce` plans them with at most `k` children per bounce: at
/// most `k` children, none from a bolt with no bounce left, and each child
/// with one bounce less left than its parent.
pub open spec fn spawned_by_plans(t: BoltTree, k: nat) -> bool
    decreases t,
{
    &&& t.children.len() <= k
    &&& (t.bounces_left == 0 ==> t.children.len() == 0)
    &&& forall|i: int|
        0 <= i < t.children.len() ==> {
            &&& (#[trigger] t.children[i]).bounces_left == t.bounces_left - 1
            &&& spawned_by_plans(t.children[i], k)
        }
}

/// Whether no path from the root of the chain has more than `h` bounces.
pub open spec fn height_within(t: BoltTree, h: int) -> bool
    decreases t,
{
    t.children.len() == 0 || (h > 0 && forall|i: int|
        0 <= i < t.children.len() ==> height_within(#[trigger] t.children[i], h - 1))
}

/// The number of bolts in a chain.
pub open spec fn bolt_count(t: BoltTree) -> nat
    decreases t, 0nat,
{
    1 + bolt_count_upto(t.children, t.children.len() as int)
}

/// The number of bolts in the first `i` chains of `s`.
pub open spec fn bolt_count_upto(s: Seq<BoltTree>, i: int) -> nat
    decreases s, i,
{
    if i <= 0 || i > s.len() {
        0
    } else {
        bolt_count_upto(s, i - 1) + bolt_count(s[i - 1])
    }
}

/// The largest chain that `n` bounces with `k` children each can spawn:
/// `1 + k + k^2 + ... + k^n` bolts.
pub open spec fn chain_size_bound(n: nat, k: nat) -> nat
    decreases n,
{
    if n == 0 {
        1
    } else {
        1 + k * chain_size_bound((n - 1) as nat, k)
    }
}

/// A chain of bolts spawned as `plan_chain_bounce` plans them from a bolt
/// with `n` bounces left and at most `k` children per bounce ends: no path
/// from the first bolt is longer than `n` bounces, and the chain holds at
/// most `1 + k + ... + k^n` bolts.
pub proof fn lemma_chain_terminates(t: BoltTree, k: nat)
    requires
        spawned_by_plans(t, k),
    ensures
        height_within(t, t.bounces_left as int),
        bolt_count(t) <= chain_size_bound(t.bounces_left as nat, k),
    decreases t,
{
    if t.children.len() > 0 {
        let n = t.bounces_left;
        let b = chain_size_bound((n - 1) as nat, k);
        assert forall|i: int| 0 <= i < t.children.len() implies height_within(#[trigger] t.children[i], n - 1)
            && bolt_count(t.children[i]) <= b by {
            lemma_chain_terminates(t.children[i], k);
        }
        lemma_count_upto_bounded(t.children, t.children.len() as int, b);
        let len = t.children.len();
        assert(len * b <= k * b) by (nonlinear_arith)
            requires
                len <= k,
        ;
    }
}

proof fn lemma_count_upto_bounded(s: Seq<BoltTree>, i: int, b: nat)
    requires
        0 <= i <= s.len(),
        forall|j: int| 0 <= j < s.len() ==> bolt_count(#[trigger] s[j]) <= b,
    ensures
        bolt_count_upto(s, i) <= i * b,
    decreases i,
{
    if i > 0 {
        lemma_count_upto_bounded(s, i - 1, b);
        assert(bolt_count(s[i - 1]) <= b);
        assert((i - 1) * b + b == i * b) by (nonlinear_arith);
    }
}

} // verus!
