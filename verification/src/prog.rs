//! Progression: the per-run progress of a player (levels, bosses) and the
//! long-term progression across runs (lucidity, permanent features and
//! rerolls).
use vstd::prelude::*;

verus! {

/// A permanent upgrade that can be bought with lucidity.
#[derive(Clone, Copy, Debug, PartialEq, Eq, Hash, Structural)]
pub enum LongTermProgFeature {
    BetterSpellUpgrades,
    MoreChoices,
    SeeInSingle,
    SpellInfo,
    MoarHp,
    CheaperRerolls,
}

/// A trophy earned over runs.
#[derive(Clone, Copy, Debug, PartialEq, Eq, Hash, Structural)]
pub enum ProggerTrophy {
    Deal1000DPS,
    Die5Times,
    DefeatFinalBoss,
}

/// A purchasable permanent upgrade: what it does, how it is described and
/// what it costs.
#[derive(Clone, Debug)]
pub struct LongTermProgDescriptor {
    pub feature: LongTermProgFeature,
    pub description: String,
    pub cost: u32,
}

impl LongTermProgDescriptor {
    /// An equal copy.
    pub fn duplicate(&self) -> (r: LongTermProgDescriptor)
        ensures
            r == *self,
    {
        LongTermProgDescriptor {
            feature: self.feature,
            description: self.description.clone(),
            cost: self.cost,
        }
    }
}

/// The state of long-term progression.
#[derive(Debug)]
pub struct LongTermProgger {
    pub max_spells: usize,
    pub num_perk_choices: usize,
    pub lucidty: u32,
    pub reroll_cost: u32,
    pub runs: u32,
    pub trophies: Vec<ProggerTrophy>,
    pub active_lprog_features: Vec<LongTermProgDescriptor>,
    pub used_lucidty: u32,
}

/// Whether some descriptor in `active` grants `feature`.
pub open spec fn feature_active(active: Seq<LongTermProgDescriptor>, feature: LongTermProgFeature) -> bool {
    exists|j: int| 0 <= j < active.len() && (#[trigger] active[j]).feature == feature
}

/// The descriptors of `active` that do not grant `feature`, in order.
pub open spec fn without_feature(active: Seq<LongTermProgDescriptor>, feature: LongTermProgFeature) -> Seq<
    LongTermProgDescriptor,
>
    decreases active.len(),
{
    if active.len() == 0 {
        Seq::empty()
    } else {
        let rest = without_feature(active.drop_last(), feature);
        if active.last().feature == feature {
            rest
        } else {
            rest.push(active.last())
        }
    }
}

/// The price of a reroll: half the configured cost, rounded down, with the
/// cheaper rerolls feature.
pub open spec fn reroll_price(base: u32, active: Seq<LongTermProgDescriptor>) -> u32 {
    if feature_active(active, LongTermProgFeature::CheaperRerolls) {
        base / 2
    } else {
        base
    }
}

/// A checkbox for one purchasable feature on the death screen.
#[derive(Clone, Debug)]
pub struct LucidityCheckbox {
    pub is_checked: bool,
    pub feature: LongTermProgDescriptor,
}

impl LongTermProgger {
    /// The state before any run: one spell slot, three choices per level
    /// and nothing earned.
    pub fn new() -> (r: LongTermProgger)
        ensures
            r.max_spells == 1,
            r.num_perk_choices == 3,
            r.lucidty == 0,
            r.reroll_cost == 0,
            r.runs == 0,
            r.trophies@ == Seq::<ProggerTrophy>::empty(),
            r.active_lprog_features@ == Seq::<LongTermProgDescriptor>::empty(),
            r.used_lucidty == 0,
    {
        LongTermProgger {
            max_spells: 1,
            num_perk_choices: 3,
            lucidty: 0,
            reroll_cost: 0,
            runs: 0,
            trophies: Vec::new(),
            active_lprog_features: Vec::new(),
            used_lucidty: 0,
        }
    }

    /// The lucidity spent never exceeds the lucidity earned.
    pub open spec fn within_budget(&self) -> bool {
        self.used_lucidty <= self.lucidty
    }

    /// Whether a permanent feature is active.
    pub fn has_upgrade(&self, upgrade: LongTermProgFeature) -> (r: bool)
        ensures
            r == feature_active(self.active_lprog_features@, upgrade),
    {
        let mut i: usize = 0;
        while i < self.active_lprog_features.len()
            invariant
                i <= self.active_lprog_features.len(),
                forall|j: int| 0 <= j < i ==> (#[trigger] self.active_lprog_features@[j]).feature != upgrade,
            decreases self.active_lprog_features.len() - i,
        {
            if self.active_lprog_features[i].feature == upgrade {
                return true;
            }
            i = i + 1;
        }
        false
    }

    /// The current price of a reroll.
    pub fn reroll_cost(&self) -> (r: u32)
        ensures
            r == reroll_price(self.reroll_cost, self.active_lprog_features@),
    {
        if self.has_upgrade(LongTermProgFeature::CheaperRerolls) {
            self.reroll_cost / 2
        } else {
            self.reroll_cost
        }
    }

    /// Whether the lucidity left pays for a reroll (the reroll button is
    /// shown only then).
    pub fn can_afford_reroll(&self) -> (r: bool)
        requires
            self.used_lucidty + reroll_price(self.reroll_cost, self.active_lprog_features@) <= u32::MAX,
        ensures
            r == (self.used_lucidty + reroll_price(self.reroll_cost, self.active_lprog_features@)
                <= self.lucidty),
    {
        self.used_lucidty + self.reroll_cost() <= self.lucidty
    }

    /// The lucidity not yet spent.
    pub fn lucidity_left(&self) -> (r: u32)
        requires
            self.within_budget(),
        ensures
            r == self.lucidty - self.used_lucidty,
    {
        self.lucidty - self.used_lucidty
    }

    /// Pays for a reroll if the lucidity left allows it; returns whether it
    /// did (and so whether a new set of choices is drawn).
    pub fn try_reroll(&mut self) -> (paid: bool)
        requires
            old(self).used_lucidty + reroll_price(old(self).reroll_cost, old(self).active_lprog_features@)
                <= u32::MAX,
        ensures
            paid == (old(self).used_lucidty + reroll_price(
                old(self).reroll_cost,
                old(self).active_lprog_features@,
            ) <= old(self).lucidty),
            paid ==> final(self).used_lucidty == old(self).used_lucidty + reroll_price(
                old(self).reroll_cost,
                old(self).active_lprog_features@,
            ),
            !paid ==> final(self).used_lucidty == old(self).used_lucidty,
            final(self).lucidty == old(self).lucidty,
            final(self).reroll_cost == old(self).reroll_cost,
            final(self).active_lprog_features@ == old(self).active_lprog_features@,
            old(self).within_budget() ==> final(self).within_budget(),
    {
        let cost = self.reroll_cost();
        if self.used_lucidty + cost > self.lucidty {
            return false;
        }
        self.used_lucidty = self.used_lucidty + cost;
        true
    }

    /// Adds the lucidity earned in a run.
    pub fn accumulate_lucidity(&mut self, amount: u32)
        requires
            old(self).lucidty + amount <= u32::MAX,
        ensures
            final(self).lucidty == old(self).lucidty + amount,
            final(self).used_lucidty == old(self).used_lucidty,
            final(self).active_lprog_features@ == old(self).active_lprog_features@,
            old(self).within_budget() ==> final(self).within_budget(),
    {
        self.lucidty = self.lucidty + amount;
    }

    /// Whether the feature of a checkbox is active (the box starts checked then).
    pub fn is_feature_checked(&self, feature: &LongTermProgDescriptor) -> (r: bool)
        ensures
            r == feature_active(self.active_lprog_features@, feature.feature),
    {
        self.has_upgrade(feature.feature)
    }

    /// Presses a feature checkbox. Checking it buys the feature if the
    /// lucidity left pays for it, and does nothing otherwise; unchecking it
    /// refunds its cost and drops every active descriptor of that feature.
    /// Returns whether the box changed.
    pub fn toggle_feature(&mut self, checkbox: &mut LucidityCheckbox) -> (changed: bool)
        requires
            !old(checkbox).is_checked ==> old(self).used_lucidty + old(checkbox).feature.cost <= u32::MAX,
            old(checkbox).is_checked ==> old(self).used_lucidty >= old(checkbox).feature.cost,
        ensures
            changed == (old(checkbox).is_checked || old(self).used_lucidty + old(checkbox).feature.cost
                <= old(self).lucidty),
            !changed ==> {
                &&& final(self).used_lucidty == old(self).used_lucidty
                &&& final(self).active_lprog_features@ == old(self).active_lprog_features@
                &&& *final(checkbox) == *old(checkbox)
            },
            changed && !old(checkbox).is_checked ==> {
                &&& final(checkbox).is_checked
                &&& final(self).used_lucidty == old(self).used_lucidty + old(checkbox).feature.cost
                &&& final(self).active_lprog_features@ == old(self).active_lprog_features@.push(
                    old(checkbox).feature,
                )
            },
            changed && old(checkbox).is_checked ==> {
                &&& !final(checkbox).is_checked
                &&& final(self).used_lucidty == old(self).used_lucidty - old(checkbox).feature.cost
                &&& final(self).active_lprog_features@ == without_feature(
                    old(self).active_lprog_features@,
                    old(checkbox).feature.feature,
                )
            },
            final(checkbox).feature == old(checkbox).feature,
            final(self).lucidty == old(self).lucidty,
            old(self).within_budget() ==> final(self).within_budget(),
    {
        if !checkbox.is_checked && self.used_lucidty + checkbox.feature.cost > self.lucidty {
            return false;
        }
        checkbox.is_checked = !checkbox.is_checked;
        if checkbox.is_checked {
            self.used_lucidty = self.used_lucidty + checkbox.feature.cost;
            let d = checkbox.feature.duplicate();
            self.active_lprog_features.push(d);
        } else {
            self.used_lucidty = self.used_lucidty - checkbox.feature.cost;
            let kept = remove_feature(&self.active_lprog_features, checkbox.feature.feature);
            self.active_lprog_features = kept;
        }
        true
    }
}

/// The descriptors of `active` that do not grant `feature`, in order.
pub fn remove_feature(active: &Vec<LongTermProgDescriptor>, feature: LongTermProgFeature) -> (r: Vec<
    LongTermProgDescriptor,
>)
    ensures
        r@ == without_feature(active@, feature),
{
    let mut kept: Vec<LongTermProgDescriptor> = Vec::new();
    let mut i: usize = 0;
    while i < active.len()
        invariant
            i <= active.len(),
            kept@ == without_feature(active@.take(i as int), feature),
        decreases active.len() - i,
    {
        proof {
            assert(active@.take(i + 1).drop_last() =~= active@.take(i as int));
        }
        if active[i].feature != feature {
            let d = active[i].duplicate();
            kept.push(d);
        }
        i = i + 1;
    }
    proof {
        assert(active@.take(active.len() as int) =~= active@);
    }
    kept
}

/// Removing a feature that was just added to a list that did not grant it
/// gives the list back: checking and then unchecking a feature restores the
/// active features, and the lucidity spent, exactly.
pub proof fn lemma_toggle_twice_restores(
    active: Seq<LongTermProgDescriptor>,
    d: LongTermProgDescriptor,
    used: u32,
)
    requires
        !feature_active(active, d.feature),
        used + d.cost <= u32::MAX,
    ensures
        without_feature(active.push(d), d.feature) == active,
        ((used + d.cost) as u32 - d.cost) as u32 == used,
{
    assert(active.push(d).drop_last() =~= active);
    lemma_without_absent(active, d.feature);
}

/// Removing a feature that no descriptor grants changes nothing.
pub proof fn lemma_without_absent(active: Seq<LongTermProgDescriptor>, feature: LongTermProgFeature)
    requires
        !feature_active(active, feature),
    ensures
        without_feature(active, feature) == active,
    decreases active.len(),
{
    if active.len() > 0 {
        assert(active.drop_last().len() < active.len());
        assert(!feature_active(active.drop_last(), feature)) by {
            if feature_active(active.drop_last(), feature) {
                let j = choose|j: int| 0 <= j < active.drop_last().len() && (#[trigger] active.drop_last()[j]).feature == feature;
                assert(active[j] == active.drop_last()[j]);
            }
        }
        lemma_without_absent(active.drop_last(), feature);
        assert(active.last() == active[active.len() - 1]);
        assert(active.drop_last().push(active.last()) =~= active);
    }
}

/// After removing a feature it is no longer granted.
pub proof fn lemma_removed_feature_inactive(active: Seq<LongTermProgDescriptor>, feature: LongTermProgFeature)
    ensures
        !feature_active(without_feature(active, feature), feature),
    decreases active.len(),
{
    if active.len() > 0 {
        lemma_removed_feature_inactive(active.drop_last(), feature);
        let rest = without_feature(active.drop_last(), feature);
        if active.last().feature != feature {
            assert forall|j: int| 0 <= j < rest.push(active.last()).len() implies (#[trigger] rest.push(
                active.last(),
            )[j]).feature != feature by {
                if j < rest.len() {
                    assert(rest.push(active.last())[j] == rest[j]);
                }
            }
        }
    }
}

/// A reroll never costs more than the configured cost.
pub proof fn lemma_reroll_price_bounded(base: u32, active: Seq<LongTermProgDescriptor>)
    ensures
        reroll_price(base, active) <= base,
{
}

/// The per-run progress of a player.
#[derive(Clone, Copy, Debug, PartialEq, Eq, Structural)]
pub struct Progger {
    pub level: u32,
    pub hp_gain: u32,
    pub bosses_spawned: u32,
    pub bosses_killed: u32,
}

/// Whether a boss is due: `kills / (100 * (spawned + 1)) >= spawned + 1`.
pub open spec fn boss_due(kills: u32, bosses_spawned: u32) -> bool {
    kills as int / (100 * (bosses_spawned as int + 1)) >= bosses_spawned as int + 1
}

/// Whether a boss is due for a player with `kills` kills who has seen
/// `bosses_spawned` bosses.
pub fn boss_due_now(kills: u32, bosses_spawned: u32) -> (r: bool)
    requires
        100 * (bosses_spawned + 1) <= u32::MAX,
    ensures
        r == boss_due(kills, bosses_spawned),
{
    let next = bosses_spawned + 1;
    kills / (100 * next) >= next
}

/// The boss that spawns next.
#[derive(Clone, Copy, Debug, PartialEq, Eq, Structural)]
pub struct BossPlan {
    /// The number of bosses spawned, this one included.
    pub bosses_spawned: u32,
    /// The boss keeps this many of the player's first spells.
    pub spells_to_take: usize,
    /// The boss's hit points.
    pub max_hp: u32,
}

impl Progger {
    /// Takes a level: the level rises by one and the hit points, current
    /// and maximum, rise by the gain per level.
    pub fn gain_level(&mut self, max_hp: &mut u32, current_hp: &mut u32)
        requires
            old(self).level < u32::MAX,
            *old(max_hp) + old(self).hp_gain <= u32::MAX,
            *old(current_hp) + old(self).hp_gain <= u32::MAX,
        ensures
            final(self).level == old(self).level + 1,
            *final(max_hp) == *old(max_hp) + old(self).hp_gain,
            *final(current_hp) == *old(current_hp) + old(self).hp_gain,
            final(self).hp_gain == old(self).hp_gain,
            final(self).bosses_spawned == old(self).bosses_spawned,
            final(self).bosses_killed == old(self).bosses_killed,
    {
        self.level = self.level + 1;
        *max_hp = *max_hp + self.hp_gain;
        *current_hp = *current_hp + self.hp_gain;
    }

    /// Decides whether a boss spawns, given the player's kills and whether
    /// some enemy is there to become the boss. When one does, the count of
    /// bosses spawned rises by one, the boss keeps `max(spawned / 3, 1)` of
    /// the player's spells and has `max(enemy_max_hp * 10 * spawned, 1000)`
    /// hit points, with the new count.
    pub fn plan_boss_spawn(&mut self, kills: u32, enemy_max_hp: Option<u32>) -> (r: Option<BossPlan>)
        requires
            100 * (old(self).bosses_spawned + 1) <= u32::MAX,
            boss_due(kills, old(self).bosses_spawned) && enemy_max_hp is Some ==> enemy_max_hp->0 * (10 * (
            old(self).bosses_spawned + 1)) <= u32::MAX,
        ensures
            r is Some <==> (boss_due(kills, old(self).bosses_spawned) && enemy_max_hp is Some),
            r is None ==> *final(self) == *old(self),
            r matches Some(plan) ==> {
                let n = old(self).bosses_spawned + 1;
                &&& plan.bosses_spawned == n
                &&& final(self).bosses_spawned == n
                &&& plan.spells_to_take == (if n / 3 >= 1 { n / 3 } else { 1 })
                &&& plan.max_hp == (if enemy_max_hp->0 * (10 * n) >= 1000 {
                    enemy_max_hp->0 * (10 * n)
                } else {
                    1000
                })
                &&& final(self).level == old(self).level
                &&& final(self).hp_gain == old(self).hp_gain
                &&& final(self).bosses_killed == old(self).bosses_killed
            },
    {
        let next = self.bosses_spawned + 1;
        if kills / (100 * next) < next {
            return None;
        }
        let hp = match enemy_max_hp {
            Some(hp) => hp,
            None => {
                return None;
            },
        };
        self.bosses_spawned = next;
        let third = (next / 3) as usize;
        let spells_to_take: usize = if third >= 1 { third } else { 1 };
        proof {
            assert(hp * (10 * next) <= u32::MAX);
        }
        let scaled = hp * (10 * next);
        let max_hp = if scaled >= 1000 { scaled } else { 1000 };
        Some(BossPlan { bosses_spawned: next, spells_to_take, max_hp })
    }

    /// Counts a boss killed by this player and returns the new count.
    pub fn record_boss_kill(&mut self) -> (count: u32)
        requires
            old(self).bosses_killed < u32::MAX,
        ensures
            count == old(self).bosses_killed + 1,
            final(self).bosses_killed == count,
            final(self).level == old(self).level,
            final(self).hp_gain == old(self).hp_gain,
            final(self).bosses_spawned == old(self).bosses_spawned,
    {
        self.bosses_killed = self.bosses_killed + 1;
        self.bosses_killed
    }
}

/// More kills never make a due boss undue.
pub proof fn lemma_boss_due_monotone(k1: u32, k2: u32, spawned: u32)
    requires
        k1 <= k2,
        boss_due(k1, spawned),
    ensures
        boss_due(k2, spawned),
{
    let d = 100 * (spawned as int + 1);
    assert(k1 as int / d <= k2 as int / d) by (nonlinear_arith)
        requires
            k1 <= k2,
            d > 0,
    ;
}

} // verus!
