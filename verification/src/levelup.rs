//! Level-up choices: which perks are offered when a player levels up, and
//! what taking one of them does.
use vstd::prelude::*;
use crate::spells::{SpellKind, SpellUpgrade, can_build, spell_roll_list};
use crate::random::{random_coin, random_index};

verus! {

/// A perk offered on level-up: a new spell, or an upgrade of the spell in a
/// slot.
#[derive(Clone, Copy, Debug, PartialEq, Eq, Structural)]
pub enum PerkPlan {
    NewSpell(SpellKind),
    Upgrade(usize),
}

/// The spells a player does not have yet, in the order fireball, chain
/// lightning, frozen orb.
pub open spec fn unowned_kinds(owned: Seq<SpellKind>) -> Seq<SpellKind> {
    let a = if owned.contains(SpellKind::Fireball) {
        Seq::<SpellKind>::empty()
    } else {
        seq![SpellKind::Fireball]
    };
    let b = if owned.contains(SpellKind::Chainlightning) {
        a
    } else {
        a.push(SpellKind::Chainlightning)
    };
    if owned.contains(SpellKind::Frozenorb) {
        b
    } else {
        b.push(SpellKind::Frozenorb)
    }
}

/// The place of a spell in offering order: fireball, chain lightning, frozen orb.
pub open spec fn offer_rank(k: SpellKind) -> int {
    match k {
        SpellKind::Fireball => 0,
        SpellKind::Chainlightning => 1,
        SpellKind::Frozenorb => 2,
    }
}

/// The spells offered as new are exactly those not owned, each once, in
/// offering order.
pub proof fn lemma_unowned_exactly(owned: Seq<SpellKind>)
    ensures
        forall|k: SpellKind| #[trigger] unowned_kinds(owned).contains(k) <==> !owned.contains(k),
        forall|i: int, j: int|
            0 <= i < j < unowned_kinds(owned).len() ==> offer_rank(#[trigger] unowned_kinds(owned)[i])
                < offer_rank(#[trigger] unowned_kinds(owned)[j]),
        unowned_kinds(owned).no_duplicates(),
{
    let u = unowned_kinds(owned);
    assert forall|k: SpellKind| #[trigger] u.contains(k) <==> !owned.contains(k) by {
        if u.contains(k) {
            let j = choose|j: int| 0 <= j < u.len() && u[j] == k;
            assert(u[j] == k);
        }
        if !owned.contains(k) {
            let fb = !owned.contains(SpellKind::Fireball);
            let cl = !owned.contains(SpellKind::Chainlightning);
            match k {
                SpellKind::Fireball => assert(u[0] == k),
                SpellKind::Chainlightning => {
                    if fb { assert(u[1] == k); } else { assert(u[0] == k); }
                },
                SpellKind::Frozenorb => {
                    if fb && cl {
                        assert(u[2] == k);
                    } else if fb || cl {
                        assert(u[1] == k);
                    } else {
                        assert(u[0] == k);
                    }
                },
            }
        }
    }
}

/// Whether the configured rolls `keys` hold every roll a spell of `kind` needs.
pub open spec fn buildable(kind: SpellKind, keys: Seq<SpellUpgrade>) -> bool {
    forall|j: int| 0 <= j < spell_roll_list(kind).len() ==> keys.contains(#[trigger] spell_roll_list(kind)[j])
}

/// The new-spell perk for a draw `pick` among the unowned spells: none
/// without a spell builder or with every spell owned, and none when the
/// drawn spell cannot be built from the configured rolls.
pub open spec fn new_spell_perk(owned: Seq<SpellKind>, has_builder: bool, keys: Seq<SpellUpgrade>, pick: int) -> Option<
    PerkPlan,
> {
    if !has_builder || unowned_kinds(owned).len() == 0 {
        None
    } else if buildable(unowned_kinds(owned)[pick], keys) {
        Some(PerkPlan::NewSpell(unowned_kinds(owned)[pick]))
    } else {
        None
    }
}

/// The upgrade perk for a draw `slot`: none with no spell or no builder.
pub open spec fn upgrade_perk(owned: Seq<SpellKind>, has_builder: bool, slot: int) -> Option<PerkPlan> {
    if owned.len() == 0 || !has_builder {
        None
    } else {
        Some(PerkPlan::Upgrade(slot as usize))
    }
}

/// Whether a new spell is tried: always with no spell, otherwise when a
/// slot is free and the coin says so.
pub open spec fn tries_new_spell(owned_len: int, max_spells: int, coin: bool) -> bool {
    owned_len == 0 || (max_spells - owned_len > 0 && coin)
}

/// One offered perk, given the coin and the two draws: a new spell when one
/// is tried and can be made, otherwise an upgrade when there is one.
pub open spec fn perk_for_draws(
    owned: Seq<SpellKind>,
    has_builder: bool,
    keys: Seq<SpellUpgrade>,
    max_spells: int,
    coin: bool,
    pick: int,
    slot: int,
) -> Option<PerkPlan> {
    if tries_new_spell(owned.len() as int, max_spells, coin) && new_spell_perk(
        owned,
        has_builder,
        keys,
        pick,
    ) is Some {
        new_spell_perk(owned, has_builder, keys, pick)
    } else {
        upgrade_perk(owned, has_builder, slot)
    }
}

/// The draws lie in their ranges: `pick` among the unowned spells and
/// `slot` among the owned ones, where these exist.
pub open spec fn draws_fit(owned: Seq<SpellKind>, pick: int, slot: int) -> bool {
    &&& (unowned_kinds(owned).len() > 0 ==> 0 <= pick < unowned_kinds(owned).len())
    &&& (owned.len() > 0 ==> 0 <= slot < owned.len())
}

/// Whether `k` occurs in `owned`.
pub fn owns_kind(owned: &Vec<SpellKind>, k: SpellKind) -> (r: bool)
    ensures
        r == owned@.contains(k),
{
    let mut i: usize = 0;
    while i < owned.len()
        invariant
            i <= owned.len(),
            forall|j: int| 0 <= j < i ==> owned@[j] != k,
        decreases owned.len() - i,
    {
        if owned[i] == k {
            return true;
        }
        i = i + 1;
    }
    false
}

/// The spells a player does not have yet, in offering order.
pub fn unowned_spells(owned: &Vec<SpellKind>) -> (r: Vec<SpellKind>)
    ensures
        r@ == unowned_kinds(owned@),
{
    let mut r: Vec<SpellKind> = Vec::new();
    if !owns_kind(owned, SpellKind::Fireball) {
        r.push(SpellKind::Fireball);
    }
    if !owns_kind(owned, SpellKind::Chainlightning) {
        r.push(SpellKind::Chainlightning);
    }
    if !owns_kind(owned, SpellKind::Frozenorb) {
        r.push(SpellKind::Frozenorb);
    }
    proof {
        assert(r@ =~= unowned_kinds(owned@));
    }
    r
}

/// One offered perk for a given coin and given draws.
pub fn perk_from_draws(
    owned: &Vec<SpellKind>,
    has_builder: bool,
    keys: &Vec<SpellUpgrade>,
    max_spells: usize,
    coin: bool,
    pick: usize,
    slot: usize,
) -> (r: Option<PerkPlan>)
    requires
        owned.len() <= max_spells,
        draws_fit(owned@, pick as int, slot as int),
    ensures
        r == perk_for_draws(owned@, has_builder, keys@, max_spells as int, coin, pick as int, slot as int),
{
    let max_new = max_spells - owned.len();
    let tries_new = owned.len() == 0 || (max_new > 0 && coin);
    if tries_new && has_builder {
        let available = unowned_spells(owned);
        if available.len() > 0 {
            let k = available[pick];
            if can_build(k, keys) {
                return Some(PerkPlan::NewSpell(k));
            }
        }
    }
    if owned.len() == 0 || !has_builder {
        None
    } else {
        Some(PerkPlan::Upgrade(slot))
    }
}

/// One offered perk, drawing the coin and the spell or slot at random.
pub fn generate_perk(owned: &Vec<SpellKind>, has_builder: bool, keys: &Vec<SpellUpgrade>, max_spells: usize) -> (r:
    Option<PerkPlan>)
    requires
        owned.len() <= max_spells,
    ensures
        exists|coin: bool, pick: int, slot: int|
            draws_fit(owned@, pick, slot) && r == #[trigger] perk_for_draws(
                owned@,
                has_builder,
                keys@,
                max_spells as int,
                coin,
                pick,
                slot,
            ),
{
    let max_new = max_spells - owned.len();
    let coin = if owned.len() > 0 && max_new > 0 { random_coin() } else { false };
    let available = unowned_spells(owned);
    let pick = if has_builder && available.len() > 0 { random_index(available.len()) } else { 0 };
    let slot = if has_builder && owned.len() > 0 { random_index(owned.len()) } else { 0 };
    let r = perk_from_draws(owned, has_builder, keys, max_spells, coin, pick, slot);
    assert(r == perk_for_draws(owned@, has_builder, keys@, max_spells as int, coin, pick as int, slot as int));
    r
}

/// What holds of every perk that can be offered.
pub proof fn lemma_perk_shape(
    owned: Seq<SpellKind>,
    has_builder: bool,
    keys: Seq<SpellUpgrade>,
    max_spells: int,
    coin: bool,
    pick: int,
    slot: int,
)
    requires
        owned.len() <= max_spells,
        draws_fit(owned, pick, slot),
    ensures
        ({
            let p = perk_for_draws(owned, has_builder, keys, max_spells, coin, pick, slot);
            &&& (p matches Some(PerkPlan::NewSpell(k)) ==> {
                &&& has_builder
                &&& !owned.contains(k)
                &&& buildable(k, keys)
                &&& owned.len() < max_spells || owned.len() == 0
            })
            &&& (p matches Some(PerkPlan::Upgrade(s)) ==> has_builder && s < owned.len())
            &&& (has_builder && owned.len() > 0 ==> p is Some)
            &&& (!has_builder ==> p is None)
            &&& (owned.len() == 0 ==> p is None || p->0 is NewSpell)
            &&& (owned.len() > 0 && owned.len() == max_spells ==> p is None || p->0 is Upgrade)
            &&& (owned.len() == 0 && has_builder && (forall|j: int|
                0 <= j < unowned_kinds(owned).len() ==> buildable(#[trigger] unowned_kinds(owned)[j], keys))
                ==> p is Some)
            &&& (owned.len() == 0 && (forall|j: int|
                0 <= j < unowned_kinds(owned).len() ==> !buildable(#[trigger] unowned_kinds(owned)[j], keys))
                ==> p is None)
        }),
{
    if owned.len() == 0 {
        assert(unowned_kinds(owned) =~= seq![
            SpellKind::Fireball,
            SpellKind::Chainlightning,
            SpellKind::Frozenorb,
        ]);
    }
    let u = unowned_kinds(owned);
    if u.len() > 0 {
        let k = u[pick];
        assert(!owned.contains(k));
    }
}

/// The perks offered for a sequence of draws, one try per draw (coin, pick
/// and slot), in order; a try that yields no perk adds nothing.
pub open spec fn perks_for_draws(
    owned: Seq<SpellKind>,
    has_builder: bool,
    keys: Seq<SpellUpgrade>,
    max_spells: int,
    draws: Seq<(bool, int, int)>,
) -> Seq<PerkPlan>
    decreases draws.len(),
{
    if draws.len() == 0 {
        Seq::empty()
    } else {
        let before = perks_for_draws(owned, has_builder, keys, max_spells, draws.drop_last());
        let d = draws.last();
        match perk_for_draws(owned, has_builder, keys, max_spells, d.0, d.1, d.2) {
            Some(p) => before.push(p),
            None => before,
        }
    }
}

/// The perks offered on a level-up: `num_choices` tries, each of which
/// offers a new spell or an upgrade, or nothing when neither can be made.
///
/// Which spell and which slot come out is chance: the result is the perks
/// of some `num_choices` draws that lie in their ranges, and the remaining
/// clauses state what follows for every outcome.
pub fn plan_levelup_choices(
    owned: &Vec<SpellKind>,
    has_builder: bool,
    keys: &Vec<SpellUpgrade>,
    max_spells: usize,
    num_choices: usize,
) -> (r: Vec<PerkPlan>)
    requires
        owned.len() <= max_spells,
    ensures
        exists|draws: Seq<(bool, int, int)>|
            {
                &&& draws.len() == num_choices
                &&& forall|i: int| 0 <= i < draws.len() ==> draws_fit(owned@, #[trigger] draws[i].1, draws[i].2)
                &&& r@ == #[trigger] perks_for_draws(owned@, has_builder, keys@, max_spells as int, draws)
            },
        r.len() <= num_choices,
        forall|i: int|
            0 <= i < r.len() ==> match #[trigger] r@[i] {
                PerkPlan::NewSpell(k) => {
                    &&& has_builder
                    &&& !owned@.contains(k)
                    &&& buildable(k, keys@)
                    &&& owned.len() < max_spells || owned.len() == 0
                },
                PerkPlan::Upgrade(s) => has_builder && s < owned.len(),
            },
        has_builder && owned.len() > 0 ==> r.len() == num_choices,
        !has_builder ==> r.len() == 0,
        owned.len() > 0 && owned.len() == max_spells ==> forall|i: int| 0 <= i < r.len() ==> #[trigger] r@[i] is Upgrade,
        owned.len() == 0 ==> forall|i: int| 0 <= i < r.len() ==> #[trigger] r@[i] is NewSpell,
        owned.len() == 0 && has_builder && (forall|j: int|
            0 <= j < unowned_kinds(owned@).len() ==> buildable(#[trigger] unowned_kinds(owned@)[j], keys@))
            ==> r.len() == num_choices,
        owned.len() == 0 && (forall|j: int|
            0 <= j < unowned_kinds(owned@).len() ==> !buildable(#[trigger] unowned_kinds(owned@)[j], keys@))
            ==> r.len() == 0,
{
    let mut r: Vec<PerkPlan> = Vec::new();
    let mut t: usize = 0;
    let ghost mut draws: Seq<(bool, int, int)> = Seq::empty();
    while t < num_choices
        invariant
            owned.len() <= max_spells,
            t <= num_choices,
            draws.len() == t,
            forall|i: int| 0 <= i < draws.len() ==> draws_fit(owned@, #[trigger] draws[i].1, draws[i].2),
            r@ == perks_for_draws(owned@, has_builder, keys@, max_spells as int, draws),
            r.len() <= t,
            forall|i: int|
                0 <= i < r.len() ==> match #[trigger] r@[i] {
                    PerkPlan::NewSpell(k) => {
                        &&& has_builder
                        &&& !owned@.contains(k)
                        &&& buildable(k, keys@)
                        &&& owned.len() < max_spells || owned.len() == 0
                    },
                    PerkPlan::Upgrade(s) => has_builder && s < owned.len(),
                },
            has_builder && owned.len() > 0 ==> r.len() == t,
            !has_builder ==> r.len() == 0,
            owned.len() > 0 && owned.len() == max_spells ==> forall|i: int| 0 <= i < r.len() ==> #[trigger] r@[i] is Upgrade,
            owned.len() == 0 ==> forall|i: int| 0 <= i < r.len() ==> #[trigger] r@[i] is NewSpell,
            owned.len() == 0 && has_builder && (forall|j: int|
                0 <= j < unowned_kinds(owned@).len() ==> buildable(#[trigger] unowned_kinds(owned@)[j], keys@))
                ==> r.len() == t,
            owned.len() == 0 && (forall|j: int|
                0 <= j < unowned_kinds(owned@).len() ==> !buildable(#[trigger] unowned_kinds(owned@)[j], keys@))
                ==> r.len() == 0,
        decreases num_choices - t,
    {
        let p = generate_perk(owned, has_builder, keys, max_spells);
        proof {
            let (coin, pick, slot) = choose|coin: bool, pick: int, slot: int|
                draws_fit(owned@, pick, slot) && p == #[trigger] perk_for_draws(
                    owned@,
                    has_builder,
                    keys@,
                    max_spells as int,
                    coin,
                    pick,
                    slot,
                );
            lemma_perk_shape(owned@, has_builder, keys@, max_spells as int, coin, pick, slot);
            let before = draws;
            draws = draws.push((coin, pick, slot));
            assert(draws.drop_last() =~= before);
        }
        match p {
            Some(perk) => {
                r.push(perk);
            },
            None => {},
        }
        t = t + 1;
    }
    r
}

/// What taking a level-up perk does.
#[derive(Clone, Copy, Debug, PartialEq, Eq, Structural)]
pub enum LevelUpResolution {
    /// The chosen slot holds no perk, or the perk upgrades a slot that holds
    /// no spell: nothing happens and the choice stays pending.
    Ignored,
    /// The new spell of the perk at this position is learned.
    LearnSpell(usize),
    /// The spell in this slot is upgraded by the perk's lines.
    UpgradeSpell(usize),
}

pub open spec fn level_up_resolution(choices: Seq<PerkPlan>, slot: int, spell_count: int) -> LevelUpResolution {
    if slot < 0 || slot >= choices.len() {
        LevelUpResolution::Ignored
    } else {
        match choices[slot] {
            PerkPlan::NewSpell(_) => LevelUpResolution::LearnSpell(slot as usize),
            PerkPlan::Upgrade(s) => if s < spell_count {
                LevelUpResolution::UpgradeSpell(s)
            } else {
                LevelUpResolution::Ignored
            },
        }
    }
}

/// Resolves the choice of the perk in `slot` among the pending `choices`,
/// for a player with `spell_count` spells.
pub fn resolve_level_up(choices: &Vec<PerkPlan>, slot: usize, spell_count: usize) -> (r: LevelUpResolution)
    ensures
        r == level_up_resolution(choices@, slot as int, spell_count as int),
{
    if slot >= choices.len() {
        return LevelUpResolution::Ignored;
    }
    match choices[slot] {
        PerkPlan::NewSpell(_) => LevelUpResolution::LearnSpell(slot),
        PerkPlan::Upgrade(s) => if s < spell_count {
            LevelUpResolution::UpgradeSpell(s)
        } else {
            LevelUpResolution::Ignored
        },
    }
}

} // verus!
