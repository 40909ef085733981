//! Spells and their upgrades: which upgrades apply to which spell, which
//! stat an upgrade changes, which rolls a new spell needs, and the names and
//! pictures shown for them.
use vstd::prelude::*;

verus! {

/// The three spells a player can learn.
#[derive(Clone, Copy, Debug, PartialEq, Eq, Hash, Structural)]
pub enum SpellKind {
    Fireball,
    Chainlightning,
    Frozenorb,
}

#[derive(Clone, Copy, Debug, PartialEq, Eq, Hash, Structural)]
pub enum SpellDownsideUpgrade {
    DownsideAddFriendlyFire,
    DownsideForceMovement,
    DownsideHpDrain,
}

#[derive(Clone, Copy, Debug, PartialEq, Eq, Hash, Default, Structural)]
pub enum FireballSpellRoll {
    #[default]
    Speed,
    BaseDamage,
    Size,
    ExplosionRadius,
    ExplosionDamageMult,
    ExplosionDuration,
}

#[derive(Clone, Copy, Debug, PartialEq, Eq, Hash, Default, Structural)]
pub enum ChainlightningSpellRoll {
    #[default]
    Speed,
    BaseDamage,
    BounceChildren,
    BounceRange,
    BounceMult,
}

#[derive(Clone, Copy, Debug, PartialEq, Eq, Hash, Default, Structural)]
pub enum FrozenorbSpellRoll {
    #[default]
    Speed,
    OrbSize,
    BaseDamage,
    ShardFrequency,
    ShardLifetime,
    ShardSpeed,
    ShardCount,
    ShardDamageMult,
}

/// One line of a spell upgrade: what it changes.
#[derive(Clone, Copy, Debug, PartialEq, Eq, Hash, Structural)]
pub enum SpellUpgrade {
    CooldownReduction,
    RemoveDownsides,
    SpellDownsideUpgrade(SpellDownsideUpgrade),
    FireballSpellUpgrade(FireballSpellRoll),
    ChainlightningSpellUpgrade(ChainlightningSpellRoll),
    FrozenorbSpellUpgrade(FrozenorbSpellRoll),
}

/// Whether an upgrade may be offered for a spell of `kind`: stat upgrades
/// only for their own spell, cooldown reduction and downsides always, and
/// the removal of downsides only when the spell has some.
pub open spec fn applicable(upgrade: SpellUpgrade, kind: SpellKind, has_downsides: bool) -> bool {
    match upgrade {
        SpellUpgrade::CooldownReduction => true,
        SpellUpgrade::RemoveDownsides => has_downsides,
        SpellUpgrade::SpellDownsideUpgrade(_) => true,
        SpellUpgrade::FireballSpellUpgrade(_) => kind == SpellKind::Fireball,
        SpellUpgrade::ChainlightningSpellUpgrade(_) => kind == SpellKind::Chainlightning,
        SpellUpgrade::FrozenorbSpellUpgrade(_) => kind == SpellKind::Frozenorb,
    }
}

/// Whether `upgrade` may be offered for a spell of `kind`.
pub fn is_applicable(upgrade: SpellUpgrade, kind: SpellKind, has_downsides: bool) -> (r: bool)
    ensures
        r == applicable(upgrade, kind, has_downsides),
{
    match upgrade {
        SpellUpgrade::CooldownReduction => true,
        SpellUpgrade::RemoveDownsides => has_downsides,
        SpellUpgrade::SpellDownsideUpgrade(_) => true,
        SpellUpgrade::FireballSpellUpgrade(_) => match kind {
            SpellKind::Fireball => true,
            _ => false,
        },
        SpellUpgrade::ChainlightningSpellUpgrade(_) => match kind {
            SpellKind::Chainlightning => true,
            _ => false,
        },
        SpellUpgrade::FrozenorbSpellUpgrade(_) => match kind {
            SpellKind::Frozenorb => true,
            _ => false,
        },
    }
}

/// Whether an upgrade line adds a downside (shown as a downgrade).
pub fn is_downside(upgrade: SpellUpgrade) -> (r: bool)
    ensures
        r == (upgrade is SpellDownsideUpgrade),
{
    match upgrade {
        SpellUpgrade::SpellDownsideUpgrade(_) => true,
        _ => false,
    }
}

/// A numeric stat of a spell generator.
#[derive(Clone, Copy, Debug, PartialEq, Eq, Hash, Structural)]
pub enum SpellStat {
    FireballSpeed,
    FireballBaseDamage,
    FireballRadius,
    FireballExplosionRadius,
    FireballExplosionDamageMultiplier,
    FireballExplosionLifetime,
    ChainlightningSpeed,
    ChainlightningBaseDamage,
    ChainlightningBounceChildren,
    ChainlightningBounceRange,
    ChainlightningBounceMult,
    FrozenorbSpeed,
    FrozenorbOrbSize,
    FrozenorbBaseDamage,
    FrozenorbShardFrequency,
    FrozenorbShardSpeed,
    FrozenorbShardLifetime,
    FrozenorbShardCount,
}

/// What applying one rolled upgrade line with value `v` does to a spell.
#[derive(Clone, Copy, Debug, PartialEq, Eq, Hash, Structural)]
pub enum UpgradeEffect {
    /// The cooldown becomes `v` times as long, and repeating.
    ScaleCooldown,
    /// All downsides are removed.
    ClearDownsides,
    /// A downside of this kind, of strength `v`, is added.
    AddDownside(SpellDownsideUpgrade),
    /// `v` is added to the stat.
    AddToStat(SpellStat),
    /// The stat is multiplied by `v`.
    MultiplyStat(SpellStat),
    /// The line does not fit the spell and changes nothing.
    Unprocessed,
}

pub open spec fn fireball_stat(r: FireballSpellRoll) -> SpellStat {
    match r {
        FireballSpellRoll::Speed => SpellStat::FireballSpeed,
        FireballSpellRoll::BaseDamage => SpellStat::FireballBaseDamage,
        FireballSpellRoll::Size => SpellStat::FireballRadius,
        FireballSpellRoll::ExplosionRadius => SpellStat::FireballExplosionRadius,
        FireballSpellRoll::ExplosionDamageMult => SpellStat::FireballExplosionDamageMultiplier,
        FireballSpellRoll::ExplosionDuration => SpellStat::FireballExplosionLifetime,
    }
}

pub open spec fn chainlightning_stat(r: ChainlightningSpellRoll) -> SpellStat {
    match r {
        ChainlightningSpellRoll::Speed => SpellStat::ChainlightningSpeed,
        ChainlightningSpellRoll::BaseDamage => SpellStat::ChainlightningBaseDamage,
        ChainlightningSpellRoll::BounceChildren => SpellStat::ChainlightningBounceChildren,
        ChainlightningSpellRoll::BounceRange => SpellStat::ChainlightningBounceRange,
        ChainlightningSpellRoll::BounceMult => SpellStat::ChainlightningBounceMult,
    }
}

/// The stat that a frozen orb roll adds to. The shard damage roll adds to
/// the shard lifetime, as the game has always done.
pub open spec fn frozenorb_stat(r: FrozenorbSpellRoll) -> SpellStat {
    match r {
        FrozenorbSpellRoll::Speed => SpellStat::FrozenorbSpeed,
        FrozenorbSpellRoll::OrbSize => SpellStat::FrozenorbOrbSize,
        FrozenorbSpellRoll::BaseDamage => SpellStat::FrozenorbBaseDamage,
        FrozenorbSpellRoll::ShardFrequency => SpellStat::FrozenorbShardFrequency,
        FrozenorbSpellRoll::ShardLifetime => SpellStat::FrozenorbShardLifetime,
        FrozenorbSpellRoll::ShardSpeed => SpellStat::FrozenorbShardSpeed,
        FrozenorbSpellRoll::ShardCount => SpellStat::FrozenorbShardCount,
        FrozenorbSpellRoll::ShardDamageMult => SpellStat::FrozenorbShardLifetime,
    }
}

/// What an upgrade line does to a spell of `kind`.
pub fn upgrade_effect(upgrade: SpellUpgrade, kind: SpellKind) -> (r: UpgradeEffect)
    ensures
        upgrade == SpellUpgrade::CooldownReduction ==> r == UpgradeEffect::ScaleCooldown,
        upgrade == SpellUpgrade::RemoveDownsides ==> r == UpgradeEffect::ClearDownsides,
        upgrade matches SpellUpgrade::SpellDownsideUpgrade(d) ==> r == UpgradeEffect::AddDownside(d),
        upgrade matches SpellUpgrade::FireballSpellUpgrade(roll) ==> r == (if kind != SpellKind::Fireball {
            UpgradeEffect::Unprocessed
        } else if roll == FireballSpellRoll::ExplosionDamageMult {
            UpgradeEffect::MultiplyStat(fireball_stat(roll))
        } else {
            UpgradeEffect::AddToStat(fireball_stat(roll))
        }),
        upgrade matches SpellUpgrade::ChainlightningSpellUpgrade(roll) ==> r == (if kind
            != SpellKind::Chainlightning {
            UpgradeEffect::Unprocessed
        } else {
            UpgradeEffect::AddToStat(chainlightning_stat(roll))
        }),
        upgrade matches SpellUpgrade::FrozenorbSpellUpgrade(roll) ==> r == (if kind != SpellKind::Frozenorb {
            UpgradeEffect::Unprocessed
        } else {
            UpgradeEffect::AddToStat(frozenorb_stat(roll))
        }),
{
    match upgrade {
        SpellUpgrade::CooldownReduction => UpgradeEffect::ScaleCooldown,
        SpellUpgrade::RemoveDownsides => UpgradeEffect::ClearDownsides,
        SpellUpgrade::SpellDownsideUpgrade(d) => UpgradeEffect::AddDownside(d),
        SpellUpgrade::FireballSpellUpgrade(roll) => match kind {
            SpellKind::Fireball => match roll {
                FireballSpellRoll::Speed => UpgradeEffect::AddToStat(SpellStat::FireballSpeed),
                FireballSpellRoll::BaseDamage => UpgradeEffect::AddToStat(SpellStat::FireballBaseDamage),
                FireballSpellRoll::Size => UpgradeEffect::AddToStat(SpellStat::FireballRadius),
                FireballSpellRoll::ExplosionRadius => UpgradeEffect::AddToStat(
                    SpellStat::FireballExplosionRadius,
                ),
                FireballSpellRoll::ExplosionDamageMult => UpgradeEffect::MultiplyStat(
                    SpellStat::FireballExplosionDamageMultiplier,
                ),
                FireballSpellRoll::ExplosionDuration => UpgradeEffect::AddToStat(
                    SpellStat::FireballExplosionLifetime,
                ),
            },
            _ => UpgradeEffect::Unprocessed,
        },
        SpellUpgrade::ChainlightningSpellUpgrade(roll) => match kind {
            SpellKind::Chainlightning => match roll {
                ChainlightningSpellRoll::Speed => UpgradeEffect::AddToStat(SpellStat::ChainlightningSpeed),
                ChainlightningSpellRoll::BaseDamage => UpgradeEffect::AddToStat(
                    SpellStat::ChainlightningBaseDamage,
                ),
                ChainlightningSpellRoll::BounceChildren => UpgradeEffect::AddToStat(
                    SpellStat::ChainlightningBounceChildren,
                ),
                ChainlightningSpellRoll::BounceRange => UpgradeEffect::AddToStat(
                    SpellStat::ChainlightningBounceRange,
                ),
                ChainlightningSpellRoll::BounceMult => UpgradeEffect::AddToStat(
                    SpellStat::ChainlightningBounceMult,
                ),
            },
            _ => UpgradeEffect::Unprocessed,
        },
        SpellUpgrade::FrozenorbSpellUpgrade(roll) => match kind {
            SpellKind::Frozenorb => match roll {
                FrozenorbSpellRoll::Speed => UpgradeEffect::AddToStat(SpellStat::FrozenorbSpeed),
                FrozenorbSpellRoll::OrbSize => UpgradeEffect::AddToStat(SpellStat::FrozenorbOrbSize),
                FrozenorbSpellRoll::BaseDamage => UpgradeEffect::AddToStat(SpellStat::FrozenorbBaseDamage),
                FrozenorbSpellRoll::ShardFrequency => UpgradeEffect::AddToStat(
                    SpellStat::FrozenorbShardFrequency,
                ),
                FrozenorbSpellRoll::ShardSpeed => UpgradeEffect::AddToStat(SpellStat::FrozenorbShardSpeed),
                FrozenorbSpellRoll::ShardLifetime => UpgradeEffect::AddToStat(
                    SpellStat::FrozenorbShardLifetime,
                ),
                FrozenorbSpellRoll::ShardCount => UpgradeEffect::AddToStat(SpellStat::FrozenorbShardCount),
                FrozenorbSpellRoll::ShardDamageMult => UpgradeEffect::AddToStat(
                    SpellStat::FrozenorbShardLifetime,
                ),
            },
            _ => UpgradeEffect::Unprocessed,
        },
    }
}

/// The rolls that make up a new spell of `kind`, in the order in which they
/// are rolled and listed.
pub open spec fn spell_roll_list(kind: SpellKind) -> Seq<SpellUpgrade> {
    match kind {
        SpellKind::Fireball => seq![
            SpellUpgrade::FireballSpellUpgrade(FireballSpellRoll::Speed),
            SpellUpgrade::FireballSpellUpgrade(FireballSpellRoll::BaseDamage),
            SpellUpgrade::FireballSpellUpgrade(FireballSpellRoll::Size),
            SpellUpgrade::FireballSpellUpgrade(FireballSpellRoll::ExplosionRadius),
            SpellUpgrade::FireballSpellUpgrade(FireballSpellRoll::ExplosionDamageMult),
            SpellUpgrade::FireballSpellUpgrade(FireballSpellRoll::ExplosionDuration),
        ],
        SpellKind::Chainlightning => seq![
            SpellUpgrade::ChainlightningSpellUpgrade(ChainlightningSpellRoll::Speed),
            SpellUpgrade::ChainlightningSpellUpgrade(ChainlightningSpellRoll::BaseDamage),
            SpellUpgrade::ChainlightningSpellUpgrade(ChainlightningSpellRoll::BounceChildren),
            SpellUpgrade::ChainlightningSpellUpgrade(ChainlightningSpellRoll::BounceRange),
            SpellUpgrade::ChainlightningSpellUpgrade(ChainlightningSpellRoll::BounceMult),
        ],
        SpellKind::Frozenorb => seq![
            SpellUpgrade::FrozenorbSpellUpgrade(FrozenorbSpellRoll::Speed),
            SpellUpgrade::FrozenorbSpellUpgrade(FrozenorbSpellRoll::OrbSize),
            SpellUpgrade::FrozenorbSpellUpgrade(FrozenorbSpellRoll::BaseDamage),
            SpellUpgrade::FrozenorbSpellUpgrade(FrozenorbSpellRoll::ShardFrequency),
            SpellUpgrade::FrozenorbSpellUpgrade(FrozenorbSpellRoll::ShardSpeed),
            SpellUpgrade::FrozenorbSpellUpgrade(FrozenorbSpellRoll::ShardLifetime),
            SpellUpgrade::FrozenorbSpellUpgrade(FrozenorbSpellRoll::ShardDamageMult),
            SpellUpgrade::FrozenorbSpellUpgrade(FrozenorbSpellRoll::ShardCount),
        ],
    }
}

/// The rolls that make up a new spell of `kind`, in rolling order.
pub fn spell_rolls(kind: SpellKind) -> (r: Vec<SpellUpgrade>)
    ensures
        r@ == spell_roll_list(kind),
{
    match kind {
        SpellKind::Fireball => vec![
            SpellUpgrade::FireballSpellUpgrade(FireballSpellRoll::Speed),
            SpellUpgrade::FireballSpellUpgrade(FireballSpellRoll::BaseDamage),
            SpellUpgrade::FireballSpellUpgrade(FireballSpellRoll::Size),
            SpellUpgrade::FireballSpellUpgrade(FireballSpellRoll::ExplosionRadius),
            SpellUpgrade::FireballSpellUpgrade(FireballSpellRoll::ExplosionDamageMult),
            SpellUpgrade::FireballSpellUpgrade(FireballSpellRoll::ExplosionDuration),
        ],
        SpellKind::Chainlightning => vec![
            SpellUpgrade::ChainlightningSpellUpgrade(ChainlightningSpellRoll::Speed),
            SpellUpgrade::ChainlightningSpellUpgrade(ChainlightningSpellRoll::BaseDamage),
            SpellUpgrade::ChainlightningSpellUpgrade(ChainlightningSpellRoll::BounceChildren),
            SpellUpgrade::ChainlightningSpellUpgrade(ChainlightningSpellRoll::BounceRange),
            SpellUpgrade::ChainlightningSpellUpgrade(ChainlightningSpellRoll::BounceMult),
        ],
        SpellKind::Frozenorb => vec![
            SpellUpgrade::FrozenorbSpellUpgrade(FrozenorbSpellRoll::Speed),
            SpellUpgrade::FrozenorbSpellUpgrade(FrozenorbSpellRoll::OrbSize),
            SpellUpgrade::FrozenorbSpellUpgrade(FrozenorbSpellRoll::BaseDamage),
            SpellUpgrade::FrozenorbSpellUpgrade(FrozenorbSpellRoll::ShardFrequency),
            SpellUpgrade::FrozenorbSpellUpgrade(FrozenorbSpellRoll::ShardSpeed),
            SpellUpgrade::FrozenorbSpellUpgrade(FrozenorbSpellRoll::ShardLifetime),
            SpellUpgrade::FrozenorbSpellUpgrade(FrozenorbSpellRoll::ShardDamageMult),
            SpellUpgrade::FrozenorbSpellUpgrade(FrozenorbSpellRoll::ShardCount),
        ],
    }
}

/// Whether `u` occurs in `v`.
pub fn contains_upgrade(v: &Vec<SpellUpgrade>, u: SpellUpgrade) -> (r: bool)
    ensures
        r == v@.contains(u),
{
    let mut i: usize = 0;
    while i < v.len()
        invariant
            i <= v.len(),
            forall|j: int| 0 <= j < i ==> v@[j] != u,
        decreases v.len() - i,
    {
        if v[i] == u {
            return true;
        }
        i = i + 1;
    }
    false
}

/// A stat roll is offered only for the spell it belongs to, and for every
/// spell of that kind; cooldown reduction and downsides are offered for any
/// spell, and the removal of downsides exactly when the spell has some.
pub proof fn lemma_stat_rolls_own_kind(kind: SpellKind, has_downsides: bool)
    ensures
        forall|r: FireballSpellRoll|
            #[trigger] applicable(SpellUpgrade::FireballSpellUpgrade(r), kind, has_downsides) <==> kind
                == SpellKind::Fireball,
        forall|r: ChainlightningSpellRoll|
            #[trigger] applicable(SpellUpgrade::ChainlightningSpellUpgrade(r), kind, has_downsides) <==> kind
                == SpellKind::Chainlightning,
        forall|r: FrozenorbSpellRoll|
            #[trigger] applicable(SpellUpgrade::FrozenorbSpellUpgrade(r), kind, has_downsides) <==> kind
                == SpellKind::Frozenorb,
        forall|d: SpellDownsideUpgrade|
            #[trigger] applicable(SpellUpgrade::SpellDownsideUpgrade(d), kind, has_downsides),
        applicable(SpellUpgrade::CooldownReduction, kind, has_downsides),
        applicable(SpellUpgrade::RemoveDownsides, kind, has_downsides) <==> has_downsides,
{
}

/// Different stat rolls of a spell change different stats, and each stat of
/// the spell is changed by some roll. The one exception is the frozen orb's
/// shard damage roll, which changes the shard lifetime like the shard
/// lifetime roll does.
pub proof fn lemma_rolls_change_distinct_stats()
    ensures
        forall|a: FireballSpellRoll, b: FireballSpellRoll| a != b ==> #[trigger] fireball_stat(a) != #[trigger] fireball_stat(b),
        forall|a: ChainlightningSpellRoll, b: ChainlightningSpellRoll|
            a != b ==> #[trigger] chainlightning_stat(a) != #[trigger] chainlightning_stat(b),
        forall|a: FrozenorbSpellRoll, b: FrozenorbSpellRoll|
            a != b && a != FrozenorbSpellRoll::ShardDamageMult && b != FrozenorbSpellRoll::ShardDamageMult
                ==> #[trigger] frozenorb_stat(a) != #[trigger] frozenorb_stat(b),
        frozenorb_stat(FrozenorbSpellRoll::ShardDamageMult) == frozenorb_stat(FrozenorbSpellRoll::ShardLifetime),
{
}

/// Each stat roll changes the stat of its own name (the shard damage roll of
/// the frozen orb excepted, which changes the shard lifetime), and only the
/// explosion damage roll of the fireball multiplies where the others add.
pub proof fn lemma_roll_stat_names()
    ensures
        fireball_stat(FireballSpellRoll::Speed) == SpellStat::FireballSpeed,
        fireball_stat(FireballSpellRoll::BaseDamage) == SpellStat::FireballBaseDamage,
        fireball_stat(FireballSpellRoll::Size) == SpellStat::FireballRadius,
        fireball_stat(FireballSpellRoll::ExplosionRadius) == SpellStat::FireballExplosionRadius,
        fireball_stat(FireballSpellRoll::ExplosionDamageMult) == SpellStat::FireballExplosionDamageMultiplier,
        fireball_stat(FireballSpellRoll::ExplosionDuration) == SpellStat::FireballExplosionLifetime,
        chainlightning_stat(ChainlightningSpellRoll::Speed) == SpellStat::ChainlightningSpeed,
        chainlightning_stat(ChainlightningSpellRoll::BaseDamage) == SpellStat::ChainlightningBaseDamage,
        chainlightning_stat(ChainlightningSpellRoll::BounceChildren) == SpellStat::ChainlightningBounceChildren,
        chainlightning_stat(ChainlightningSpellRoll::BounceRange) == SpellStat::ChainlightningBounceRange,
        chainlightning_stat(ChainlightningSpellRoll::BounceMult) == SpellStat::ChainlightningBounceMult,
        frozenorb_stat(FrozenorbSpellRoll::Speed) == SpellStat::FrozenorbSpeed,
        frozenorb_stat(FrozenorbSpellRoll::OrbSize) == SpellStat::FrozenorbOrbSize,
        frozenorb_stat(FrozenorbSpellRoll::BaseDamage) == SpellStat::FrozenorbBaseDamage,
        frozenorb_stat(FrozenorbSpellRoll::ShardFrequency) == SpellStat::FrozenorbShardFrequency,
        frozenorb_stat(FrozenorbSpellRoll::ShardLifetime) == SpellStat::FrozenorbShardLifetime,
        frozenorb_stat(FrozenorbSpellRoll::ShardSpeed) == SpellStat::FrozenorbShardSpeed,
        frozenorb_stat(FrozenorbSpellRoll::ShardCount) == SpellStat::FrozenorbShardCount,
        frozenorb_stat(FrozenorbSpellRoll::ShardDamageMult) == SpellStat::FrozenorbShardLifetime,
{
}

/// Whether an upgrade is a stat roll of the spell `kind`.
pub open spec fn is_roll_of(u: SpellUpgrade, kind: SpellKind) -> bool {
    ||| (u is FireballSpellUpgrade && kind == SpellKind::Fireball)
    ||| (u is ChainlightningSpellUpgrade && kind == SpellKind::Chainlightning)
    ||| (u is FrozenorbSpellUpgrade && kind == SpellKind::Frozenorb)
}

/// A new spell rolls each of its own stat rolls exactly once, and nothing
/// else: the list has no duplicate, holds only rolls of its spell, and holds
/// every roll of its spell.
pub proof fn lemma_spell_rolls_complete(kind: SpellKind)
    ensures
        spell_roll_list(kind).no_duplicates(),
        forall|j: int| 0 <= j < spell_roll_list(kind).len() ==> is_roll_of(#[trigger] spell_roll_list(kind)[j], kind),
        kind == SpellKind::Fireball ==> forall|r: FireballSpellRoll|
            #[trigger] spell_roll_list(kind).contains(SpellUpgrade::FireballSpellUpgrade(r)),
        kind == SpellKind::Chainlightning ==> forall|r: ChainlightningSpellRoll|
            #[trigger] spell_roll_list(kind).contains(SpellUpgrade::ChainlightningSpellUpgrade(r)),
        kind == SpellKind::Frozenorb ==> forall|r: FrozenorbSpellRoll|
            #[trigger] spell_roll_list(kind).contains(SpellUpgrade::FrozenorbSpellUpgrade(r)),
{
    let s = spell_roll_list(kind);
    match kind {
        SpellKind::Fireball => {
            assert forall|r: FireballSpellRoll| #[trigger] s.contains(SpellUpgrade::FireballSpellUpgrade(r)) by {
                let u = SpellUpgrade::FireballSpellUpgrade(r);
                match r {
                    FireballSpellRoll::Speed => assert(s[0] == u),
                    FireballSpellRoll::BaseDamage => assert(s[1] == u),
                    FireballSpellRoll::Size => assert(s[2] == u),
                    FireballSpellRoll::ExplosionRadius => assert(s[3] == u),
                    FireballSpellRoll::ExplosionDamageMult => assert(s[4] == u),
                    FireballSpellRoll::ExplosionDuration => assert(s[5] == u),
                }
            }
        },
        SpellKind::Chainlightning => {
            assert forall|r: ChainlightningSpellRoll| #[trigger] s.contains(SpellUpgrade::ChainlightningSpellUpgrade(r)) by {
                let u = SpellUpgrade::ChainlightningSpellUpgrade(r);
                match r {
                    ChainlightningSpellRoll::Speed => assert(s[0] == u),
                    ChainlightningSpellRoll::BaseDamage => assert(s[1] == u),
                    ChainlightningSpellRoll::BounceChildren => assert(s[2] == u),
                    ChainlightningSpellRoll::BounceRange => assert(s[3] == u),
                    ChainlightningSpellRoll::BounceMult => assert(s[4] == u),
                }
            }
        },
        SpellKind::Frozenorb => {
            assert forall|r: FrozenorbSpellRoll| #[trigger] s.contains(SpellUpgrade::FrozenorbSpellUpgrade(r)) by {
                let u = SpellUpgrade::FrozenorbSpellUpgrade(r);
                match r {
                    FrozenorbSpellRoll::Speed => assert(s[0] == u),
                    FrozenorbSpellRoll::OrbSize => assert(s[1] == u),
                    FrozenorbSpellRoll::BaseDamage => assert(s[2] == u),
                    FrozenorbSpellRoll::ShardFrequency => assert(s[3] == u),
                    FrozenorbSpellRoll::ShardSpeed => assert(s[4] == u),
                    FrozenorbSpellRoll::ShardLifetime => assert(s[5] == u),
                    FrozenorbSpellRoll::ShardDamageMult => assert(s[6] == u),
                    FrozenorbSpellRoll::ShardCount => assert(s[7] == u),
                }
            }
        },
    }
}

/// Whether a spell of `kind` can be made from a set of rolls whose upgrades
/// are `keys`: every roll that the spell needs must be there.
pub fn can_build(kind: SpellKind, keys: &Vec<SpellUpgrade>) -> (r: bool)
    ensures
        r == (forall|j: int| 0 <= j < spell_roll_list(kind).len() ==> keys@.contains(#[trigger] spell_roll_list(kind)[j])),
{
    let needed = spell_rolls(kind);
    let mut i: usize = 0;
    while i < needed.len()
        invariant
            needed@ == spell_roll_list(kind),
            i <= needed.len(),
            forall|j: int| 0 <= j < i ==> keys@.contains(#[trigger] spell_roll_list(kind)[j]),
        decreases needed.len() - i,
    {
        if !contains_upgrade(keys, needed[i]) {
            return false;
        }
        i = i + 1;
    }
    true
}

/// The title of the card that offers a new spell of `kind`.
pub fn new_spell_title(kind: SpellKind) -> (r: &'static str)
    ensures
        kind == SpellKind::Fireball ==> r@ == "Marshmallow"@,
        kind == SpellKind::Chainlightning ==> r@ == "Candy Cane"@,
        kind == SpellKind::Frozenorb ==> r@ == "Cotton Candy"@,
{
    match kind {
        SpellKind::Fireball => "Marshmallow",
        SpellKind::Chainlightning => "Candy Cane",
        SpellKind::Frozenorb => "Cotton Candy",
    }
}

/// The title of the card that offers an upgrade.
pub fn upgrade_title() -> (r: &'static str)
    ensures
        r@ == "Upgrade"@,
{
    "Upgrade"
}

/// The picture on a level-up card for a spell of `kind`.
pub fn perk_card_texture(kind: SpellKind) -> (r: &'static str)
    ensures
        kind == SpellKind::Fireball ==> r@ == "fireball_big"@,
        kind == SpellKind::Chainlightning ==> r@ == "lightning"@,
        kind == SpellKind::Frozenorb ==> r@ == "frozenorb"@,
{
    match kind {
        SpellKind::Fireball => "fireball_big",
        SpellKind::Chainlightning => "lightning",
        SpellKind::Frozenorb => "frozenorb",
    }
}

/// The picture in a spell bar slot for a spell of `kind`.
pub fn spell_slot_texture(kind: SpellKind) -> (r: &'static str)
    ensures
        kind == SpellKind::Fireball ==> r@ == "fireball"@,
        kind == SpellKind::Chainlightning ==> r@ == "lightning"@,
        kind == SpellKind::Frozenorb ==> r@ == "frozenorb"@,
{
    match kind {
        SpellKind::Fireball => "fireball",
        SpellKind::Chainlightning => "lightning",
        SpellKind::Frozenorb => "frozenorb",
    }
}

/// The team a spell's projectiles belong to: a spell with the friendly
/// fire downside casts for `other_team`, so that it also hits the caster's
/// own team; any other spell casts for the caster's team.
pub fn cast_team(friendly_fire: bool, caster_team: u8, other_team: u8) -> (r: u8)
    ensures
        r == (if friendly_fire { other_team } else { caster_team }),
{
    if friendly_fire { other_team } else { caster_team }
}


/// The first spell bar slot still to be drawn when slots up to
/// `max_existing` are drawn already.
pub open spec fn first_new_slot(max_existing: Option<usize>) -> int {
    match max_existing {
        Some(m) => m + 1,
        None => 0,
    }
}

/// The spell bar slots to draw for a spell book of `spell_count` spells:
/// those past the highest slot drawn already, in order.
pub fn spell_slots_to_add(spell_count: usize, max_existing: Option<usize>) -> (r: Vec<usize>)
    ensures
        r.len() == (if first_new_slot(max_existing) < spell_count {
            spell_count - first_new_slot(max_existing)
        } else {
            0
        }),
        forall|i: int| 0 <= i < r.len() ==> #[trigger] r@[i] == first_new_slot(max_existing) + i,
{
    let mut r: Vec<usize> = Vec::new();
    let mut i: usize = 0;
    while i < spell_count
        invariant
            i <= spell_count,
            r.len() == (if first_new_slot(max_existing) < i { i - first_new_slot(max_existing) } else { 0 }),
            forall|k: int| 0 <= k < r.len() ==> #[trigger] r@[k] == first_new_slot(max_existing) + k,
        decreases spell_count - i,
    {
        let skip = match max_existing {
            Some(m) => i <= m,
            None => false,
        };
        if !skip {
            r.push(i);
        }
        i = i + 1;
    }
    r
}

} // verus!
