use candyland::magic::{chain_bounce_targets, plan_chain_bounce, ready_spell_slots, BounceCandidate};
use candyland::combat::CombatantState;
use candyland::spells::{
    can_build, cast_team, is_applicable, is_downside, new_spell_title, perk_card_texture,
    spell_rolls, spell_slot_texture, spell_slots_to_add, upgrade_effect, upgrade_title,
    ChainlightningSpellRoll, FireballSpellRoll, FrozenorbSpellRoll, SpellDownsideUpgrade,
    SpellKind, SpellStat, SpellUpgrade, UpgradeEffect,
};
use candyland::upgrades::{
    pick_upgrade_lines, select_upgrade_lines, upgrade_line_count, upgrade_pools, RollEntry,
};

#[test]
fn applicability_of_upgrades() {
    let fb = SpellUpgrade::FireballSpellUpgrade(FireballSpellRoll::Size);
    assert!(is_applicable(fb, SpellKind::Fireball, false));
    assert!(!is_applicable(fb, SpellKind::Frozenorb, false));
    assert!(is_applicable(SpellUpgrade::CooldownReduction, SpellKind::Chainlightning, false));
    assert!(!is_applicable(SpellUpgrade::RemoveDownsides, SpellKind::Fireball, false));
    assert!(is_applicable(SpellUpgrade::RemoveDownsides, SpellKind::Fireball, true));
    let down = SpellUpgrade::SpellDownsideUpgrade(SpellDownsideUpgrade::DownsideHpDrain);
    assert!(is_applicable(down, SpellKind::Frozenorb, false));
    assert!(is_downside(down));
    assert!(!is_downside(fb));
}

#[test]
fn upgrade_effects() {
    assert_eq!(upgrade_effect(SpellUpgrade::CooldownReduction, SpellKind::Fireball), UpgradeEffect::ScaleCooldown);
    assert_eq!(upgrade_effect(SpellUpgrade::RemoveDownsides, SpellKind::Fireball), UpgradeEffect::ClearDownsides);
    assert_eq!(
        upgrade_effect(SpellUpgrade::FireballSpellUpgrade(FireballSpellRoll::ExplosionDamageMult), SpellKind::Fireball),
        UpgradeEffect::MultiplyStat(SpellStat::FireballExplosionDamageMultiplier)
    );
    assert_eq!(
        upgrade_effect(SpellUpgrade::FireballSpellUpgrade(FireballSpellRoll::Size), SpellKind::Fireball),
        UpgradeEffect::AddToStat(SpellStat::FireballRadius)
    );
    assert_eq!(
        upgrade_effect(SpellUpgrade::FireballSpellUpgrade(FireballSpellRoll::Size), SpellKind::Chainlightning),
        UpgradeEffect::Unprocessed
    );
    assert_eq!(
        upgrade_effect(
            SpellUpgrade::ChainlightningSpellUpgrade(ChainlightningSpellRoll::BounceRange),
            SpellKind::Chainlightning
        ),
        UpgradeEffect::AddToStat(SpellStat::ChainlightningBounceRange)
    );
    assert_eq!(
        upgrade_effect(SpellUpgrade::FrozenorbSpellUpgrade(FrozenorbSpellRoll::ShardDamageMult), SpellKind::Frozenorb),
        UpgradeEffect::AddToStat(SpellStat::FrozenorbShardLifetime)
    );
    assert_eq!(
        upgrade_effect(
            SpellUpgrade::SpellDownsideUpgrade(SpellDownsideUpgrade::DownsideForceMovement),
            SpellKind::Frozenorb
        ),
        UpgradeEffect::AddDownside(SpellDownsideUpgrade::DownsideForceMovement)
    );
}

#[test]
fn rolls_of_new_spells() {
    assert_eq!(spell_rolls(SpellKind::Fireball).len(), 6);
    assert_eq!(spell_rolls(SpellKind::Chainlightning).len(), 5);
    let orb = spell_rolls(SpellKind::Frozenorb);
    assert_eq!(orb.len(), 8);
    assert_eq!(orb[6], SpellUpgrade::FrozenorbSpellUpgrade(FrozenorbSpellRoll::ShardDamageMult));
    let mut keys = spell_rolls(SpellKind::Fireball);
    assert!(can_build(SpellKind::Fireball, &keys));
    keys.pop();
    assert!(!can_build(SpellKind::Fireball, &keys));
    assert!(!can_build(SpellKind::Chainlightning, &keys));
}

#[test]
fn names_and_pictures() {
    assert_eq!(new_spell_title(SpellKind::Fireball), "Marshmallow");
    assert_eq!(new_spell_title(SpellKind::Chainlightning), "Candy Cane");
    assert_eq!(new_spell_title(SpellKind::Frozenorb), "Cotton Candy");
    assert_eq!(upgrade_title(), "Upgrade");
    assert_eq!(perk_card_texture(SpellKind::Fireball), "fireball_big");
    assert_eq!(spell_slot_texture(SpellKind::Fireball), "fireball");
    assert_eq!(spell_slot_texture(SpellKind::Frozenorb), "frozenorb");
    assert_eq!(perk_card_texture(SpellKind::Chainlightning), "lightning");
}

#[test]
fn friendly_fire_changes_team() {
    assert_eq!(cast_team(true, 1, 9), 9);
    assert_eq!(cast_team(false, 1, 9), 1);
}

#[test]
fn spell_bar_slots() {
    assert_eq!(spell_slots_to_add(3, None), vec![0, 1, 2]);
    assert_eq!(spell_slots_to_add(3, Some(0)), vec![1, 2]);
    assert!(spell_slots_to_add(2, Some(4)).is_empty());
}

fn entry(upgrade: SpellUpgrade, is_downside: bool) -> RollEntry {
    RollEntry { upgrade, is_downside }
}

fn sample_entries() -> Vec<RollEntry> {
    vec![
        entry(SpellUpgrade::FireballSpellUpgrade(FireballSpellRoll::Speed), false),
        entry(SpellUpgrade::FrozenorbSpellUpgrade(FrozenorbSpellRoll::Speed), false),
        entry(SpellUpgrade::CooldownReduction, false),
        entry(SpellUpgrade::SpellDownsideUpgrade(SpellDownsideUpgrade::DownsideHpDrain), true),
        entry(SpellUpgrade::RemoveDownsides, false),
        entry(SpellUpgrade::FireballSpellUpgrade(FireballSpellRoll::Size), false),
    ]
}

#[test]
fn pools_and_counts() {
    let e = sample_entries();
    let (up, down) = upgrade_pools(&e, SpellKind::Fireball, false);
    assert_eq!(up, vec![0, 2, 5]);
    assert_eq!(down, vec![3]);
    let (up2, _) = upgrade_pools(&e, SpellKind::Fireball, true);
    assert_eq!(up2, vec![0, 2, 4, 5]);
    assert_eq!(upgrade_line_count(2, false, false), 2);
    assert_eq!(upgrade_line_count(2, true, false), 4);
    assert_eq!(upgrade_line_count(2, false, true), 4);
    assert_eq!(upgrade_line_count(2, true, true), 5);
}

#[test]
fn picking_lines_from_ordered_pools() {
    let e = sample_entries();
    assert_eq!(pick_upgrade_lines(&e, &vec![5, 0, 2], &vec![3], 1, false, 0), vec![5]);
    assert_eq!(pick_upgrade_lines(&e, &vec![5, 0, 2], &vec![3], 1, false, 1), vec![5, 0, 2, 3]);
    // an offer holding the removal of downsides is that line alone
    assert_eq!(pick_upgrade_lines(&e, &vec![0, 4, 2], &vec![3], 2, false, 1), vec![4]);
    assert_eq!(pick_upgrade_lines(&e, &vec![0, 2, 4], &vec![3], 1, false, 0), vec![0]);
}

#[test]
fn selected_lines_apply_and_are_distinct() {
    let e = sample_entries();
    for _ in 0..50 {
        let r = select_upgrade_lines(&e, SpellKind::Fireball, false, 1, true, 2);
        // one downside applies, so one is rolled; 1 + 3 upgrade lines from a pool of 3
        assert_eq!(r.len(), 4);
        assert_eq!(r[3], 3);
        let mut sorted = r.clone();
        sorted.sort();
        assert_eq!(sorted, vec![0, 2, 3, 5]);
        let with_removal = select_upgrade_lines(&e, SpellKind::Fireball, true, 4, false, 0);
        assert_eq!(with_removal, vec![4]);
        let no_downside = select_upgrade_lines(&e, SpellKind::Frozenorb, false, 0, false, 5);
        // the downside pool is not empty, so five are rolled, but only one exists
        assert_eq!(no_downside.len(), 3);
    }
}

#[test]
fn ready_slots() {
    let fine = CombatantState::default();
    assert_eq!(ready_spell_slots(false, fine, 3, &vec![false, true, false, false]), vec![0, 2]);
    assert!(ready_spell_slots(true, fine, 3, &vec![false, false, false]).is_empty());
    let stunned = CombatantState { stunned: true, ..fine };
    assert!(ready_spell_slots(false, stunned, 3, &vec![false, false, false]).is_empty());
}

fn bc(hp: u32, team: u8, within_range: bool, is_struck: bool) -> BounceCandidate {
    BounceCandidate { hp, team, within_range, is_struck }
}

#[test]
fn chain_bounces() {
    let cs = vec![
        bc(5, 2, true, true),
        bc(0, 2, true, false),
        bc(5, 1, true, false),
        bc(5, 2, false, false),
        bc(5, 2, true, false),
        bc(9, 3, true, false),
        bc(9, 3, true, false),
    ];
    let b = plan_chain_bounce(1, 3, 2, 1, 7, &cs).unwrap();
    assert_eq!(b.targets, vec![4, 5]);
    assert_eq!(b.bounces, 2);
    assert_eq!(b.bounces_left, 2);
    assert_eq!(b.damage, Some(14));
    let big = plan_chain_bounce(1, 3, 2, 1, u32::MAX, &cs).unwrap();
    assert_eq!(big.damage, None);
    assert!(plan_chain_bounce(1, 0, 2, 1, 7, &cs).is_none());
}

#[test]
fn selected_lines_come_in_shuffled_orders() {
    let e = sample_entries();
    let mut orders: Vec<Vec<usize>> = Vec::new();
    for _ in 0..200 {
        let r = select_upgrade_lines(&e, SpellKind::Fireball, false, 1, true, 0);
        assert_eq!(r.len(), 3);
        if !orders.contains(&r) {
            orders.push(r);
        }
    }
    // three lines can come in six orders; an unshuffled pool would give one
    assert!(orders.len() > 1);
    assert!(orders.len() <= 6);
}

#[test]
fn chain_without_targets_spawns_nothing() {
    let cs = vec![bc(5, 1, true, false), bc(0, 2, true, false), bc(5, 2, true, true), bc(5, 2, false, false)];
    assert!(chain_bounce_targets(1, 3, &cs).is_empty());
    // nothing is spawned, so the bounce number may already be at its largest
    assert!(plan_chain_bounce(u32::MAX, 3, 3, 1, 7, &cs).is_none());
    let one = vec![bc(5, 2, true, false)];
    assert_eq!(chain_bounce_targets(1, 3, &one), vec![0]);
    let b = plan_chain_bounce(4, 1, 3, 1, 7, &one).unwrap();
    assert_eq!(b.targets, vec![0]);
    assert_eq!(b.bounces, 5);
    assert_eq!(b.bounces_left, 0);
    assert_eq!(b.damage, Some(35));
}

fn grow_chain(bounces: u32, bounces_left: u32, children: usize, cs: &Vec<BounceCandidate>, depth: u32, deepest: &mut u32) -> usize {
    if depth > *deepest {
        *deepest = depth;
    }
    let mut count = 1;
    if let Some(b) = plan_chain_bounce(bounces, bounces_left, children, 1, 3, cs) {
        assert!(b.targets.len() <= children);
        assert_eq!(b.bounces_left, bounces_left - 1);
        for _ in &b.targets {
            count += grow_chain(b.bounces, b.bounces_left, children, cs, depth + 1, deepest);
        }
    }
    count
}

#[test]
fn chain_lightning_ends() {
    let cs: Vec<BounceCandidate> = (0..5).map(|_| bc(5, 2, true, false)).collect();
    let mut deepest = 0;
    // three bounces left and two children per bounce: 1 + 2 + 4 + 8 bolts, three deep
    assert_eq!(grow_chain(1, 3, 2, &cs, 0, &mut deepest), 15);
    assert_eq!(deepest, 3);
    let mut deepest0 = 0;
    assert_eq!(grow_chain(1, 0, 2, &cs, 0, &mut deepest0), 1);
    assert_eq!(deepest0, 0);
}
