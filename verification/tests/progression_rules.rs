use candyland::levelup::{
    perk_from_draws, plan_levelup_choices, resolve_level_up, unowned_spells, LevelUpResolution,
    PerkPlan,
};
use candyland::prog::{
    remove_feature, BossPlan, LongTermProgDescriptor, LongTermProgFeature, LongTermProgger,
    LucidityCheckbox, Progger,
};
use candyland::spells::{spell_rolls, SpellKind, SpellUpgrade};

fn descriptor(feature: LongTermProgFeature, cost: u32) -> LongTermProgDescriptor {
    LongTermProgDescriptor { feature, description: format!("{:?}", feature), cost }
}

#[test]
fn new_progger_defaults() {
    let p = LongTermProgger::new();
    assert_eq!(p.max_spells, 1);
    assert_eq!(p.num_perk_choices, 3);
    assert_eq!(p.lucidty, 0);
    assert_eq!(p.used_lucidty, 0);
    assert!(p.active_lprog_features.is_empty());
}

#[test]
fn cheaper_rerolls_halve_the_cost() {
    let mut p = LongTermProgger::new();
    p.reroll_cost = 7;
    assert_eq!(p.reroll_cost(), 7);
    p.active_lprog_features.push(descriptor(LongTermProgFeature::CheaperRerolls, 1));
    assert!(p.has_upgrade(LongTermProgFeature::CheaperRerolls));
    assert!(!p.has_upgrade(LongTermProgFeature::MoarHp));
    assert_eq!(p.reroll_cost(), 3);
}

#[test]
fn reroll_spends_only_what_is_left() {
    let mut p = LongTermProgger::new();
    p.reroll_cost = 4;
    p.accumulate_lucidity(10);
    assert!(p.can_afford_reroll());
    assert!(p.try_reroll());
    assert!(p.try_reroll());
    assert_eq!(p.used_lucidty, 8);
    assert_eq!(p.lucidity_left(), 2);
    assert!(!p.can_afford_reroll());
    assert!(!p.try_reroll());
    assert_eq!(p.used_lucidty, 8);
    assert!(p.used_lucidty <= p.lucidty);
}

#[test]
fn checking_and_unchecking_a_feature_restores_everything() {
    let mut p = LongTermProgger::new();
    p.accumulate_lucidity(5);
    p.active_lprog_features.push(descriptor(LongTermProgFeature::SpellInfo, 1));
    p.used_lucidty = 1;
    let mut cb = LucidityCheckbox { is_checked: false, feature: descriptor(LongTermProgFeature::MoarHp, 3) };
    assert!(p.toggle_feature(&mut cb));
    assert!(cb.is_checked);
    assert_eq!(p.used_lucidty, 4);
    assert!(p.has_upgrade(LongTermProgFeature::MoarHp));
    assert!(p.is_feature_checked(&cb.feature));
    assert!(p.toggle_feature(&mut cb));
    assert!(!cb.is_checked);
    assert_eq!(p.used_lucidty, 1);
    assert_eq!(p.active_lprog_features.len(), 1);
    assert_eq!(p.active_lprog_features[0].feature, LongTermProgFeature::SpellInfo);
}

#[test]
fn an_unaffordable_feature_stays_unchecked() {
    let mut p = LongTermProgger::new();
    p.accumulate_lucidity(2);
    let mut cb = LucidityCheckbox { is_checked: false, feature: descriptor(LongTermProgFeature::MoreChoices, 3) };
    assert!(!p.toggle_feature(&mut cb));
    assert!(!cb.is_checked);
    assert_eq!(p.used_lucidty, 0);
    assert!(p.active_lprog_features.is_empty());
}

#[test]
fn removing_a_feature_drops_every_copy() {
    let v = vec![
        descriptor(LongTermProgFeature::MoarHp, 1),
        descriptor(LongTermProgFeature::SeeInSingle, 2),
        descriptor(LongTermProgFeature::MoarHp, 3),
    ];
    let r = remove_feature(&v, LongTermProgFeature::MoarHp);
    assert_eq!(r.len(), 1);
    assert_eq!(r[0].feature, LongTermProgFeature::SeeInSingle);
    assert_eq!(r[0].cost, 2);
}

#[test]
fn level_gain_raises_level_and_hp() {
    let mut p = Progger { level: 3, hp_gain: 10, bosses_spawned: 0, bosses_killed: 0 };
    let mut max_hp = 100;
    let mut hp = 40;
    p.gain_level(&mut max_hp, &mut hp);
    assert_eq!(p.level, 4);
    assert_eq!(max_hp, 110);
    assert_eq!(hp, 50);
}

#[test]
fn boss_spawns_at_thresholds() {
    let mut p = Progger { level: 1, hp_gain: 0, bosses_spawned: 0, bosses_killed: 0 };
    assert_eq!(p.plan_boss_spawn(99, Some(20)), None);
    assert_eq!(p.bosses_spawned, 0);
    assert_eq!(p.plan_boss_spawn(100, None), None);
    assert_eq!(p.bosses_spawned, 0);
    assert_eq!(
        p.plan_boss_spawn(100, Some(20)),
        Some(BossPlan { bosses_spawned: 1, spells_to_take: 1, max_hp: 1000 })
    );
    // second boss: kills / 200 >= 2
    assert_eq!(p.plan_boss_spawn(399, Some(200)), None);
    assert_eq!(
        p.plan_boss_spawn(400, Some(200)),
        Some(BossPlan { bosses_spawned: 2, spells_to_take: 1, max_hp: 4000 })
    );
    p.bosses_spawned = 5;
    // sixth boss: kills / 600 >= 6
    assert_eq!(
        p.plan_boss_spawn(3600, Some(30)),
        Some(BossPlan { bosses_spawned: 6, spells_to_take: 2, max_hp: 1800 })
    );
    assert_eq!(p.record_boss_kill(), 1);
    assert_eq!(p.record_boss_kill(), 2);
}

#[test]
fn unowned_spells_in_order() {
    assert_eq!(
        unowned_spells(&vec![]),
        vec![SpellKind::Fireball, SpellKind::Chainlightning, SpellKind::Frozenorb]
    );
    assert_eq!(unowned_spells(&vec![SpellKind::Chainlightning]), vec![SpellKind::Fireball, SpellKind::Frozenorb]);
    assert!(unowned_spells(&vec![SpellKind::Frozenorb, SpellKind::Fireball, SpellKind::Chainlightning]).is_empty());
}

fn all_keys() -> Vec<SpellUpgrade> {
    let mut keys = spell_rolls(SpellKind::Fireball);
    keys.extend(spell_rolls(SpellKind::Chainlightning));
    keys.extend(spell_rolls(SpellKind::Frozenorb));
    keys
}

#[test]
fn perk_from_given_draws() {
    let keys = all_keys();
    // no spell yet: always a new spell, the drawn one
    assert_eq!(perk_from_draws(&vec![], true, &keys, 3, false, 1, 0), Some(PerkPlan::NewSpell(SpellKind::Chainlightning)));
    // a free slot and heads: a new spell among the unowned
    assert_eq!(
        perk_from_draws(&vec![SpellKind::Fireball], true, &keys, 2, true, 1, 0),
        Some(PerkPlan::NewSpell(SpellKind::Frozenorb))
    );
    // tails: an upgrade of the drawn slot
    assert_eq!(perk_from_draws(&vec![SpellKind::Fireball], true, &keys, 2, false, 1, 0), Some(PerkPlan::Upgrade(0)));
    // full spell book: always an upgrade
    assert_eq!(perk_from_draws(&vec![SpellKind::Fireball], true, &keys, 1, true, 0, 0), Some(PerkPlan::Upgrade(0)));
    // no builder: nothing
    assert_eq!(perk_from_draws(&vec![SpellKind::Fireball], false, &keys, 2, true, 0, 0), None);
    // drawn spell cannot be built: falls back to an upgrade, or nothing without spells
    let fire_only = spell_rolls(SpellKind::Fireball);
    assert_eq!(perk_from_draws(&vec![], true, &fire_only, 3, false, 2, 0), None);
    assert_eq!(perk_from_draws(&vec![], true, &fire_only, 3, false, 0, 0), Some(PerkPlan::NewSpell(SpellKind::Fireball)));
    assert_eq!(
        perk_from_draws(&vec![SpellKind::Fireball], true, &fire_only, 3, true, 0, 0),
        Some(PerkPlan::Upgrade(0))
    );
}

#[test]
fn planned_choices_respect_the_spell_book() {
    let keys = all_keys();
    for _ in 0..50 {
        let owned = vec![SpellKind::Fireball, SpellKind::Frozenorb];
        let r = plan_levelup_choices(&owned, true, &keys, 3, 4);
        assert_eq!(r.len(), 4);
        for p in &r {
            match p {
                PerkPlan::NewSpell(k) => assert_eq!(*k, SpellKind::Chainlightning),
                PerkPlan::Upgrade(s) => assert!(*s < owned.len()),
            }
        }
        let full = plan_levelup_choices(&owned, true, &keys, 2, 3);
        assert!(full.iter().all(|p| matches!(p, PerkPlan::Upgrade(s) if *s < 2)));
        let first = plan_levelup_choices(&vec![], true, &keys, 1, 3);
        assert_eq!(first.len(), 3);
        assert!(first.iter().all(|p| matches!(p, PerkPlan::NewSpell(_))));
        assert!(plan_levelup_choices(&owned, false, &keys, 3, 3).is_empty());
        assert!(plan_levelup_choices(&vec![], true, &vec![], 1, 3).is_empty());
    }
}

#[test]
fn taking_a_perk() {
    let choices = vec![PerkPlan::NewSpell(SpellKind::Fireball), PerkPlan::Upgrade(1), PerkPlan::Upgrade(4)];
    assert_eq!(resolve_level_up(&choices, 0, 2), LevelUpResolution::LearnSpell(0));
    assert_eq!(resolve_level_up(&choices, 1, 2), LevelUpResolution::UpgradeSpell(1));
    assert_eq!(resolve_level_up(&choices, 2, 2), LevelUpResolution::Ignored);
    assert_eq!(resolve_level_up(&choices, 3, 2), LevelUpResolution::Ignored);
}

#[test]
fn planned_choices_vary_between_draws() {
    let keys = all_keys();
    let owned = vec![SpellKind::Fireball, SpellKind::Frozenorb];
    let mut seen_new = false;
    let mut seen_slots = vec![false, false];
    for _ in 0..200 {
        for p in plan_levelup_choices(&owned, true, &keys, 3, 3) {
            match p {
                PerkPlan::NewSpell(k) => {
                    assert_eq!(k, SpellKind::Chainlightning);
                    seen_new = true;
                }
                PerkPlan::Upgrade(s) => seen_slots[s] = true,
            }
        }
    }
    // the coin and the slot are drawn: every outcome turns up
    assert!(seen_new);
    assert!(seen_slots[0] && seen_slots[1]);
}
