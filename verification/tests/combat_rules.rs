use candyland::combat::{
    can_be_hit, detonates_after_hit, detonates_on_expiry, register_contact, resolve_combat_effects,
    resolve_death, CombatEffect, CombatantState, DeathKind, DeathOutcome, DetonationKind,
    GuageSnapshot, KillCounter,
};
use candyland::radar::{scan_radar, Quadrant, RadarCandidate, RadarPick};

fn guage(hp: u32) -> GuageSnapshot {
    GuageSnapshot { current_hp: hp, stun_remaining: None, reeling_remaining: None }
}

#[test]
fn damage_is_capped_by_remaining_hp_and_kills_once() {
    let effects = vec![CombatEffect::Damage(4), CombatEffect::Damage(8), CombatEffect::Damage(8)];
    let out = resolve_combat_effects(guage(10), false, false, &effects);
    assert_eq!(out.current_hp, 0);
    assert_eq!(out.dealt, vec![4, 6]);
    assert!(out.killed);
    assert_eq!(out.new_stun, None);
    assert_eq!(out.new_reeling, None);
}

#[test]
fn damage_accounting_law_on_values() {
    let effects = vec![
        CombatEffect::Damage(3),
        CombatEffect::Stun(5),
        CombatEffect::Damage(0),
        CombatEffect::Damage(2),
    ];
    let out = resolve_combat_effects(guage(20), false, false, &effects);
    let total: u32 = out.dealt.iter().sum();
    assert_eq!(total + out.current_hp, 20);
    assert_eq!(out.dealt, vec![3, 0, 2]);
    assert!(!out.killed);
    assert_eq!(out.new_stun, Some(5));
}

#[test]
fn dead_or_invulnerable_targets_are_untouched() {
    let effects = vec![CombatEffect::Damage(4), CombatEffect::Stun(9)];
    for (dead, invuln) in [(true, false), (false, true), (true, true)] {
        let out = resolve_combat_effects(guage(10), dead, invuln, &effects);
        assert_eq!(out.current_hp, 10);
        assert!(out.dealt.is_empty());
        assert!(!out.killed);
        assert_eq!(out.new_stun, None);
    }
}

#[test]
fn longer_running_timer_stops_the_rest() {
    let g = GuageSnapshot { current_hp: 10, stun_remaining: Some(50), reeling_remaining: None };
    let effects = vec![CombatEffect::Reeling(7), CombatEffect::Stun(20), CombatEffect::Damage(5)];
    let out = resolve_combat_effects(g, false, false, &effects);
    assert_eq!(out.new_reeling, Some(7));
    assert_eq!(out.new_stun, None);
    assert_eq!(out.current_hp, 10);
    assert!(out.dealt.is_empty());
}

#[test]
fn shorter_or_equal_running_timer_is_replaced() {
    let g = GuageSnapshot { current_hp: 10, stun_remaining: Some(20), reeling_remaining: Some(3) };
    let effects = vec![CombatEffect::Stun(20), CombatEffect::Reeling(4), CombatEffect::Damage(1)];
    let out = resolve_combat_effects(g, false, false, &effects);
    assert_eq!(out.new_stun, Some(20));
    assert_eq!(out.new_reeling, Some(4));
    assert_eq!(out.current_hp, 9);
}

#[test]
fn zero_hp_target_takes_no_damage_report() {
    let out = resolve_combat_effects(guage(0), false, false, &vec![CombatEffect::Damage(5)]);
    assert!(out.dealt.is_empty());
    assert!(!out.killed);
}

#[test]
fn hit_candidates() {
    assert!(can_be_hit(5, 1, 2, false));
    assert!(!can_be_hit(0, 1, 2, false));
    assert!(!can_be_hit(5, 2, 2, false));
    assert!(!can_be_hit(5, 1, 2, true));
}

#[test]
fn contact_detonates_on_first_hit_only() {
    assert_eq!(register_contact(false, Some(DetonationKind::Contact)), (true, true));
    assert_eq!(register_contact(true, Some(DetonationKind::Contact)), (true, false));
    assert_eq!(register_contact(false, Some(DetonationKind::Expiry)), (true, false));
    assert_eq!(register_contact(false, None), (true, false));
    assert!(detonates_on_expiry(DetonationKind::Expiry));
    assert!(!detonates_on_expiry(DetonationKind::Contact));
    assert!(!detonates_on_expiry(DetonationKind::Pulse));
    assert!(detonates_after_hit(true, DetonationKind::Contact));
    assert!(!detonates_after_hit(false, DetonationKind::Contact));
    assert!(!detonates_after_hit(true, DetonationKind::Never));
}

#[test]
fn state_follows_guages() {
    let s = CombatantState::from_guages(true, false, true, 0);
    assert_eq!(s, CombatantState { reeling: true, stunned: false, invulnerable: true, dead: true });
    let f = CombatantState::fresh();
    assert_eq!(f, CombatantState::default());
}

#[test]
fn death_outcomes() {
    assert_eq!(resolve_death(DeathKind::Respawn, 40), DeathOutcome::Respawn { current_hp: 40 });
    assert_eq!(resolve_death(DeathKind::Despawn, 40), DeathOutcome::Despawn);
}

#[test]
fn kill_counter_counts() {
    let mut k = KillCounter::default();
    k.record_kill();
    k.record_kill();
    assert_eq!(k.kills, 2);
}

fn cand(team: u8, hp: u32, key: u32, q: Quadrant) -> RadarCandidate {
    RadarCandidate { team, hp, distance_key: key, quadrant: q }
}

#[test]
fn radar_picks_first_nearest_first_strongest_last_densest() {
    let cs = vec![
        cand(1, 5, 1, Quadrant::NorthEast),
        cand(2, 7, 20, Quadrant::SouthWest),
        cand(2, 9, 5, Quadrant::SouthWest),
        cand(2, 9, 5, Quadrant::NorthEast),
        cand(3, 0, 0, Quadrant::NorthWest),
    ];
    let r = scan_radar(1, 3, &cs, 100);
    assert_eq!(r, RadarPick { nearest: Some(2), strongest: Some(2), densest: Some(2) });
}

#[test]
fn radar_ties_between_quadrants_go_to_the_last() {
    let cs = vec![cand(2, 1, 9, Quadrant::NorthEast), cand(2, 1, 9, Quadrant::SouthEast)];
    let r = scan_radar(1, 3, &cs, 100);
    assert_eq!(r.densest, Some(1));
    assert_eq!(r.nearest, Some(0));
    assert_eq!(r.strongest, Some(0));
}

#[test]
fn radar_of_dead_or_alone_combatant_is_empty() {
    let cs = vec![cand(2, 4, 1, Quadrant::NorthEast)];
    assert_eq!(scan_radar(1, 0, &cs, 100), RadarPick { nearest: None, strongest: None, densest: None });
    let own = vec![cand(1, 4, 1, Quadrant::NorthEast)];
    assert_eq!(scan_radar(1, 5, &own, 100), RadarPick { nearest: None, strongest: None, densest: None });
}

#[test]
fn radar_ignores_distances_at_the_limit() {
    let cs = vec![cand(2, 4, 100, Quadrant::NorthEast), cand(2, 4, 250, Quadrant::NorthEast)];
    let r = scan_radar(1, 5, &cs, 100);
    assert_eq!(r.nearest, None);
    assert_eq!(r.strongest, Some(0));
    assert_eq!(r.densest, Some(1));
}

#[test]
fn quadrant_from_signs() {
    assert_eq!(Quadrant::from_signs(true, true), Quadrant::NorthEast);
    assert_eq!(Quadrant::from_signs(false, true), Quadrant::NorthWest);
    assert_eq!(Quadrant::from_signs(false, false), Quadrant::SouthWest);
    assert_eq!(Quadrant::from_signs(true, false), Quadrant::SouthEast);
    assert_eq!(Quadrant::SouthEast.index(), 3);
}
