//! Combat resolution: how effects change a combatant's hit points and
//! status timers, who may be hit, and what happens on contact, expiry and
//! death.
//!
//! Durations are carried as *order keys*: unsigned integers that order
//! durations the way their lengths do. A key is compared, never converted
//! back to a length; the caller keeps the actual timers.
use vstd::prelude::*;

verus! {

/// One effect that an area effect applies to a combatant it touches.
#[derive(Clone, Copy, Debug, PartialEq, Eq, Structural)]
pub enum CombatEffect {
    /// Take this many hit points, at most the ones that are left.
    Damage(u32),
    /// Stun for a duration, given by its order key.
    Stun(u32),
    /// Make the target reel for a duration, given by its order key.
    Reeling(u32),
}

/// What the resolution of effects reads of a combatant: its hit points and
/// the order keys of the time left on its stun and reeling timers.
#[derive(Clone, Copy, Debug, PartialEq, Eq, Structural)]
pub struct GuageSnapshot {
    pub current_hp: u32,
    pub stun_remaining: Option<u32>,
    pub reeling_remaining: Option<u32>,
}

impl GuageSnapshot {
    /// The gauges of a new combatant: full hit points, no timers.
    pub fn full(max_hp: u32) -> (g: GuageSnapshot)
        ensures
            g.current_hp == max_hp,
            g.stun_remaining is None,
            g.reeling_remaining is None,
    {
        GuageSnapshot { current_hp: max_hp, stun_remaining: None, reeling_remaining: None }
    }
}

/// The state of a resolution after a prefix of the effects.
#[derive(Clone, Copy, Debug, PartialEq, Eq, Structural)]
pub struct EffectProgress {
    pub guage: GuageSnapshot,
    /// The stun timer was replaced by this resolution.
    pub stun_set: bool,
    /// The reeling timer was replaced by this resolution.
    pub reeling_set: bool,
    /// The hit points reached zero by damage in this resolution.
    pub killed: bool,
    /// A longer running timer stopped the resolution: the effects after it
    /// are not applied.
    pub halted: bool,
}

/// What resolving a list of effects did to a combatant.
#[derive(Clone, Debug)]
pub struct EffectOutcome {
    pub current_hp: u32,
    /// The damage dealt by each damage effect that met a living target, in
    /// order; one damage report each.
    pub dealt: Vec<u32>,
    /// The target died: a kill is reported and its death timer starts.
    pub killed: bool,
    /// The key of the duration of a new stun timer, if one was started.
    pub new_stun: Option<u32>,
    /// The key of the duration of a new reeling timer, if one was started.
    pub new_reeling: Option<u32>,
}

pub open spec fn start_progress(g: GuageSnapshot) -> EffectProgress {
    EffectProgress { guage: g, stun_set: false, reeling_set: false, killed: false, halted: false }
}

/// The damage a damage effect of `amount` deals to `hp` hit points.
pub open spec fn damage_dealt(hp: u32, amount: u32) -> u32 {
    if amount > hp { hp } else { amount }
}

/// One effect applied to the state left by the effects before it.
pub open spec fn effect_step(p: EffectProgress, e: CombatEffect) -> EffectProgress {
    if p.halted {
        p
    } else {
        match e {
            CombatEffect::Damage(amount) => {
                if p.guage.current_hp == 0 {
                    p
                } else {
                    let hp = (p.guage.current_hp - damage_dealt(p.guage.current_hp, amount)) as u32;
                    EffectProgress {
                        guage: GuageSnapshot { current_hp: hp, ..p.guage },
                        killed: p.killed || hp == 0,
                        ..p
                    }
                }
            },
            CombatEffect::Stun(key) => {
                if p.guage.stun_remaining matches Some(r) && r > key {
                    EffectProgress { halted: true, ..p }
                } else {
                    EffectProgress {
                        guage: GuageSnapshot { stun_remaining: Some(key), ..p.guage },
                        stun_set: true,
                        ..p
                    }
                }
            },
            CombatEffect::Reeling(key) => {
                if p.guage.reeling_remaining matches Some(r) && r > key {
                    EffectProgress { halted: true, ..p }
                } else {
                    EffectProgress {
                        guage: GuageSnapshot { reeling_remaining: Some(key), ..p.guage },
                        reeling_set: true,
                        ..p
                    }
                }
            },
        }
    }
}

/// The state after applying `effects`, in order, to a combatant in state `g`.
pub open spec fn effects_progress(g: GuageSnapshot, effects: Seq<CombatEffect>) -> EffectProgress
    decreases effects.len(),
{
    if effects.len() == 0 {
        start_progress(g)
    } else {
        effect_step(effects_progress(g, effects.drop_last()), effects.last())
    }
}

/// The damage reports of applying `effects`, in order, to a combatant in state `g`.
pub open spec fn effects_dealt(g: GuageSnapshot, effects: Seq<CombatEffect>) -> Seq<u32>
    decreases effects.len(),
{
    if effects.len() == 0 {
        Seq::empty()
    } else {
        let before = effects_progress(g, effects.drop_last());
        let reports = effects_dealt(g, effects.drop_last());
        if !before.halted && before.guage.current_hp > 0 && effects.last() is Damage {
            reports.push(damage_dealt(before.guage.current_hp, effects.last()->Damage_0))
        } else {
            reports
        }
    }
}

/// The sum of a sequence of amounts.
pub open spec fn total(s: Seq<u32>) -> int
    decreases s.len(),
{
    if s.len() == 0 {
        0
    } else {
        total(s.drop_last()) + s.last()
    }
}

/// Applies combat effects to a combatant, in order.
///
/// A dead or invulnerable target is left as it is. A damage effect on a
/// living target deals the requested amount, at most the hit points left,
/// and is reported; when the hit points reach zero the target is killed. A
/// stun or reeling effect replaces the timer unless the running timer has
/// more time left than the new duration, in which case the resolution stops
/// there and the later effects are dropped.
pub fn resolve_combat_effects(
    guage: GuageSnapshot,
    dead: bool,
    invulnerable: bool,
    effects: &Vec<CombatEffect>,
) -> (out: EffectOutcome)
    ensures
        (dead || invulnerable) ==> {
            &&& out.current_hp == guage.current_hp
            &&& out.dealt@ == Seq::<u32>::empty()
            &&& !out.killed
            &&& out.new_stun is None
            &&& out.new_reeling is None
        },
        !(dead || invulnerable) ==> {
            let p = effects_progress(guage, effects@);
            &&& out.current_hp == p.guage.current_hp
            &&& out.dealt@ == effects_dealt(guage, effects@)
            &&& out.killed == p.killed
            &&& out.new_stun == (if p.stun_set { p.guage.stun_remaining } else { None })
            &&& out.new_reeling == (if p.reeling_set { p.guage.reeling_remaining } else { None })
        },
{
    let mut dealt: Vec<u32> = Vec::new();
    if dead || invulnerable {
        return EffectOutcome {
            current_hp: guage.current_hp,
            dealt,
            killed: false,
            new_stun: None,
            new_reeling: None,
        };
    }
    let mut p = EffectProgress {
        guage,
        stun_set: false,
        reeling_set: false,
        killed: false,
        halted: false,
    };
    let n = effects.len();
    let mut i: usize = 0;
    while i < n
        invariant
            n == effects.len(),
            i <= n,
            p == effects_progress(guage, effects@.take(i as int)),
            dealt@ == effects_dealt(guage, effects@.take(i as int)),
        decreases n - i,
    {
        proof {
            assert(effects@.take(i + 1).drop_last() =~= effects@.take(i as int));
            assert(effects@.take(i + 1).last() == effects@[i as int]);
        }
        if !p.halted {
            match effects[i] {
                CombatEffect::Damage(amount) => {
                    if p.guage.current_hp != 0 {
                        let hp = p.guage.current_hp;
                        let d = if amount > hp { hp } else { amount };
                        p.guage.current_hp = hp - d;
                        dealt.push(d);
                        if p.guage.current_hp == 0 {
                            p.killed = true;
                        }
                    }
                },
                CombatEffect::Stun(key) => {
                    let longer = match p.guage.stun_remaining {
                        Some(r) => r > key,
                        None => false,
                    };
                    if longer {
                        p.halted = true;
                    } else {
                        p.guage.stun_remaining = Some(key);
                        p.stun_set = true;
                    }
                },
                CombatEffect::Reeling(key) => {
                    let longer = match p.guage.reeling_remaining {
                        Some(r) => r > key,
                        None => false,
                    };
                    if longer {
                        p.halted = true;
                    } else {
                        p.guage.reeling_remaining = Some(key);
                        p.reeling_set = true;
                    }
                },
            }
        }
        i = i + 1;
    }
    proof {
        assert(effects@.take(n as int) =~= effects@);
    }
    EffectOutcome {
        current_hp: p.guage.current_hp,
        dealt,
        killed: p.killed,
        new_stun: if p.stun_set { p.guage.stun_remaining } else { None },
        new_reeling: if p.reeling_set { p.guage.reeling_remaining } else { None },
    }
}

/// Damage accounting: the hit points that effects take from a combatant are
/// exactly the sum of the damage they report, so hit points never rise.
pub proof fn lemma_damage_is_reported(g: GuageSnapshot, effects: Seq<CombatEffect>)
    ensures
        total(effects_dealt(g, effects)) + effects_progress(g, effects).guage.current_hp
            == g.current_hp,
        effects_progress(g, effects).guage.current_hp <= g.current_hp,
    decreases effects.len(),
{
    if effects.len() > 0 {
        lemma_damage_is_reported(g, effects.drop_last());
        let before = effects_progress(g, effects.drop_last());
        let reports = effects_dealt(g, effects.drop_last());
        if !before.halted && before.guage.current_hp > 0 && effects.last() is Damage {
            assert(reports.push(damage_dealt(before.guage.current_hp, effects.last()->Damage_0)).drop_last()
                =~= reports);
        }
    }
}

/// A combatant is reported killed exactly when it was alive before the
/// effects and has no hit points after them; a kill is reported at most once.
pub proof fn lemma_kill_reported_iff_died(g: GuageSnapshot, effects: Seq<CombatEffect>)
    ensures
        effects_progress(g, effects).killed <==> (g.current_hp > 0
            && effects_progress(g, effects).guage.current_hp == 0),
    decreases effects.len(),
{
    if effects.len() > 0 {
        lemma_kill_reported_iff_died(g, effects.drop_last());
        lemma_damage_is_reported(g, effects.drop_last());
    }
}

/// Once a resolution has stopped, later effects change nothing.
proof fn lemma_halted_stays(g: GuageSnapshot, s: Seq<CombatEffect>, t: Seq<CombatEffect>)
    requires
        effects_progress(g, s).halted,
    ensures
        effects_progress(g, s + t) == effects_progress(g, s),
        effects_dealt(g, s + t) == effects_dealt(g, s),
    decreases t.len(),
{
    if t.len() == 0 {
        assert(s + t =~= s);
    } else {
        lemma_halted_stays(g, s, t.drop_last());
        assert((s + t).drop_last() =~= s + t.drop_last());
        assert((s + t).last() == t.last());
    }
}

/// A status effect that is shorter than the running timer of its kind stops
/// the resolution: whatever the effects before it (`prefix`) and after it
/// (`suffix`), the combatant ends with the hit points, kill, timers and
/// damage reports that the prefix alone gives it. The effects after it,
/// damage included, are dropped.
pub proof fn lemma_shorter_status_stops(
    g: GuageSnapshot,
    prefix: Seq<CombatEffect>,
    e: CombatEffect,
    suffix: Seq<CombatEffect>,
)
    requires
        ({
            let p = effects_progress(g, prefix);
            ||| (e matches CombatEffect::Stun(key) && p.guage.stun_remaining matches Some(r) && r > key)
            ||| (e matches CombatEffect::Reeling(key) && p.guage.reeling_remaining matches Some(r) && r > key)
        }),
    ensures
        ({
            let p = effects_progress(g, prefix);
            let q = effects_progress(g, prefix.push(e) + suffix);
            &&& q.guage == p.guage
            &&& q.killed == p.killed
            &&& q.stun_set == p.stun_set
            &&& q.reeling_set == p.reeling_set
            &&& effects_dealt(g, prefix.push(e) + suffix) == effects_dealt(g, prefix)
        }),
{
    let s = prefix.push(e);
    assert(s.drop_last() =~= prefix);
    assert(s.last() == e);
    if effects_progress(g, prefix).halted {
        assert(effects_progress(g, s) == effects_progress(g, prefix));
    }
    assert(effects_progress(g, s).halted);
    lemma_halted_stays(g, s, suffix);
}

/// Whether an area effect of `effect_team` may touch a combatant: it must be
/// alive, of another team, and not under a running invulnerability timer.
pub fn can_be_hit(target_hp: u32, target_team: u8, effect_team: u8, invulnerable_running: bool) -> (r: bool)
    ensures
        r == (target_hp != 0 && target_team != effect_team && !invulnerable_running),
{
    target_hp != 0 && target_team != effect_team && !invulnerable_running
}

/// When a projectile sets off its payload.
#[derive(Clone, Copy, Debug, PartialEq, Eq, Structural)]
pub enum DetonationKind {
    Never,
    Contact,
    Expiry,
    Pulse,
}

/// What an area effect does when it touches a target: it is marked as having
/// hit, and a projectile that detonates on contact detonates on its first hit
/// only. Returns the new hit mark and whether to detonate.
pub fn register_contact(already_hit: bool, projectile_trigger: Option<DetonationKind>) -> (r: (bool, bool))
    ensures
        r.0,
        r.1 == (!already_hit && projectile_trigger == Some(DetonationKind::Contact)),
{
    let detonate = !already_hit && match projectile_trigger {
        Some(DetonationKind::Contact) => true,
        _ => false,
    };
    (true, detonate)
}

/// Whether a projectile whose lifetime ran out detonates (`true`) or is
/// simply removed (`false`): only those that detonate on expiry detonate.
pub fn detonates_on_expiry(trigger: DetonationKind) -> (r: bool)
    ensures
        r == (trigger == DetonationKind::Expiry),
{
    match trigger {
        DetonationKind::Expiry => true,
        _ => false,
    }
}

/// Whether a projectile that has hit something is detonated by the
/// hit-projectile pass: only those that detonate on contact.
pub fn detonates_after_hit(hit: bool, trigger: DetonationKind) -> (r: bool)
    ensures
        r == (hit && trigger == DetonationKind::Contact),
{
    hit && match trigger {
        DetonationKind::Contact => true,
        _ => false,
    }
}

/// The status flags of a combatant, derived from its gauges.
#[derive(Clone, Copy, Debug, Default, PartialEq, Eq, Structural)]
pub struct CombatantState {
    pub reeling: bool,
    pub stunned: bool,
    pub invulnerable: bool,
    pub dead: bool,
}

impl CombatantState {
    /// A new combatant: no status at all.
    pub fn fresh() -> (s: CombatantState)
        ensures
            !s.reeling && !s.stunned && !s.invulnerable && !s.dead,
    {
        CombatantState { reeling: false, stunned: false, invulnerable: false, dead: false }
    }

    /// The flags follow the gauges: a status holds while its timer exists
    /// and has not finished, and a combatant is dead at zero hit points.
    pub fn from_guages(
        reeling_running: bool,
        stun_running: bool,
        invulnerability_running: bool,
        current_hp: u32,
    ) -> (s: CombatantState)
        ensures
            s.reeling == reeling_running,
            s.stunned == stun_running,
            s.invulnerable == invulnerability_running,
            s.dead == (current_hp == 0),
    {
        CombatantState {
            reeling: reeling_running,
            stunned: stun_running,
            invulnerable: invulnerability_running,
            dead: current_hp == 0,
        }
    }
}

/// What a combatant does when its death timer finishes.
#[derive(Clone, Copy, Debug, PartialEq, Eq, Structural)]
pub enum DeathKind {
    Respawn,
    Despawn,
}

/// The result of a finished death timer.
#[derive(Clone, Copy, Debug, PartialEq, Eq, Structural)]
pub enum DeathOutcome {
    /// Back to full hit points, with a fresh invulnerability timer and no
    /// stun, reeling or death timer.
    Respawn { current_hp: u32 },
    /// The combatant leaves the world.
    Despawn,
}

/// Resolves a finished death timer.
pub fn resolve_death(kind: DeathKind, max_hp: u32) -> (r: DeathOutcome)
    ensures
        kind == DeathKind::Respawn ==> r == (DeathOutcome::Respawn { current_hp: max_hp }),
        kind == DeathKind::Despawn ==> r == DeathOutcome::Despawn,
{
    match kind {
        DeathKind::Respawn => DeathOutcome::Respawn { current_hp: max_hp },
        DeathKind::Despawn => DeathOutcome::Despawn,
    }
}

/// The number of kills a combatant has made.
#[derive(Clone, Copy, Debug, Default, PartialEq, Eq, Structural)]
pub struct KillCounter {
    pub kills: u32,
}

impl KillCounter {
    /// Counts one more kill.
    pub fn record_kill(&mut self)
        requires
            old(self).kills < u32::MAX,
        ensures
            final(self).kills == old(self).kills + 1,
    {
        self.kills = self.kills + 1;
    }
}

} // verus!
