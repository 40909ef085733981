//! Targeting radar: for a living combatant, the nearest foe, the strongest
//! foe, and the foe that stands last in the quadrant holding the most foes.
//!
//! Distances are given by order keys: unsigned integers that order distances
//! the way their lengths do.
use vstd::prelude::*;

verus! {

/// The quadrant a foe lies in, seen from the scanning combatant.
#[derive(Clone, Copy, Debug, PartialEq, Eq, Structural)]
pub enum Quadrant {
    NorthEast,
    NorthWest,
    SouthWest,
    SouthEast,
}

pub open spec fn quadrant_index(q: Quadrant) -> int {
    match q {
        Quadrant::NorthEast => 0,
        Quadrant::NorthWest => 1,
        Quadrant::SouthWest => 2,
        Quadrant::SouthEast => 3,
    }
}

impl Quadrant {
    /// The quadrant of an offset whose east and north components have the
    /// given signs (zero counts as non-negative).
    pub fn from_signs(east_nonnegative: bool, north_nonnegative: bool) -> (q: Quadrant)
        ensures
            q == (if east_nonnegative {
                if north_nonnegative { Quadrant::NorthEast } else { Quadrant::SouthEast }
            } else {
                if north_nonnegative { Quadrant::NorthWest } else { Quadrant::SouthWest }
            }),
    {
        match (east_nonnegative, north_nonnegative) {
            (true, true) => Quadrant::NorthEast,
            (false, true) => Quadrant::NorthWest,
            (false, false) => Quadrant::SouthWest,
            (true, false) => Quadrant::SouthEast,
        }
    }

    /// The quadrant's position in the scan order.
    pub fn index(&self) -> (i: usize)
        ensures
            i == quadrant_index(*self),
    {
        match self {
            Quadrant::NorthEast => 0,
            Quadrant::NorthWest => 1,
            Quadrant::SouthWest => 2,
            Quadrant::SouthEast => 3,
        }
    }
}

/// One combatant as the radar sees it.
#[derive(Clone, Copy, Debug, PartialEq, Eq, Structural)]
pub struct RadarCandidate {
    pub team: u8,
    pub hp: u32,
    /// The order key of its distance to the scanning combatant.
    pub distance_key: u32,
    pub quadrant: Quadrant,
}

/// The radar's picks, as positions in the candidate list.
#[derive(Clone, Copy, Debug, PartialEq, Eq, Structural)]
pub struct RadarPick {
    pub nearest: Option<usize>,
    pub strongest: Option<usize>,
    pub densest: Option<usize>,
}

/// A foe: a living combatant of another team.
pub open spec fn is_foe(c: RadarCandidate, team: u8) -> bool {
    c.team != team && c.hp != 0
}

/// `i` is the first foe with the smallest distance key below `limit`.
pub open spec fn is_nearest(cs: Seq<RadarCandidate>, team: u8, limit: u32, i: int) -> bool {
    &&& 0 <= i < cs.len()
    &&& is_foe(cs[i], team)
    &&& cs[i].distance_key < limit
    &&& forall|j: int| 0 <= j < cs.len() && is_foe(cs[j], team) ==> cs[i].distance_key <= #[trigger] cs[j].distance_key
    &&& forall|j: int| 0 <= j < i && is_foe(cs[j], team) ==> cs[i].distance_key < #[trigger] cs[j].distance_key
}

pub open spec fn has_foe_within(cs: Seq<RadarCandidate>, team: u8, limit: u32) -> bool {
    exists|j: int| 0 <= j < cs.len() && is_foe(cs[j], team) && #[trigger] cs[j].distance_key < limit
}

/// `i` is the first foe with the most hit points.
pub open spec fn is_strongest(cs: Seq<RadarCandidate>, team: u8, i: int) -> bool {
    &&& 0 <= i < cs.len()
    &&& is_foe(cs[i], team)
    &&& forall|j: int| 0 <= j < cs.len() && is_foe(cs[j], team) ==> #[trigger] cs[j].hp <= cs[i].hp
    &&& forall|j: int| 0 <= j < i && is_foe(cs[j], team) ==> #[trigger] cs[j].hp < cs[i].hp
}

pub open spec fn has_foe(cs: Seq<RadarCandidate>, team: u8) -> bool {
    exists|j: int| 0 <= j < cs.len() && #[trigger] is_foe(cs[j], team)
}

/// The number of foes among the first `k` candidates that lie in quadrant `q`.
pub open spec fn foes_in_quadrant(cs: Seq<RadarCandidate>, team: u8, q: int, k: int) -> nat
    decreases k,
{
    if k <= 0 {
        0
    } else {
        foes_in_quadrant(cs, team, q, k - 1) + if is_foe(cs[k - 1], team) && quadrant_index(
            cs[k - 1].quadrant,
        ) == q {
            1nat
        } else {
            0nat
        }
    }
}

/// The quadrant with the most foes; of several such, the last in scan order.
pub open spec fn densest_quadrant(cs: Seq<RadarCandidate>, team: u8) -> int {
    let n = cs.len() as int;
    let c0 = foes_in_quadrant(cs, team, 0, n);
    let c1 = foes_in_quadrant(cs, team, 1, n);
    let c2 = foes_in_quadrant(cs, team, 2, n);
    let c3 = foes_in_quadrant(cs, team, 3, n);
    if c3 >= c0 && c3 >= c1 && c3 >= c2 {
        3
    } else if c2 >= c0 && c2 >= c1 {
        2
    } else if c1 >= c0 {
        1
    } else {
        0
    }
}

/// `i` is the last foe in quadrant `q`.
pub open spec fn is_last_in_quadrant(cs: Seq<RadarCandidate>, team: u8, q: int, i: int) -> bool {
    &&& 0 <= i < cs.len()
    &&& is_foe(cs[i], team)
    &&& quadrant_index(cs[i].quadrant) == q
    &&& forall|j: int| i < j < cs.len() && is_foe(cs[j], team) ==> quadrant_index(#[trigger] cs[j].quadrant) != q
}

pub open spec fn has_foe_in_quadrant(cs: Seq<RadarCandidate>, team: u8, q: int) -> bool {
    exists|j: int| 0 <= j < cs.len() && is_foe(cs[j], team) && quadrant_index(#[trigger] cs[j].quadrant) == q
}

/// Scans the candidates on behalf of a combatant of `team` with `hp` hit
/// points. A dead combatant picks nothing. Otherwise the nearest foe is the
/// first one with the least distance key below `nearest_limit`, the strongest
/// is the first one with the most hit points, and the densest is the last foe
/// of the quadrant holding the most foes (of several such, the last in the
/// order north-east, north-west, south-west, south-east).
pub fn scan_radar(team: u8, hp: u32, candidates: &Vec<RadarCandidate>, nearest_limit: u32) -> (r: RadarPick)
    ensures
        hp == 0 ==> r == (RadarPick { nearest: None, strongest: None, densest: None }),
        hp != 0 ==> {
            &&& (r.nearest matches Some(i) ==> is_nearest(candidates@, team, nearest_limit, i as int))
            &&& (r.nearest is None <==> !has_foe_within(candidates@, team, nearest_limit))
            &&& (r.strongest matches Some(i) ==> is_strongest(candidates@, team, i as int))
            &&& (r.strongest is None <==> !has_foe(candidates@, team))
            &&& (r.densest matches Some(i) ==> is_last_in_quadrant(
                candidates@,
                team,
                densest_quadrant(candidates@, team),
                i as int,
            ))
            &&& (r.densest is None <==> !has_foe_in_quadrant(
                candidates@,
                team,
                densest_quadrant(candidates@, team),
            ))
        },
{
    if hp == 0 {
        return RadarPick { nearest: None, strongest: None, densest: None };
    }
    let ghost cs = candidates@;
    let n = candidates.len();
    let mut nearest: Option<usize> = None;
    let mut nearest_key: u32 = nearest_limit;
    let mut strongest: Option<usize> = None;
    let mut strongest_hp: u32 = 0;
    let mut counts: Vec<usize> = vec![0, 0, 0, 0];
    let mut last: Vec<Option<usize>> = vec![None, None, None, None];
    let mut i: usize = 0;
    while i < n
        invariant
            n == cs.len(),
            cs == candidates@,
            i <= n,
            counts.len() == 4,
            last.len() == 4,
            match nearest {
                None => {
                    &&& nearest_key == nearest_limit
                    &&& forall|j: int| 0 <= j < i && is_foe(cs[j], team) ==> #[trigger] cs[j].distance_key >= nearest_limit
                },
                Some(b) => {
                    &&& b < i
                    &&& is_foe(cs[b as int], team)
                    &&& nearest_key == cs[b as int].distance_key
                    &&& nearest_key < nearest_limit
                    &&& forall|j: int| 0 <= j < i && is_foe(cs[j], team) ==> nearest_key <= #[trigger] cs[j].distance_key
                    &&& forall|j: int| 0 <= j < b && is_foe(cs[j], team) ==> nearest_key < #[trigger] cs[j].distance_key
                },
            },
            match strongest {
                None => {
                    &&& strongest_hp == 0
                    &&& forall|j: int| 0 <= j < i ==> !#[trigger] is_foe(cs[j], team)
                },
                Some(b) => {
                    &&& b < i
                    &&& is_foe(cs[b as int], team)
                    &&& strongest_hp == cs[b as int].hp
                    &&& forall|j: int| 0 <= j < i && is_foe(cs[j], team) ==> #[trigger] cs[j].hp <= strongest_hp
                    &&& forall|j: int| 0 <= j < b && is_foe(cs[j], team) ==> #[trigger] cs[j].hp < strongest_hp
                },
            },
            forall|q: int| 0 <= q < 4 ==> #[trigger] counts@[q] == foes_in_quadrant(cs, team, q, i as int),
            forall|q: int| 0 <= q < 4 ==> #[trigger] counts@[q] <= i,
            forall|q: int|
                0 <= q < 4 ==> match #[trigger] last@[q] {
                    None => forall|j: int| 0 <= j < i && is_foe(cs[j], team) ==> quadrant_index(#[trigger] cs[j].quadrant) != q,
                    Some(b) => {
                        &&& b < i
                        &&& is_foe(cs[b as int], team)
                        &&& quadrant_index(cs[b as int].quadrant) == q
                        &&& forall|j: int| b < j < i && is_foe(cs[j], team) ==> quadrant_index(#[trigger] cs[j].quadrant) != q
                    },
                },
        decreases n - i,
    {
        let c = candidates[i];
        if c.team != team && c.hp != 0 {
            if c.distance_key < nearest_key {
                nearest = Some(i);
                nearest_key = c.distance_key;
            }
            if c.hp > strongest_hp {
                strongest = Some(i);
                strongest_hp = c.hp;
            }
            let q = c.quadrant.index();
            let old_count = counts[q];
            counts.set(q, old_count + 1);
            last.set(q, Some(i));
        }
        i = i + 1;
    }
    let c0 = counts[0];
    let c1 = counts[1];
    let c2 = counts[2];
    let c3 = counts[3];
    let best: usize = if c3 >= c0 && c3 >= c1 && c3 >= c2 {
        3
    } else if c2 >= c0 && c2 >= c1 {
        2
    } else if c1 >= c0 {
        1
    } else {
        0
    };
    assert(best as int == densest_quadrant(cs, team));
    let densest = last[best];
    proof {
        if strongest is None {
            assert(!has_foe(cs, team));
        }
        if nearest is None {
            assert(!has_foe_within(cs, team, nearest_limit));
        }
        if densest is None {
            assert(!has_foe_in_quadrant(cs, team, best as int));
        }
    }
    RadarPick { nearest, strongest, densest }
}

} // verus!
