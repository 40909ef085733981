//! Level chunks: the integer grid of chunks around a point, and which
//! chunks still have to be spawned.
use vstd::prelude::*;
use bevy::platform::collections::HashSet;
use bevy::platform::hash::FixedHasher;

verus! {

#[verifier::external_type_specification]
#[verifier::external_body]
pub struct ExFixedHasher(FixedHasher);

#[verifier::external_type_specification]
#[verifier::external_body]
#[verifier::reject_recursive_types(T)]
#[verifier::reject_recursive_types(S)]
pub struct ExHashSet<T, S>(HashSet<T, S>);

/// The chunks, by column and row, that a set of loaded chunks holds.
pub uninterp spec fn loaded_chunk_keys(set: HashSet<(i32, i32)>) -> Set<(i32, i32)>;

/// Calls `HashSet::contains` of `bevy::platform` (which forwards to
/// hashbrown's): whether the set holds the chunk key `key`.
#[verifier::external_body]
fn loaded_contains(set: &HashSet<(i32, i32)>, key: (i32, i32)) -> (r: bool)
    ensures
        r == loaded_chunk_keys(*set).contains(key),
{
    set.contains(&key)
}

/// A chunk of the level, by its column and row in the chunk grid.
#[derive(Clone, Copy, Debug, PartialEq, Eq, Hash, Structural)]
pub struct ChunkId(pub i32, pub i32);

impl ChunkId {
    pub fn x(&self) -> (r: i32)
        ensures
            r == self.0,
    {
        self.0
    }

    pub fn y(&self) -> (r: i32)
        ensures
            r == self.1,
    {
        self.1
    }

    /// The chunk `x` columns and `y` rows away.
    pub fn offset(&self, x: i32, y: i32) -> (r: ChunkId)
        requires
            i32::MIN <= self.0 + x <= i32::MAX,
            i32::MIN <= self.1 + y <= i32::MAX,
        ensures
            r.0 == self.0 + x,
            r.1 == self.1 + y,
    {
        ChunkId(self.0 + x, self.1 + y)
    }
}

/// Row `i` of the square around `origin` of half-width `r`: the chunks of
/// column `origin.0 - r + i`, rows `origin.1 - r` to `origin.1 + r`.
pub open spec fn square_row(origin: ChunkId, r: int, i: int) -> Seq<ChunkId> {
    Seq::new(
        (2 * r + 1) as nat,
        |j: int| ChunkId((origin.0 - r + i) as i32, (origin.1 - r + j) as i32),
    )
}

/// The first `k` rows of the square around `origin` of half-width `r`.
pub open spec fn square_rows(origin: ChunkId, r: int, k: int) -> Seq<ChunkId>
    decreases k,
{
    if k <= 0 {
        Seq::empty()
    } else {
        square_rows(origin, r, k - 1) + square_row(origin, r, k - 1)
    }
}

/// The chunks within `load_radius` columns and rows of `origin`, column by
/// column from the west and row by row from the south. A radius beyond the
/// signed range wraps to a negative one, for which there are none.
pub open spec fn chunk_square(origin: ChunkId, load_radius: u32) -> Seq<ChunkId> {
    if load_radius > i32::MAX {
        Seq::empty()
    } else {
        square_rows(origin, load_radius as int, 2 * load_radius + 1)
    }
}

/// The candidate chunks to load around `origin` (the caller keeps those
/// close enough to the loading point).
pub fn chunk_square_around(origin: ChunkId, load_radius: u32) -> (v: Vec<ChunkId>)
    requires
        load_radius != 0x8000_0000u32,
        load_radius <= i32::MAX ==> {
            &&& i32::MIN <= origin.0 - load_radius
            &&& origin.0 + load_radius <= i32::MAX
            &&& i32::MIN <= origin.1 - load_radius
            &&& origin.1 + load_radius <= i32::MAX
        },
    ensures
        v@ == chunk_square(origin, load_radius),
{
    let mut v: Vec<ChunkId> = Vec::new();
    if load_radius > 0x7fff_ffffu32 {
        return v;
    }
    let r: i64 = load_radius as i64;
    let w: i64 = 2 * r + 1;
    let mut i: i64 = 0;
    while i < w
        invariant
            0 <= r <= i32::MAX,
            r == load_radius,
            w == 2 * r + 1,
            0 <= i <= w,
            i32::MIN <= origin.0 - r,
            origin.0 + r <= i32::MAX,
            i32::MIN <= origin.1 - r,
            origin.1 + r <= i32::MAX,
            v@ == square_rows(origin, r as int, i as int),
        decreases w - i,
    {
        let mut j: i64 = 0;
        while j < w
            invariant
                0 <= r <= i32::MAX,
                w == 2 * r + 1,
                0 <= i < w,
                0 <= j <= w,
                i32::MIN <= origin.0 - r,
                origin.0 + r <= i32::MAX,
                i32::MIN <= origin.1 - r,
                origin.1 + r <= i32::MAX,
                v@ == square_rows(origin, r as int, i as int) + square_row(origin, r as int, i as int).take(j as int),
            decreases w - j,
        {
            let c = ChunkId((origin.0 as i64 - r + i) as i32, (origin.1 as i64 - r + j) as i32);
            proof {
                let row = square_row(origin, r as int, i as int);
                assert(row[j as int] == c);
                assert(row.take(j + 1) =~= row.take(j as int).push(c));
                assert(square_rows(origin, r as int, i as int) + row.take(j + 1) =~= (square_rows(
                    origin,
                    r as int,
                    i as int,
                ) + row.take(j as int)).push(c));
            }
            v.push(c);
            j = j + 1;
        }
        proof {
            let row = square_row(origin, r as int, i as int);
            assert(row.take(w as int) =~= row);
        }
        i = i + 1;
    }
    v
}

/// The key of a chunk in a set of loaded chunks: its column and row.
pub open spec fn chunk_key(c: ChunkId) -> (i32, i32) {
    (c.0, c.1)
}

/// The first `k` candidates that are not loaded, in order.
pub open spec fn unloaded_upto(candidates: Seq<ChunkId>, loaded: Set<(i32, i32)>, k: int) -> Seq<ChunkId>
    decreases k,
{
    if k <= 0 {
        Seq::empty()
    } else if loaded.contains(chunk_key(candidates[k - 1])) {
        unloaded_upto(candidates, loaded, k - 1)
    } else {
        unloaded_upto(candidates, loaded, k - 1).push(candidates[k - 1])
    }
}

/// The chunks to spawn: the candidates that are not loaded yet, in order.
pub fn chunks_to_spawn(candidates: &Vec<ChunkId>, loaded: &HashSet<(i32, i32)>) -> (r: Vec<ChunkId>)
    ensures
        r@ == unloaded_upto(candidates@, loaded_chunk_keys(*loaded), candidates.len() as int),
{
    let mut r: Vec<ChunkId> = Vec::new();
    let mut i: usize = 0;
    while i < candidates.len()
        invariant
            i <= candidates.len(),
            r@ == unloaded_upto(candidates@, loaded_chunk_keys(*loaded), i as int),
        decreases candidates.len() - i,
    {
        let c = candidates[i];
        if !loaded_contains(loaded, (c.0, c.1)) {
            r.push(candidates[i]);
        }
        i = i + 1;
    }
    r
}

/// No chunk to spawn is already loaded, and every candidate that is not
/// loaded is spawned.
pub proof fn lemma_spawn_exactly_unloaded(candidates: Seq<ChunkId>, loaded: Set<(i32, i32)>, k: int)
    requires
        0 <= k <= candidates.len(),
    ensures
        forall|c: ChunkId| #[trigger] unloaded_upto(candidates, loaded, k).contains(c) <==> (!loaded.contains(chunk_key(c))
            && candidates.take(k).contains(c)),
    decreases k,
{
    if k > 0 {
        lemma_spawn_exactly_unloaded(candidates, loaded, k - 1);
        let before = unloaded_upto(candidates, loaded, k - 1);
        let last = candidates[k - 1];
        assert(candidates.take(k) =~= candidates.take(k - 1).push(last));
        assert forall|c: ChunkId| #[trigger] unloaded_upto(candidates, loaded, k).contains(c) <==> (!loaded.contains(chunk_key(c))
            && candidates.take(k).contains(c)) by {
            if candidates.take(k).contains(c) && c != last {
                let j = choose|j: int| 0 <= j < candidates.take(k).len() && candidates.take(k)[j] == c;
                assert(candidates.take(k - 1)[j] == c);
            }
            if !loaded.contains(chunk_key(last)) {
                assert(before.push(last).contains(last) == true) by {
                    assert(before.push(last)[before.len() as int] == last);
                }
                if before.push(last).contains(c) && c != last {
                    let j = choose|j: int| 0 <= j < before.push(last).len() && before.push(last)[j] == c;
                    assert(before[j] == c);
                }
                if before.contains(c) {
                    let j = choose|j: int| 0 <= j < before.len() && before[j] == c;
                    assert(before.push(last)[j] == c);
                }
            }
            if candidates.take(k - 1).contains(c) {
                let j = choose|j: int| 0 <= j < candidates.take(k - 1).len() && #[trigger] candidates.take(k - 1)[j] == c;
                assert(candidates.take(k)[j] == c);
            }
            if c == last {
                assert(candidates.take(k)[k - 1] == c);
            }
        }
    }
}

/// Chunk load settings of a spawner.
#[derive(Clone, Copy, Debug, PartialEq, Eq, Structural)]
pub struct ChunkSpawner {
    pub owner_id: u32,
    pub load_radius: u32,
    pub unload_radius: u32,
}

} // verus!
