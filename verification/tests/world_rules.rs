use candyland::animation::{atlas_index, first_tile, sprite_tile, FrameCursor};
use candyland::assets::AssetBundle;
use bevy::platform::collections::HashSet;
use candyland::chunks::{chunk_square_around, chunks_to_spawn, ChunkId};
use candyland::enemy::{cell_hash, cell_hash_magnitude};
use candyland::movement::{EnemyAnimationState, MoveDirection, MoveState};

#[test]
fn frames_wrap_and_one_shots_end() {
    let mut c = FrameCursor::start();
    c.advance(3, true);
    c.advance(3, true);
    assert_eq!(c, FrameCursor { current_frame_index: 2, done: false });
    c.advance(3, true);
    assert_eq!(c, FrameCursor { current_frame_index: 0, done: false });
    let mut once = FrameCursor::start();
    once.advance(2, false);
    once.advance(2, false);
    assert_eq!(once, FrameCursor { current_frame_index: 0, done: true });
    once.advance(2, false);
    assert!(once.done);
}

#[test]
fn tiles_of_frames() {
    let frames = vec![7, 8, 9];
    assert_eq!(atlas_index(&frames, 1), 8);
    assert_eq!(atlas_index(&frames, 5), 0);
    assert_eq!(first_tile(&frames), 7);
    assert_eq!(sprite_tile(FrameCursor { current_frame_index: 2, done: false }, &frames), Some(9));
    assert_eq!(sprite_tile(FrameCursor { current_frame_index: 2, done: true }, &frames), None);
}

#[test]
fn asset_bundle_lifecycle() {
    let mut b: AssetBundle<u32, bool> = AssetBundle::new();
    assert!(b.accepts_load());
    assert!(!b.should_finish(true));
    assert!(b.begin_loading(5, false));
    assert!(!b.begin_loading(6, true));
    assert_eq!(b.loading_barrier(), Some(&false));
    assert!(!b.should_finish(false));
    assert!(b.should_finish(true));
    assert!(b.finish_loading());
    assert!(matches!(b, AssetBundle::Loaded(5)));
    assert!(!b.accepts_load());
    assert!(!b.finish_loading());
    assert!(matches!(b, AssetBundle::NotLoaded));
}

#[test]
fn chunk_square_and_spawn_list() {
    let o = ChunkId(3, -2);
    assert_eq!(o.x(), 3);
    assert_eq!(o.y(), -2);
    assert_eq!(o.offset(-1, 4), ChunkId(2, 2));
    let sq = chunk_square_around(o, 1);
    assert_eq!(sq.len(), 9);
    assert_eq!(sq[0], ChunkId(2, -3));
    assert_eq!(sq[1], ChunkId(2, -2));
    assert_eq!(sq[3], ChunkId(3, -3));
    assert_eq!(sq[8], ChunkId(4, -1));
    assert_eq!(chunk_square_around(o, 0), vec![o]);
    assert!(chunk_square_around(o, 3_000_000_000).is_empty());
    let loaded: HashSet<(i32, i32)> = [(2, -2), (4, -1)].into_iter().collect();
    let spawn = chunks_to_spawn(&sq, &loaded);
    assert_eq!(spawn.len(), 7);
    assert!(spawn.iter().all(|c| !loaded.contains(&(c.0, c.1))));
    assert_eq!(spawn[0], ChunkId(2, -3));
    assert_eq!(spawn[1], ChunkId(2, -1));
    let none_loaded: HashSet<(i32, i32)> = HashSet::new();
    assert_eq!(chunks_to_spawn(&sq, &none_loaded), sq);
}

#[test]
fn cell_hashes() {
    assert_eq!(cell_hash(0, 0), 0);
    assert_eq!(cell_hash(1, 0), 73856093);
    assert_eq!(cell_hash(0, 1), 19349663);
    assert_eq!(cell_hash(1, 1), 73856093 ^ 19349663);
    assert_eq!(cell_hash(-1, 0), -73856093);
    assert_eq!(cell_hash_magnitude(-1, 0), 73856093);
    assert_eq!(cell_hash(100, 0), 100i32.wrapping_mul(73856093));
}

#[test]
fn directions() {
    let all = MoveDirection::all();
    assert_eq!(all.len(), 8);
    assert_eq!(all[0], MoveDirection::North);
    assert_eq!(MoveDirection::default(), MoveDirection::South);
    assert_eq!(MoveDirection::from_segment(0), MoveDirection::East);
    assert_eq!(MoveDirection::from_segment(2), MoveDirection::North);
    assert_eq!(MoveDirection::from_segment(6), MoveDirection::South);
    assert_eq!(MoveDirection::from_segment(9), MoveDirection::Northeast);
}

#[test]
fn move_state_updates() {
    let mut s = MoveState::still();
    assert_eq!(s.direction, MoveDirection::North);
    s.update(true, true, MoveDirection::West);
    assert_eq!(s, MoveState { is_moving: true, is_moving_voluntary: true, direction: MoveDirection::West });
    s.update(true, false, MoveDirection::East);
    assert_eq!(s, MoveState { is_moving: true, is_moving_voluntary: false, direction: MoveDirection::West });
    let a = EnemyAnimationState::following(&s);
    assert_eq!(a, EnemyAnimationState { facing: MoveDirection::West, moving: false });
}
