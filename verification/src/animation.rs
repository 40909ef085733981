//! Sprite animation: stepping through the frames of an animation and
//! picking the atlas tile to show.
use vstd::prelude::*;

verus! {

/// How fast an animation plays: a number of frames per second, or a total
/// duration in milliseconds shared by all frames.
#[derive(Clone, Copy, Debug, PartialEq, Eq, Hash, Structural)]
pub enum AnimationPlaybackSpeed {
    Fps(u32),
    DurationMs(u32),
}

/// Where an animation stands: the position of the current frame in its
/// frame list, and whether a one-shot animation has ended.
#[derive(Clone, Copy, Debug, PartialEq, Eq, Structural)]
pub struct FrameCursor {
    pub current_frame_index: usize,
    pub done: bool,
}

/// The frame position after one frame step.
pub open spec fn next_frame_index(index: int, num_frames: int) -> int {
    if index + 1 >= num_frames {
        (index + 1) % num_frames
    } else {
        index + 1
    }
}

impl FrameCursor {
    /// The start of an animation: first frame, not ended. An animation that
    /// is switched to starts here.
    pub fn start() -> (c: FrameCursor)
        ensures
            c.current_frame_index == 0,
            !c.done,
    {
        FrameCursor { current_frame_index: 0, done: false }
    }

    /// Steps to the next frame when the frame timer finishes. Past the last
    /// frame the position wraps around; a one-shot animation is then marked
    /// as ended.
    pub fn advance(&mut self, num_frames: usize, playback_loop: bool)
        requires
            num_frames > 0,
            old(self).current_frame_index < usize::MAX,
        ensures
            final(self).current_frame_index == next_frame_index(
                old(self).current_frame_index as int,
                num_frames as int,
            ),
            final(self).done == (old(self).done || (old(self).current_frame_index + 1 >= num_frames
                && !playback_loop)),
    {
        self.current_frame_index = self.current_frame_index + 1;
        if self.current_frame_index >= num_frames {
            self.current_frame_index = self.current_frame_index % num_frames;
            if !playback_loop {
                self.done = true;
            }
        }
    }
}

/// After a step the frame position always names a frame.
pub proof fn lemma_advance_stays_in_frames(index: int, num_frames: int)
    requires
        0 <= index,
        num_frames > 0,
    ensures
        0 <= next_frame_index(index, num_frames) < num_frames,
{
}

/// The atlas tile of frame position `index`: the frame listed there, or the
/// first tile when the position is past the list.
pub fn atlas_index(frames: &Vec<usize>, index: usize) -> (r: usize)
    ensures
        index < frames.len() ==> r == frames@[index as int],
        index >= frames.len() ==> r == 0,
{
    if index < frames.len() {
        frames[index]
    } else {
        0
    }
}

/// The tile a sprite shows for an animation cursor: none once a one-shot
/// animation has ended (the sprite keeps its last tile), the current
/// frame's tile otherwise.
pub fn sprite_tile(cursor: FrameCursor, frames: &Vec<usize>) -> (r: Option<usize>)
    ensures
        cursor.done ==> r is None,
        !cursor.done ==> r == Some(if cursor.current_frame_index < frames.len() {
            frames@[cursor.current_frame_index as int]
        } else {
            0usize
        }),
{
    if cursor.done {
        None
    } else {
        Some(atlas_index(frames, cursor.current_frame_index))
    }
}

/// The tile an animation starts on: its first frame (every animation must
/// have one).
pub fn first_tile(frames: &Vec<usize>) -> (r: usize)
    requires
        frames.len() > 0,
    ensures
        r == frames@[0],
{
    frames[0]
}

} // verus!
