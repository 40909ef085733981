//! Facing directions and movement flags.
use vstd::prelude::*;

verus! {

/// One of the eight compass directions a character faces.
#[derive(Clone, Copy, Debug, PartialEq, Eq, Hash, Default, Structural)]
pub enum MoveDirection {
    North,
    Northeast,
    East,
    Southeast,
    #[default]
    South,
    Southwest,
    West,
    Northwest,
}

/// The directions counter-clockwise from east, one per eighth of a turn.
pub open spec fn direction_of_segment(segment: int) -> MoveDirection {
    if segment == 0 {
        MoveDirection::East
    } else if segment == 1 {
        MoveDirection::Northeast
    } else if segment == 2 {
        MoveDirection::North
    } else if segment == 3 {
        MoveDirection::Northwest
    } else if segment == 4 {
        MoveDirection::West
    } else if segment == 5 {
        MoveDirection::Southwest
    } else if segment == 6 {
        MoveDirection::South
    } else {
        MoveDirection::Southeast
    }
}

impl MoveDirection {
    /// All eight directions, clockwise from north.
    pub fn all() -> (r: Vec<MoveDirection>)
        ensures
            r@ == seq![
                MoveDirection::North,
                MoveDirection::Northeast,
                MoveDirection::East,
                MoveDirection::Southeast,
                MoveDirection::South,
                MoveDirection::Southwest,
                MoveDirection::West,
                MoveDirection::Northwest,
            ],
    {
        vec![
            MoveDirection::North,
            MoveDirection::Northeast,
            MoveDirection::East,
            MoveDirection::Southeast,
            MoveDirection::South,
            MoveDirection::Southwest,
            MoveDirection::West,
            MoveDirection::Northwest,
        ]
    }

    /// The direction of an eighth of a turn, counted counter-clockwise from
    /// east; the count wraps around after eight.
    pub fn from_segment(segment: usize) -> (d: MoveDirection)
        ensures
            d == direction_of_segment(segment as int % 8),
    {
        match segment % 8 {
            0 => MoveDirection::East,
            1 => MoveDirection::Northeast,
            2 => MoveDirection::North,
            3 => MoveDirection::Northwest,
            4 => MoveDirection::West,
            5 => MoveDirection::Southwest,
            6 => MoveDirection::South,
            _ => MoveDirection::Southeast,
        }
    }
}

/// Whether a character moves and where it faces.
#[derive(Clone, Copy, Debug, PartialEq, Eq, Hash, Default, Structural)]
pub struct MoveState {
    pub is_moving: bool,
    pub is_moving_voluntary: bool,
    pub direction: MoveDirection,
}

impl MoveState {
    /// A character that has just become movable: still, facing north.
    pub fn still() -> (s: MoveState)
        ensures
            !s.is_moving,
            !s.is_moving_voluntary,
            s.direction == MoveDirection::North,
    {
        MoveState { is_moving: false, is_moving_voluntary: false, direction: MoveDirection::North }
    }

    /// Updates the flags: moving when the total speed is above the
    /// threshold; moving on purpose, and facing the direction of its own
    /// motion, when the speed without pushes is above it; the facing is
    /// kept otherwise.
    pub fn update(&mut self, fast: bool, fast_voluntary: bool, voluntary_direction: MoveDirection)
        ensures
            final(self).is_moving == fast,
            final(self).is_moving_voluntary == fast_voluntary,
            final(self).direction == (if fast_voluntary { voluntary_direction } else { old(self).direction }),
    {
        self.is_moving = fast;
        if fast_voluntary {
            self.direction = voluntary_direction;
            self.is_moving_voluntary = true;
        } else {
            self.is_moving_voluntary = false;
        }
    }
}


/// The animation key of an enemy: where it faces and whether it moves.
#[derive(Clone, Copy, Debug, PartialEq, Eq, Hash, Structural)]
pub struct EnemyAnimationState {
    pub facing: MoveDirection,
    pub moving: bool,
}

impl EnemyAnimationState {
    /// The animation key that follows a movement state: moving when it moves
    /// on purpose, facing its direction.
    pub fn following(state: &MoveState) -> (r: EnemyAnimationState)
        ensures
            r.facing == state.direction,
            r.moving == state.is_moving_voluntary,
    {
        EnemyAnimationState { facing: state.direction, moving: state.is_moving_voluntary }
    }
}

} // verus!
