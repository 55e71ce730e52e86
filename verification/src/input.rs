//! Keyboard bindings: which keys steer the player, and what a frame's key
//! state asks of the player.

use crate::player::FacingDirection;
use vstd::prelude::*;

verus! {

/// The keys that steer the player: the arrow keys and W, A, S, D.
#[derive(Clone, Copy, Debug, PartialEq, Eq, Structural)]
pub enum MoveKey {
    Down,
    S,
    Up,
    W,
    Right,
    D,
    Left,
    A,
}

impl MoveKey {
    /// The direction that the key is bound to.
    pub open spec fn spec_facing(self) -> FacingDirection {
        match self {
            MoveKey::Down | MoveKey::S => FacingDirection::South,
            MoveKey::Up | MoveKey::W => FacingDirection::North,
            MoveKey::Right | MoveKey::D => FacingDirection::East,
            MoveKey::Left | MoveKey::A => FacingDirection::West,
        }
    }

    /// The direction that the key is bound to.
    pub fn facing(self) -> (facing: FacingDirection)
        ensures
            facing == self.spec_facing(),
    {
        match self {
            MoveKey::Down | MoveKey::S => FacingDirection::South,
            MoveKey::Up | MoveKey::W => FacingDirection::North,
            MoveKey::Right | MoveKey::D => FacingDirection::East,
            MoveKey::Left | MoveKey::A => FacingDirection::West,
        }
    }
}

/// Some key of `keys` is bound to `facing`.
pub open spec fn any_bound_to(keys: Seq<MoveKey>, facing: FacingDirection) -> bool {
    exists|i: int| 0 <= i < keys.len() && (#[trigger] keys[i]).spec_facing() == facing
}

/// What the keyboard asks of the player in one frame.
#[derive(Clone, Copy, Debug, PartialEq, Eq, Structural)]
pub struct MovementInput {
    /// A movement key was let go during this frame.
    pub released: bool,
    /// A key bound to south is held.
    pub south: bool,
    /// A key bound to north is held.
    pub north: bool,
    /// A key bound to east is held.
    pub east: bool,
    /// A key bound to west is held.
    pub west: bool,
}

impl MovementInput {
    /// Whether a key bound to `facing` is held.
    pub open spec fn holds(self, facing: FacingDirection) -> bool {
        match facing {
            FacingDirection::South => self.south,
            FacingDirection::North => self.north,
            FacingDirection::East => self.east,
            FacingDirection::West => self.west,
        }
    }

    /// Whether any movement key is held.
    pub open spec fn holds_any(self) -> bool {
        self.south || self.north || self.east || self.west
    }

    /// Whether the keys of `facing`, and no others, are held.
    pub open spec fn holds_only(self, facing: FacingDirection) -> bool {
        forall|other: FacingDirection| #[trigger] self.holds(other) == (other == facing)
    }

    /// The direction that wins when several are held: the directions are
    /// looked at in the order south, north, east, west, and the last one
    /// held decides.
    pub open spec fn spec_facing(self) -> Option<FacingDirection> {
        if self.west {
            Some(FacingDirection::West)
        } else if self.east {
            Some(FacingDirection::East)
        } else if self.north {
            Some(FacingDirection::North)
        } else if self.south {
            Some(FacingDirection::South)
        } else {
            None
        }
    }

    /// Steps along the x axis that the held keys add up to.
    pub open spec fn spec_dx(self) -> int {
        (if self.east { 1int } else { 0 }) - (if self.west { 1int } else { 0 })
    }

    /// Steps along the y axis that the held keys add up to.
    pub open spec fn spec_dy(self) -> int {
        (if self.north { 1int } else { 0 }) - (if self.south { 1int } else { 0 })
    }

    /// The frame's input as the key lists say it.
    pub open spec fn spec_from_keys(pressed: Seq<MoveKey>, just_released: Seq<MoveKey>) -> MovementInput {
        MovementInput {
            released: just_released.len() > 0,
            south: any_bound_to(pressed, FacingDirection::South),
            north: any_bound_to(pressed, FacingDirection::North),
            east: any_bound_to(pressed, FacingDirection::East),
            west: any_bound_to(pressed, FacingDirection::West),
        }
    }

    /// Gathers a frame's input from the movement keys that are held and
    /// those that were let go during the frame.
    pub fn from_keys(pressed: &Vec<MoveKey>, just_released: &Vec<MoveKey>) -> (input: MovementInput)
        ensures
            input == Self::spec_from_keys(pressed@, just_released@),
    {
        let mut input = MovementInput {
            released: just_released.len() > 0,
            south: false,
            north: false,
            east: false,
            west: false,
        };
        let mut i: usize = 0;
        while i < pressed.len()
            invariant
                i <= pressed.len(),
                input.released == (just_released@.len() > 0),
                forall|facing: FacingDirection| #[trigger]
                    input.holds(facing) == any_bound_to(pressed@.take(i as int), facing),
            decreases pressed.len() - i,
        {
            let facing = pressed[i].facing();
            let ghost before = pressed@.take(i as int);
            let ghost after = pressed@.take(i + 1);
            let ghost seen = input;
            match facing {
                FacingDirection::South => { input.south = true; },
                FacingDirection::North => { input.north = true; },
                FacingDirection::East => { input.east = true; },
                FacingDirection::West => { input.west = true; },
            }
            proof {
                assert forall|other: FacingDirection| #[trigger]
                    input.holds(other) == any_bound_to(after, other) by {
                    assert(seen.holds(other) == any_bound_to(before, other));
                    if any_bound_to(before, other) {
                        let j = choose|j: int| 0 <= j < before.len() && (#[trigger] before[j]).spec_facing() == other;
                        assert(after[j].spec_facing() == other);
                    }
                    if other == facing {
                        assert(after[i as int].spec_facing() == other);
                    }
                    if any_bound_to(after, other) {
                        let j = choose|j: int| 0 <= j < after.len() && (#[trigger] after[j]).spec_facing() == other;
                        if j < i {
                            assert(before[j].spec_facing() == other);
                        }
                    }
                }
            }
            i += 1;
        }
        proof {
            assert(pressed@.take(pressed@.len() as int) =~= pressed@);
            assert(input.holds(FacingDirection::South) == any_bound_to(pressed@, FacingDirection::South));
            assert(input.holds(FacingDirection::North) == any_bound_to(pressed@, FacingDirection::North));
            assert(input.holds(FacingDirection::East) == any_bound_to(pressed@, FacingDirection::East));
            assert(input.holds(FacingDirection::West) == any_bound_to(pressed@, FacingDirection::West));
        }
        input
    }
}

} // verus!
