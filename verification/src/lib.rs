//! Rules of a small top-down 2D game: the player's movement and animation
//! state machine and the layout of the tile map, stated over whole numbers
//! and proved against their contracts.
//!
//! Rendering, input polling and the frame loop belong to the engine that
//! drives these functions; it hands in plain values and takes plain values
//! back.

use vstd::prelude::*;

pub mod input;
pub mod map;
pub mod player;
pub mod timer;

pub use crate::timer::AnimationTimer;

verus! {

/// A point of the 2D world, in whole units. The third axis of the engine is
/// fixed at zero and is not held here.
#[derive(Clone, Copy, Debug, PartialEq, Eq, Structural)]
pub struct Position {
    pub x: i64,
    pub y: i64,
}

/// An inclusive range of frames `first..=last` on a sprite sheet.
#[derive(Clone, Copy, Debug, PartialEq, Eq, Structural)]
pub struct AnimationIndices {
    pub first: usize,
    pub last: usize,
}

impl AnimationIndices {
    /// The range is not empty.
    pub open spec fn wf(self) -> bool {
        self.first <= self.last
    }

    /// `index` is one of the range's frames.
    pub open spec fn contains(self, index: usize) -> bool {
        self.first <= index <= self.last
    }

    /// The two ranges share no frame.
    pub open spec fn spec_apart(self, other: AnimationIndices) -> bool {
        self.last < other.first || other.last < self.first
    }

    /// The frame shown after `index`: the next one, or `first` again once
    /// `last` has been shown.
    pub open spec fn spec_next_frame(self, index: usize) -> int {
        if index == self.last {
            self.first as int
        } else {
            index + 1
        }
    }

    /// Advances a frame index by one step within the range, wrapping from
    /// `last` to `first`.
    pub fn next_frame(&self, index: usize) -> (next: usize)
        requires
            index == self.last || index < usize::MAX,
        ensures
            next == self.spec_next_frame(index),
            self.wf() && self.contains(index) ==> self.contains(next),
            index == self.last ==> next == self.first,
    {
        if index == self.last {
            self.first
        } else {
            index + 1
        }
    }
}

impl Default for AnimationIndices {
    fn default() -> (r: Self)
        ensures
            r == (AnimationIndices { first: 0, last: 0 }),
    {
        AnimationIndices { first: 0, last: 0 }
    }
}

/// Something that lives in the world: it has life points and a place.
pub trait Creature {
    /// The model of the creature's life points.
    spec fn spec_life_points(&self) -> u32;

    /// The model of the creature's position.
    spec fn spec_position(&self) -> Position;

    fn get_current_life_points(&self) -> (points: u32)
        ensures
            points == self.spec_life_points(),
    ;

    fn get_current_position(&self) -> (position: Position)
        ensures
            position == self.spec_position(),
    ;
}

} // verus!
