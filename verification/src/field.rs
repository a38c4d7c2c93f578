//! Materials: what a grid cell holds, and how each material is drawn.

use vstd::prelude::*;

verus! {

/// What one cell of the grid holds: nothing, or a material together with the
/// index of the particle that occupies the cell.
#[derive(Copy, Clone, Debug, PartialEq, Eq, Structural)]
pub enum FieldState {
    Sand(usize),
    Water(usize),
    Wood(usize),
    Empty,
}

/// An opaque colour, one byte per channel.
#[derive(Copy, Clone, Debug, PartialEq, Eq, Structural)]
pub struct Rgb {
    pub r: u8,
    pub g: u8,
    pub b: u8,
}

/// A filled square to draw: its upper left corner, the length of its side,
/// and its colour.
#[derive(Copy, Clone, Debug, PartialEq, Eq, Structural)]
pub struct Pixel {
    pub x: usize,
    pub y: usize,
    pub size: usize,
    pub color: Rgb,
}

impl FieldState {
    /// The index of the occupying particle; `0` for an empty cell.
    pub open spec fn owner(self) -> int {
        match self {
            FieldState::Sand(i) => i as int,
            FieldState::Water(i) => i as int,
            FieldState::Wood(i) => i as int,
            FieldState::Empty => 0,
        }
    }

    /// The same material with another occupant; `Empty` stays `Empty`.
    pub open spec fn with_owner(self, i: usize) -> FieldState {
        match self {
            FieldState::Sand(_) => FieldState::Sand(i),
            FieldState::Water(_) => FieldState::Water(i),
            FieldState::Wood(_) => FieldState::Wood(i),
            FieldState::Empty => FieldState::Empty,
        }
    }

    /// Whether the cell holds nothing.
    pub fn is_empty(&self) -> (b: bool)
        ensures
            b == (*self is Empty),
    {
        matches!(self, FieldState::Empty)
    }
}

/// The colour behind everything that is drawn.
pub open spec fn spec_background_color() -> Rgb {
    Rgb { r: 96, g: 96, b: 96 }
}

/// The colour of a material.
pub open spec fn spec_color(kind: FieldState) -> Rgb {
    match kind {
        FieldState::Sand(_) => Rgb { r: 237, g: 201, b: 175 },
        FieldState::Water(_) => Rgb { r: 84, g: 206, b: 246 },
        FieldState::Wood(_) => Rgb { r: 85, g: 60, b: 42 },
        FieldState::Empty => spec_background_color(),
    }
}

/// The colour behind everything that is drawn.
pub fn background_color() -> (c: Rgb)
    ensures
        c == spec_background_color(),
{
    Rgb { r: 96, g: 96, b: 96 }
}

/// The colour in which a particle of the given material is drawn; an empty
/// cell has the background's colour.
pub fn set_color(kind: FieldState) -> (c: Rgb)
    ensures
        c == spec_color(kind),
{
    match kind {
        FieldState::Sand(_) => Rgb { r: 237, g: 201, b: 175 },
        FieldState::Water(_) => Rgb { r: 84, g: 206, b: 246 },
        FieldState::Wood(_) => Rgb { r: 85, g: 60, b: 42 },
        _ => background_color(),
    }
}

} // verus!
