//! Particles: the grains, droplets and blocks that the simulation moves.

use vstd::prelude::*;
use crate::field::{set_color, spec_color, FieldState, Rgb};
use crate::vec::Vec2;

verus! {

/// Fall velocity is kept in tenths of a cell per tick, so that the gravity
/// increment of nine tenths is exact.
pub const VELOCITY_UNIT: u64 = 10;

/// The velocity of a particle at rest: one cell per tick.
pub const BASE_VELOCITY: u64 = 10;

/// What a tick adds to the velocity of a particle before it moves.
pub const GRAVITY: u64 = 9;

/// How one sub-step of a particle ended.
#[derive(Copy, Clone, Debug, PartialEq, Eq, Structural)]
pub enum ParticleUpdateState {
    /// The particle fell straight down and may go on within the tick.
    Moving,
    /// The particle slid or flowed sideways; it goes on in the next tick.
    Stopped,
    /// No candidate cell accepted the particle: it is at rest.
    Stable,
}

/// One particle of the store.
#[derive(Copy, Clone, Debug)]
pub struct Particle {
    pub pos: Vec2<usize>,
    pub updated: bool,
    pub kind: FieldState,
    pub color: Rgb,
    pub velocity: u64,
}

impl Particle {
    /// A particle as it is when created: not yet updated, at base velocity.
    pub open spec fn spec_new(pos: Vec2<usize>, kind: FieldState) -> Particle {
        Particle { pos, updated: false, kind, color: spec_color(kind), velocity: BASE_VELOCITY }
    }

    /// A new particle of the given material at the given place.
    pub fn new(pos: Vec2<usize>, kind: FieldState) -> (p: Self)
        ensures
            p == Self::spec_new(pos, kind),
    {
        Self { pos, updated: false, kind, color: set_color(kind), velocity: BASE_VELOCITY }
    }

    /// How many sub-steps a particle with this velocity may take in a tick:
    /// the whole cells in its velocity.
    pub open spec fn spec_budget(self) -> nat {
        (self.velocity / VELOCITY_UNIT) as nat
    }
}

} // verus!
