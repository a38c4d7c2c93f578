//! The mathematical model of a simulation: the grid and the particle store
//! as sequences, the consistency that ties them together, and the effect of
//! every operation as a function from state to state.

use vstd::prelude::*;
use crate::field::{spec_color, FieldState};
use crate::particle::{Particle, ParticleUpdateState, BASE_VELOCITY, GRAVITY};
use crate::vec::Vec2;

verus! {

/// A simulation as a value: its fixed configuration, one cell per grid
/// coordinate in row-major order, the particles in creation order, and the
/// material that the brush is armed with.
pub struct SimState {
    pub width: nat,
    pub height: nat,
    pub brush_radius: nat,
    pub grid: Seq<FieldState>,
    pub particles: Seq<Particle>,
    pub armed: Option<FieldState>,
}

/// The coordinate `(x + dx, y + dy)`.
pub open spec fn offset(pos: Vec2<usize>, dx: int, dy: int) -> Vec2<usize> {
    Vec2 { x: (pos.x + dx) as usize, y: (pos.y + dy) as usize }
}

/// `v` brought into `[low, high]`.
pub open spec fn clamp(v: int, low: int, high: int) -> int {
    if v < low {
        low
    } else if v > high {
        high
    } else {
        v
    }
}

/// Whether `pos` lies strictly within `radius` of `center`, by Euclidean
/// distance.
pub open spec fn within_radius(center: Vec2<usize>, pos: Vec2<usize>, radius: nat) -> bool {
    (pos.x - center.x) * (pos.x - center.x) + (pos.y - center.y) * (pos.y - center.y) < radius
        * radius
}

/// Whether `a` is visited before `b` by a scan that goes column by column,
/// and down each column.
pub open spec fn scanned_before(a: Vec2<usize>, b: Vec2<usize>) -> bool {
    a.x < b.x || (a.x == b.x && a.y < b.y)
}

impl SimState {
    /// Whether `pos` names a cell of the grid.
    pub open spec fn in_bounds(self, pos: Vec2<usize>) -> bool {
        pos.x < self.width && pos.y < self.height
    }

    /// Where the cell at `pos` stands in the grid.
    pub open spec fn index_of(self, pos: Vec2<usize>) -> int {
        pos.x + self.width * pos.y
    }

    /// What the cell at `pos` holds.
    pub open spec fn cell(self, pos: Vec2<usize>) -> FieldState {
        self.grid[self.index_of(pos)]
    }

    /// Particle `i` lies inside the grid, and the cell it lies on names it.
    pub open spec fn particle_ok(self, i: int) -> bool {
        let p = self.particles[i];
        &&& self.in_bounds(p.pos)
        &&& !(p.kind is Empty)
        &&& p.kind.owner() == i
        &&& self.grid[self.index_of(p.pos)] == p.kind
        &&& p.color == spec_color(p.kind)
        &&& p.velocity >= BASE_VELOCITY
    }

    /// If cell `c` is occupied, its owner is a particle that lies on it.
    pub open spec fn cell_ok(self, c: int) -> bool {
        let f = self.grid[c];
        !(f is Empty) ==> {
            &&& 0 <= f.owner() < self.particles.len()
            &&& self.index_of(self.particles[f.owner()].pos) == c
        }
    }

    /// The grid has one cell per coordinate, the brush fits into it, and grid
    /// and particle store agree in both directions.
    pub open spec fn wf(self) -> bool {
        &&& self.width <= usize::MAX
        &&& self.height <= usize::MAX
        &&& self.grid.len() == self.width * self.height
        &&& self.width * self.height <= usize::MAX
        &&& 2 * self.brush_radius <= self.width
        &&& 2 * self.brush_radius <= self.height
        &&& self.particles.len() <= usize::MAX
        &&& forall|i: int| 0 <= i < self.particles.len() ==> #[trigger] self.particle_ok(i)
        &&& forall|c: int| 0 <= c < self.grid.len() ==> #[trigger] self.cell_ok(c)
    }

    /// An empty grid of the given size.
    pub open spec fn empty(width: nat, height: nat, brush_radius: nat) -> SimState {
        SimState {
            width,
            height,
            brush_radius,
            grid: Seq::new(width * height, |c: int| FieldState::Empty),
            particles: Seq::empty(),
            armed: None,
        }
    }

    /// `self` has the configuration and the particles of `before`, each of
    /// its material and colour, and no wood has moved or changed velocity.
    pub open spec fn moved_from(self, before: SimState) -> bool {
        &&& self.width == before.width
        &&& self.height == before.height
        &&& self.brush_radius == before.brush_radius
        &&& self.armed == before.armed
        &&& self.grid.len() == before.grid.len()
        &&& self.particles.len() == before.particles.len()
        &&& forall|i: int|
            0 <= i < self.particles.len() ==> {
                &&& (#[trigger] self.particles[i]).kind == before.particles[i].kind
                &&& self.particles[i].color == before.particles[i].color
                &&& before.particles[i].kind is Wood ==> {
                    &&& self.particles[i].pos == before.particles[i].pos
                    &&& self.particles[i].velocity == before.particles[i].velocity
                }
            }
    }

    // ----- moving -----
    /// The grid with the contents of cells `a` and `b` exchanged.
    pub open spec fn swap_cells(self, a: int, b: int) -> SimState {
        SimState { grid: self.grid.update(a, self.grid[b]).update(b, self.grid[a]), ..self }
    }

    /// Particle `id` recorded at `pos`.
    pub open spec fn with_pos(self, id: int, pos: Vec2<usize>) -> SimState {
        SimState {
            particles: self.particles.update(id, Particle { pos, ..self.particles[id] }),
            ..self
        }
    }

    /// Particle `id` with its "updated" flag set to `updated`.
    pub open spec fn with_updated(self, id: int, updated: bool) -> SimState {
        SimState {
            particles: self.particles.update(id, Particle { updated, ..self.particles[id] }),
            ..self
        }
    }

    /// Particle `id` with the given velocity.
    pub open spec fn with_velocity(self, id: int, velocity: u64) -> SimState {
        SimState {
            particles: self.particles.update(id, Particle { velocity, ..self.particles[id] }),
            ..self
        }
    }

    /// Particle `id` moved onto `dst`: the two cells exchange their contents
    /// and the particle records its new place.
    pub open spec fn move_to(self, id: int, dst: Vec2<usize>) -> SimState {
        self.swap_cells(self.index_of(self.particles[id].pos), self.index_of(dst)).with_pos(
            id,
            dst,
        )
    }

    /// Particle `id` and the particle on `dst` exchanged: cells and recorded
    /// places both.
    pub open spec fn exchange(self, id: int, dst: Vec2<usize>) -> SimState {
        let other = self.cell(dst).owner();
        let src = self.particles[id].pos;
        self.swap_cells(self.index_of(src), self.index_of(dst)).with_pos(other, src).with_pos(
            id,
            self.particles[other].pos,
        )
    }

    /// The standard rule: a particle moves onto `dst` if that cell is empty.
    pub open spec fn standard_case(self, id: int, dst: Vec2<usize>) -> (SimState, bool) {
        if self.cell(dst) is Empty {
            (self.move_to(id, dst), true)
        } else {
            (self, false)
        }
    }

    /// One sub-step of a water particle: straight down, else diagonally down
    /// (left before right), else sideways (left before right).
    pub open spec fn water_step(self, id: int) -> (SimState, ParticleUpdateState) {
        let pos = self.particles[id].pos;
        if pos.y + 1 >= self.height {
            (self, ParticleUpdateState::Stable)
        } else if self.cell(offset(pos, 0, 1)) is Empty {
            (self.move_to(id, offset(pos, 0, 1)), ParticleUpdateState::Moving)
        } else if pos.x > 0 && self.cell(offset(pos, -1, 1)) is Empty {
            (self.move_to(id, offset(pos, -1, 1)), ParticleUpdateState::Stopped)
        } else if pos.x + 1 < self.width && self.cell(offset(pos, 1, 1)) is Empty {
            (self.move_to(id, offset(pos, 1, 1)), ParticleUpdateState::Stopped)
        } else if pos.x > 0 && self.cell(offset(pos, -1, 0)) is Empty {
            (self.move_to(id, offset(pos, -1, 0)), ParticleUpdateState::Stopped)
        } else if pos.x + 1 < self.width && self.cell(offset(pos, 1, 0)) is Empty {
            (self.move_to(id, offset(pos, 1, 0)), ParticleUpdateState::Stopped)
        } else {
            (self, ParticleUpdateState::Stable)
        }
    }

    /// Sand displacing the water on `dst`: the two exchange places, the water
    /// takes one sub-step of its own from where the sand was, and is left
    /// eligible for its own turn in this tick.
    pub open spec fn displace(self, id: int, dst: Vec2<usize>) -> SimState {
        let other = self.cell(dst).owner();
        self.exchange(id, dst).water_step(other).0.with_updated(other, false)
    }

    /// The rule for sand: onto an empty cell as any particle, or into the
    /// place of a water particle, which it displaces.
    pub open spec fn sand_case(self, id: int, dst: Vec2<usize>) -> (SimState, bool) {
        if self.cell(dst) is Empty {
            (self.move_to(id, dst), true)
        } else if self.cell(dst) is Water {
            (self.displace(id, dst), true)
        } else {
            (self, false)
        }
    }

    /// Whether sand may go onto `dst`.
    pub open spec fn sand_accepts(self, dst: Vec2<usize>) -> bool {
        self.cell(dst) is Empty || self.cell(dst) is Water
    }

    /// One sub-step of a sand particle: straight down, else diagonally down
    /// (left before right).
    pub open spec fn sand_step(self, id: int) -> (SimState, ParticleUpdateState) {
        let pos = self.particles[id].pos;
        if pos.y + 1 >= self.height {
            (self, ParticleUpdateState::Stable)
        } else if self.sand_accepts(offset(pos, 0, 1)) {
            (self.sand_case(id, offset(pos, 0, 1)).0, ParticleUpdateState::Moving)
        } else if pos.x > 0 && self.sand_accepts(offset(pos, -1, 1)) {
            (self.sand_case(id, offset(pos, -1, 1)).0, ParticleUpdateState::Stopped)
        } else if pos.x + 1 < self.width && self.sand_accepts(offset(pos, 1, 1)) {
            (self.sand_case(id, offset(pos, 1, 1)).0, ParticleUpdateState::Stopped)
        } else {
            (self, ParticleUpdateState::Stable)
        }
    }

    /// One sub-step of particle `id` by the rule of its material. Wood, which
    /// has no rule, is at rest.
    pub open spec fn step(self, id: int) -> (SimState, ParticleUpdateState) {
        match self.particles[id].kind {
            FieldState::Sand(_) => self.sand_step(id),
            FieldState::Water(_) => self.water_step(id),
            _ => (self, ParticleUpdateState::Stable),
        }
    }

    // ----- the driver -----
    /// The velocity after gravity has acted on it for one tick. It stops
    /// growing at the largest value that it can hold.
    pub open spec fn accelerated(velocity: u64) -> u64 {
        if velocity + GRAVITY > u64::MAX {
            u64::MAX
        } else {
            (velocity + GRAVITY) as u64
        }
    }

    /// Up to `budget` sub-steps of particle `id`. A sub-step that ends
    /// `Stopped` or `Stable` ends the run, and `Stable` puts the velocity back
    /// to its base; a run that uses up its budget marks the particle updated
    /// and is reported as `Moving`.
    pub open spec fn run(self, id: int, budget: nat) -> (SimState, ParticleUpdateState)
        decreases budget,
    {
        if budget == 0 {
            (self.with_updated(id, true), ParticleUpdateState::Moving)
        } else {
            let (next, outcome) = self.step(id);
            match outcome {
                ParticleUpdateState::Moving => next.run(id, (budget - 1) as nat),
                ParticleUpdateState::Stopped => (next, ParticleUpdateState::Stopped),
                ParticleUpdateState::Stable => (
                    next.with_velocity(id, BASE_VELOCITY),
                    ParticleUpdateState::Stable,
                ),
            }
        }
    }

    /// The turn of a movable particle: gravity first, then as many sub-steps
    /// as the new velocity has whole cells.
    pub open spec fn advance(self, id: int) -> (SimState, ParticleUpdateState) {
        let faster = self.with_velocity(id, Self::accelerated(self.particles[id].velocity));
        faster.run(id, faster.particles[id].spec_budget())
    }

    /// Whether particle `id` takes a turn when the sweep reaches it: it is
    /// sand or water, and not marked updated.
    pub open spec fn takes_turn(self, id: int) -> bool {
        let p = self.particles[id];
        !p.updated && (p.kind is Sand || p.kind is Water)
    }

    /// What the sweep does when it reaches particle `id`.
    pub open spec fn visit(self, id: int) -> SimState {
        if self.takes_turn(id) {
            self.advance(id).0
        } else {
            self
        }
    }

    /// The sweep over the particles `count - 1, count - 2, .., 0`, in that
    /// order: the last created first.
    pub open spec fn sweep(self, count: nat) -> SimState
        decreases count,
    {
        if count == 0 {
            self
        } else {
            self.visit(count - 1).sweep((count - 1) as nat)
        }
    }

    /// All "updated" flags cleared.
    pub open spec fn reset_updated(self) -> SimState {
        SimState {
            particles: Seq::new(
                self.particles.len(),
                |i: int| Particle { updated: false, ..self.particles[i] },
            ),
            ..self
        }
    }

    // ----- the brush -----
    /// Pressing (`pressed`) or releasing the button of a material. A press
    /// arms the brush only if nothing is armed; a release disarms it only if
    /// this very material is armed.
    pub open spec fn set_creation(self, pressed: bool, kind: FieldState) -> SimState {
        if pressed && self.armed is None {
            SimState { armed: Some(kind), ..self }
        } else if !pressed && self.armed == Some(kind) {
            SimState { armed: None, ..self }
        } else {
            self
        }
    }

    /// The brush's centre for a pointer at `pos`: each coordinate brought
    /// inward, so that a brush round it stays inside the grid.
    pub open spec fn brush_center(self, pos: Vec2<usize>) -> Vec2<usize> {
        Vec2 {
            x: clamp(pos.x as int, self.brush_radius as int, self.width - self.brush_radius)
                as usize,
            y: clamp(pos.y as int, self.brush_radius as int, self.height - self.brush_radius)
                as usize,
        }
    }

    /// Whether the brush centred on `center` covers `pos`.
    pub open spec fn in_brush(self, center: Vec2<usize>, pos: Vec2<usize>) -> bool {
        within_radius(center, pos, self.brush_radius)
    }

    /// A new particle of the material of `kind` on the cell at `pos`. It is
    /// appended to the store, and its index is its identity.
    pub open spec fn spawn(self, pos: Vec2<usize>, kind: FieldState) -> SimState {
        let state = kind.with_owner(self.particles.len() as usize);
        SimState {
            grid: self.grid.update(self.index_of(pos), state),
            particles: self.particles.push(Particle::spec_new(pos, state)),
            ..self
        }
    }

    /// Whether one stroke of a brush centred on `center` puts a particle of
    /// `kind` on `target`: the material is one, the cell exists, the brush
    /// covers it, and it is empty.
    pub open spec fn places(self, center: Vec2<usize>, target: Vec2<usize>, kind: FieldState)
        -> bool {
        &&& !(kind is Empty)
        &&& self.in_bounds(target)
        &&& self.in_brush(center, target)
        &&& self.cell(target) is Empty
    }

    /// What one stroke of the brush at `target` does: a new particle there if
    /// the stroke places one, else nothing.
    pub open spec fn place(self, center: Vec2<usize>, target: Vec2<usize>, kind: FieldState)
        -> SimState {
        if self.places(center, target, kind) {
            self.spawn(target, kind)
        } else {
            self
        }
    }

    /// Whether a brush centred on `center` stays inside the grid.
    pub open spec fn valid_center(self, center: Vec2<usize>) -> bool {
        &&& self.brush_radius <= center.x <= self.width - self.brush_radius
        &&& self.brush_radius <= center.y <= self.height - self.brush_radius
    }

    /// Particle `i` of `self` was spawned onto a cell that was empty in
    /// `before` and that a brush centred on `center` covers; it is of the
    /// material of `kind` and as new.
    pub open spec fn spawned(self, before: SimState, center: Vec2<usize>, kind: FieldState, i: int)
        -> bool {
        let p = self.particles[i];
        &&& p == Particle::spec_new(p.pos, kind.with_owner(i as usize))
        &&& before.in_bounds(p.pos)
        &&& before.in_brush(center, p.pos)
        &&& before.cell(p.pos) is Empty
    }

    /// `self` comes from `before` by strokes of a brush centred on `center`
    /// and armed with `kind`: the configuration and the old particles are
    /// untouched, every further particle was spawned by the brush, no
    /// occupied cell has changed, and a cell that has changed belongs to a
    /// new particle.
    pub open spec fn spawned_from(self, before: SimState, center: Vec2<usize>, kind: FieldState)
        -> bool {
        &&& self.width == before.width
        &&& self.height == before.height
        &&& self.brush_radius == before.brush_radius
        &&& self.armed == before.armed
        &&& self.grid.len() == before.grid.len()
        &&& before.particles.len() <= self.particles.len()
        &&& forall|i: int|
            0 <= i < before.particles.len() ==> #[trigger] self.particles[i] == before.particles[i]
        &&& forall|i: int|
            before.particles.len() <= i < self.particles.len() ==> #[trigger] self.spawned(
                before,
                center,
                kind,
                i,
            )
        &&& forall|c: int|
            0 <= c < self.grid.len() && #[trigger] self.grid[c] != before.grid[c] ==> {
                &&& before.grid[c] is Empty
                &&& !(self.grid[c] is Empty)
                &&& self.grid[c].owner() >= before.particles.len()
            }
    }

    /// `self` comes from `before` by filling the brush: `spawned_from`, and
    /// besides no cell under the brush is left empty, and the new particles
    /// stand in the order of a scan by columns.
    pub open spec fn filled_from(self, before: SimState, center: Vec2<usize>, kind: FieldState)
        -> bool {
        &&& self.spawned_from(before, center, kind)
        &&& forall|p: Vec2<usize>|
            self.in_bounds(p) && #[trigger] within_radius(center, p, self.brush_radius) ==> !(
            self.cell(p) is Empty)
        &&& forall|i: int, j: int|
            before.particles.len() <= i < j < self.particles.len() ==> scanned_before(
                #[trigger] self.particles[i].pos,
                #[trigger] self.particles[j].pos,
            )
    }

    /// Whether `p` lies in the square round `center` from which the strokes of
    /// the brush are drawn: less than the radius right of and below the
    /// centre, at most the radius left of and above it.
    pub open spec fn in_square(self, center: Vec2<usize>, p: Vec2<usize>) -> bool {
        &&& center.x - self.brush_radius <= p.x < center.x + self.brush_radius
        &&& center.y - self.brush_radius <= p.y < center.y + self.brush_radius
    }

    /// What strokes at `targets`, first to last, make of the simulation.
    pub open spec fn place_all(
        self,
        center: Vec2<usize>,
        kind: FieldState,
        targets: Seq<Vec2<usize>>,
    ) -> SimState
        decreases targets.len(),
    {
        if targets.len() == 0 {
            self
        } else {
            self.place_all(center, kind, targets.drop_last()).place(center, targets.last(), kind)
        }
    }

    /// `self` comes from `before` by as many strokes as the radius has
    /// cells, each at some cell of the square round `center`. Which cells is
    /// not said: they are drawn at random.
    pub open spec fn strokes_of(self, before: SimState, center: Vec2<usize>, kind: FieldState)
        -> bool {
        &&& exists|targets: Seq<Vec2<usize>>|
            {
                &&& #[trigger] before.place_all(center, kind, targets) == self
                &&& targets.len() == before.brush_radius
                &&& forall|k: int|
                    0 <= k < targets.len() ==> before.in_square(center, #[trigger] targets[k])
            }
        &&& self.spawned_from(before, center, kind)
        &&& self.particles.len() <= before.particles.len() + before.brush_radius
    }

    /// What random strokes of the brush may have done, by what the brush is
    /// armed with: with sand or water, strokes of that material; else
    /// nothing.
    pub open spec fn stroked_from(self, before: SimState, center: Vec2<usize>) -> bool {
        match before.armed {
            Some(FieldState::Sand(_)) => self.strokes_of(before, center, FieldState::Sand(0)),
            Some(FieldState::Water(_)) => self.strokes_of(before, center, FieldState::Water(0)),
            _ => self == before,
        }
    }

    /// What the brush may have done in a tick, by what it is armed with. With
    /// wood it fills the disc with wood; with sand or water it makes random
    /// strokes; unarmed it does nothing.
    pub open spec fn brushed_from(self, before: SimState, center: Vec2<usize>) -> bool {
        match before.armed {
            Some(FieldState::Wood(_)) => self.filled_from(before, center, FieldState::Wood(0)),
            _ => self.stroked_from(before, center),
        }
    }

    /// `self` has the configuration of `before` and all its particles, each
    /// of its material and colour, and no wood has moved or changed velocity.
    /// Further particles may have joined.
    pub open spec fn grown_from(self, before: SimState) -> bool {
        &&& self.width == before.width
        &&& self.height == before.height
        &&& self.brush_radius == before.brush_radius
        &&& self.armed == before.armed
        &&& self.grid.len() == before.grid.len()
        &&& before.particles.len() <= self.particles.len()
        &&& forall|i: int|
            0 <= i < before.particles.len() ==> {
                &&& (#[trigger] self.particles[i]).kind == before.particles[i].kind
                &&& self.particles[i].color == before.particles[i].color
                &&& before.particles[i].kind is Wood ==> {
                    &&& self.particles[i].pos == before.particles[i].pos
                    &&& self.particles[i].velocity == before.particles[i].velocity
                }
            }
    }

    /// `self` is what one tick with the pointer at `mouse_pos` may make of
    /// `before`: the sweep over all particles, then the brush at the pointer,
    /// then all "updated" flags cleared.
    pub open spec fn ticked_from(self, before: SimState, mouse_pos: Vec2<usize>) -> bool {
        let swept = before.sweep(before.particles.len());
        exists|brushed: SimState|
            {
                &&& brushed.wf()
                &&& #[trigger] brushed.brushed_from(swept, swept.brush_center(mouse_pos))
                &&& self == brushed.reset_updated()
            }
    }
}

/// In a grid of `width * height` cells, every coordinate inside the grid has
/// an index inside the grid's sequence of cells.
pub proof fn lemma_index_in_range(x: int, y: int, width: int, height: int)
    by (nonlinear_arith)
    requires
        0 <= x < width,
        0 <= y < height,
    ensures
        0 <= width * y,
        0 <= x + width * y < width * height,
{
}

/// Two coordinates inside a row with the same index are the same coordinate.
pub proof fn lemma_index_injective(x1: int, y1: int, x2: int, y2: int, width: int)
    by (nonlinear_arith)
    requires
        0 <= x1 < width,
        0 <= x2 < width,
        0 <= y1,
        0 <= y2,
        x1 + width * y1 == x2 + width * y2,
    ensures
        x1 == x2,
        y1 == y2,
{
    if y1 < y2 {
        assert(width * y2 >= width * (y1 + 1));
    } else if y2 < y1 {
        assert(width * y1 >= width * (y2 + 1));
    }
}

impl SimState {
    /// The index of a cell inside the grid is inside the sequence of cells.
    pub proof fn lemma_index(self, pos: Vec2<usize>)
        requires
            self.grid.len() == self.width * self.height,
            self.in_bounds(pos),
        ensures
            0 <= self.index_of(pos) < self.grid.len(),
    {
        lemma_index_in_range(pos.x as int, pos.y as int, self.width as int, self.height as int);
    }

    /// Moving a particle that is no wood onto an empty cell keeps grid and
    /// store consistent.
    pub proof fn lemma_move_to(self, id: int, dst: Vec2<usize>)
        requires
            self.wf(),
            0 <= id < self.particles.len(),
            !(self.particles[id].kind is Wood),
            self.in_bounds(dst),
            self.cell(dst) is Empty,
        ensures
            self.move_to(id, dst).wf(),
            self.move_to(id, dst).moved_from(self),
    {
        let t = self.move_to(id, dst);
        assert(self.particle_ok(id));
        self.lemma_index(self.particles[id].pos);
        self.lemma_index(dst);
        assert forall|i: int| 0 <= i < t.particles.len() implies #[trigger] t.particle_ok(i) by {
            assert(self.particle_ok(i));
            if i != id {
                self.lemma_index(self.particles[i].pos);
            }
        }
        assert forall|c: int| 0 <= c < t.grid.len() implies #[trigger] t.cell_ok(c) by {
            assert(self.cell_ok(c));
        }
    }

    /// Exchanging a sand particle with the water on `dst` keeps grid and
    /// store consistent.
    pub proof fn lemma_exchange(self, id: int, dst: Vec2<usize>)
        requires
            self.wf(),
            0 <= id < self.particles.len(),
            self.particles[id].kind is Sand,
            self.in_bounds(dst),
            self.cell(dst) is Water,
        ensures
            self.exchange(id, dst).wf(),
            self.exchange(id, dst).moved_from(self),
            0 <= self.cell(dst).owner() < self.particles.len(),
            self.cell(dst).owner() != id,
            self.particles[self.cell(dst).owner()].kind is Water,
            self.exchange(id, dst).particles[self.cell(dst).owner()].pos
                == self.particles[id].pos,
    {
        let t = self.exchange(id, dst);
        let b = self.index_of(dst);
        let other = self.cell(dst).owner();
        assert(self.particle_ok(id));
        self.lemma_index(self.particles[id].pos);
        self.lemma_index(dst);
        assert(self.cell_ok(b));
        assert(self.particle_ok(other));
        assert forall|i: int| 0 <= i < t.particles.len() implies #[trigger] t.particle_ok(i) by {
            assert(self.particle_ok(i));
            if i != id && i != other {
                self.lemma_index(self.particles[i].pos);
            }
        }
        assert forall|c: int| 0 <= c < t.grid.len() implies #[trigger] t.cell_ok(c) by {
            assert(self.cell_ok(c));
        }
    }

    /// Setting the "updated" flag of a particle keeps grid and store
    /// consistent.
    pub proof fn lemma_with_updated(self, id: int, updated: bool)
        requires
            self.wf(),
            0 <= id < self.particles.len(),
        ensures
            self.with_updated(id, updated).wf(),
            self.with_updated(id, updated).moved_from(self),
    {
        let t = self.with_updated(id, updated);
        assert forall|i: int| 0 <= i < t.particles.len() implies #[trigger] t.particle_ok(i) by {
            assert(self.particle_ok(i));
        }
        assert forall|c: int| 0 <= c < t.grid.len() implies #[trigger] t.cell_ok(c) by {
            assert(self.cell_ok(c));
        }
    }

    /// Giving a particle that is no wood another velocity, not below the
    /// base, keeps grid and store consistent.
    pub proof fn lemma_with_velocity(self, id: int, velocity: u64)
        requires
            self.wf(),
            0 <= id < self.particles.len(),
            !(self.particles[id].kind is Wood),
            velocity >= BASE_VELOCITY,
        ensures
            self.with_velocity(id, velocity).wf(),
            self.with_velocity(id, velocity).moved_from(self),
    {
        let t = self.with_velocity(id, velocity);
        assert forall|i: int| 0 <= i < t.particles.len() implies #[trigger] t.particle_ok(i) by {
            assert(self.particle_ok(i));
        }
        assert forall|c: int| 0 <= c < t.grid.len() implies #[trigger] t.cell_ok(c) by {
            assert(self.cell_ok(c));
        }
    }

    /// What came from a state that came from `before` came from `before`.
    pub proof fn lemma_moved_from_trans(self, middle: SimState, before: SimState)
        requires
            self.moved_from(middle),
            middle.moved_from(before),
        ensures
            self.moved_from(before),
    {
        assert forall|i: int| 0 <= i < self.particles.len() implies {
            &&& (#[trigger] self.particles[i]).kind == before.particles[i].kind
            &&& self.particles[i].color == before.particles[i].color
            &&& before.particles[i].kind is Wood ==> {
                &&& self.particles[i].pos == before.particles[i].pos
                &&& self.particles[i].velocity == before.particles[i].velocity
            }
        } by {
            let m = middle.particles[i];
        }
    }

    /// A new particle on an empty cell keeps grid and store consistent.
    pub proof fn lemma_spawn(self, pos: Vec2<usize>, kind: FieldState)
        requires
            self.wf(),
            self.particles.len() < usize::MAX,
            self.in_bounds(pos),
            self.cell(pos) is Empty,
            !(kind is Empty),
        ensures
            self.spawn(pos, kind).wf(),
    {
        let t = self.spawn(pos, kind);
        self.lemma_index(pos);
        assert forall|i: int| 0 <= i < t.particles.len() implies #[trigger] t.particle_ok(i) by {
            if i < self.particles.len() {
                assert(self.particle_ok(i));
                self.lemma_index(self.particles[i].pos);
            }
        }
        assert forall|c: int| 0 <= c < t.grid.len() implies #[trigger] t.cell_ok(c) by {
            assert(self.cell_ok(c));
        }
    }

    /// One more stroke after some strokes of a brush is some strokes of that
    /// brush.
    pub proof fn lemma_spawned_from_place(
        self,
        before: SimState,
        center: Vec2<usize>,
        target: Vec2<usize>,
        kind: FieldState,
    )
        requires
            before.wf(),
            self.wf(),
            self.spawned_from(before, center, kind),
            self.particles.len() < usize::MAX,
        ensures
            self.place(center, target, kind).wf(),
            self.place(center, target, kind).spawned_from(before, center, kind),
    {
        let t = self.place(center, target, kind);
        if self.places(center, target, kind) {
            self.lemma_spawn(target, kind);
            self.lemma_index(target);
            let n = self.particles.len() as int;
            assert forall|i: int| before.particles.len() <= i < t.particles.len() implies #[trigger] t.spawned(
                before,
                center,
                kind,
                i,
            ) by {
                if i < n {
                    assert(self.spawned(before, center, kind, i));
                } else {
                    let c = self.index_of(target);
                    assert(self.grid[c] is Empty);
                    if self.grid[c] != before.grid[c] {
                    }
                }
            }
            assert forall|c: int|
                0 <= c < t.grid.len() && #[trigger] t.grid[c] != before.grid[c] implies {
                &&& before.grid[c] is Empty
                &&& !(t.grid[c] is Empty)
                &&& t.grid[c].owner() >= before.particles.len()
            } by {
                if c == self.index_of(target) {
                    if self.grid[c] != before.grid[c] {
                    }
                } else {
                    assert(self.grid[c] != before.grid[c]);
                }
            }
        }
    }
}

} // verus!
