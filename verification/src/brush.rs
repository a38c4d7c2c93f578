//! The brush: arming it with a material, and spawning particles in a disc
//! round the pointer, densely for wood and by random strokes for sand and
//! water.

use vstd::prelude::*;
use crate::field::FieldState;
use crate::particle::Particle;
use crate::rng::gen_range;
use crate::simulator::{get_id_from_pos, Simulator};
use crate::state::{clamp, scanned_before, within_radius};
use crate::vec::Vec2;

verus! {

/// How the brush fills its disc.
#[derive(Copy, Clone, Debug, PartialEq, Eq, Structural)]
pub enum CreationRules {
    /// Every empty cell of the disc, once.
    Solid,
    /// A fixed number of random strokes.
    Falling,
}

/// A point that lies strictly within `radius` of `center` differs from it by
/// less than `radius` in each coordinate.
pub proof fn lemma_within_radius_square(center: Vec2<usize>, pos: Vec2<usize>, radius: nat)
    by (nonlinear_arith)
    requires
        within_radius(center, pos, radius),
    ensures
        center.x - radius < pos.x < center.x + radius,
        center.y - radius < pos.y < center.y + radius,
{
    let dx = pos.x - center.x;
    let dy = pos.y - center.y;
    assert(dx * dx >= 0 && dy * dy >= 0);
    if dx >= radius {
        assert(dx * dx >= radius * radius);
    }
    if dx <= -radius {
        assert(dx * dx >= radius * radius);
    }
    if dy >= radius {
        assert(dy * dy >= radius * radius);
    }
    if dy <= -radius {
        assert(dy * dy >= radius * radius);
    }
}

/// The squares that the test of distance computes cannot overflow in a grid
/// that holds the brush: both offsets are below the radius, and four times
/// the radius squared is at most the number of cells.
proof fn lemma_squares_fit(dx: int, dy: int, radius: int, width: int, height: int)
    by (nonlinear_arith)
    requires
        0 <= dx < radius,
        0 <= dy < radius,
        2 * radius <= width,
        2 * radius <= height,
    ensures
        0 <= dx * dx <= radius * radius,
        0 <= dy * dy <= radius * radius,
        dx * dx + dy * dy <= 2 * (radius * radius),
        4 * (radius * radius) <= width * height,
{
    assert(dx * dx <= radius * radius);
    assert(dy * dy <= radius * radius);
    assert((2 * radius) * (2 * radius) <= width * height);
}

/// One coordinate of the pointer brought inward, so that a brush of `radius`
/// round it stays within `0..border`.
pub fn get_corrected_pos(pos: usize, border: usize, radius: usize) -> (corrected: usize)
    requires
        2 * radius <= border,
    ensures
        corrected == clamp(pos as int, radius as int, border - radius),
        radius <= corrected <= border - radius,
{
    if pos < radius {
        radius
    } else if pos > border - radius {
        border - radius
    } else {
        pos
    }
}

impl Simulator {
    /// Presses (`con`) or releases the button of the material `state`. A
    /// press arms the brush with it if nothing is armed; a release disarms the
    /// brush if just this value is armed. Anything else changes nothing.
    pub fn set_creation(&mut self, con: bool, state: FieldState)
        ensures
            final(self)@ == old(self)@.set_creation(con, state),
            old(self).wf() ==> final(self).wf(),
    {
        match (con, self.current_spawning_field) {
            (false, Some(s)) => {
                if s == state {
                    self.current_spawning_field = None;
                }
            },
            (true, None) => {
                self.current_spawning_field = Some(state);
            },
            _ => {},
        }
        proof {
            if old(self).wf() {
                assert forall|i: int| 0 <= i < self@.particles.len() implies #[trigger] self@.particle_ok(
                    i,
                ) by {
                    assert(old(self)@.particle_ok(i));
                }
                assert forall|c: int| 0 <= c < self@.grid.len() implies #[trigger] self@.cell_ok(
                    c,
                ) by {
                    assert(old(self)@.cell_ok(c));
                }
            }
        }
    }

    /// Whether a brush centred on `center` covers `pos`: whether `pos` lies
    /// strictly within the brush's radius of `center`.
    pub fn in_brush(&self, center: Vec2<usize>, pos: Vec2<usize>) -> (covered: bool)
        requires
            self.wf(),
        ensures
            covered == self@.in_brush(center, pos),
    {
        let radius = self.brush_radius;
        let dx = if pos.x >= center.x {
            pos.x - center.x
        } else {
            center.x - pos.x
        };
        let dy = if pos.y >= center.y {
            pos.y - center.y
        } else {
            center.y - pos.y
        };
        if dx >= radius || dy >= radius {
            proof {
                if within_radius(center, pos, radius as nat) {
                    lemma_within_radius_square(center, pos, radius as nat);
                }
            }
            return false;
        }
        proof {
            lemma_squares_fit(
                dx as int,
                dy as int,
                radius as int,
                self.grid_size.x as int,
                self.grid_size.y as int,
            );
            assert(dx * dx == (pos.x - center.x) * (pos.x - center.x)) by (nonlinear_arith)
                requires
                    dx == pos.x - center.x || dx == center.x - pos.x,
            ;
            assert(dy * dy == (pos.y - center.y) * (pos.y - center.y)) by (nonlinear_arith)
                requires
                    dy == pos.y - center.y || dy == center.y - pos.y,
            ;
        }
        dx * dx + dy * dy < radius * radius
    }

    /// Puts a new particle on the empty cell `id`, which is the cell at
    /// `pos`. `state` is its material and names it as the next particle of
    /// the store.
    pub fn create_particle(&mut self, id: usize, pos: Vec2<usize>, state: FieldState)
        requires
            old(self).wf(),
            old(self)@.in_bounds(pos),
            id == old(self)@.index_of(pos),
            old(self)@.cell(pos) is Empty,
            !(state is Empty),
            state.owner() == old(self)@.particles.len(),
        ensures
            final(self)@ == old(self)@.spawn(pos, state),
            final(self).wf(),
    {
        proof {
            self@.lemma_index(pos);
        }
        self.grid[id] = state;
        let kind = self.grid[id];
        self.particles.push(Particle::new(pos, kind));
        proof {
            assert(self.particles.len() == old(self)@.particles.len() + 1);
            assert(state.with_owner(old(self)@.particles.len() as usize) == state);
            assert(self@.particles =~= old(self)@.spawn(pos, state).particles);
            old(self)@.lemma_spawn(pos, state);
        }
    }

    /// One stroke of a brush centred on `center`: a new particle of the
    /// material of `kind` on the cell at `target`, if that cell exists, lies
    /// under the brush and is empty. Says whether it placed one.
    pub fn place_particle(
        &mut self,
        center: Vec2<usize>,
        target: Vec2<usize>,
        kind: FieldState,
    ) -> (placed: bool)
        requires
            old(self).wf(),
        ensures
            final(self)@ == old(self)@.place(center, target, kind),
            placed == old(self)@.places(center, target, kind),
            final(self).wf(),
    {
        if target.x >= self.grid_size.x || target.y >= self.grid_size.y {
            return false;
        }
        if self.in_brush(center, target) {
            let id = get_id_from_pos(target, self.grid_size);
            if self.grid[id].is_empty() {
                let next = self.particles.len();
                let state = match kind {
                    FieldState::Sand(_) => FieldState::Sand(next),
                    FieldState::Water(_) => FieldState::Water(next),
                    FieldState::Wood(_) => FieldState::Wood(next),
                    FieldState::Empty => {
                        return false;
                    },
                };
                self.create_particle(id, target, state);
                return true;
            }
        }
        false
    }

    /// The brush armed with sand or water, centred on `pos`: as many strokes
    /// as the radius has cells, each at a cell drawn at random from the square
    /// round the centre. Unarmed, or armed with anything else, it does
    /// nothing.
    pub fn falling_particle_creation_rules(&mut self, pos: Vec2<usize>)
        requires
            old(self).wf(),
            old(self)@.valid_center(pos),
        ensures
            final(self).wf(),
            final(self)@.stroked_from(old(self)@, pos),
    {
        let kind = match self.current_spawning_field {
            Some(FieldState::Water(_)) => FieldState::Water(0),
            Some(FieldState::Sand(_)) => FieldState::Sand(0),
            _ => {
                return ;
            },
        };
        let mut rng = rand::thread_rng();
        let radius = self.brush_radius;
        let mut strokes: usize = 0;
        let ghost mut targets: Seq<Vec2<usize>> = Seq::empty();
        while strokes < radius
            invariant
                old(self).wf(),
                self.wf(),
                old(self)@.valid_center(pos),
                radius == old(self)@.brush_radius,
                kind == FieldState::Water(0) || kind == FieldState::Sand(0),
                strokes <= radius,
                targets.len() == strokes,
                forall|k: int|
                    0 <= k < targets.len() ==> old(self)@.in_square(pos, #[trigger] targets[k]),
                self@ == old(self)@.place_all(pos, kind, targets),
                self@.spawned_from(old(self)@, pos, kind),
                self@.particles.len() <= old(self)@.particles.len() + strokes,
            decreases radius - strokes,
        {
            let x = gen_range(&mut rng, pos.x - radius, pos.x + radius);
            let y = gen_range(&mut rng, pos.y - radius, pos.y + radius);
            let ghost before = self@;
            let placed = self.place_particle(pos, [x, y].into(), kind);
            proof {
                if placed {
                    assert(self.particles.len() == before.particles.len() + 1);
                    before.lemma_spawned_from_place(old(self)@, pos, Vec2 { x, y }, kind);
                }
                assert(targets.push(Vec2 { x, y }).drop_last() =~= targets);
                targets = targets.push(Vec2 { x, y });
            }
            strokes += 1;
        }
        assert(old(self)@.place_all(pos, kind, targets) == self@);
    }

    /// The brush armed with wood, centred on `pos`: every empty cell that lies
    /// strictly within the radius of `pos` gets a wood particle, column by
    /// column, and down each column.
    pub fn solid_particle_creation_rules(&mut self, pos: Vec2<usize>)
        requires
            old(self).wf(),
            old(self)@.valid_center(pos),
        ensures
            final(self).wf(),
            final(self)@.filled_from(old(self)@, pos, FieldState::Wood(0)),
    {
        let radius = self.brush_radius;
        let kind = FieldState::Wood(0);
        let x_end = pos.x + radius;
        let y_end = pos.y + radius;
        let mut x = pos.x - radius;
        proof {
            assert forall|p: Vec2<usize>|
                self@.in_bounds(p) && #[trigger] within_radius(pos, p, radius as nat) && p.x
                    < x implies !(self@.cell(p) is Empty) by {
                lemma_within_radius_square(pos, p, radius as nat);
            }
        }
        while x < x_end
            invariant
                old(self).wf(),
                self.wf(),
                old(self)@.valid_center(pos),
                radius == old(self)@.brush_radius,
                kind == FieldState::Wood(0),
                x_end == pos.x + radius,
                y_end == pos.y + radius,
                pos.x - radius <= x <= x_end,
                self@.spawned_from(old(self)@, pos, kind),
                forall|p: Vec2<usize>|
                    self@.in_bounds(p) && #[trigger] within_radius(pos, p, radius as nat) && p.x < x
                        ==> !(self@.cell(p) is Empty),
                forall|i: int|
                    old(self)@.particles.len() <= i < self@.particles.len() ==> (
                    #[trigger] self@.particles[i]).pos.x < x,
                forall|i: int, j: int|
                    old(self)@.particles.len() <= i < j < self@.particles.len() ==> scanned_before(
                        #[trigger] self@.particles[i].pos,
                        #[trigger] self@.particles[j].pos,
                    ),
            decreases x_end - x,
        {
            let mut y = pos.y - radius;
            proof {
                assert forall|p: Vec2<usize>|
                    self@.in_bounds(p) && #[trigger] within_radius(pos, p, radius as nat)
                        && scanned_before(p, Vec2 { x, y }) implies !(self@.cell(p) is Empty) by {
                    lemma_within_radius_square(pos, p, radius as nat);
                }
            }
            while y < y_end
                invariant
                    old(self).wf(),
                    self.wf(),
                    old(self)@.valid_center(pos),
                    radius == old(self)@.brush_radius,
                    kind == FieldState::Wood(0),
                    x_end == pos.x + radius,
                    y_end == pos.y + radius,
                    pos.x - radius <= x < x_end,
                    pos.y - radius <= y <= y_end,
                    self@.spawned_from(old(self)@, pos, kind),
                    forall|p: Vec2<usize>|
                        self@.in_bounds(p) && #[trigger] within_radius(pos, p, radius as nat)
                            && scanned_before(p, Vec2 { x, y }) ==> !(self@.cell(p) is Empty),
                    forall|i: int|
                        old(self)@.particles.len() <= i < self@.particles.len() ==> scanned_before(
                            (#[trigger] self@.particles[i]).pos,
                            Vec2 { x, y },
                        ),
                    forall|i: int, j: int|
                        old(self)@.particles.len() <= i < j < self@.particles.len()
                            ==> scanned_before(
                            #[trigger] self@.particles[i].pos,
                            #[trigger] self@.particles[j].pos,
                        ),
                decreases y_end - y,
            {
                let ghost before = self@;
                let target: Vec2<usize> = [x, y].into();
                let placed = self.place_particle(pos, target, kind);
                proof {
                    if placed {
                        assert(self.particles.len() == before.particles.len() + 1);
                        before.lemma_spawned_from_place(old(self)@, pos, target, kind);
                    }
                    assert forall|p: Vec2<usize>|
                        self@.in_bounds(p) && #[trigger] within_radius(pos, p, radius as nat)
                            && scanned_before(p, Vec2 { x, y: (y + 1) as usize }) implies !(
                    self@.cell(p) is Empty) by {
                        before.lemma_index(p);
                        before.lemma_index(target);
                        if p == target {
                        } else {
                            assert(scanned_before(p, Vec2 { x, y }));
                        }
                    }
                }
                y += 1;
            }
            proof {
                assert forall|p: Vec2<usize>|
                    self@.in_bounds(p) && #[trigger] within_radius(pos, p, radius as nat) && p.x < x
                        + 1 implies !(self@.cell(p) is Empty) by {
                    lemma_within_radius_square(pos, p, radius as nat);
                    assert(scanned_before(p, Vec2 { x, y }));
                }
            }
            x += 1;
        }
        proof {
            assert forall|p: Vec2<usize>|
                self@.in_bounds(p) && #[trigger] within_radius(
                    pos,
                    p,
                    self@.brush_radius,
                ) implies !(self@.cell(p) is Empty) by {
                lemma_within_radius_square(pos, p, radius as nat);
            }
        }
    }

    /// Brings the pointer's position inward, so that the brush stays inside
    /// the grid, and lets the brush work there by the given rules.
    pub fn create_particle_with_rules(&mut self, pos: Vec2<usize>, creation_rules: CreationRules)
        requires
            old(self).wf(),
        ensures
            final(self).wf(),
            match creation_rules {
                CreationRules::Solid => final(self)@.filled_from(
                    old(self)@,
                    old(self)@.brush_center(pos),
                    FieldState::Wood(0),
                ),
                CreationRules::Falling => final(self)@.stroked_from(
                    old(self)@,
                    old(self)@.brush_center(pos),
                ),
            },
    {
        let pos_x = get_corrected_pos(pos.x, self.grid_size.x, self.brush_radius);
        let pos_y = get_corrected_pos(pos.y, self.grid_size.y, self.brush_radius);
        match creation_rules {
            CreationRules::Solid => self.solid_particle_creation_rules([pos_x, pos_y].into()),
            CreationRules::Falling => self.falling_particle_creation_rules([pos_x, pos_y].into()),
        }
    }

    /// The brush's part of a tick, with the pointer at `pos`: armed with wood
    /// it fills its disc, armed with sand or water it makes random strokes,
    /// unarmed it does nothing. No occupied cell is changed.
    pub fn create_particles(&mut self, pos: Vec2<usize>)
        requires
            old(self).wf(),
        ensures
            final(self).wf(),
            final(self)@.brushed_from(old(self)@, old(self)@.brush_center(pos)),
            forall|c: int|
                0 <= c < old(self)@.grid.len() && !(old(self)@.grid[c] is Empty)
                    ==> #[trigger] final(self)@.grid[c] == old(self)@.grid[c],
    {
        match self.current_spawning_field {
            Some(FieldState::Wood(_)) => {
                self.create_particle_with_rules(pos, CreationRules::Solid);
            },
            Some(FieldState::Water(_)) | Some(FieldState::Sand(_)) => {
                self.create_particle_with_rules(pos, CreationRules::Falling);
            },
            _ => {},
        }
    }
}

} // verus!
