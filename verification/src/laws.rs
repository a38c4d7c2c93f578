//! What holds of every simulation, stated over the model and proved.

use vstd::prelude::*;
use crate::field::FieldState;
use crate::particle::{ParticleUpdateState, BASE_VELOCITY};
use crate::state::{lemma_index_injective, offset, SimState};
use crate::vec::Vec2;

verus! {

/// Grid and store agree in both directions: in a consistent simulation,
/// every occupied cell names a particle whose position is that cell's
/// coordinate, and every particle lies on a cell that holds its material and
/// names it.
pub proof fn lemma_consistency(s: SimState)
    requires
        s.wf(),
    ensures
        forall|pos: Vec2<usize>|
            s.in_bounds(pos) && !(#[trigger] s.cell(pos) is Empty) ==> {
                &&& 0 <= s.cell(pos).owner() < s.particles.len()
                &&& s.particles[s.cell(pos).owner()].pos == pos
            },
        forall|i: int|
            0 <= i < s.particles.len() ==> {
                &&& s.in_bounds(#[trigger] s.particles[i].pos)
                &&& s.cell(s.particles[i].pos) == s.particles[i].kind
                &&& s.cell(s.particles[i].pos).owner() == i
            },
{
    assert forall|pos: Vec2<usize>|
        s.in_bounds(pos) && !(#[trigger] s.cell(pos) is Empty) implies {
        &&& 0 <= s.cell(pos).owner() < s.particles.len()
        &&& s.particles[s.cell(pos).owner()].pos == pos
    } by {
        s.lemma_index(pos);
        assert(s.cell_ok(s.index_of(pos)));
        let owner = s.cell(pos).owner();
        assert(s.particle_ok(owner));
        let at = s.particles[owner].pos;
        lemma_index_injective(
            at.x as int,
            at.y as int,
            pos.x as int,
            pos.y as int,
            s.width as int,
        );
    }
    assert forall|i: int| 0 <= i < s.particles.len() implies {
        &&& s.in_bounds(#[trigger] s.particles[i].pos)
        &&& s.cell(s.particles[i].pos) == s.particles[i].kind
        &&& s.cell(s.particles[i].pos).owner() == i
    } by {
        assert(s.particle_ok(i));
    }
}

/// No two particles of a consistent simulation lie on the same cell.
pub proof fn lemma_one_particle_per_cell(s: SimState, i: int, j: int)
    requires
        s.wf(),
        0 <= i < s.particles.len(),
        0 <= j < s.particles.len(),
        s.particles[i].pos == s.particles[j].pos,
    ensures
        i == j,
{
    assert(s.particle_ok(i));
    assert(s.particle_ok(j));
}

/// A stroke of the brush never changes a cell that holds something.
pub proof fn lemma_place_keeps_occupied(
    s: SimState,
    center: Vec2<usize>,
    target: Vec2<usize>,
    kind: FieldState,
    c: int,
)
    requires
        s.wf(),
        0 <= c < s.grid.len(),
        !(s.grid[c] is Empty),
    ensures
        s.place(center, target, kind).grid[c] == s.grid[c],
{
    if s.places(center, target, kind) {
        s.lemma_index(target);
    }
}

/// While the brush is armed, pressing another button changes nothing: after
/// a press of `a`, a press of `b` leaves what was armed. If nothing was armed
/// before the press of `a`, that is `a`.
pub proof fn lemma_single_arm(s: SimState, a: FieldState, b: FieldState)
    ensures
        s.set_creation(true, a).set_creation(true, b) == s.set_creation(true, a),
        s.armed is None ==> s.set_creation(true, a).set_creation(true, b).armed == Some(a),
        s.armed is Some ==> s.set_creation(true, a).set_creation(true, b).armed == s.armed,
{
}

/// Releasing the button of a material that is not the armed one changes
/// nothing; releasing that of the armed one disarms the brush.
pub proof fn lemma_release(s: SimState, a: FieldState, b: FieldState)
    requires
        s.armed == Some(a),
    ensures
        a != b ==> s.set_creation(false, b) == s,
        s.set_creation(false, a).armed is None,
{
}

/// A sub-step of a water particle keeps grid and store consistent, and moves
/// no wood.
pub proof fn lemma_water_step(s: SimState, id: int)
    requires
        s.wf(),
        0 <= id < s.particles.len(),
        s.particles[id].kind is Water,
    ensures
        s.water_step(id).0.wf(),
        s.water_step(id).0.moved_from(s),
{
    let pos = s.particles[id].pos;
    assert(s.particle_ok(id));
    if pos.y + 1 < s.height {
        if s.cell(offset(pos, 0, 1)) is Empty {
            s.lemma_move_to(id, offset(pos, 0, 1));
        } else if pos.x > 0 && s.cell(offset(pos, -1, 1)) is Empty {
            s.lemma_move_to(id, offset(pos, -1, 1));
        } else if pos.x + 1 < s.width && s.cell(offset(pos, 1, 1)) is Empty {
            s.lemma_move_to(id, offset(pos, 1, 1));
        } else if pos.x > 0 && s.cell(offset(pos, -1, 0)) is Empty {
            s.lemma_move_to(id, offset(pos, -1, 0));
        } else if pos.x + 1 < s.width && s.cell(offset(pos, 1, 0)) is Empty {
            s.lemma_move_to(id, offset(pos, 1, 0));
        }
    }
}

/// Sand going onto a cell inside the grid keeps grid and store consistent,
/// and moves no wood.
pub proof fn lemma_sand_case(s: SimState, id: int, dst: Vec2<usize>)
    requires
        s.wf(),
        0 <= id < s.particles.len(),
        s.particles[id].kind is Sand,
        s.in_bounds(dst),
    ensures
        s.sand_case(id, dst).0.wf(),
        s.sand_case(id, dst).0.moved_from(s),
{
    if s.cell(dst) is Empty {
        s.lemma_move_to(id, dst);
    } else if s.cell(dst) is Water {
        let other = s.cell(dst).owner();
        s.lemma_exchange(id, dst);
        let exchanged = s.exchange(id, dst);
        lemma_water_step(exchanged, other);
        let stepped = exchanged.water_step(other).0;
        stepped.lemma_with_updated(other, false);
        stepped.lemma_moved_from_trans(exchanged, s);
        stepped.with_updated(other, false).lemma_moved_from_trans(stepped, s);
    }
}

/// A sub-step of any particle keeps grid and store consistent, and moves no
/// wood.
pub proof fn lemma_step(s: SimState, id: int)
    requires
        s.wf(),
        0 <= id < s.particles.len(),
    ensures
        s.step(id).0.wf(),
        s.step(id).0.moved_from(s),
{
    let pos = s.particles[id].pos;
    assert(s.particle_ok(id));
    if s.particles[id].kind is Water {
        lemma_water_step(s, id);
    } else if s.particles[id].kind is Sand {
        if pos.y + 1 < s.height {
            if s.sand_accepts(offset(pos, 0, 1)) {
                lemma_sand_case(s, id, offset(pos, 0, 1));
            } else if pos.x > 0 && s.sand_accepts(offset(pos, -1, 1)) {
                lemma_sand_case(s, id, offset(pos, -1, 1));
            } else if pos.x + 1 < s.width && s.sand_accepts(offset(pos, 1, 1)) {
                lemma_sand_case(s, id, offset(pos, 1, 1));
            }
        }
    }
}

/// Where a sub-step takes a particle of sand or water. `Stable` leaves the
/// whole simulation as it is. `Moving` takes the particle one cell straight
/// down. `Stopped` takes it one cell diagonally down or, for water only, one
/// cell sideways. The cell that it comes to was empty or, for sand only,
/// held water; afterwards that cell holds the particle.
pub proof fn lemma_step_outcome(s: SimState, id: int)
    requires
        s.wf(),
        0 <= id < s.particles.len(),
        s.particles[id].kind is Sand || s.particles[id].kind is Water,
    ensures
        ({
            let (next, outcome) = s.step(id);
            let kind = s.particles[id].kind;
            let from = s.particles[id].pos;
            let to = next.particles[id].pos;
            &&& outcome is Stable ==> next == s
            &&& outcome is Moving ==> to == offset(from, 0, 1)
            &&& outcome is Stopped ==> {
                ||| to == offset(from, -1, 1)
                ||| to == offset(from, 1, 1)
                ||| kind is Water && to == offset(from, -1, 0)
                ||| kind is Water && to == offset(from, 1, 0)
            }
            &&& !(outcome is Stable) ==> {
                &&& s.in_bounds(to)
                &&& s.cell(to) is Empty || (kind is Sand && s.cell(to) is Water)
                &&& next.cell(to) == kind
            }
        }),
{
    let pos = s.particles[id].pos;
    assert(s.particle_ok(id));
    lemma_step(s, id);
    let next = s.step(id).0;
    assert(next.particle_ok(id));
    lemma_consistency(s);
    if s.particles[id].kind is Sand && pos.y + 1 < s.height {
        if s.sand_accepts(offset(pos, 0, 1)) {
            lemma_sand_case_arrives(s, id, offset(pos, 0, 1));
        } else if pos.x > 0 && s.sand_accepts(offset(pos, -1, 1)) {
            lemma_sand_case_arrives(s, id, offset(pos, -1, 1));
        } else if pos.x + 1 < s.width && s.sand_accepts(offset(pos, 1, 1)) {
            lemma_sand_case_arrives(s, id, offset(pos, 1, 1));
        }
    }
}

/// Sand that goes onto a cell is on that cell afterwards, whether the cell
/// was empty or held water.
pub proof fn lemma_sand_case_arrives(s: SimState, id: int, dst: Vec2<usize>)
    requires
        s.wf(),
        0 <= id < s.particles.len(),
        s.particles[id].kind is Sand,
        s.in_bounds(dst),
        s.sand_accepts(dst),
    ensures
        s.sand_case(id, dst).0.particles[id].pos == dst,
{
    if s.cell(dst) is Water {
        let other = s.cell(dst).owner();
        lemma_consistency(s);
        s.lemma_exchange(id, dst);
        let exchanged = s.exchange(id, dst);
        assert(exchanged.particles[id].pos == dst);
        assert(exchanged.particle_ok(other));
        let stepped = exchanged.water_step(other).0;
        assert(stepped.particles[id] == exchanged.particles[id]);
    } else {
        assert(s.particle_ok(id));
        s.lemma_index(dst);
    }
}

/// The turn of a movable particle keeps grid and store consistent and moves
/// no wood; and settling resets the velocity: whenever the turn ends
/// `Stable`, the particle's velocity is the base velocity, whatever it was.
pub proof fn lemma_run(s: SimState, id: int, budget: nat)
    requires
        s.wf(),
        0 <= id < s.particles.len(),
        s.particles[id].kind is Sand || s.particles[id].kind is Water,
    ensures
        s.run(id, budget).0.wf(),
        s.run(id, budget).0.moved_from(s),
        s.run(id, budget).1 is Stable ==> s.run(id, budget).0.particles[id].velocity
            == BASE_VELOCITY,
    decreases budget,
{
    if budget == 0 {
        s.lemma_with_updated(id, true);
    } else {
        lemma_step(s, id);
        let (next, outcome) = s.step(id);
        match outcome {
            ParticleUpdateState::Moving => {
                lemma_run(next, id, (budget - 1) as nat);
                next.run(id, (budget - 1) as nat).0.lemma_moved_from_trans(next, s);
            },
            ParticleUpdateState::Stopped => {},
            ParticleUpdateState::Stable => {
                next.lemma_with_velocity(id, BASE_VELOCITY);
                next.with_velocity(id, BASE_VELOCITY).lemma_moved_from_trans(next, s);
            },
        }
    }
}

/// The same of a whole turn, gravity included.
pub proof fn lemma_advance(s: SimState, id: int)
    requires
        s.wf(),
        0 <= id < s.particles.len(),
        s.particles[id].kind is Sand || s.particles[id].kind is Water,
    ensures
        s.advance(id).0.wf(),
        s.advance(id).0.moved_from(s),
        s.advance(id).1 is Stable ==> s.advance(id).0.particles[id].velocity == BASE_VELOCITY,
{
    assert(s.particle_ok(id));
    let velocity = SimState::accelerated(s.particles[id].velocity);
    s.lemma_with_velocity(id, velocity);
    let faster = s.with_velocity(id, velocity);
    lemma_run(faster, id, faster.particles[id].spec_budget());
    s.advance(id).0.lemma_moved_from_trans(faster, s);
}

/// The sweep of a tick keeps grid and store consistent, and moves no wood.
pub proof fn lemma_sweep(s: SimState, count: nat)
    requires
        s.wf(),
        count <= s.particles.len(),
    ensures
        s.sweep(count).wf(),
        s.sweep(count).moved_from(s),
    decreases count,
{
    if count > 0 {
        let id = count - 1;
        if s.takes_turn(id) {
            lemma_advance(s, id);
        }
        let visited = s.visit(id);
        lemma_sweep(visited, (count - 1) as nat);
        s.sweep(count).lemma_moved_from_trans(visited, s);
    }
}

/// A particle on the bottom row probes nothing: its sub-step leaves the
/// simulation as it is and reports `Stable`.
pub proof fn lemma_bottom_row_is_stable(s: SimState, id: int)
    requires
        s.particles[id].pos.y + 1 >= s.height,
    ensures
        s.step(id) == (s, ParticleUpdateState::Stable),
{
}

/// A particle on the bottom row with a sub-step left in its budget ends its
/// turn at once, `Stable` and at base velocity, without having moved.
pub proof fn lemma_bottom_row_ends_turn(s: SimState, id: int, budget: nat)
    requires
        s.particles[id].pos.y + 1 >= s.height,
        budget > 0,
    ensures
        s.run(id, budget) == (s.with_velocity(id, BASE_VELOCITY), ParticleUpdateState::Stable),
{
    lemma_bottom_row_is_stable(s, id);
}

/// Clearing the "updated" flags keeps grid and store consistent, and moves
/// nothing.
pub proof fn lemma_reset_updated(s: SimState)
    requires
        s.wf(),
    ensures
        s.reset_updated().wf(),
        s.reset_updated().moved_from(s),
        forall|i: int|
            0 <= i < s.particles.len() ==> !(#[trigger] s.reset_updated().particles[i]).updated,
{
    let t = s.reset_updated();
    assert forall|i: int| 0 <= i < t.particles.len() implies #[trigger] t.particle_ok(i) by {
        assert(s.particle_ok(i));
    }
    assert forall|c: int| 0 <= c < t.grid.len() implies #[trigger] t.cell_ok(c) by {
        assert(s.cell_ok(c));
    }
}

/// After every tick grid and store are consistent, all particles of before
/// are there with their materials, no wood has moved, and no particle is
/// marked updated.
pub proof fn lemma_tick(before: SimState, after: SimState, mouse_pos: Vec2<usize>)
    requires
        before.wf(),
        after.ticked_from(before, mouse_pos),
    ensures
        after.wf(),
        after.grown_from(before),
        forall|i: int| 0 <= i < after.particles.len() ==> !(#[trigger] after.particles[i]).updated,
{
    let swept = before.sweep(before.particles.len());
    lemma_sweep(before, before.particles.len());
    let brushed = choose|brushed: SimState|
        {
            &&& brushed.wf()
            &&& #[trigger] brushed.brushed_from(swept, swept.brush_center(mouse_pos))
            &&& after == brushed.reset_updated()
        };
    lemma_reset_updated(brushed);
    assert forall|i: int| 0 <= i < before.particles.len() implies {
        &&& (#[trigger] after.particles[i]).kind == before.particles[i].kind
        &&& after.particles[i].color == before.particles[i].color
        &&& before.particles[i].kind is Wood ==> {
            &&& after.particles[i].pos == before.particles[i].pos
            &&& after.particles[i].velocity == before.particles[i].velocity
        }
    } by {
        let a = swept.particles[i];
        let b = brushed.particles[i];
    }
}

/// Wood has no rule: its sub-step leaves the simulation as it is.
pub proof fn lemma_wood_is_inert(s: SimState, id: int)
    requires
        s.particles[id].kind is Wood,
    ensures
        s.step(id).0 == s,
        s.visit(id) == s,
{
}

/// What holds from tick to tick holds over any number of ticks: the
/// particles keep their materials, and wood stays where it is.
pub proof fn lemma_grown_from_trans(after: SimState, middle: SimState, before: SimState)
    requires
        after.grown_from(middle),
        middle.grown_from(before),
    ensures
        after.grown_from(before),
{
    assert forall|i: int| 0 <= i < before.particles.len() implies {
        &&& (#[trigger] after.particles[i]).kind == before.particles[i].kind
        &&& after.particles[i].color == before.particles[i].color
        &&& before.particles[i].kind is Wood ==> {
            &&& after.particles[i].pos == before.particles[i].pos
            &&& after.particles[i].velocity == before.particles[i].velocity
        }
    } by {
        let m = middle.particles[i];
    }
}

/// The brush stays inside the grid: wherever the pointer is, the centre that
/// it is brought to is a valid one, and every cell of the square round that
/// centre, so every cell that the brush covers, lies inside the grid.
pub proof fn lemma_brush_stays_in_grid(s: SimState, pointer: Vec2<usize>, p: Vec2<usize>)
    requires
        s.wf(),
    ensures
        s.valid_center(s.brush_center(pointer)),
        ({
            let center = s.brush_center(pointer);
            &&& center.x - s.brush_radius <= p.x < center.x + s.brush_radius
            &&& center.y - s.brush_radius <= p.y < center.y + s.brush_radius
        }) ==> s.in_bounds(p),
        s.in_brush(s.brush_center(pointer), p) ==> s.in_bounds(p),
{
    let center = s.brush_center(pointer);
    if s.in_brush(center, p) {
        crate::brush::lemma_within_radius_square(center, p, s.brush_radius);
    }
}

} // verus!
