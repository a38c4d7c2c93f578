//! The application's state and what input does to it: the pointer, the
//! buttons that arm the brush, and the request to quit.

use vstd::prelude::*;
use crate::field::{background_color, spec_background_color, FieldState, Pixel, Rgb};
use crate::particle::Particle;
use crate::simulator::{spec_pixel, Simulator, SCALE};
use crate::state::SimState;
use crate::vec::Vec2;

verus! {

/// The width of the window, in pixels.
pub const WINDOW_WIDTH: u32 = 600;

/// The height of the window, in pixels.
pub const WINDOW_HEIGHT: u32 = 600;

/// The radius of the brush, in cells.
pub const BRUSH_RADIUS: usize = 40;

/// A button of the mouse.
#[derive(Copy, Clone, Debug, PartialEq, Eq, Structural)]
pub enum MouseButton {
    Left,
    Right,
    Middle,
    Other,
}

/// What the user did, as far as the simulation cares.
#[derive(Copy, Clone, Debug, PartialEq, Eq, Structural)]
pub enum InputEvent {
    /// The window was closed.
    Quit,
    /// The escape key went down.
    EscapeDown,
    /// A button went down with the pointer at `(x, y)`.
    MouseButtonDown { button: MouseButton, x: i32, y: i32 },
    /// A button went up.
    MouseButtonUp { button: MouseButton },
    /// The pointer moved to `(x, y)`.
    MouseMotion { x: i32, y: i32 },
    /// Anything else.
    Other,
}

/// One frame: the colour to clear the screen with, and the squares to draw
/// on it.
pub struct Frame {
    pub background: Rgb,
    pub pixels: Vec<Pixel>,
}

/// The application as a value.
pub struct AppState {
    pub running: bool,
    pub simulator: SimState,
    pub mouse_pos: Vec2<usize>,
}

/// The application: whether it still runs, the simulation, and where the
/// pointer is, in pixels.
pub struct App {
    pub(crate) running: bool,
    pub(crate) simulator: Simulator,
    pub(crate) mouse_pos: Vec2<usize>,
}

/// A signed screen coordinate as an unsigned one. A negative coordinate, that
/// of a pointer left of or above the window, wraps round to the far end of
/// the unsigned range.
pub open spec fn spec_pointer_coord(v: i32) -> usize {
    if v >= 0 {
        v as usize
    } else {
        (usize::MAX + 1 + v) as usize
    }
}

/// The material that a button of the mouse stands for, if any. The brush is
/// armed and disarmed with these very values.
pub open spec fn spec_material_of(button: MouseButton) -> Option<FieldState> {
    match button {
        MouseButton::Left => Some(FieldState::Sand(0)),
        MouseButton::Right => Some(FieldState::Water(0)),
        MouseButton::Middle => Some(FieldState::Wood(0)),
        MouseButton::Other => None,
    }
}

/// A signed screen coordinate as an unsigned one.
pub fn pointer_coord(v: i32) -> (coord: usize)
    ensures
        coord == spec_pointer_coord(v),
{
    if v >= 0 {
        v as usize
    } else {
        usize::MAX - ((-(v + 1)) as usize)
    }
}

/// The material that a button of the mouse stands for, if any.
pub fn material_of(button: MouseButton) -> (material: Option<FieldState>)
    ensures
        material == spec_material_of(button),
{
    match button {
        MouseButton::Left => Some(FieldState::Sand(0)),
        MouseButton::Right => Some(FieldState::Water(0)),
        MouseButton::Middle => Some(FieldState::Wood(0)),
        MouseButton::Other => None,
    }
}

impl AppState {
    /// The pointer moved to the screen coordinates `(x, y)`.
    pub open spec fn with_pointer(self, x: i32, y: i32) -> AppState {
        AppState {
            mouse_pos: Vec2 { x: spec_pointer_coord(x), y: spec_pointer_coord(y) },
            ..self
        }
    }

    /// A button pressed (`pressed`) or released: the brush is armed or
    /// disarmed with the button's material, if it has one.
    pub open spec fn with_button(self, pressed: bool, button: MouseButton) -> AppState {
        match spec_material_of(button) {
            Some(material) => AppState {
                simulator: self.simulator.set_creation(pressed, material),
                ..self
            },
            None => self,
        }
    }

    /// What one event makes of the application.
    pub open spec fn handle(self, event: InputEvent) -> AppState {
        match event {
            InputEvent::Quit => AppState { running: false, ..self },
            InputEvent::EscapeDown => AppState { running: false, ..self },
            InputEvent::MouseButtonDown { button, x, y } => self.with_pointer(x, y).with_button(
                true,
                button,
            ),
            InputEvent::MouseButtonUp { button } => self.with_button(false, button),
            InputEvent::MouseMotion { x, y } => self.with_pointer(x, y),
            InputEvent::Other => self,
        }
    }

    /// What the events make of the application, handled first to last.
    pub open spec fn handle_all(self, events: Seq<InputEvent>) -> AppState
        decreases events.len(),
    {
        if events.len() == 0 {
            self
        } else {
            self.handle_all(events.drop_last()).handle(events.last())
        }
    }

    /// The cell of the grid that the pointer is over, before it is brought
    /// into reach of the brush.
    pub open spec fn pointer_cell(self) -> Vec2<usize> {
        Vec2 { x: self.mouse_pos.x / SCALE, y: self.mouse_pos.y / SCALE }
    }
}

impl App {
    /// The application as a mathematical value.
    pub open(crate) spec fn view(&self) -> AppState {
        AppState { running: self.running, simulator: self.simulator@, mouse_pos: self.mouse_pos }
    }

    /// The simulation inside is consistent.
    pub open spec fn wf(&self) -> bool {
        self@.simulator.wf()
    }

    /// A running application with an empty grid of one cell per `SCALE`
    /// pixels of the window, and the pointer in the window's corner.
    pub fn new() -> (app: Self)
        ensures
            app.wf(),
            app@ == (AppState {
                running: true,
                simulator: SimState::empty(
                    (WINDOW_WIDTH as nat) / (SCALE as nat),
                    (WINDOW_HEIGHT as nat) / (SCALE as nat),
                    BRUSH_RADIUS as nat,
                ),
                mouse_pos: Vec2 { x: 0, y: 0 },
            }),
    {
        App {
            simulator: Simulator::new(
                Vec2::new(WINDOW_WIDTH as usize / SCALE, WINDOW_HEIGHT as usize / SCALE),
                BRUSH_RADIUS,
            ),
            running: true,
            mouse_pos: [0, 0].into(),
        }
    }

    /// Whether the application has not been asked to quit.
    pub fn is_running(&self) -> (running: bool)
        ensures
            running == self@.running,
    {
        self.running
    }

    /// Where the pointer is, in pixels.
    pub fn mouse_pos(&self) -> (pos: Vec2<usize>)
        ensures
            pos == self@.mouse_pos,
    {
        self.mouse_pos
    }

    /// The simulation.
    pub fn simulator(&self) -> (simulator: &Simulator)
        ensures
            simulator@ == self@.simulator,
    {
        &self.simulator
    }

    /// One tick of the simulation with the pointer where it is.
    pub fn update(&mut self)
        requires
            old(self).wf(),
        ensures
            final(self).wf(),
            final(self)@.running == old(self)@.running,
            final(self)@.mouse_pos == old(self)@.mouse_pos,
            final(self)@.simulator.ticked_from(old(self)@.simulator, old(self)@.pointer_cell()),
            final(self)@.simulator.grown_from(old(self)@.simulator),
    {
        self.simulator.update([self.mouse_pos.x / SCALE, self.mouse_pos.y / SCALE].into());
    }

    /// Takes in one event: a request to quit stops the application, a button
    /// arms or disarms the brush, and the pointer is followed.
    pub fn handle_event(&mut self, event: InputEvent)
        ensures
            final(self)@ == old(self)@.handle(event),
            old(self).wf() ==> final(self).wf(),
    {
        match event {
            InputEvent::Quit | InputEvent::EscapeDown => {
                self.running = false;
            },
            InputEvent::MouseButtonDown { button, x, y } => {
                self.mouse_pos = [pointer_coord(x), pointer_coord(y)].into();
                match material_of(button) {
                    Some(material) => self.simulator.set_creation(true, material),
                    None => {},
                }
            },
            InputEvent::MouseButtonUp { button } => {
                match material_of(button) {
                    Some(material) => self.simulator.set_creation(false, material),
                    None => {},
                }
            },
            InputEvent::MouseMotion { x, y } => {
                self.mouse_pos = [pointer_coord(x), pointer_coord(y)].into();
            },
            InputEvent::Other => {},
        }
    }

    /// Takes in the events that have arrived since the last frame, first to
    /// last.
    pub fn input(&mut self, events: &Vec<InputEvent>)
        ensures
            final(self)@ == old(self)@.handle_all(events@),
            old(self).wf() ==> final(self).wf(),
    {
        let count = events.len();
        let mut done: usize = 0;
        while done < count
            invariant
                done <= count == events@.len(),
                self@ == old(self)@.handle_all(events@.take(done as int)),
                old(self).wf() ==> self.wf(),
            decreases count - done,
        {
            assert(events@.take(done + 1).drop_last() =~= events@.take(done as int));
            self.handle_event(events[done]);
            done += 1;
        }
        assert(events@.take(count as int) =~= events@);
    }

    /// The frame to show: the background and one square for each particle.
    pub fn render(&self) -> (frame: Frame)
        requires
            self.wf(),
        ensures
            frame.background == spec_background_color(),
            frame.pixels@ == self@.simulator.particles.map_values(|p: Particle| spec_pixel(p)),
    {
        Frame { background: background_color(), pixels: self.simulator.render() }
    }
}

} // verus!
