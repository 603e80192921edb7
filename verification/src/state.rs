//! The interaction state of the explorer and its transitions.
//!
//! A transition changes the discrete part of the state at once and returns,
//! in order, the numeric work that the caller has to carry out on the visible
//! rectangle and on the parameter.

use vstd::prelude::*;

use crate::event::{Command, Event};
use crate::uniform::{default_domain, default_parameter, Uniform};
use crate::uniform::{DOMAIN_HALF_EXTENT, DOMAIN_HALF_EXTENT_NEGATED, JULIA_PARAMETER_REAL};

verus! {

/// The number of zoom steps that one fast turn of the wheel stands for.
pub const FAST_SCROLL_STEPS: u32 = 5;

/// A piece of numeric work on the plane, left to the caller.
#[derive(Clone, Copy, Debug, PartialEq, Eq)]
pub enum Action {
    /// Scale the rectangle about the pointer, `times` steps in a row, towards
    /// the pointer when `zoom_in` holds. A step that would pass the precision
    /// floor or the upper bound is left out.
    Zoom { zoom_in: bool, times: u32 },
    /// Take the window's new size and give the rectangle the height that its
    /// width and the window's aspect ratio call for, about the same centre.
    FitWindow { width: u32, height: u32 },
    /// If the rectangle is lower than three quarters of the default height,
    /// centre it on that height and widen it by the same ratio.
    RestoreMinimumHeight,
    /// Shift the rectangle to the position that frames the Mandelbrot set.
    FrameMandelbrot,
    /// Set the parameter from the pointer's position in the window.
    ParameterFromPointer,
    /// Move the rectangle by the pointer's way from `from` to `to`, both
    /// given as the words of a position.
    Translate { from: [u32; 2], to: [u32; 2] },
}

/// What the explorer remembers between events.
#[derive(Clone, Copy, Debug)]
pub struct State {
    /// Width and height of the window in pixels.
    pub size: (u32, u32),
    /// Whether the parameter follows the pointer.
    pub c_from_mouse: bool,
    /// Whether the pointer drags the rectangle.
    pub dragging: bool,
    /// Where the pointer was when the drag was last accounted for.
    pub dragging_position_original: [u32; 2],
    /// The parameter block.
    pub uniform: Uniform,
}

impl State {
    /// The parameter follows the pointer only while the Julia set is shown.
    pub open spec fn wf(self) -> bool {
        self.uniform.mandelbrot == 1 ==> !self.c_from_mouse
    }

    /// The state of a fresh session in a window of the given size.
    pub open spec fn initial(size: (u32, u32)) -> State {
        State {
            size,
            c_from_mouse: false,
            dragging: false,
            dragging_position_original: [0u32, 0u32],
            uniform: Uniform::initial(),
        }
    }

    /// The state with another rectangle.
    pub open spec fn with_domain(self, domain: [[u32; 2]; 2]) -> State {
        State { uniform: Uniform { domain, ..self.uniform }, ..self }
    }

    /// The state with another parameter and another mode flag, the pointer no
    /// longer followed.
    pub open spec fn with_fixed_parameter(self, c: [u32; 2], mandelbrot: i32) -> State {
        State { c_from_mouse: false, uniform: Uniform { c, mandelbrot, ..self.uniform }, ..self }
    }

    /// The state after a resize: a size without a zero is taken over, another
    /// one changes nothing.
    pub open spec fn resized(self, new_size: (u32, u32)) -> State {
        if new_size.0 > 0 && new_size.1 > 0 {
            State { size: new_size, ..self }
        } else {
            self
        }
    }

    /// The work that a resize calls for.
    pub open spec fn resize_plan(new_size: (u32, u32)) -> Seq<Action> {
        if new_size.0 > 0 && new_size.1 > 0 {
            seq![Action::FitWindow { width: new_size.0, height: new_size.1 }]
        } else {
            seq![]
        }
    }

    /// The state after a reset: the default rectangle, all else as before.
    pub open spec fn reset(self) -> State {
        self.with_domain(default_domain())
    }

    /// The work that a reset calls for: fit the default rectangle to the
    /// window, then restore its minimum height.
    pub open spec fn reset_plan(self) -> Seq<Action> {
        State::resize_plan(self.size).push(Action::RestoreMinimumHeight)
    }

    /// The state after a frame update: the drag is accounted for up to the
    /// pointer's present position.
    pub open spec fn updated(self) -> State {
        if self.dragging {
            State { dragging_position_original: self.uniform.mouse, ..self }
        } else {
            self
        }
    }

    /// The work that a frame update calls for.
    pub open spec fn update_plan(self) -> Seq<Action> {
        if self.dragging {
            seq![
                Action::Translate { from: self.dragging_position_original, to: self.uniform.mouse },
            ]
        } else {
            seq![]
        }
    }

    /// Whether a toggle of pointer following ends with the pointer followed.
    pub open spec fn toggle_enables(self) -> bool {
        self.uniform.mandelbrot != 1 && !self.c_from_mouse
    }

    /// The state after a command. `zoomed_in` says whether the rectangle is
    /// narrower than the default one.
    pub open spec fn after(self, command: Command, zoomed_in: bool) -> State {
        match command {
            Command::ZoomIn | Command::ZoomOut => State { c_from_mouse: false, ..self },
            Command::Scroll { zoom_in, fast } => self,
            Command::ToggleParameterFollowsPointer => {
                if self.toggle_enables() {
                    let followed = State { c_from_mouse: true, ..self };
                    if zoomed_in {
                        followed.reset()
                    } else {
                        followed
                    }
                } else {
                    State { c_from_mouse: false, ..self }
                }
            },
            Command::PointerMoved => self,
            Command::ResetZoom => self.reset(),
            Command::BeginDrag => State {
                dragging: true,
                dragging_position_original: self.uniform.mouse,
                ..self
            },
            Command::EndDrag => State {
                dragging: false,
                dragging_position_original: self.uniform.mouse,
                ..self
            },
            Command::ShowMandelbrot => self.with_fixed_parameter([0u32, 0u32], 1).reset(),
            Command::ShowJulia => self.with_fixed_parameter(default_parameter(), 0).reset(),
        }
    }

    /// The work that a command calls for, in the order in which it is due.
    pub open spec fn plan(self, command: Command, zoomed_in: bool) -> Seq<Action> {
        match command {
            Command::ZoomIn => seq![Action::Zoom { zoom_in: true, times: 1 }],
            Command::ZoomOut => seq![Action::Zoom { zoom_in: false, times: 1 }],
            Command::Scroll { zoom_in, fast } => seq![
                Action::Zoom { zoom_in, times: if fast { FAST_SCROLL_STEPS } else { 1 } },
            ],
            Command::ToggleParameterFollowsPointer => {
                if self.toggle_enables() && zoomed_in {
                    self.reset_plan()
                } else {
                    seq![]
                }
            },
            Command::PointerMoved => {
                if self.c_from_mouse && !self.dragging {
                    seq![Action::ParameterFromPointer]
                } else {
                    seq![]
                }
            },
            Command::ResetZoom => self.reset_plan(),
            Command::BeginDrag | Command::EndDrag => seq![],
            Command::ShowMandelbrot => self.reset_plan().push(Action::FrameMandelbrot),
            Command::ShowJulia => self.reset_plan(),
        }
    }

    /// Returns the state of a fresh session in a window of the given size:
    /// the Julia set of the default parameter in the default rectangle, the
    /// pointer neither followed nor dragging.
    pub fn new(size: (u32, u32)) -> (r: State)
        ensures
            r == State::initial(size),
            r.wf(),
    {
        State {
            size,
            c_from_mouse: false,
            dragging: false,
            dragging_position_original: [0, 0],
            uniform: Uniform::default(),
        }
    }

    /// Takes a new window size. A size with a zero is ignored; for any other
    /// the caller fits the rectangle to the window.
    pub fn resize(&mut self, new_size: (u32, u32)) -> (plan: Vec<Action>)
        ensures
            *final(self) == old(self).resized(new_size),
            plan@ == State::resize_plan(new_size),
            old(self).wf() ==> final(self).wf(),
    {
        let mut plan: Vec<Action> = Vec::new();
        if new_size.0 > 0 && new_size.1 > 0 {
            self.size = new_size;
            plan.push(Action::FitWindow { width: new_size.0, height: new_size.1 });
        }
        assert(plan@ =~= State::resize_plan(new_size));
        plan
    }

    /// Restores the default rectangle, whatever was shown before. The caller
    /// then fits it to the window and restores its minimum height.
    pub fn reset_zoom(&mut self) -> (plan: Vec<Action>)
        ensures
            *final(self) == old(self).reset(),
            plan@ == old(self).reset_plan(),
            old(self).wf() ==> final(self).wf(),
    {
        self.uniform.domain = [
            [DOMAIN_HALF_EXTENT_NEGATED, DOMAIN_HALF_EXTENT],
            [DOMAIN_HALF_EXTENT_NEGATED, DOMAIN_HALF_EXTENT],
        ];
        let size = self.size;
        let mut plan = self.resize(size);
        plan.push(Action::RestoreMinimumHeight);
        plan
    }

    /// Accounts for a drag once per frame: while the pointer drags, the
    /// caller moves the rectangle by the pointer's way since the last frame,
    /// and the drag starts anew from the pointer's present position.
    pub fn update(&mut self) -> (plan: Vec<Action>)
        ensures
            *final(self) == old(self).updated(),
            plan@ == old(self).update_plan(),
            old(self).wf() ==> final(self).wf(),
    {
        let mut plan: Vec<Action> = Vec::new();
        if self.dragging {
            plan.push(
                Action::Translate { from: self.dragging_position_original, to: self.uniform.mouse },
            );
            self.dragging_position_original = self.uniform.mouse;
        }
        assert(plan@ =~= old(self).update_plan());
        plan
    }

    /// Carries out a command. `zoomed_in` says whether the rectangle is
    /// narrower than the default one; only a toggle of pointer following
    /// reads it.
    pub fn apply(&mut self, command: Command, zoomed_in: bool) -> (plan: Vec<Action>)
        ensures
            *final(self) == old(self).after(command, zoomed_in),
            plan@ == old(self).plan(command, zoomed_in),
            old(self).wf() ==> final(self).wf(),
    {
        let mut plan: Vec<Action> = Vec::new();
        match command {
            Command::ZoomIn => {
                self.c_from_mouse = false;
                plan.push(Action::Zoom { zoom_in: true, times: 1 });
            },
            Command::ZoomOut => {
                self.c_from_mouse = false;
                plan.push(Action::Zoom { zoom_in: false, times: 1 });
            },
            Command::Scroll { zoom_in, fast } => {
                let times: u32 = if fast {
                    FAST_SCROLL_STEPS
                } else {
                    1
                };
                plan.push(Action::Zoom { zoom_in, times });
            },
            Command::ToggleParameterFollowsPointer => {
                if self.uniform.mandelbrot == 1 {
                    self.c_from_mouse = false;
                } else {
                    self.c_from_mouse = !self.c_from_mouse;
                    if self.c_from_mouse && zoomed_in {
                        plan = self.reset_zoom();
                    }
                }
            },
            Command::PointerMoved => {
                if self.c_from_mouse && !self.dragging {
                    plan.push(Action::ParameterFromPointer);
                }
            },
            Command::ResetZoom => {
                plan = self.reset_zoom();
            },
            Command::BeginDrag => {
                self.dragging_position_original = self.uniform.mouse;
                self.dragging = true;
            },
            Command::EndDrag => {
                self.dragging_position_original = self.uniform.mouse;
                self.dragging = false;
            },
            Command::ShowMandelbrot => {
                self.uniform.mandelbrot = 1;
                self.c_from_mouse = false;
                self.uniform.c = [0, 0];
                plan = self.reset_zoom();
                plan.push(Action::FrameMandelbrot);
            },
            Command::ShowJulia => {
                self.uniform.mandelbrot = 0;
                self.c_from_mouse = false;
                plan = self.reset_zoom();
                self.uniform.c = [JULIA_PARAMETER_REAL, 0];
            },
        }
        assert(plan@ =~= old(self).plan(command, zoomed_in));
        plan
    }

    /// Handles an event: carries out the command bound to it, if there is
    /// one, and otherwise leaves the state as it is.
    pub fn input(&mut self, event: &Event, zoomed_in: bool) -> (plan: Vec<Action>)
        ensures
            match Command::bound_to(*event) {
                Some(command) => *final(self) == old(self).after(command, zoomed_in) && plan@
                    == old(self).plan(command, zoomed_in),
                None => *final(self) == *old(self) && plan@ == Seq::<Action>::empty(),
            },
            old(self).wf() ==> final(self).wf(),
    {
        match Command::from_event(event) {
            Some(command) => self.apply(command, zoomed_in),
            None => Vec::new(),
        }
    }
}

/// Every transition keeps the state well formed: the parameter never follows
/// the pointer while the Mandelbrot set is shown.
pub proof fn transitions_keep_well_formed(
    state: State,
    command: Command,
    zoomed_in: bool,
    new_size: (u32, u32),
)
    requires
        state.wf(),
    ensures
        state.after(command, zoomed_in).wf(),
        state.resized(new_size).wf(),
        state.reset().wf(),
        state.updated().wf(),
{
}

/// A reset restores the default rectangle whatever was shown before, and the
/// work that follows it depends on the window's size alone.
pub proof fn reset_forgets_the_rectangle(a: State, b: State)
    requires
        a.size == b.size,
    ensures
        a.reset().uniform.domain == default_domain(),
        a.reset().uniform.domain == b.reset().uniform.domain,
        a.reset_plan() == b.reset_plan(),
{
}

/// A switch to the Mandelbrot set always leaves the parameter at the origin,
/// and a switch to the Julia set always leaves it at the default parameter;
/// neither keeps the pointer followed.
pub proof fn mode_switch_fixes_the_parameter(state: State, zoomed_in: bool)
    ensures
        state.after(Command::ShowMandelbrot, zoomed_in).uniform.c == [0u32, 0u32],
        state.after(Command::ShowMandelbrot, zoomed_in).uniform.mandelbrot == 1,
        !state.after(Command::ShowMandelbrot, zoomed_in).c_from_mouse,
        state.after(Command::ShowJulia, zoomed_in).uniform.c == default_parameter(),
        state.after(Command::ShowJulia, zoomed_in).uniform.mandelbrot == 0,
        !state.after(Command::ShowJulia, zoomed_in).c_from_mouse,
{
}

/// While the Mandelbrot set is shown, a toggle of pointer following changes
/// nothing and calls for no work.
pub proof fn toggle_is_idle_on_mandelbrot(state: State, zoomed_in: bool)
    requires
        state.wf(),
        state.uniform.mandelbrot == 1,
    ensures
        state.after(Command::ToggleParameterFollowsPointer, zoomed_in) == state,
        state.plan(Command::ToggleParameterFollowsPointer, zoomed_in) == Seq::<Action>::empty(),
{
}

} // verus!
