//! The two fractals that the explorer can show.

use vstd::prelude::*;

verus! {

/// Which set the viewport shows.
#[derive(Clone, Copy, Debug, PartialEq, Eq, Structural)]
pub enum Mode {
    /// The Julia set of the current parameter.
    Julia,
    /// The Mandelbrot set; the parameter is the plane point itself.
    Mandelbrot,
}

impl Mode {
    /// The integer that stands for the mode in the parameter block.
    pub open spec fn flag_of(self) -> i32 {
        match self {
            Mode::Julia => 0i32,
            Mode::Mandelbrot => 1i32,
        }
    }

    /// The mode that a parameter-block flag selects: one is Mandelbrot,
    /// every other value is Julia.
    pub open spec fn of_flag(flag: i32) -> Mode {
        if flag == 1 {
            Mode::Mandelbrot
        } else {
            Mode::Julia
        }
    }

    /// Where the recurrence for a plane point starts and which parameter it
    /// runs with. For the Julia set it starts at the point and runs with the
    /// fixed parameter; for the Mandelbrot set it starts at the origin and
    /// runs with the point as its parameter.
    pub open spec fn operands_of<Z>(self, point: Z, parameter: Z, origin: Z) -> (Z, Z) {
        match self {
            Mode::Julia => (point, parameter),
            Mode::Mandelbrot => (origin, point),
        }
    }

    /// Returns the start of the recurrence for a plane point, and the
    /// parameter that it runs with.
    pub fn operands<Z>(self, point: Z, parameter: Z, origin: Z) -> (r: (Z, Z))
        ensures
            r == self.operands_of(point, parameter, origin),
    {
        match self {
            Mode::Julia => (point, parameter),
            Mode::Mandelbrot => (origin, point),
        }
    }

    /// Returns the flag written into the parameter block for this mode.
    pub fn flag(self) -> (r: i32)
        ensures
            r == self.flag_of(),
    {
        match self {
            Mode::Julia => 0,
            Mode::Mandelbrot => 1,
        }
    }

    /// Reads a mode back from a parameter-block flag.
    pub fn from_flag(flag: i32) -> (r: Mode)
        ensures
            r == Mode::of_flag(flag),
    {
        if flag == 1 {
            Mode::Mandelbrot
        } else {
            Mode::Julia
        }
    }
}

/// A mode survives the trip through its flag.
pub proof fn flag_round_trip(mode: Mode)
    ensures
        Mode::of_flag(mode.flag_of()) == mode,
{
}

} // verus!
