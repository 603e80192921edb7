//! The decision core of an interactive Julia and Mandelbrot set explorer.
//!
//! The crate holds the parts of the explorer that are exact:
//!
//! - [`event`]: the input events that have a binding, and the commands they
//!   stand for;
//! - [`state`]: the interaction state, its transitions, and the numeric work
//!   that each transition leaves to the caller;
//! - [`uniform`]: the parameter block that the shader reads, word by word
//!   and byte by byte;
//! - [`mode`]: the two sets and what the recurrence starts from in each;
//! - [`fractal`]: the escape-time loop and the sweep that fills a raster;
//! - [`raster`]: rasters of RGB pixels.
//!
//! Numbers of the plane are never computed here. The block holds them as the
//! words of IEEE 754 singles, and the loop and the sweep take the caller's
//! arithmetic as functions.

pub mod event;
pub mod fractal;
pub mod mode;
pub mod raster;
pub mod state;
pub mod uniform;
