//! Verified core of a dust-grain heating-rate sweep.
//!
//! The physical model evaluates two heating channels (direct hydrogen
//! collisions and electron collisions) over a log-spaced temperature grid
//! and assembles one combined heating coefficient per grid point.  The
//! floating-point evaluation of the physics lives outside the verified
//! core; what is verified here is everything that can be stated exactly:
//!
//! * the log-spaced grids, represented by their exact exponent numerators
//!   (`grid`): point counts, bounds, spacing, and strict monotonicity;
//! * the sweep assembly (`sweep`): each heating-rate word is paired with
//!   the temperature grid point it was computed for, in grid order.

pub mod grid;
pub mod sweep;
