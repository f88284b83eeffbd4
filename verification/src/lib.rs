//! Core model of a card-table renderer: a movable orthographic camera, a
//! vertex-attribute layout builder, and the placement of a deck of cards as
//! GPU instance records.
//!
//! World lengths are held in tenths of a world unit, so that the card grid
//! spacing of 1.2 card-sizes stays exact in integer arithmetic.  The graphics
//! backend, windowing runtime and all floating-point matrix work live outside
//! this crate; they consume the plain values produced here.

pub mod camera;
pub mod card;
pub mod event;
pub mod state;
pub mod util;
