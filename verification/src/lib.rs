//! The rules of a small arcade game: a quad, steered by the player, has to
//! stay clear of cars that drive down the screen and come back in at the top.
//!
//! All positions and sizes are whole numbers of one length unit, which the
//! caller chooses (a fraction of a pixel, say). Speeds are lengths per time
//! unit and a tick lasts a whole number of time units, so that every
//! position the rules produce is again a whole number.

pub mod cars;
pub mod collision;
pub mod config;
pub mod geometry;
pub mod quad;
pub mod random;
pub mod state;
