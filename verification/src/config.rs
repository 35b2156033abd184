//! The fixed numbers of a session: the size of the screen, of the quad and
//! of a car, the two speeds and the number of cars.

use vstd::prelude::*;

verus! {

/// The fixed numbers of a session. The screen is centred at the origin, x
/// grows to the right and y grows upwards.
#[derive(Clone, Copy, Debug)]
pub struct Config {
    pub screen_width: u32,
    pub screen_height: u32,
    pub quad_width: u32,
    pub quad_height: u32,
    /// Length units that the quad covers in one time unit.
    pub quad_speed: u32,
    pub car_width: u32,
    pub car_height: u32,
    /// Length units that a car drives down in one time unit.
    pub car_speed: u32,
    /// How many cars a session starts with; none if this is not positive.
    pub car_count: i32,
}

impl Config {
    /// The least x the quad may have: half the screen's width to the left of
    /// the centre, rounded down to a whole number. Where the width is odd
    /// this is half a unit to the left of the screen's edge.
    pub open spec fn left_bound(self) -> int {
        (-(self.screen_width as int)) / 2
    }

    /// The greatest x the quad may have: half the screen's width, rounded
    /// down.
    pub open spec fn right_bound(self) -> int {
        (self.screen_width as int) / 2
    }

    /// The least y the quad may have: half the screen's height below the
    /// centre, rounded down.
    pub open spec fn bottom_bound(self) -> int {
        (-(self.screen_height as int)) / 2
    }

    /// The greatest y the quad may have: half the screen's height, rounded
    /// down.
    pub open spec fn top_bound(self) -> int {
        (self.screen_height as int) / 2
    }

    /// How far from the centre line a car may come back in: its x is then
    /// between `-spawn_reach()` and `spawn_reach()`, which keeps its centre a
    /// car's width away from both sides of the screen.
    pub open spec fn spawn_reach(self) -> int {
        (self.screen_width as int) / 2 - self.car_width
    }

    /// The least y at which a car comes back in: a car's height above the
    /// upper edge of the screen, rounded down.
    pub open spec fn spawn_base(self) -> int {
        (self.screen_height as int) / 2 + self.car_height
    }

    /// The number of cars a session starts with.
    pub open spec fn cars_at_start(self) -> nat {
        if self.car_count > 0 {
            self.car_count as nat
        } else {
            0
        }
    }

    /// Whether a car can come back in at all: a car has some height, so that
    /// there is a band to place it in, and the screen is at least two cars
    /// wide, so that the band has a place on the x-axis.
    pub open spec fn well_formed(self) -> bool {
        &&& self.car_height >= 1
        &&& self.spawn_reach() >= 0
    }

    /// Decides `well_formed`.
    pub fn is_well_formed(&self) -> (ok: bool)
        ensures
            ok == self.well_formed(),
    {
        self.car_height >= 1 && self.car_width <= self.screen_width / 2
    }
}

} // verus!
