//! The end of a game: the quad under a car.

use crate::cars::Car;
use crate::config::Config;
use crate::geometry::{overlaps, rects_overlap};
use crate::quad::Quad;
use crate::state::AppState;
use vstd::prelude::*;

verus! {

/// Whether the quad centred at `(quad_x, quad_y)` overlaps the car centred at
/// `(car_x, car_y)`.
pub open spec fn quad_hits_car(cfg: Config, quad_x: int, quad_y: int, car_x: int, car_y: int) -> bool {
    rects_overlap(
        quad_x,
        quad_y,
        cfg.quad_width as int,
        cfg.quad_height as int,
        car_x,
        car_y,
        cfg.car_width as int,
        cfg.car_height as int,
    )
}

/// Whether the quad overlaps at least one of the cars.
pub open spec fn quad_hits_any(cfg: Config, quad: Quad, cars: Seq<Car>) -> bool {
    exists|i: int|
        0 <= i < cars.len() && quad_hits_car(
            cfg,
            quad.x as int,
            quad.y as int,
            (#[trigger] cars[i]).x as int,
            cars[i].y as int,
        )
}

/// Decides whether the quad overlaps a car, both given by their centres.
pub fn is_quad_overlapping_with_car(
    cfg: &Config,
    quad_x: i64,
    quad_y: i64,
    car_x: i64,
    car_y: i64,
) -> (hit: bool)
    ensures
        hit == quad_hits_car(*cfg, quad_x as int, quad_y as int, car_x as int, car_y as int),
{
    overlaps(
        quad_x,
        quad_y,
        cfg.quad_width as i64,
        cfg.quad_height as i64,
        car_x,
        car_y,
        cfg.car_width as i64,
        cfg.car_height as i64,
    )
}

/// Looks for a car over the quad, once the tick has moved both. If there is
/// one the game is over; if not, the state stays as it is. The check is made
/// in every state, and from `GameOver` it leads nowhere else.
pub fn check_quad_car_overlapp(
    cfg: &Config,
    state: AppState,
    quad: &Quad,
    cars: &Vec<Car>,
) -> (next: AppState)
    ensures
        next == state.after_check(quad_hits_any(*cfg, *quad, cars@)),
{
    let mut i: usize = 0;
    while i < cars.len()
        invariant
            i <= cars.len(),
            forall|k: int|
                0 <= k < i ==> !quad_hits_car(
                    *cfg,
                    quad.x as int,
                    quad.y as int,
                    (#[trigger] cars@[k]).x as int,
                    cars@[k].y as int,
                ),
        decreases cars.len() - i,
    {
        let car: Car = cars[i];
        if is_quad_overlapping_with_car(cfg, quad.x, quad.y, car.x, car.y) {
            return AppState::GameOver;
        }
        i += 1;
    }
    state
}

/// A quad and a car at the same place overlap, if both have some width and
/// some height: a car that comes down on the quad ends the game.
pub proof fn car_on_quad_hits(cfg: Config, x: int, y: int)
    requires
        cfg.quad_width >= 1,
        cfg.quad_height >= 1,
        cfg.car_width >= 1,
        cfg.car_height >= 1,
    ensures
        quad_hits_car(cfg, x, y, x, y),
{
}

} // verus!
