//! The cars: how they drive down the screen and where they come back in.

use crate::config::Config;
use crate::geometry::{overlaps, rects_overlap};
use crate::random::draw;
use crate::state::AppState;
use rand::rngs::StdRng;
use vstd::prelude::*;

verus! {

/// The number by which a car is told from the others.
#[derive(Clone, Copy, Debug, PartialEq, Eq, Structural)]
pub struct CarID(pub i32);

/// A car, by its number and the centre of its rectangle.
#[derive(Clone, Copy, Debug, PartialEq, Eq, Structural)]
pub struct Car {
    pub id: CarID,
    pub x: i64,
    pub y: i64,
}

/// Whether a car centred at `(x1, y1)` overlaps one centred at `(x2, y2)`.
pub open spec fn cars_overlap(cfg: Config, x1: int, y1: int, x2: int, y2: int) -> bool {
    rects_overlap(
        x1,
        y1,
        cfg.car_width as int,
        cfg.car_height as int,
        x2,
        y2,
        cfg.car_width as int,
        cfg.car_height as int,
    )
}

/// Whether no two cars of the list have the same number.
pub open spec fn distinct_ids(cars: Seq<Car>) -> bool {
    forall|i: int, j: int| 0 <= i < j < cars.len() ==> cars[i].id != cars[j].id
}

/// Whether a car with number `id`, placed at `(x, y)`, overlaps none of
/// `others`. Cars in `others` that have the number `id` are the car itself
/// and do not count.
pub open spec fn spot_is_free(cfg: Config, others: Seq<Car>, id: CarID, x: int, y: int) -> bool {
    forall|j: int|
        0 <= j < others.len() && (#[trigger] others[j]).id != id ==> !cars_overlap(
            cfg,
            x,
            y,
            others[j].x as int,
            others[j].y as int,
        )
}

/// Whether a car whose centre has come down to `y` is out of sight: more
/// than its own height below the lower edge of the screen.
pub open spec fn drives_off(cfg: Config, y: int) -> bool {
    2 * y < -(cfg.screen_height as int) - 2 * cfg.car_height
}

/// Whether `(x, y)` is a place for a car to come back in: above the screen
/// by at least a car's height and by less than two, and a car's width away
/// from both sides of the screen.
pub open spec fn in_spawn_band(cfg: Config, x: int, y: int) -> bool {
    &&& -cfg.spawn_reach() <= x <= cfg.spawn_reach()
    &&& cfg.spawn_base() <= y < cfg.spawn_base() + cfg.car_height
}

/// Whether every place of the band is free for the car `id`.
pub open spec fn band_is_free(cfg: Config, others: Seq<Car>, id: CarID) -> bool {
    forall|x: int, y: int|
        in_spawn_band(cfg, x, y) ==> #[trigger] spot_is_free(cfg, others, id, x, y)
}

/// Decides whether two cars overlap, each given by its centre.
pub fn is_car_overlapping(
    cfg: &Config,
    car1_x: i64,
    car1_y: i64,
    car2_x: i64,
    car2_y: i64,
) -> (hit: bool)
    ensures
        hit == cars_overlap(*cfg, car1_x as int, car1_y as int, car2_x as int, car2_y as int),
{
    overlaps(
        car1_x,
        car1_y,
        cfg.car_width as i64,
        cfg.car_height as i64,
        car2_x,
        car2_y,
        cfg.car_width as i64,
        cfg.car_height as i64,
    )
}

/// Decides whether the car `id` would be clear of all the others at `(x, y)`.
pub fn is_spot_free(cfg: &Config, others: &Vec<Car>, id: CarID, x: i64, y: i64) -> (free: bool)
    ensures
        free == spot_is_free(*cfg, others@, id, x as int, y as int),
{
    let mut j: usize = 0;
    while j < others.len()
        invariant
            j <= others.len(),
            forall|k: int|
                0 <= k < j && (#[trigger] others@[k]).id != id ==> !cars_overlap(
                    *cfg,
                    x as int,
                    y as int,
                    others@[k].x as int,
                    others@[k].y as int,
                ),
        decreases others.len() - j,
    {
        let other: Car = others[j];
        if other.id.0 != id.0 && is_car_overlapping(cfg, x, y, other.x, other.y) {
            return false;
        }
        j += 1;
    }
    true
}

/// The y at which a car comes back in, `offset` above the lowest place in
/// the band.
pub fn respawn_height(cfg: &Config, offset: u32) -> (y: i64)
    ensures
        y == cfg.spawn_base() + offset,
{
    (cfg.screen_height / 2) as i64 + cfg.car_height as i64 + offset as i64
}

/// Every place in the band lies above the upper edge of the screen.
pub proof fn spawn_band_is_above_screen(cfg: Config, x: int, y: int)
    requires
        cfg.car_height >= 1,
        in_spawn_band(cfg, x, y),
    ensures
        2 * y > cfg.screen_height,
{
}

/// Among cars with distinct numbers, a spot that is free for car `i` is
/// clear of every car of the list but car `i` itself.
pub proof fn free_spot_is_clear_of_every_other_car(
    cfg: Config,
    cars: Seq<Car>,
    i: int,
    x: int,
    y: int,
)
    requires
        distinct_ids(cars),
        0 <= i < cars.len(),
        spot_is_free(cfg, cars, cars[i].id, x, y),
    ensures
        forall|j: int|
            0 <= j < cars.len() && j != i ==> !cars_overlap(
                cfg,
                x,
                y,
                (#[trigger] cars[j]).x as int,
                cars[j].y as int,
            ),
{
}

/// The whole band is free as long as no other car reaches up into it: a car
/// that comes back in then needs no second try.
pub proof fn band_is_free_above_the_others(cfg: Config, others: Seq<Car>, id: CarID)
    requires
        forall|j: int|
            0 <= j < others.len() && (#[trigger] others[j]).id != id ==> others[j].y
                + cfg.car_height <= cfg.spawn_base(),
    ensures
        band_is_free(cfg, others, id),
{
}

/// Where a car comes back in, whether it is clear of the others there, and
/// how many places were given up for it.
#[derive(Clone, Copy, Debug, PartialEq, Eq, Structural)]
pub struct Spot {
    pub x: i64,
    pub y: i64,
    pub clear: bool,
    pub retries: u32,
}

/// Finds a place in the band for the car `id` to come back in.
///
/// A place is drawn at random and tried against `others`; as long as it
/// overlaps one of them it is given up and another is drawn, at most
/// `max_retries` times. The last place drawn is returned in any case:
/// `clear` says whether it is free, and a place that is not free is
/// returned only when all the retries are used up.
pub fn respawn_car(
    cfg: &Config,
    others: &Vec<Car>,
    id: CarID,
    max_retries: u32,
    rng: &mut StdRng,
) -> (spot: Spot)
    requires
        cfg.well_formed(),
    ensures
        in_spawn_band(*cfg, spot.x as int, spot.y as int),
        2 * spot.y > cfg.screen_height,
        spot.clear == spot_is_free(*cfg, others@, id, spot.x as int, spot.y as int),
        spot.retries <= max_retries,
        !spot.clear ==> spot.retries == max_retries,
        band_is_free(*cfg, others@, id) ==> spot.retries == 0,
{
    let reach: i64 = (cfg.screen_width / 2) as i64 - cfg.car_width as i64;
    let top: i64 = cfg.car_height as i64 - 1;
    let mut y: i64 = respawn_height(cfg, draw(rng, 0, top) as u32);
    let mut x: i64 = draw(rng, -reach, reach);
    let mut clear: bool = is_spot_free(cfg, others, id, x, y);
    let mut retries: u32 = 0;
    while !clear && retries < max_retries
        invariant
            cfg.well_formed(),
            reach == cfg.spawn_reach(),
            top == cfg.car_height - 1,
            in_spawn_band(*cfg, x as int, y as int),
            clear == spot_is_free(*cfg, others@, id, x as int, y as int),
            retries <= max_retries,
            band_is_free(*cfg, others@, id) ==> retries == 0,
        decreases max_retries - retries,
    {
        y = respawn_height(cfg, draw(rng, 0, top) as u32);
        x = draw(rng, -reach, reach);
        clear = is_spot_free(cfg, others, id, x, y);
        retries += 1;
    }
    Spot { x, y, clear, retries }
}

/// Whether `after` is what a tick of `dt` time units in the running game
/// makes of the car `before`: the same car, `car_speed * dt` further down,
/// or, where that would take it out of sight, back somewhere in the band.
pub open spec fn car_moved(cfg: Config, before: Car, after: Car, dt: int) -> bool {
    let down = before.y - cfg.car_speed * dt;
    &&& after.id == before.id
    &&& if drives_off(cfg, down) {
        in_spawn_band(cfg, after.x as int, after.y as int)
    } else {
        after.x == before.x && after.y == down
    }
}

/// Whether the car `before[i]`, if a tick of `dt` time units took it out
/// of sight, came back in as `after` clear of all the others as they stood
/// in `before`, that is, before the tick moved any of them.
pub open spec fn came_back_clear(cfg: Config, before: Seq<Car>, i: int, after: Car, dt: int) -> bool {
    drives_off(cfg, before[i].y - cfg.car_speed * dt) ==> spot_is_free(
        cfg,
        before,
        before[i].id,
        after.x as int,
        after.y as int,
    )
}

/// Whether every car that the tick took out of sight came back in clear of
/// the others.
pub open spec fn respawns_clear(cfg: Config, before: Seq<Car>, after: Seq<Car>, dt: int) -> bool {
    forall|i: int|
        0 <= i < before.len() ==> came_back_clear(cfg, before, i, #[trigger] after[i], dt)
}

/// Moves every car for one tick of `dt` time units.
///
/// In the running game a car drives `car_speed * dt` down. One that would
/// then be out of sight comes back in above the screen instead, at a place
/// that `respawn_car` finds for it among the others as they stood before
/// the tick. The result says whether every such car came back in clear of
/// the others; it is `false` if a search ran out of retries. In any other
/// state no car moves.
pub fn move_cars_to_bottom(
    cfg: &Config,
    state: AppState,
    cars: &mut Vec<Car>,
    dt: u32,
    max_retries: u32,
    rng: &mut StdRng,
) -> (all_clear: bool)
    requires
        cfg.well_formed(),
    ensures
        !state.runs() ==> final(cars)@ == old(cars)@ && all_clear,
        final(cars)@.len() == old(cars)@.len(),
        forall|i: int|
            0 <= i < old(cars)@.len() ==> (#[trigger] final(cars)@[i]).id == old(cars)@[i].id,
        state.runs() ==> forall|i: int|
            0 <= i < old(cars)@.len() ==> car_moved(
                *cfg,
                old(cars)@[i],
                #[trigger] final(cars)@[i],
                dt as int,
            ),
        state.runs() ==> forall|i: int|
            0 <= i < old(cars)@.len() && drives_off(*cfg, old(cars)@[i].y - cfg.car_speed * dt)
                ==> 2 * (#[trigger] final(cars)@[i]).y > cfg.screen_height,
        state.runs() ==> all_clear == respawns_clear(*cfg, old(cars)@, final(cars)@, dt as int),
        distinct_ids(old(cars)@) ==> distinct_ids(final(cars)@),
{
    if !state.is_running() {
        return true;
    }
    let ghost before: Seq<Car> = cars@;
    let count: usize = cars.len();
    let mut snapshot: Vec<Car> = Vec::new();
    let mut k: usize = 0;
    while k < count
        invariant
            count == cars@.len(),
            cars@ == before,
            k <= count,
            snapshot@ == before.take(k as int),
        decreases count - k,
    {
        snapshot.push(cars[k]);
        k += 1;
    }
    assert(snapshot@ == before);

    assert(cfg.car_speed * dt <= 0xffff_ffff * 0xffff_ffff) by (nonlinear_arith)
        requires
            cfg.car_speed <= 0xffff_ffff,
            dt <= 0xffff_ffff,
    ;
    assert(0 <= cfg.car_speed * dt) by (nonlinear_arith);
    let step: i128 = (cfg.car_speed as i128) * (dt as i128);
    let edge: i128 = -(cfg.screen_height as i128) - 2 * (cfg.car_height as i128);

    let mut all_clear: bool = true;
    let mut i: usize = 0;
    while i < count
        invariant
            cfg.well_formed(),
            count == before.len(),
            cars@.len() == count,
            snapshot@ == before,
            i <= count,
            step == cfg.car_speed * dt,
            0 <= step <= 0xffff_ffff * 0xffff_ffff,
            edge == -(cfg.screen_height as int) - 2 * cfg.car_height,
            forall|j: int| i <= j < count ==> cars@[j] == before[j],
            forall|j: int| 0 <= j < i ==> car_moved(*cfg, before[j], #[trigger] cars@[j], dt as int),
            all_clear == (forall|j: int|
                0 <= j < i ==> came_back_clear(*cfg, before, j, #[trigger] cars@[j], dt as int)),
        decreases count - i,
    {
        let car: Car = cars[i];
        let down: i128 = car.y as i128 - step;
        let ghost so_far: Seq<Car> = cars@;
        let mut now: Car = car;
        let mut clear: bool = true;
        if 2 * down < edge {
            let spot: Spot = respawn_car(cfg, &snapshot, car.id, max_retries, rng);
            now.x = spot.x;
            now.y = spot.y;
            clear = spot.clear;
        } else {
            now.y = down as i64;
        }
        cars.set(i, now);
        assert(clear == came_back_clear(*cfg, before, i as int, cars@[i as int], dt as int));
        assert(forall|j: int|
            #![trigger cars@[j]]
            #![trigger so_far[j]]
            0 <= j < i ==> cars@[j] == so_far[j]);
        all_clear = all_clear && clear;
        i += 1;
    }
    proof {
        assert forall|a: int, b: int|
            distinct_ids(before) && 0 <= a < b < cars@.len() implies cars@[a].id != cars@[b].id by {
            assert(car_moved(*cfg, before[a], cars@[a], dt as int));
            assert(car_moved(*cfg, before[b], cars@[b], dt as int));
        }
    }
    all_clear
}

/// The x at which car `index` starts a session: the first car with its left
/// side on the left edge of the screen, each further car one lane to the
/// right. A lane is the screen's width divided by the number of cars; the
/// half and the quotient are rounded down.
pub open spec fn lane_x(cfg: Config, index: int) -> int {
    let first = ((cfg.car_width as int) - cfg.screen_width) / 2;
    let lane = (cfg.screen_width as int) / (cfg.car_count as int);
    first + lane * index
}

/// Whether `car` is where car `index` starts a session: numbered by its
/// lane, with its left side on the lane's left edge, and above the centre
/// of the screen by the screen's height at least and by less than five cars
/// more.
pub open spec fn starts_in_lane(cfg: Config, index: int, car: Car) -> bool {
    &&& car.id == CarID(index as i32)
    &&& car.x == lane_x(cfg, index)
    &&& cfg.screen_height <= car.y < cfg.screen_height + 5 * cfg.car_height
}

/// The cars of a new session, `car_count` of them, one to a lane from left
/// to right and numbered from 0. How far above the screen each one starts is
/// drawn at random.
pub fn setup(cfg: &Config, rng: &mut StdRng) -> (cars: Vec<Car>)
    requires
        cfg.well_formed(),
    ensures
        cars@.len() == cfg.cars_at_start(),
        forall|i: int| 0 <= i < cars@.len() ==> starts_in_lane(*cfg, i, #[trigger] cars@[i]),
        distinct_ids(cars@),
{
    let mut cars: Vec<Car> = Vec::new();
    if cfg.car_count <= 0 {
        return cars;
    }
    let count: u32 = cfg.car_count as u32;
    let lane: u32 = cfg.screen_width / count;
    let first: i64 = if cfg.car_width >= cfg.screen_width {
        ((cfg.car_width - cfg.screen_width) / 2) as i64
    } else {
        let gap: u32 = cfg.screen_width - cfg.car_width;
        -((gap - gap / 2) as i64)
    };
    let rise: i64 = 5 * (cfg.car_height as i64) - 1;
    let mut i: u32 = 0;
    while i < count
        invariant
            cfg.car_height >= 1,
            count == cfg.car_count,
            lane == (cfg.screen_width as int) / (cfg.car_count as int),
            first == ((cfg.car_width as int) - cfg.screen_width) / 2,
            rise == 5 * cfg.car_height - 1,
            i <= count,
            cars@.len() == i,
            forall|j: int| 0 <= j < i ==> starts_in_lane(*cfg, j, #[trigger] cars@[j]),
        decreases count - i,
    {
        assert(0 <= lane * i <= 0xffff_ffff * 0x7fff_ffff) by (nonlinear_arith)
            requires
                0 <= lane <= 0xffff_ffff,
                0 <= i <= 0x7fff_ffff,
        ;
        let x: i64 = first + (lane as i64) * (i as i64);
        let y: i64 = cfg.screen_height as i64 + draw(rng, 0, rise);
        cars.push(Car { id: CarID(i as i32), x, y });
        i += 1;
    }
    cars
}

} // verus!
