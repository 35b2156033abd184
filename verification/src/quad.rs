//! The quad that the player steers.

use crate::config::Config;
use crate::state::AppState;
use vstd::prelude::*;

verus! {

/// The quad, by the centre of its rectangle.
#[derive(Clone, Copy, Debug, PartialEq, Eq, Structural)]
pub struct Quad {
    pub x: i64,
    pub y: i64,
}

/// The keys of one tick: the four arrows as they are held, and whether the
/// pause key went down in this tick.
#[derive(Clone, Copy, Debug, PartialEq, Eq, Structural)]
pub struct Keys {
    pub left: bool,
    pub right: bool,
    pub up: bool,
    pub down: bool,
    pub pause: bool,
}

/// The direction on one axis that two opposite keys ask for: each held key
/// counts one step its way, so both together cancel.
pub open spec fn axis(back: bool, forth: bool) -> int {
    (if forth { 1int } else { 0int }) - (if back { 1int } else { 0int })
}

/// `value`, moved to the nearer end of `low ..= high` if it lies outside.
pub open spec fn clamped(value: int, low: int, high: int) -> int {
    if value < low {
        low
    } else if value > high {
        high
    } else {
        value
    }
}

impl Keys {
    /// The direction asked for on the x-axis: -1, 0 or 1.
    pub open spec fn dx(self) -> int {
        axis(self.left, self.right)
    }

    /// The direction asked for on the y-axis: -1, 0 or 1.
    pub open spec fn dy(self) -> int {
        axis(self.down, self.up)
    }
}

/// Where a quad at `x` would be after `dt` time units with these keys, were
/// there no edge to the screen. Both axes move at full speed at once, so a
/// diagonal move is the longer one.
pub open spec fn quad_x_aimed(cfg: Config, x: int, keys: Keys, dt: int) -> int {
    x + keys.dx() * (cfg.quad_speed * dt)
}

/// The same for `y`.
pub open spec fn quad_y_aimed(cfg: Config, y: int, keys: Keys, dt: int) -> int {
    y + keys.dy() * (cfg.quad_speed * dt)
}

/// The x of the quad after a tick of `dt` time units in the running game.
pub open spec fn quad_x_after(cfg: Config, x: int, keys: Keys, dt: int) -> int {
    clamped(quad_x_aimed(cfg, x, keys, dt), cfg.left_bound(), cfg.right_bound())
}

/// The y of the quad after a tick of `dt` time units in the running game.
pub open spec fn quad_y_after(cfg: Config, y: int, keys: Keys, dt: int) -> int {
    clamped(quad_y_aimed(cfg, y, keys, dt), cfg.bottom_bound(), cfg.top_bound())
}

/// Whether the point lies on the screen, its edges included. The edges are
/// at half the width and half the height, so the test is made on doubled
/// coordinates.
pub open spec fn on_screen(cfg: Config, x: int, y: int) -> bool {
    &&& -(cfg.screen_width as int) <= 2 * x <= cfg.screen_width as int
    &&& -(cfg.screen_height as int) <= 2 * y <= cfg.screen_height as int
}

/// Whether the lower bound of an axis is an edge of the screen, or the
/// position aimed at stays above it. Along an axis of odd length the lower
/// bound, rounded down, lies half a unit outside the screen; a quad that is
/// stopped there is the one case in which a move ends off the screen.
pub open spec fn clear_of_odd_bound(length: int, aimed: int) -> bool {
    length % 2 == 0 || aimed > (-length) / 2
}

/// One position after a move along one axis.
fn slide(at: i64, back: bool, forth: bool, speed: u32, dt: u32, length: u32) -> (to: i64)
    ensures
        to == clamped(
            at + axis(back, forth) * (speed * dt),
            (-(length as int)) / 2,
            (length as int) / 2,
        ),
{
    let high: i64 = (length / 2) as i64;
    let low: i64 = -((length - length / 2) as i64);
    assert(speed * dt <= 0xffff_ffff * 0xffff_ffff) by (nonlinear_arith)
        requires
            speed <= 0xffff_ffff,
            dt <= 0xffff_ffff,
    ;
    assert(0 <= speed * dt) by (nonlinear_arith);
    let step: i128 = (speed as i128) * (dt as i128);
    let mut aimed: i128 = at as i128;
    if forth {
        aimed = aimed + step;
    }
    if back {
        aimed = aimed - step;
    }
    assert(aimed == at + axis(back, forth) * (speed * dt)) by (nonlinear_arith)
        requires
            aimed == at + (if forth { speed * dt } else { 0 }) - (if back { speed * dt } else { 0 }),
    ;
    if aimed < low as i128 {
        low
    } else if aimed > high as i128 {
        high
    } else {
        aimed as i64
    }
}

/// Moves the quad for one tick of `dt` time units and answers the pause key.
///
/// In the running game each held arrow key moves the quad by `quad_speed *
/// dt` along its axis, opposite keys cancelling, and the quad stops at the
/// bounds of the screen. In any other state the quad stays where it is. The
/// state returned is the one for the next tick: the pause key flips between
/// `InGame` and `Paused`, and this tick still runs in the state it began in.
pub fn move_quad(
    cfg: &Config,
    state: AppState,
    keys: &Keys,
    quad: &mut Quad,
    dt: u32,
) -> (next: AppState)
    ensures
        state.runs() ==> final(quad).x == quad_x_after(*cfg, old(quad).x as int, *keys, dt as int),
        state.runs() ==> final(quad).y == quad_y_after(*cfg, old(quad).y as int, *keys, dt as int),
        !state.runs() ==> *final(quad) == *old(quad),
        next == state.after_keys(keys.pause),
        state.runs() ==> cfg.left_bound() <= final(quad).x <= cfg.right_bound(),
        state.runs() ==> cfg.bottom_bound() <= final(quad).y <= cfg.top_bound(),
        state.runs() && clear_of_odd_bound(
            cfg.screen_width as int,
            quad_x_aimed(*cfg, old(quad).x as int, *keys, dt as int),
        ) && clear_of_odd_bound(
            cfg.screen_height as int,
            quad_y_aimed(*cfg, old(quad).y as int, *keys, dt as int),
        ) ==> on_screen(*cfg, final(quad).x as int, final(quad).y as int),
{
    if state.is_running() {
        quad.x = slide(quad.x, keys.left, keys.right, cfg.quad_speed, dt, cfg.screen_width);
        quad.y = slide(quad.y, keys.down, keys.up, cfg.quad_speed, dt, cfg.screen_height);
        proof {
            let x = old(quad).x as int;
            let y = old(quad).y as int;
            if clear_of_odd_bound(cfg.screen_width as int, quad_x_aimed(*cfg, x, *keys, dt as int))
                && clear_of_odd_bound(
                cfg.screen_height as int,
                quad_y_aimed(*cfg, y, *keys, dt as int),
            ) {
                moved_quad_is_on_screen(*cfg, x, y, *keys, dt as int);
            }
        }
    }
    if keys.pause {
        state.toggle_pause()
    } else {
        state
    }
}

/// A move in the running game ends on the screen, whatever the keys and
/// however long the tick, unless it is stopped at the lower bound of an axis
/// of odd length.
pub proof fn moved_quad_is_on_screen(cfg: Config, x: int, y: int, keys: Keys, dt: int)
    requires
        clear_of_odd_bound(cfg.screen_width as int, quad_x_aimed(cfg, x, keys, dt)),
        clear_of_odd_bound(cfg.screen_height as int, quad_y_aimed(cfg, y, keys, dt)),
    ensures
        on_screen(cfg, quad_x_after(cfg, x, keys, dt), quad_y_after(cfg, y, keys, dt)),
{
}

/// A move in the running game always ends within the bounds, and so at most
/// half a unit off the screen.
pub proof fn moved_quad_is_within_bounds(cfg: Config, x: int, y: int, keys: Keys, dt: int)
    ensures
        cfg.left_bound() <= quad_x_after(cfg, x, keys, dt) <= cfg.right_bound(),
        cfg.bottom_bound() <= quad_y_after(cfg, y, keys, dt) <= cfg.top_bound(),
        -(cfg.screen_width as int) - 1 <= 2 * quad_x_after(cfg, x, keys, dt) <= cfg.screen_width,
        -(cfg.screen_height as int) - 1 <= 2 * quad_y_after(cfg, y, keys, dt)
            <= cfg.screen_height,
{
}

} // verus!
