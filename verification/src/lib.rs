//! Simulation core of a two-player arena game: players move over a grid of
//! destructible floor tiles, pick tiles up and throw them at each other, and
//! stepping onto a missing tile is lethal.
//!
//! All geometry is measured in integer sub-units, tenths of a pixel, so that
//! every speed the game uses (2.0 pixels per frame for walking, the 0.7
//! diagonal adjustment, 1.0 pixel per frame of extra throw speed) is exact.
//! Rendering, input decoding and frame timing belong to the host shell; the
//! shell hands `main_state::MainState` plain values (key intents and an
//! integer frame-time factor) and reads plain values back to draw.

use vstd::prelude::*;

pub mod anim;
pub mod hitbox;
pub mod main_state;
pub mod player;
pub mod projectile;
pub mod tile;
pub mod tilesheet;

verus! {

/// Sub-units per pixel: every coordinate and velocity in the crate is a count
/// of tenths of a pixel.
pub const SUBUNITS: i32 = 10;

/// The frame-time factor is a count of thousandths of one 60 fps frame:
/// a factor of `FACTOR_ONE` means exactly one expected frame elapsed.
pub const FACTOR_ONE: u32 = 1000;

/// Largest frame-time factor the simulation accepts (a hundred expected
/// frames, far beyond any realistic stall).
pub const MAX_FACTOR: u32 = 100 * 1000;

/// Bound on the magnitude of any velocity component, in sub-units per frame.
pub const MAX_SPEED: i32 = 100_000;

/// Bound on the magnitude of any coordinate a hitbox may hold, in sub-units.
pub const MAX_COORD: i32 = 1_000_000_000;

/// Bound on the magnitude of an entity position at the start of a frame, in
/// sub-units: one frame of travel at the extreme speed and factor still stays
/// within `MAX_COORD`.
pub const MAX_POS: i32 = 980_000_000;

/// Bound on a hitbox extent, in sub-units.
pub const MAX_EXTENT: i32 = 1_000_000;

/// A velocity component scaled by the frame-time factor, truncated toward
/// zero, exactly as the executable integration computes it.
pub open spec fn spec_scale(v: int, factor: int) -> int {
    if v >= 0 {
        (v * factor) / (FACTOR_ONE as int)
    } else {
        -(((-v) * factor) / (FACTOR_ONE as int))
    }
}

/// How far a velocity component moves its owner this frame: the velocity
/// times the frame-time factor in thousandths, truncated toward zero.
pub fn scale_by_factor(v: i32, factor: u32) -> (r: i32)
    requires
        -MAX_SPEED <= v <= MAX_SPEED,
        factor <= MAX_FACTOR,
    ensures
        r == spec_scale(v as int, factor as int),
        -10_000_000 <= r <= 10_000_000,
{
    if v >= 0 {
        proof {
            assert((v as int) * (factor as int) <= 10_000_000_000int) by (nonlinear_arith)
                requires
                    0 <= v <= MAX_SPEED,
                    factor <= MAX_FACTOR,
            ;
        }
        let wide: u64 = (v as u64) * (factor as u64);
        let scaled: u64 = wide / (FACTOR_ONE as u64);
        proof {
            vstd::arithmetic::div_mod::lemma_div_is_ordered(
                wide as int,
                10_000_000_000int,
                FACTOR_ONE as int,
            );
        }
        scaled as i32
    } else {
        let magnitude: i64 = -(v as i64);
        proof {
            assert((magnitude as int) * (factor as int) <= 10_000_000_000int) by (nonlinear_arith)
                requires
                    0 < magnitude <= MAX_SPEED,
                    factor <= MAX_FACTOR,
            ;
        }
        let wide: u64 = (magnitude as u64) * (factor as u64);
        let scaled: u64 = wide / (FACTOR_ONE as u64);
        proof {
            vstd::arithmetic::div_mod::lemma_div_is_ordered(
                wide as int,
                10_000_000_000int,
                FACTOR_ONE as int,
            );
        }
        -(scaled as i32)
    }
}

} // verus!
