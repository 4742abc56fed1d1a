//! Loudness meter: colours of loudness levels, in whole LUFS.
use vstd::prelude::*;

use crate::hmi::{Rgb, cyan, dark_red, green, orange_red, red, white, yellow};

verus! {

/// The colour of a loudness level.
pub open spec fn loudness_color_of(lufs: i32) -> Rgb {
    if lufs < -100 {
        white()
    } else if lufs < -60 {
        cyan()
    } else if lufs < -24 {
        green()
    } else if lufs < -18 {
        yellow()
    } else if lufs < -12 {
        orange_red()
    } else if lufs < -6 {
        red()
    } else {
        dark_red()
    }
}

/// The colour of a loudness level.
pub fn loudness_color(lufs: i32) -> (r: Rgb)
    ensures
        r == loudness_color_of(lufs),
{
    if lufs < -100 {
        return white();
    } else if lufs < -60 {
        return cyan();
    } else if lufs < -24 {
        return green();
    } else if lufs < -18 {
        return yellow();
    } else if lufs < -12 {
        return orange_red();
    } else if lufs < -6 {
        return red();
    }
    return dark_red();
}

/// The level that lights the meter's LED number `step`: -72 LUFS and 6 more
/// for each step.
pub open spec fn loudness_step_of(step: int) -> int {
    -72 + step * 6
}

/// The level that lights the meter's LED number `step`.
pub fn loudness_step(step: usize) -> (r: i32)
    requires
        loudness_step_of(step as int) <= i32::MAX,
    ensures
        r == loudness_step_of(step as int),
{
    (step as i32 - 12) * 6
}

} // verus!
