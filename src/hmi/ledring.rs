//! One ring of LEDs around a control.
use vstd::prelude::*;

use crate::hmi::{Rgb, dark};
use crate::loudness::{loudness_color, loudness_color_of, loudness_step, loudness_step_of};

verus! {

/// LEDs in one ring.
pub const LEDS_PER_RING: usize = 12;

/// What a ring shows.
#[derive(Clone, Copy, Debug, PartialEq, Eq, Structural)]
pub enum Animation {
    On(Rgb),
    Off,
    /// A colour that is shown or not.
    Toggle(Rgb, bool),
    /// A colour shown once, then off.
    Flash(Rgb),
    /// A loudness meter at this level, in whole LUFS.
    Loudness(i32),
}

/// The animation after a request: a toggle request on a toggling ring flips
/// it, in the requested colour; any other request replaces the animation.
pub open spec fn next_ring_animation(current: Animation, requested: Animation) -> Animation {
    match requested {
        Animation::Toggle(c, _) => match current {
            Animation::Toggle(_, visible) => Animation::Toggle(c, !visible),
            _ => requested,
        },
        _ => requested,
    }
}

/// The meter step that LED `k` of the ring shows: the ring runs backwards
/// from LED 0.
pub open spec fn meter_step(k: int) -> int {
    if k == 0 {
        0
    } else {
        LEDS_PER_RING - k
    }
}

/// The colour of LED `k` of a loudness meter: lit, in the colour of its
/// step's level, when the loudness reaches that level.
pub open spec fn meter_led(lufs: i32, k: int) -> Rgb {
    let level = loudness_step_of(meter_step(k));
    if lufs >= level {
        loudness_color_of(level as i32)
    } else {
        dark()
    }
}

/// What each LED of the ring shows for an animation.
pub open spec fn ring_frame(a: Animation) -> Seq<Rgb> {
    Seq::new(
        LEDS_PER_RING as nat,
        |k: int|
            match a {
                Animation::On(c) => c,
                Animation::Off => dark(),
                Animation::Toggle(c, visible) => if visible {
                    c
                } else {
                    dark()
                },
                Animation::Flash(c) => c,
                Animation::Loudness(lufs) => meter_led(lufs, k),
            },
    )
}

/// The animation after a frame: a flash goes off, everything else stays.
pub open spec fn ring_after_frame(a: Animation) -> Animation {
    match a {
        Animation::Flash(_) => Animation::Off,
        _ => a,
    }
}

/// A ring of LEDs.
#[derive(Clone, Copy, Debug)]
pub struct LedRing {
    animation: Animation,
}

impl View for LedRing {
    type V = Animation;

    closed spec fn view(&self) -> Animation {
        self.animation
    }
}

impl LedRing {
    /// A loudness meter at 0 LUFS.
    pub fn new() -> (r: LedRing)
        ensures
            r@ == Animation::Loudness(0),
    {
        LedRing { animation: Animation::Loudness(0) }
    }

    /// What each LED shows in this frame.
    pub fn animate(&mut self) -> (r: [Rgb; LEDS_PER_RING])
        ensures
            r@ == ring_frame(old(self)@),
            final(self)@ == ring_after_frame(old(self)@),
    {
        match self.animation {
            Animation::On(c) => {
                let r = [c; LEDS_PER_RING];
                assert(r@ =~= ring_frame(old(self)@));
                r
            },
            Animation::Off => {
                let r = [dark(); LEDS_PER_RING];
                assert(r@ =~= ring_frame(old(self)@));
                r
            },
            Animation::Toggle(c, visible) => {
                let r = if visible {
                    [c; LEDS_PER_RING]
                } else {
                    [dark(); LEDS_PER_RING]
                };
                assert(r@ =~= ring_frame(old(self)@));
                r
            },
            Animation::Flash(c) => {
                self.animation = Animation::Off;
                let r = [c; LEDS_PER_RING];
                assert(r@ =~= ring_frame(old(self)@));
                r
            },
            Animation::Loudness(lufs) => {
                let mut data = [dark(); LEDS_PER_RING];
                let mut i: usize = 0;
                while i < LEDS_PER_RING
                    invariant
                        i <= LEDS_PER_RING,
                        data@.len() == LEDS_PER_RING,
                        forall|k: int|
                            0 <= k < LEDS_PER_RING ==> #[trigger] data@[k] == if meter_step(k) < i {
                                meter_led(lufs, k)
                            } else {
                                dark()
                            },
                    decreases LEDS_PER_RING - i,
                {
                    let reference = loudness_step(i);
                    let k = (LEDS_PER_RING - i) % LEDS_PER_RING;
                    assert(meter_step(k as int) == i);
                    if lufs >= reference {
                        data[k] = loudness_color(reference);
                    }
                    i += 1;
                    assert forall|j: int| 0 <= j < LEDS_PER_RING implies #[trigger] data@[j] == if meter_step(j) < i {
                        meter_led(lufs, j)
                    } else {
                        dark()
                    } by {
                        if j != k {
                            assert(meter_step(j) != meter_step(k as int));
                        }
                    }
                }
                assert(data@ =~= ring_frame(old(self)@));
                data
            },
        }
    }

    /// Applies an animation request.
    pub fn set(&mut self, a: Animation)
        ensures
            final(self)@ == next_ring_animation(old(self)@, a),
    {
        match a {
            Animation::Toggle(c, _) => {
                let current_animation = self.animation;
                match current_animation {
                    Animation::Toggle(_, true) => self.animation = Animation::Toggle(c, false),
                    Animation::Toggle(_, false) => self.animation = Animation::Toggle(c, true),
                    _ => self.animation = a,
                };
            },
            _ => self.animation = a,
        }
    }
}

impl Default for LedRing {
    /// A loudness meter at 0 LUFS.
    fn default() -> (r: LedRing)
        ensures
            r@ == Animation::Loudness(0),
    {
        LedRing::new()
    }
}

} // verus!
