//! The single LEDs and the LED rings, and how their animations are rendered.
use vstd::prelude::*;

use crate::hmi::ledring::{
    next_ring_animation, ring_after_frame, ring_frame, LedRing, LEDS_PER_RING,
};
use crate::hmi::{Rgb, dark};

verus! {

/// The single LEDs.
#[derive(Clone, Copy, Debug, PartialEq, Eq, Structural)]
pub enum Led {
    Mode,
    Mon,
}

/// Number of single LEDs.
pub const NUM_LEDS: usize = 2;

/// Number of LED rings.
pub const NUM_LED_RINGS: usize = 8;

impl Led {
    /// Position of the LED among the single LEDs.
    pub fn index(&self) -> (r: usize)
        ensures
            r < NUM_LEDS,
            r == (match *self {
                Led::Mode => 0usize,
                Led::Mon => 1usize,
            }),
    {
        match self {
            Led::Mode => 0,
            Led::Mon => 1,
        }
    }
}

/// The LED rings, one around each control.
#[derive(Clone, Copy, Debug, PartialEq, Eq, Structural)]
pub enum LedRings {
    Gain,
    F,
    C,
    B,
    E,
    Vol,
    D,
    A,
}

impl LedRings {
    /// Position of the ring among the rings.
    pub fn index(&self) -> (r: usize)
        ensures
            r < NUM_LED_RINGS,
            r == (match *self {
                LedRings::Gain => 0usize,
                LedRings::F => 1usize,
                LedRings::C => 2usize,
                LedRings::B => 3usize,
                LedRings::E => 4usize,
                LedRings::Vol => 5usize,
                LedRings::D => 6usize,
                LedRings::A => 7usize,
            }),
    {
        match self {
            LedRings::Gain => 0,
            LedRings::F => 1,
            LedRings::C => 2,
            LedRings::B => 3,
            LedRings::E => 4,
            LedRings::Vol => 5,
            LedRings::D => 6,
            LedRings::A => 7,
        }
    }
}

/// Outputs of the LED chain: every ring, then the single LEDs.
pub const LED_OUTPUTS: usize = 98;

/// Colour gradients that an LED can cycle through.
#[derive(Clone, Copy, Debug, PartialEq, Eq, Structural)]
pub enum Gradient {
    Reds,
    Blues,
}

/// What an LED shows.
#[derive(Clone, Copy, Debug, PartialEq, Eq, Structural)]
pub enum Animation {
    On(Rgb),
    Off,
    /// A colour that is shown or not.
    Toggle(Rgb, bool),
    /// A colour shown once, then off.
    Flash(Rgb),
    /// Cycling through a gradient.
    Rainbow(Gradient),
}

/// The animation after a request: a toggle request on a toggling LED flips
/// it, in the requested colour; any other request replaces the animation.
pub open spec fn next_animation(current: Animation, requested: Animation) -> Animation {
    match requested {
        Animation::Toggle(c, _) => match current {
            Animation::Toggle(_, shown) => Animation::Toggle(c, !shown),
            _ => requested,
        },
        _ => requested,
    }
}

/// The animation after a request, see [`next_animation`].
pub fn set_animation(current: Animation, requested: Animation) -> (r: Animation)
    ensures
        r == next_animation(current, requested),
{
    match requested {
        Animation::Toggle(c, _) => match current {
            Animation::Toggle(_, true) => Animation::Toggle(c, false),
            Animation::Toggle(_, false) => Animation::Toggle(c, true),
            _ => requested,
        },
        _ => requested,
    }
}

impl Led {
    /// Position of the LED among the single LEDs.
    pub open spec fn index_spec(&self) -> int {
        match *self {
            Led::Mode => 0,
            Led::Mon => 1,
        }
    }
}

impl LedRings {
    /// Position of the ring among the rings.
    pub open spec fn index_spec(&self) -> int {
        match *self {
            LedRings::Gain => 0,
            LedRings::F => 1,
            LedRings::C => 2,
            LedRings::B => 3,
            LedRings::E => 4,
            LedRings::Vol => 5,
            LedRings::D => 6,
            LedRings::A => 7,
        }
    }
}

/// The colour of a gradient at position `i` of `n`.
pub uninterp spec fn gradient_color(gradient: Gradient, i: usize, n: usize) -> Rgb;

/// Relies on colorous::Gradient::eval_rational: the colour of the gradient at
/// position `i` of `n`, which depends on its arguments alone; it panics when
/// `n` is zero.
#[verifier::external_body]
fn gradient_at(gradient: Gradient, i: usize, n: usize) -> (r: Rgb)
    requires
        n > 0,
    ensures
        r == gradient_color(gradient, i, n),
{
    let g = match gradient {
        Gradient::Reds => colorous::REDS,
        Gradient::Blues => colorous::BLUES,
    };
    let c = g.eval_rational(i, n);
    Rgb { r: c.r, g: c.g, b: c.b }
}

/// The colour of a gradient at a 7-bit position.
pub fn gradient_at_value7(gradient: Gradient, v: u8) -> (r: Rgb)
    ensures
        r == gradient_color(gradient, v as usize, 127),
{
    gradient_at(gradient, v as usize, 127)
}

/// The colour an animation shows in a frame, a rainbow being at position
/// `i` of `n` of its gradient.
pub open spec fn shown(a: Animation, i: usize, n: usize) -> Rgb {
    match a {
        Animation::On(c) => c,
        Animation::Off => dark(),
        Animation::Toggle(c, visible) => if visible {
            c
        } else {
            dark()
        },
        Animation::Flash(c) => c,
        Animation::Rainbow(g) => gradient_color(g, i, n),
    }
}

/// The animation after a frame: a flash goes off, everything else stays.
pub open spec fn after_frame(a: Animation) -> Animation {
    match a {
        Animation::Flash(_) => Animation::Off,
        _ => a,
    }
}

/// A value that rises from `min` to `max` and falls back, one step per frame.
#[derive(Clone, Copy)]
pub struct Sawtooth {
    value: usize,
    rising: bool,
    max: usize,
    min: usize,
}

/// The state of a [`Sawtooth`].
pub struct SawtoothView {
    pub value: int,
    pub rising: bool,
    pub max: int,
    pub min: int,
}

impl View for Sawtooth {
    type V = SawtoothView;

    closed spec fn view(&self) -> SawtoothView {
        SawtoothView {
            value: self.value as int,
            rising: self.rising,
            max: self.max as int,
            min: self.min as int,
        }
    }
}

/// The value stays between the bounds, which are apart.
pub open spec fn sawtooth_wf(s: SawtoothView) -> bool {
    s.min < s.max && s.min <= s.value <= s.max
}

/// The state after one step: the direction turns at either bound.
pub open spec fn sawtooth_next(s: SawtoothView) -> SawtoothView {
    let rising = if s.value == s.min {
        true
    } else if s.value == s.max {
        false
    } else {
        s.rising
    };
    SawtoothView { value: if rising { s.value + 1 } else { s.value - 1 }, rising, ..s }
}

impl Sawtooth {
    /// Rising from 8, between 8 and 16.
    pub fn new() -> (r: Sawtooth)
        ensures
            r@ == (SawtoothView { value: 8, rising: true, max: 16, min: 8 }),
            sawtooth_wf(r@),
    {
        Sawtooth { value: 8, rising: true, max: 16, min: 8 }
    }

    /// The position and bounds, as a gradient evaluation needs them.
    pub fn value(&self) -> (r: usize)
        ensures
            r == self@.value,
    {
        self.value
    }

    /// The upper bound.
    pub fn max(&self) -> (r: usize)
        ensures
            r == self@.max,
    {
        self.max
    }

    /// Takes one step and returns the new value.
    pub fn next(&mut self) -> (r: usize)
        requires
            sawtooth_wf(old(self)@),
        ensures
            final(self)@ == sawtooth_next(old(self)@),
            r == final(self)@.value,
            sawtooth_wf(final(self)@),
    {
        if self.value == self.max {
            self.rising = false;
        }
        if self.value == self.min {
            self.rising = true;
        }
        if self.rising {
            self.value += 1
        } else {
            self.value -= 1
        }
        self.value
    }
}


/// Every LED of the device, with the sawtooth that drives the rainbows.
#[derive(Clone, Copy)]
pub struct Leds {
    sawtooth: Sawtooth,
    animations: [Animation; NUM_LEDS],
    ledrings: [LedRing; NUM_LED_RINGS],
}

/// The state of [`Leds`].
pub struct LedsView {
    pub sawtooth: SawtoothView,
    /// Animation of each single LED.
    pub animations: Seq<Animation>,
    /// Animation of each ring.
    pub rings: Seq<crate::hmi::ledring::Animation>,
}

impl View for Leds {
    type V = LedsView;

    closed spec fn view(&self) -> LedsView {
        LedsView {
            sawtooth: self.sawtooth@,
            animations: self.animations@,
            rings: Seq::new(NUM_LED_RINGS as nat, |i: int| self.ledrings@[i]@),
        }
    }
}

/// The sawtooth is within its bounds, and the lists are complete.
pub open spec fn leds_wf(l: LedsView) -> bool {
    &&& sawtooth_wf(l.sawtooth)
    &&& l.animations.len() == NUM_LEDS
    &&& l.rings.len() == NUM_LED_RINGS
}

/// The state after an animation request for a single LED.
pub open spec fn led_set(l: LedsView, a: Animation, led: Led) -> LedsView {
    LedsView {
        animations: l.animations.update(
            led.index_spec(),
            next_animation(l.animations[led.index_spec()], a),
        ),
        ..l
    }
}

/// The state after an animation request for a ring.
pub open spec fn ring_set(l: LedsView, a: crate::hmi::ledring::Animation, r: LedRings) -> LedsView {
    LedsView {
        rings: l.rings.update(r.index_spec(), next_ring_animation(l.rings[r.index_spec()], a)),
        ..l
    }
}

/// A fresh set of LEDs: single LEDs off, rings showing a meter at 0 LUFS.
pub open spec fn initial_leds() -> LedsView {
    LedsView {
        sawtooth: SawtoothView { value: 8, rising: true, max: 16, min: 8 },
        animations: Seq::new(NUM_LEDS as nat, |i: int| Animation::Off),
        rings: Seq::new(
            NUM_LED_RINGS as nat,
            |i: int| crate::hmi::ledring::Animation::Loudness(0),
        ),
    }
}

/// The colours of one frame: every ring's LEDs in order, then the single
/// LEDs, with rainbows at the position that the sawtooth's next step gives.
pub open spec fn frame_of(l: LedsView) -> Seq<Rgb> {
    let saw = sawtooth_next(l.sawtooth);
    Seq::new(
        LED_OUTPUTS as nat,
        |i: int|
            if i < NUM_LED_RINGS * LEDS_PER_RING {
                ring_frame(l.rings[i / LEDS_PER_RING as int])[i % LEDS_PER_RING as int]
            } else {
                shown(
                    l.animations[i - NUM_LED_RINGS * LEDS_PER_RING],
                    saw.value as usize,
                    saw.max as usize,
                )
            },
    )
}

/// The state after a frame: the sawtooth has stepped and flashes are off.
pub open spec fn leds_after_frame(l: LedsView) -> LedsView {
    LedsView {
        sawtooth: sawtooth_next(l.sawtooth),
        animations: l.animations.map_values(|a: Animation| after_frame(a)),
        rings: l.rings.map_values(|a: crate::hmi::ledring::Animation| ring_after_frame(a)),
    }
}

impl Leds {
    /// Renders one frame: the sawtooth takes a step, then each ring and each
    /// single LED gives its colours; flashes are shown once. See [`frame_of`]
    /// and [`leds_after_frame`].
    pub fn animate(&mut self) -> (r: [Rgb; LED_OUTPUTS])
        requires
            leds_wf(old(self)@),
        ensures
            leds_wf(final(self)@),
            r@ == frame_of(old(self)@),
            final(self)@ == leds_after_frame(old(self)@),
    {
        let r = self.render_parts();
        proof {
            let f = frame_of(old(self)@);
            assert forall|i: int| 0 <= i < LED_OUTPUTS implies r@[i] == f[i] by {
                if i < NUM_LED_RINGS * LEDS_PER_RING {
                    let ring = i / LEDS_PER_RING as int;
                    let k = i % LEDS_PER_RING as int;
                    assert(i == ring * LEDS_PER_RING + k);
                    assert(r@[ring * LEDS_PER_RING + k] == ring_frame(old(self)@.rings[ring])[k]);
                } else {
                    let s = i - NUM_LED_RINGS * LEDS_PER_RING;
                    assert(r@[NUM_LED_RINGS * LEDS_PER_RING + s] == shown(
                        old(self)@.animations[s],
                        final(self)@.sawtooth.value as usize,
                        final(self)@.sawtooth.max as usize,
                    ));
                }
            }
            assert(r@ =~= f);
            assert(final(self)@.animations =~= leds_after_frame(old(self)@).animations);
            assert(final(self)@.rings =~= leds_after_frame(old(self)@).rings);
        }
        r
    }

    /// Single LEDs off, rings showing a meter at 0 LUFS.
    pub fn new() -> (r: Leds)
        ensures
            r@ == initial_leds(),
            leds_wf(r@),
    {
        let r = Leds {
            sawtooth: Sawtooth::new(),
            animations: [Animation::Off; NUM_LEDS],
            ledrings: [LedRing::new(); NUM_LED_RINGS],
        };
        assert(r@.animations =~= initial_leds().animations);
        assert(r@.rings =~= initial_leds().rings);
        r
    }

    /// Renders one frame, stated LED by LED.
    fn render_parts(&mut self) -> (r: [Rgb; LED_OUTPUTS])
        requires
            leds_wf(old(self)@),
        ensures
            leds_wf(final(self)@),
            final(self)@.sawtooth == sawtooth_next(old(self)@.sawtooth),
            forall|ring: int, k: int|
                0 <= ring < NUM_LED_RINGS && 0 <= k < LEDS_PER_RING ==> r@[ring * LEDS_PER_RING + k]
                    == #[trigger] ring_frame(old(self)@.rings[ring])[k],
            forall|s: int|
                0 <= s < NUM_LEDS ==> r@[NUM_LED_RINGS * LEDS_PER_RING + s] == #[trigger] shown(
                    old(self)@.animations[s],
                    final(self)@.sawtooth.value as usize,
                    final(self)@.sawtooth.max as usize,
                ),
            forall|ring: int|
                0 <= ring < NUM_LED_RINGS ==> #[trigger] final(self)@.rings[ring] == ring_after_frame(
                    old(self)@.rings[ring],
                ),
            forall|s: int|
                0 <= s < NUM_LEDS ==> #[trigger] final(self)@.animations[s] == after_frame(
                    old(self)@.animations[s],
                ),
    {
        let mut data = [dark(); LED_OUTPUTS];
        self.sawtooth.next();
        let ghost old_rings = old(self)@.rings;
        let mut ring_index: usize = 0;
        while ring_index < NUM_LED_RINGS
            invariant
                ring_index <= NUM_LED_RINGS,
                data@.len() == LED_OUTPUTS,
                self.ledrings@.len() == NUM_LED_RINGS,
                old_rings.len() == NUM_LED_RINGS,
                self.sawtooth@ == sawtooth_next(old(self)@.sawtooth),
                sawtooth_wf(self.sawtooth@),
                self.animations@ == old(self)@.animations,
                old(self)@.animations.len() == NUM_LEDS,
                forall|ring: int, k: int|
                    0 <= ring < ring_index && 0 <= k < LEDS_PER_RING ==> data@[ring * LEDS_PER_RING + k]
                        == #[trigger] ring_frame(old_rings[ring])[k],
                forall|ring: int|
                    0 <= ring < ring_index ==> #[trigger] self.ledrings@[ring]@ == ring_after_frame(
                        old_rings[ring],
                    ),
                forall|ring: int|
                    ring_index <= ring < NUM_LED_RINGS ==> #[trigger] self.ledrings@[ring]@ == old_rings[ring],
            decreases NUM_LED_RINGS - ring_index,
        {
            let mut ring = self.ledrings[ring_index];
            let ring_data = ring.animate();
            self.ledrings[ring_index] = ring;
            let mut led_index: usize = 0;
            while led_index < LEDS_PER_RING
                invariant
                    ring_index < NUM_LED_RINGS,
                    old_rings.len() == NUM_LED_RINGS,
                    led_index <= LEDS_PER_RING,
                    data@.len() == LED_OUTPUTS,
                    ring_data@ == ring_frame(old_rings[ring_index as int]),
                    forall|r2: int, k: int|
                        0 <= r2 < ring_index && 0 <= k < LEDS_PER_RING ==> data@[r2 * LEDS_PER_RING + k]
                            == #[trigger] ring_frame(old_rings[r2])[k],
                    forall|k: int|
                        0 <= k < led_index ==> data@[ring_index * LEDS_PER_RING + k]
                            == #[trigger] ring_frame(old_rings[ring_index as int])[k],
                decreases LEDS_PER_RING - led_index,
            {
                data[ring_index * LEDS_PER_RING + led_index] = ring_data[led_index];
                led_index += 1;
            }
            ring_index += 1;
        }
        let value = self.sawtooth.value();
        let max = self.sawtooth.max();
        let mut single: usize = 0;
        while single < NUM_LEDS
            invariant
                single <= NUM_LEDS,
                data@.len() == LED_OUTPUTS,
                max > 0,
                value == self.sawtooth@.value,
                max == self.sawtooth@.max,
                self.sawtooth@ == sawtooth_next(old(self)@.sawtooth),
                sawtooth_wf(self.sawtooth@),
                old_rings.len() == NUM_LED_RINGS,
                old(self)@.animations.len() == NUM_LEDS,
                self.ledrings@.len() == NUM_LED_RINGS,
                forall|ring: int|
                    0 <= ring < NUM_LED_RINGS ==> #[trigger] self.ledrings@[ring]@ == ring_after_frame(
                        old_rings[ring],
                    ),
                self.animations@.len() == NUM_LEDS,
                forall|ring: int, k: int|
                    0 <= ring < NUM_LED_RINGS && 0 <= k < LEDS_PER_RING ==> data@[ring * LEDS_PER_RING + k]
                        == #[trigger] ring_frame(old_rings[ring])[k],
                forall|s: int|
                    0 <= s < single ==> data@[NUM_LED_RINGS * LEDS_PER_RING + s] == #[trigger] shown(
                        old(self)@.animations[s],
                        value,
                        max,
                    ),
                forall|s: int|
                    0 <= s < single ==> #[trigger] self.animations@[s] == after_frame(
                        old(self)@.animations[s],
                    ),
                forall|s: int|
                    single <= s < NUM_LEDS ==> #[trigger] self.animations@[s] == old(self)@.animations[s],
            decreases NUM_LEDS - single,
        {
            let led = NUM_LED_RINGS * LEDS_PER_RING + single;
            let a = self.animations[single];
            let c = match a {
                Animation::On(c) => c,
                Animation::Off => dark(),
                Animation::Toggle(c, visible) => if visible {
                    c
                } else {
                    dark()
                },
                Animation::Flash(c) => c,
                Animation::Rainbow(gradient) => gradient_at(gradient, value, max),
            };
            data[led] = c;
            if let Animation::Flash(_) = a {
                self.animations[single] = Animation::Off;
            }
            single += 1;
        }
        proof {
            assert forall|ring: int|
                0 <= ring < NUM_LED_RINGS implies #[trigger] self@.rings[ring] == ring_after_frame(
                    old(self)@.rings[ring],
                ) by {
                assert(self@.rings[ring] == self.ledrings@[ring]@);
            }
        }
        data
    }

    /// Applies an animation request to a single LED.
    pub fn set(&mut self, a: Animation, l: Led)
        ensures
            final(self)@ == led_set(old(self)@, a, l),
    {
        let index = l.index();
        let current = self.animations[index];
        self.animations[index] = set_animation(current, a);
        assert(self@.animations =~= led_set(old(self)@, a, l).animations);
    }

    /// Applies an animation request to a ring.
    pub fn set_ledring(&mut self, a: crate::hmi::ledring::Animation, r: LedRings)
        ensures
            final(self)@ == ring_set(old(self)@, a, r),
    {
        let ri = r.index();
        let mut ring = self.ledrings[ri];
        ring.set(a);
        self.ledrings[ri] = ring;
        assert(self@.rings =~= ring_set(old(self)@, a, r).rings);
    }
}

impl Default for Leds {
    /// Single LEDs off, rings showing a meter at 0 LUFS.
    fn default() -> (r: Leds)
        ensures
            r@ == initial_leds(),
            leds_wf(r@),
    {
        Leds::new()
    }
}

} // verus!
