use pedalboard_midi::hmi::ledring::{self, LedRing, LEDS_PER_RING};
use pedalboard_midi::hmi::leds::{
    gradient_at_value7, set_animation, Animation, Gradient, Led, LedRings, Leds, Sawtooth, LED_OUTPUTS,
};
use pedalboard_midi::hmi::{
    cyan, dark, dark_red, expression_pedal_update, green, pedal_sample_due, rotary_update, white,
    yellow, Rgb, Turn,
};
use pedalboard_midi::loudness::{loudness_color, loudness_step};

#[test]
fn sawtooth_rises_and_falls_between_bounds() {
    let mut s = Sawtooth::new();
    let mut seen = Vec::new();
    for _ in 0..18 {
        seen.push(s.next());
    }
    assert_eq!(
        seen,
        vec![9, 10, 11, 12, 13, 14, 15, 16, 15, 14, 13, 12, 11, 10, 9, 8, 9, 10]
    );
    assert_eq!(s.max(), 16);
}

#[test]
fn rotary_counts_within_range() {
    assert_eq!(rotary_update(5, Turn::Clockwise), (6, Some(6)));
    assert_eq!(rotary_update(127, Turn::Clockwise), (127, Some(127)));
    assert_eq!(rotary_update(5, Turn::Anticlockwise), (4, Some(4)));
    assert_eq!(rotary_update(1, Turn::Anticlockwise), (1, Some(1)));
    assert_eq!(rotary_update(9, Turn::Still), (9, None));
}

#[test]
fn pedal_reports_only_real_moves() {
    assert_eq!(expression_pedal_update(10, 10 * 32 + 5), (10, None));
    assert_eq!(expression_pedal_update(10, 12 * 32), (10, None));
    assert_eq!(expression_pedal_update(10, 13 * 32), (13, Some(13)));
    assert_eq!(expression_pedal_update(100, 4095), (127, Some(127)));
}

#[test]
fn pedals_are_read_every_26th_tick() {
    let mut c = 0u8;
    let mut reads = 0;
    for _ in 0..52 {
        let (next, read) = pedal_sample_due(c);
        c = next;
        if read {
            reads += 1;
        }
    }
    assert_eq!(reads, 2);
    assert_eq!(pedal_sample_due(25), (0, true));
}

#[test]
fn toggle_flips_and_other_requests_replace() {
    let red = Rgb { r: 255, g: 0, b: 0 };
    let blue = Rgb { r: 0, g: 0, b: 255 };
    assert_eq!(set_animation(Animation::Toggle(red, true), Animation::Toggle(blue, true)), Animation::Toggle(blue, false));
    assert_eq!(set_animation(Animation::Toggle(red, false), Animation::Toggle(blue, false)), Animation::Toggle(blue, true));
    assert_eq!(set_animation(Animation::Off, Animation::Toggle(blue, false)), Animation::Toggle(blue, false));
    assert_eq!(set_animation(Animation::Toggle(red, true), Animation::On(blue)), Animation::On(blue));
}

#[test]
fn flash_is_shown_once() {
    let green = Rgb { r: 0, g: 255, b: 0 };
    let mut leds = Leds::new();
    leds.set(Animation::Flash(green), Led::Mon);
    leds.set(Animation::On(white()), Led::Mode);
    let first = leds.animate();
    assert_eq!(first.len(), LED_OUTPUTS);
    assert_eq!(first[96], white());
    assert_eq!(first[97], green);
    let second = leds.animate();
    assert_eq!(second[96], white());
    assert_eq!(second[97], dark());
}

#[test]
fn rainbow_follows_the_gradient() {
    let mut leds = Leds::default();
    leds.set(Animation::Rainbow(Gradient::Reds), Led::Mode);
    let a = leds.animate();
    let b = leds.animate();
    assert_ne!(a[96], dark());
    assert_ne!(a[96], b[96]);
}

#[test]
fn rings_show_their_animation() {
    let mut leds = Leds::new();
    leds.set_ledring(ledring::Animation::On(yellow()), LedRings::F);
    leds.set_ledring(ledring::Animation::Off, LedRings::Gain);
    let frame = leds.animate();
    for k in 0..LEDS_PER_RING {
        assert_eq!(frame[k], dark());
        assert_eq!(frame[LEDS_PER_RING + k], yellow());
    }
}

#[test]
fn ring_toggle_flips() {
    let mut ring = LedRing::new();
    ring.set(ledring::Animation::Toggle(white(), false));
    assert_eq!(ring.animate(), [dark(); LEDS_PER_RING]);
    ring.set(ledring::Animation::Toggle(white(), false));
    assert_eq!(ring.animate(), [white(); LEDS_PER_RING]);
    ring.set(ledring::Animation::Flash(green()));
    assert_eq!(ring.animate(), [green(); LEDS_PER_RING]);
    assert_eq!(ring.animate(), [dark(); LEDS_PER_RING]);
}

#[test]
fn loudness_meter_lights_up_to_the_level() {
    let mut ring = LedRing::new();
    ring.set(ledring::Animation::Loudness(-60));
    let frame = ring.animate();
    // steps 0, 1 and 2 (-72, -66, -60) are reached; they sit at LEDs 0, 11 and 10
    assert_eq!(frame[0], cyan());
    assert_eq!(frame[11], cyan());
    assert_eq!(frame[10], green());
    for k in 1..10 {
        assert_eq!(frame[k], dark());
    }
    let mut full = LedRing::default();
    let all = full.animate();
    assert_eq!(all[1], dark_red());
    assert!(all.iter().all(|c| *c != dark()));
}

#[test]
fn loudness_colors_and_steps() {
    assert_eq!(loudness_color(-101), white());
    assert_eq!(loudness_color(-100), cyan());
    assert_eq!(loudness_color(-24), yellow());
    assert_eq!(loudness_color(-6), dark_red());
    assert_eq!(loudness_step(0), -72);
    assert_eq!(loudness_step(11), -6);
}

#[test]
fn led_positions() {
    assert_eq!(Led::Mode.index(), 0);
    assert_eq!(Led::Mon.index(), 1);
    assert_eq!(LedRings::Gain.index(), 0);
    assert_eq!(LedRings::A.index(), 7);
}

#[test]
fn gradient_colours_come_from_colorous() {
    for v in [0u8, 40, 127] {
        let c = colorous::REDS.eval_rational(v as usize, 127);
        assert_eq!(gradient_at_value7(Gradient::Reds, v), Rgb { r: c.r, g: c.g, b: c.b });
        let c = colorous::BLUES.eval_rational(v as usize, 127);
        assert_eq!(gradient_at_value7(Gradient::Blues, v), Rgb { r: c.r, g: c.g, b: c.b });
    }
    assert_ne!(gradient_at_value7(Gradient::Reds, 0), gradient_at_value7(Gradient::Reds, 127));
}
