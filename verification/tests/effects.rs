use krachlicht::color::Rgb;
use krachlicht::effects::Pulse;
use krachlicht::fixed::UNIT;
use krachlicht::lightbar::LightBar;
use krachlicht::photonizer::PhotonizerOptions;
use krachlicht::pixelflow::PixelFlow;
use krachlicht::staticcolor::StaticColor;
use krachlicht::thunderstruck::Thunderstruck;

fn options() -> PhotonizerOptions {
    PhotonizerOptions::new()
}

fn silence() -> Vec<u32> {
    vec![0u32; 16]
}

fn beat() -> Vec<u32> {
    let mut intensities = vec![0u32; 16];
    intensities[2] = UNIT;
    intensities
}

// See https://floating-point-gui.de/errors/comparison/
fn nearly_equal(a: f32, b: f32, epsilon: f32) -> bool {
    let abs_a = a.abs();
    let abs_b = b.abs();
    let diff = (a - b).abs();

    if a == b {
        // shortcut, handles infinities
        return true;
    } else if a == 0.0 || b == 0.0 || f32::is_subnormal(abs_a + abs_b) {
        // a or b is zero or both are extremely close to it
        // relative error is less meaningful here
        return diff < (epsilon * f32::MIN);
    } else {
        // use relative error
        return diff / (abs_a + abs_b).min(f32::MAX) < epsilon;
    }
}

fn as_float(v: u32) -> f32 {
    v as f32 / UNIT as f32
}

#[test]
fn blah() {
    let red = Rgb::new(UNIT, 0, 0);
    let black = Rgb::black();

    let result_25 = krachlicht::color::blend_over(&black, &red, 2500);
    assert!(nearly_equal(as_float(result_25.red), 0.25, 0.01));
    assert!(nearly_equal(as_float(result_25.green), 0.0, 0.01));
    assert!(nearly_equal(as_float(result_25.blue), 0.0, 0.01));

    let result_50 = krachlicht::color::blend_over(&black, &red, 5000);
    assert!(nearly_equal(as_float(result_50.red), 0.50, 0.01));
    assert!(nearly_equal(as_float(result_50.green), 0.0, 0.01));
    assert!(nearly_equal(as_float(result_50.blue), 0.0, 0.01));

    let result_80 = krachlicht::color::blend_over(&black, &red, 8000);
    assert!(nearly_equal(as_float(result_80.red), 0.80, 0.01));
    assert!(nearly_equal(as_float(result_80.green), 0.0, 0.01));
    assert!(nearly_equal(as_float(result_80.blue), 0.0, 0.01));
}

#[test]
fn static_color_paints_accent_everywhere() {
    let mut effect = StaticColor::new(18);
    let opts = options();
    let frame = effect.step(&opts, &silence());
    assert_eq!(frame.len(), 18);
    for pixel in &frame {
        assert_eq!(*pixel, opts.accent_color);
    }
}

#[test]
fn static_color_is_idempotent() {
    // Unchanged configuration in, bit-identical frames out.
    let mut effect = StaticColor::new(18);
    let opts = options();
    let first = effect.step(&opts, &silence());
    let second = effect.step(&opts, &beat());
    let third = effect.step(&opts, &silence());
    assert_eq!(first, second);
    assert_eq!(first, third);
}

#[test]
fn lightbar_rises_on_beat_and_fades_to_black() {
    let mut effect = LightBar::new(18);
    let opts = options();

    // The beat paints the accent color at full opacity.
    let frame = effect.step(&opts, &beat());
    assert_eq!(frame[0], opts.accent_color);
    for pixel in &frame {
        assert_eq!(*pixel, frame[0]);
    }

    // Under silence the uniform opacity strictly decreases to exactly zero.
    let mut last_green = frame[0].green;
    let mut steps = 0u32;
    loop {
        let frame = effect.step(&opts, &silence());
        for pixel in &frame {
            assert_eq!(*pixel, frame[0]);
        }
        let green = frame[0].green;
        if last_green == 0 {
            assert_eq!(green, 0);
            break;
        }
        assert!(green < last_green);
        last_green = green;
        steps += 1;
        assert!(steps < 20000);
    }
}

#[test]
fn lightbar_first_fade_is_ninety_percent() {
    let mut effect = LightBar::new(4);
    let opts = options();
    effect.step(&opts, &beat());
    // The stored peak has fallen off once: 0.9 exactly.
    let frame = effect.step(&opts, &silence());
    assert_eq!(frame[0].green, 9000);
    let frame = effect.step(&opts, &silence());
    assert_eq!(frame[0].green, 8100);
}

#[test]
fn pixelflow_alpha_split_after_one_tick() {
    // A pulse at the origin with pulse_speed 0.6: after one tick its
    // trailing/leading alpha split is (0.4, 0.6) for pixels 0 and 1.
    let mut effect = PixelFlow {
        pixel_count: 18,
        last_peak: 0,
        pulses: vec![Pulse { color: Rgb::new(0, UNIT, 0), intensity: UNIT, position: 0 }],
    };
    let mut opts = options();
    opts.pulse_speed = 6000;
    let frame = effect.step(&opts, &silence());
    assert_eq!(effect.pulses.len(), 1);
    assert_eq!(effect.pulses[0].position, 6000);
    assert_eq!(frame[0], Rgb::new(0, 4000, 0));
    assert_eq!(frame[1], Rgb::new(0, 6000, 0));
    for i in 2..18 {
        assert_eq!(frame[i], Rgb::black());
    }
}

#[test]
fn pixelflow_spawns_on_rising_beat_and_removes_past_the_strip() {
    let mut effect = PixelFlow::new(3);
    let mut opts = options();
    opts.pulse_speed = UNIT as i64;  // one pixel per tick

    // The first beat spawns a pulse at the origin.
    effect.step(&opts, &beat());
    assert_eq!(effect.pulses.len(), 1);
    assert_eq!(effect.pulses[0].position, 0);

    // Positions move by the speed each tick and never run backwards.
    effect.step(&opts, &silence());
    assert_eq!(effect.pulses[0].position, UNIT as i64);
    effect.step(&opts, &silence());
    assert_eq!(effect.pulses[0].position, 2 * UNIT as i64);

    // One more tick puts it past pixel_count - 1: it is removed.
    effect.step(&opts, &silence());
    assert_eq!(effect.pulses.len(), 0);
}

#[test]
fn pixelflow_suppresses_pulses_near_the_origin() {
    let mut effect = PixelFlow::new(18);
    let mut opts = options();
    opts.pulse_speed = 1000;  // a tenth of a pixel per tick

    effect.step(&opts, &beat());
    assert_eq!(effect.pulses.len(), 1);
    // The young pulse sits within one pixel of the origin, so another beat
    // spawns nothing.
    effect.step(&opts, &beat());
    assert_eq!(effect.pulses.len(), 1);
}

#[test]
fn thunderstruck_strikes_decay_and_vanish() {
    let white = Rgb::new(UNIT, UNIT, UNIT);
    let mut effect = Thunderstruck {
        pixel_count: 5,
        last_peak: UNIT,
        pulses: vec![Pulse { color: white, intensity: UNIT, position: 0 }],
    };
    let opts = options();

    // Intensity falls by exactly 0.9 per tick while the strike lives.
    let mut last_intensity = UNIT;
    let mut steps = 0u32;
    while !effect.pulses.is_empty() {
        effect.step(&opts, &silence());
        if let Some(strike) = effect.pulses.first() {
            assert_eq!(strike.intensity, last_intensity * 9 / 10);
            assert!(strike.intensity > 1000);
            assert!(strike.intensity < last_intensity);
            last_intensity = strike.intensity;
        } else {
            // The last seen intensity decayed to at most 0.1 and the strike
            // no longer appears in any frame.
            assert!(last_intensity * 9 / 10 <= 1000);
        }
        steps += 1;
        assert!(steps < 100);
    }

    // With the strike gone and the peak saturated, silence leaves only the
    // accent wash at alpha 0.3.
    let frame = effect.step(&opts, &silence());
    let wash = krachlicht::color::scale_rgb(&opts.accent_color, 3000);
    for pixel in &frame {
        assert_eq!(*pixel, wash);
    }
}

#[test]
fn thunderstruck_strike_lands_on_the_strip() {
    // One pixel: the random draw has a single possible outcome.
    let mut effect = Thunderstruck::new(1);
    let opts = options();
    let frame = effect.step(&opts, &beat());
    assert_eq!(effect.pulses.len(), 1);
    assert_eq!(effect.pulses[0].position, 0);
    // The fresh strike is white at full intensity.
    assert_eq!(frame[0], Rgb::new(UNIT, UNIT, UNIT));
}

#[test]
fn thunderstruck_retriggers_on_equal_peak() {
    // The trigger is a rising edge with >=, not strictly greater.
    let mut effect = Thunderstruck::new(8);
    let opts = options();
    effect.step(&opts, &beat());
    let after_first = effect.pulses.len();
    assert_eq!(after_first, 1);
    effect.step(&opts, &beat());
    assert_eq!(effect.pulses.len(), 2);
}
