use krachlicht::color::{dmx_bytes, dmx_channel, Rgb};
use krachlicht::fixed::UNIT;
use krachlicht::intervaltimer::IntervalTimer;
use krachlicht::olaoutput::OlaOutput;
use krachlicht::photonizer::{
    normalize_magnitudes, telemetry_buckets, Mode, Photonizer, PhotonizerOptions,
};
use krachlicht::playbackstate::PlaybackState;

#[test]
fn spectral_figures_for_the_default_window() {
    // Window size 1024 at 44100 Hz: 512 buckets, about 43.066 Hz each.
    let mut state = PlaybackState::new(1024);
    let photonizer = Photonizer::new(&mut state, 0);
    assert_eq!(photonizer.window_size, 1024);
    assert_eq!(state.bucket_count, 512);
    assert_eq!(state.freq_step, 430664);
    let step_hz = state.freq_step as f64 / UNIT as f64;
    assert!((step_hz - 43.066).abs() < 0.001);
}

#[test]
fn magnitudes_are_scaled_and_clamped() {
    let magnitudes: Vec<u64> = vec![0, 300, 1500, 3_000_000, 6_000_000];
    let intensities = normalize_magnitudes(&magnitudes);
    assert_eq!(intensities, vec![0, 1, 5, UNIT, UNIT]);
}

#[test]
fn telemetry_takes_buckets_one_through_twelve() {
    let intensities: Vec<u32> = (0..20).collect();
    let buckets = telemetry_buckets(&intensities);
    assert_eq!(buckets, (1..13).collect::<Vec<u32>>());
}

#[test]
fn dmx_channel_rounds_to_the_nearest_byte() {
    assert_eq!(dmx_channel(0), 0);
    assert_eq!(dmx_channel(UNIT), 255);
    assert_eq!(dmx_channel(5000), 128);  // round(127.5)
    assert_eq!(dmx_channel(2500), 64);  // round(63.75)
    let bytes = dmx_bytes(&Rgb::new(0, UNIT, 5000));
    assert_eq!(bytes, (0, 255, 128));
}

#[test]
fn dmx_round_trip_stays_within_one_part_in_255() {
    // Decoding channel / 255 recovers the component within 1/255.
    for c in (0..=UNIT).step_by(7) {
        let byte = dmx_channel(c);
        let decoded = byte as f64 / 255.0;
        let original = c as f64 / UNIT as f64;
        assert!((decoded - original).abs() <= 1.0 / 255.0);
    }
}

#[test]
fn photonize_writes_the_frame_into_the_universe() {
    let mut state = PlaybackState::new(1024);
    let mut photonizer = Photonizer::new(&mut state, 0);
    let mut ola = OlaOutput::new();
    let mut opts = PhotonizerOptions::new();
    opts.mode = Mode::Static;
    let intensities = vec![0u32; 512];

    let frame = photonizer.photonize(&opts, &intensities, &mut ola);
    assert_eq!(photonizer.last_mode, Mode::Static);
    assert_eq!(frame.len(), 18);

    // Static mode, green accent, full master intensity: every pixel writes
    // the bytes (0, 255, 0); channels past the strip stay black.
    for i in 0..18 {
        assert_eq!(ola.buffer[3 * i], 0);
        assert_eq!(ola.buffer[3 * i + 1], 255);
        assert_eq!(ola.buffer[3 * i + 2], 0);
    }
    for c in 54..512 {
        assert_eq!(ola.buffer[c], 0);
    }
}

#[test]
fn master_intensity_scales_the_device_bytes() {
    let mut state = PlaybackState::new(1024);
    let mut photonizer = Photonizer::new(&mut state, 0);
    let mut ola = OlaOutput::new();
    let mut opts = PhotonizerOptions::new();
    opts.mode = Mode::Static;
    opts.master_intensity = 5000;
    let intensities = vec![0u32; 512];

    photonizer.photonize(&opts, &intensities, &mut ola);
    assert_eq!(ola.buffer[1], 128);  // round(0.5 * 255)
}

#[test]
fn mode_switch_resets_the_effect_state() {
    let mut state = PlaybackState::new(1024);
    let mut photonizer = Photonizer::new(&mut state, 0);
    let mut ola = OlaOutput::new();
    let mut opts = PhotonizerOptions::new();
    let mut beat = vec![0u32; 512];
    beat[2] = UNIT;

    // Drive the light bar to a full peak.
    opts.mode = Mode::LightBar;
    photonizer.photonize(&opts, &beat, &mut ola);

    // Switch to pixel flow and back: the light bar starts from a cold peak,
    // so under silence it stays black.
    opts.mode = Mode::Pixels;
    photonizer.photonize(&opts, &vec![0u32; 512], &mut ola);
    opts.mode = Mode::LightBar;
    let frame = photonizer.photonize(&opts, &vec![0u32; 512], &mut ola);
    for pixel in &frame {
        assert_eq!(*pixel, Rgb::black());
    }
}

#[test]
fn blackout_is_sent_exactly_once() {
    let mut state = PlaybackState::new(1024);
    let mut photonizer = Photonizer::new(&mut state, 0);
    let mut ola = OlaOutput::new();
    ola.set(0, 200);

    assert!(photonizer.blackout(&mut ola));
    assert!(ola.buffer.iter().all(|&b| b == 0));
    // Already blacked out: nothing to send.
    assert!(!photonizer.blackout(&mut ola));

    // Rendering again re-arms the blackout.
    let opts = PhotonizerOptions::new();
    photonizer.photonize(&opts, &vec![0u32; 512], &mut ola);
    assert!(photonizer.blackout(&mut ola));
}

#[test]
fn scalar_telemetry_is_rate_limited_to_once_per_second() {
    let mut state = PlaybackState::new(1024);
    let mut photonizer = Photonizer::new(&mut state, 1_000_000);
    assert!(!photonizer.should_send_options(1_500_000));
    assert!(photonizer.should_send_options(2_100_000));
    // The interval restarts at the send.
    assert!(!photonizer.should_send_options(3_000_000));
    assert!(photonizer.should_send_options(3_200_000));
}

#[test]
fn universe_channel_mapping() {
    let mut ola = OlaOutput::new();
    ola.set_rgb(6, (10, 20, 30));
    assert_eq!(ola.buffer[6], 10);
    assert_eq!(ola.buffer[7], 20);
    assert_eq!(ola.buffer[8], 30);
    ola.set(255, 99);
    assert_eq!(ola.buffer[255], 99);

    let frame = ola.take_frame();
    assert_eq!(frame[6], 10);
    assert_eq!(frame[255], 99);
    assert!(ola.buffer.iter().all(|&b| b == 0));
}

#[test]
fn scheduler_keeps_phase_when_on_time() {
    let mut timer = IntervalTimer::new(30, false, 1_000_000);
    assert_eq!(timer.interval_us, 33333);
    let (wait, skipped) = timer.advance_to_next_tick(1_010_000);
    assert!(!skipped);
    assert_eq!(wait, 23333);
    assert_eq!(timer.last_tick_us, 1_033_333);
}

#[test]
fn scheduler_reports_overrun_and_reanchors() {
    // 30 Hz and 40 ms of tick work: the ~33.3 ms deadline has passed, the
    // frame counts as skipped, and the schedule restarts from now.
    let mut timer = IntervalTimer::new(30, false, 1_000_000);
    let (wait, skipped) = timer.advance_to_next_tick(1_040_000);
    assert!(skipped);
    assert_eq!(wait, 33333);
    assert_eq!(timer.last_tick_us, 1_040_000 + 33333);
}

#[test]
fn fps_counter_publishes_once_per_second() {
    let mut timer = IntervalTimer::new(30, true, 0);
    assert_eq!(timer.fps(), 0);
    for i in 0..30 {
        timer.update_fps(i * 33_333);
    }
    assert_eq!(timer.fps(), 0);
    // Crossing the one-second mark publishes the count and resets it.
    timer.update_fps(1_000_100);
    assert_eq!(timer.fps(), 31);
    timer.update_fps(1_033_433);
    assert_eq!(timer.fps(), 31);
}

#[test]
fn window_always_holds_one_full_window() {
    let mut state = PlaybackState::new(8);
    assert_eq!(state.buffer, vec![0i32; 8]);
    state.set_window(vec![1, 2, 3, 4, 5, 6, 7, 8]);
    assert_eq!(state.buffer.len(), 8);
    assert_eq!(state.buffer[0], 1);
}
