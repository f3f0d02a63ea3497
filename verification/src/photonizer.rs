//! The orchestrator: shared configuration, mode selection, and the per-tick
//! pipeline from intensities to device channel values.

use vstd::prelude::*;
use vstd::arithmetic::div_mod::{lemma_hoist_over_denominator, lemma_mod_multiples_vanish};
use crate::fixed::{UNIT, SPEED_LIMIT, is_unit, spec_scale, spec_clamp_unit, lemma_scale_bounds};
use crate::color::{
    Rgb, spec_black, spec_white, spec_scale_rgb, scale_rgb, spec_dmx_channel, dmx_bytes,
};
use crate::effects::{Pulse, frame_wf};
use crate::lightbar::{LightBar, spec_peak_used, spec_peak_decay};
use crate::pixelflow::{
    PixelFlow, PIXEL_LIMIT, spec_advance_pulses, spec_retain_pulses, spec_pixelflow_create,
    spec_draw_pulses,
};
use crate::staticcolor::{StaticColor, spec_static_frame};
use crate::thunderstruck::{
    Thunderstruck, THUNDERSTRUCK_FALLOFF, spec_decay_strikes, spec_remove_strikes,
    spec_draw_strikes, spec_wash_frame,
};
use crate::effects::spec_uniform_frame;
use crate::olaoutput::OlaOutput;
use crate::playbackstate::PlaybackState;

verus! {

/// The selectable lighting effect.
#[derive(Clone, Copy, Debug, PartialEq, Eq, Structural)]
pub enum Mode {
    LightBar,
    Pixels,
    Static,
    Thunderstruck,
}

/// Shared configuration, read by the rendering thread every tick and written
/// by the control-plane collaborators.  The rendering pipeline receives one
/// consistent snapshot per tick.
#[derive(Clone, Copy, Debug, PartialEq, Eq, Structural)]
pub struct PhotonizerOptions {
    pub shutdown: bool,
    pub enabled: bool,
    pub mode: Mode,
    /// Fractions of `UNIT` in `[0, 1]`.
    pub master_intensity: u32,
    pub background_intensity: u32,
    /// Pixels advanced per tick, in fixed-point position units; the sign is
    /// the direction of travel.
    pub pulse_speed: i64,
    pub accent_color: Rgb,
    pub background_color: Rgb,
}

impl PhotonizerOptions {
    /// The intensity fractions stay in `[0, 1]` and the speed stays bounded,
    /// so that advancing a pulse can never overflow.
    pub open spec fn wf(self) -> bool {
        &&& is_unit(self.master_intensity)
        &&& is_unit(self.background_intensity)
        &&& -SPEED_LIMIT <= self.pulse_speed <= SPEED_LIMIT
        &&& self.accent_color.wf()
        &&& self.background_color.wf()
    }

    /// The startup configuration: enabled, traveling pulses at `0.6` pixels
    /// per tick, full master intensity, green accent on a black background.
    pub fn new() -> (options: PhotonizerOptions)
        ensures
            options == spec_default_options(),
            options.wf(),
    {
        PhotonizerOptions {
            shutdown: false,
            enabled: true,
            mode: Mode::Pixels,
            master_intensity: UNIT,
            background_intensity: 0,
            pulse_speed: 6000,
            accent_color: Rgb { red: 0, green: UNIT, blue: 0 },
            background_color: Rgb { red: 0, green: 0, blue: 0 },
        }
    }
}

pub open spec fn spec_default_options() -> PhotonizerOptions {
    PhotonizerOptions {
        shutdown: false,
        enabled: true,
        mode: Mode::Pixels,
        master_intensity: UNIT,
        background_intensity: 0,
        pulse_speed: 6000,
        accent_color: Rgb { red: 0, green: UNIT as u32, blue: 0 },
        background_color: spec_black(),
    }
}

/// The rendering rate of the orchestrator.
pub const UPDATE_FREQ_HZ: u32 = 30;

/// Pixels of the attached strip.
pub const PIXEL_COUNT: usize = 18;

/// The fixed sample rate of the audio window.
pub const SAMPLE_RATE_HZ: u32 = 44100;

/// The empirically tuned spectral magnitude divisor: magnitudes are scaled
/// by `1 / 300` before clamping, calibrated against observed levels rather
/// than derived from the transform's length.
pub const SCALE_DIVISOR: u64 = 300;

/// The strip never needs more pixels than fit one DMX universe.
pub const STRIP_LIMIT: usize = 84;

/// The active effect: a closed union with one variant per mode, each
/// carrying only the state its lifecycle needs.
pub enum Effect {
    LightBar(LightBar),
    Pixels(PixelFlow),
    Static(StaticColor),
    Thunderstruck(Thunderstruck),
}

impl Effect {
    pub open spec fn wf(self) -> bool {
        match self {
            Effect::LightBar(e) => e.wf(),
            Effect::Pixels(e) => e.wf(),
            Effect::Static(e) => e.wf(),
            Effect::Thunderstruck(e) => e.wf(),
        }
    }

    pub open spec fn spec_pixel_count(self) -> nat {
        match self {
            Effect::LightBar(e) => e.pixel_count as nat,
            Effect::Pixels(e) => e.pixel_count as nat,
            Effect::Static(e) => e.pixel_count as nat,
            Effect::Thunderstruck(e) => e.pixel_count as nat,
        }
    }

    pub open spec fn spec_mode(self) -> Mode {
        match self {
            Effect::LightBar(e) => Mode::LightBar,
            Effect::Pixels(e) => Mode::Pixels,
            Effect::Static(e) => Mode::Static,
            Effect::Thunderstruck(e) => Mode::Thunderstruck,
        }
    }

    /// Construct the mode's effect with all pulse and peak state reset.
    pub fn for_mode(mode: Mode, pixel_count: usize) -> (effect: Effect)
        requires
            1 <= pixel_count <= PIXEL_LIMIT,
        ensures
            spec_is_fresh(effect, mode, pixel_count as nat),
    {
        match mode {
            Mode::LightBar => Effect::LightBar(LightBar::new(pixel_count)),
            Mode::Pixels => Effect::Pixels(PixelFlow::new(pixel_count)),
            Mode::Static => Effect::Static(StaticColor::new(pixel_count)),
            Mode::Thunderstruck => Effect::Thunderstruck(Thunderstruck::new(pixel_count)),
        }
    }

    /// One tick of the active effect.
    pub fn step(&mut self, options: &PhotonizerOptions, intensities: &Vec<u32>) -> (frame: Vec<
        Rgb,
    >)
        requires
            old(self).wf(),
            options.wf(),
            intensities.len() >= 3,
        ensures
            final(self).wf(),
            final(self).spec_pixel_count() == old(self).spec_pixel_count(),
            spec_step_relation(*old(self), *final(self), frame@, *options, intensities@),
            frame@.len() == old(self).spec_pixel_count(),
            frame_wf(frame@),
    {
        match self {
            Effect::LightBar(e) => e.step(options, intensities),
            Effect::Pixels(e) => e.step(options, intensities),
            Effect::Static(e) => e.step(options, intensities),
            Effect::Thunderstruck(e) => e.step(options, intensities),
        }
    }
}

/// A freshly constructed effect for a mode: right variant, right strip
/// length, and all pulse and peak state reset.
pub open spec fn spec_is_fresh(effect: Effect, mode: Mode, pixel_count: nat) -> bool {
    &&& effect.wf()
    &&& effect.spec_mode() == mode
    &&& effect.spec_pixel_count() == pixel_count
    &&& match effect {
        Effect::LightBar(e) => e.last_peak == 0,
        Effect::Pixels(e) => e.last_peak == 0 && e.pulses@ == Seq::<Pulse>::empty(),
        Effect::Static(e) => true,
        Effect::Thunderstruck(e) => e.last_peak == 0 && e.pulses@ == Seq::<Pulse>::empty(),
    }
}

/// What one `step` of an effect does: how the frame follows from the
/// configuration and the drive signal, and how the effect's state advances.
/// The thunderstruck case holds for every pixel its generator may strike.
pub open spec fn spec_step_relation(
    pre: Effect,
    post: Effect,
    frame: Seq<Rgb>,
    options: PhotonizerOptions,
    intensities: Seq<u32>,
) -> bool {
    match (pre, post) {
        (Effect::Static(e0), Effect::Static(e1)) => {
            &&& e1 == e0
            &&& frame == spec_static_frame(options, e0.pixel_count as nat)
        },
        (Effect::LightBar(e0), Effect::LightBar(e1)) => {
            let used = spec_peak_used(e0.last_peak as int, intensities[2] as int);
            &&& e1.pixel_count == e0.pixel_count
            &&& e1.last_peak == spec_peak_decay(used)
            &&& frame == spec_uniform_frame(
                spec_scale_rgb(options.accent_color, used),
                e0.pixel_count as nat,
            )
        },
        (Effect::Pixels(e0), Effect::Pixels(e1)) => {
            let moved = spec_advance_pulses(e0.pulses@, options.pulse_speed as int);
            let kept = spec_retain_pulses(moved, e0.pixel_count as int);
            let created = spec_pixelflow_create(
                kept,
                e0.last_peak as int,
                intensities[2] as int,
                options.accent_color,
            );
            &&& e1.pixel_count == e0.pixel_count
            &&& e1.pulses@ == created.0
            &&& e1.last_peak == created.1
            &&& frame == spec_draw_pulses(
                spec_uniform_frame(spec_black(), e0.pixel_count as nat),
                created.0,
                options.pulse_speed as int,
            )
        },
        (Effect::Thunderstruck(e0), Effect::Thunderstruck(e1)) => {
            let alive = spec_remove_strikes(spec_decay_strikes(e0.pulses@));
            let cur = spec_clamp_unit(intensities[2] as int);
            &&& e1.pixel_count == e0.pixel_count
            &&& (cur < e0.last_peak ==> e1.pulses@ == alive && e1.last_peak == e0.last_peak)
            &&& (cur >= e0.last_peak ==> {
                &&& e1.pulses@.len() == alive.len() + 1
                &&& e1.pulses@.take(alive.len() as int) == alive
                &&& e1.pulses@.last().color == spec_white()
                &&& e1.pulses@.last().intensity == UNIT
                &&& e1.last_peak == spec_scale(cur, THUNDERSTRUCK_FALLOFF as int)
            })
            &&& frame == spec_draw_strikes(spec_wash_frame(options, e0.pixel_count as nat),
            e1.pulses@)
        },
        _ => false,
    }
}

/// A bucket intensity: the raw magnitude scaled by `1 / SCALE_DIVISOR` and
/// clamped into `[0, 1]`.
pub open spec fn spec_normalized(magnitude: int) -> int {
    let scaled = magnitude / (SCALE_DIVISOR as int);
    if scaled > UNIT { UNIT as int } else { scaled }
}

/// Normalize raw spectral magnitudes (fixed-point fractions of `UNIT`) into
/// bucket intensities.
pub fn normalize_magnitudes(magnitudes: &Vec<u64>) -> (intensities: Vec<u32>)
    ensures
        intensities@.len() == magnitudes@.len(),
        forall|i: int|
            0 <= i < magnitudes@.len() ==> #[trigger] intensities@[i] == spec_normalized(
                magnitudes@[i] as int,
            ),
        forall|i: int| 0 <= i < magnitudes@.len() ==> is_unit(#[trigger] intensities@[i]),
{
    let n = magnitudes.len();
    let mut intensities: Vec<u32> = Vec::new();
    let mut i: usize = 0;
    while i < n
        invariant
            n == magnitudes@.len(),
            i <= n,
            intensities@.len() == i,
            forall|j: int|
                0 <= j < i ==> #[trigger] intensities@[j] == spec_normalized(
                    magnitudes@[j] as int,
                ),
            forall|j: int| 0 <= j < i ==> is_unit(#[trigger] intensities@[j]),
        decreases n - i,
    {
        let scaled = magnitudes[i] / SCALE_DIVISOR;
        let bucket: u32 = if scaled > UNIT as u64 {
            UNIT
        } else {
            scaled as u32
        };
        intensities.push(bucket);
        i = i + 1;
    }
    intensities
}

/// The 12-band telemetry vector: buckets 1 through 12.
pub fn telemetry_buckets(intensities: &Vec<u32>) -> (buckets: Vec<u32>)
    requires
        intensities.len() >= 13,
    ensures
        buckets@ == intensities@.subrange(1, 13),
{
    let mut buckets: Vec<u32> = Vec::new();
    let mut i: usize = 1;
    while i < 13
        invariant
            1 <= i <= 13,
            intensities@.len() >= 13,
            buckets@ =~= intensities@.subrange(1, i as int),
        decreases 13 - i,
    {
        buckets.push(intensities[i]);
        proof {
            assert(buckets@ =~= intensities@.subrange(1, i + 1));
        }
        i = i + 1;
    }
    buckets
}

/// The universe after a frame is written into it: channel `3 * i + k`
/// carries the device byte of pixel `i`'s `k`-th component, scaled by the
/// master intensity; channels past the strip keep their old values.
pub open spec fn spec_encoded_universe(before: Seq<u8>, frame: Seq<Rgb>, master: int) -> Seq<
    u8,
> {
    Seq::new(
        before.len(),
        |c: int|
            if c < 3 * frame.len() {
                let p = frame[c / 3];
                let component = if c % 3 == 0 {
                    p.red
                } else if c % 3 == 1 {
                    p.green
                } else {
                    p.blue
                };
                spec_dmx_channel(spec_scale(component as int, master)) as u8
            } else {
                before[c]
            },
    )
}

proof fn lemma_pixel_channel(i: int, k: int)
    requires
        0 <= i,
        0 <= k < 3,
    ensures
        (3 * i + k) / 3 == i,
        (3 * i + k) % 3 == k,
{
    lemma_hoist_over_denominator(k, i, 3nat);
    lemma_mod_multiples_vanish(i, k, 3);
    assert(k / 3 == 0);
    assert(k % 3 == k);
    assert(3 * i + k == k + i * 3);
}

/// The orchestrator: owns the active effect, reinstantiates it on mode
/// changes, and turns each tick's frame into device channel values.
pub struct Photonizer {
    pub window_size: usize,
    pub pixel_count: usize,
    pub effect: Effect,
    pub last_mode: Mode,
    pub blacked_out: bool,
    /// When scalar telemetry was last published, in microseconds.
    pub osc_options_sent_us: u64,
}

impl Photonizer {
    pub open spec fn wf(self) -> bool {
        &&& 1 <= self.pixel_count <= STRIP_LIMIT
        &&& self.effect.wf()
        &&& self.effect.spec_pixel_count() == self.pixel_count
        &&& self.effect.spec_mode() == self.last_mode
    }

    /// Derive the spectral figures of the shared window, publish them into
    /// it, and set up the pipeline with a fresh light-bar effect.
    pub fn new(playback_state: &mut PlaybackState, now_us: u64) -> (p: Photonizer)
        requires
            old(playback_state).buffer@.len() >= 1,
        ensures
            final(playback_state).buffer@ == old(playback_state).buffer@,
            final(playback_state).shutdown == old(playback_state).shutdown,
            final(playback_state).bucket_count == old(playback_state).buffer@.len() as int / 2,
            final(playback_state).freq_step == (SAMPLE_RATE_HZ * UNIT) as int / old(
                playback_state,
            ).buffer@.len() as int,
            p.wf(),
            p.window_size == old(playback_state).buffer@.len(),
            p.pixel_count == PIXEL_COUNT,
            spec_is_fresh(p.effect, Mode::LightBar, PIXEL_COUNT as nat),
            p.last_mode == Mode::LightBar,
            !p.blacked_out,
            p.osc_options_sent_us == now_us,
    {
        let window_size = playback_state.buffer.len();
        playback_state.bucket_count = window_size / 2;
        playback_state.freq_step = ((SAMPLE_RATE_HZ as u64) * (UNIT as u64)) / (
        window_size as u64);
        Photonizer {
            window_size,
            pixel_count: PIXEL_COUNT,
            effect: Effect::for_mode(Mode::LightBar, PIXEL_COUNT),
            last_mode: Mode::LightBar,
            blacked_out: false,
            osc_options_sent_us: now_us,
        }
    }

    /// One enabled tick: reinstantiate the effect if the configured mode
    /// changed (a mode switch resets all pulse and peak state), step it,
    /// scale the frame by the master intensity, and write the device bytes
    /// of every pixel into the universe.  Returns the stepped frame.
    pub fn photonize(
        &mut self,
        options: &PhotonizerOptions,
        intensities: &Vec<u32>,
        ola: &mut OlaOutput,
    ) -> (frame: Vec<Rgb>)
        requires
            old(self).wf(),
            options.wf(),
            intensities.len() >= 3,
            old(ola).wf(),
        ensures
            final(self).wf(),
            final(self).pixel_count == old(self).pixel_count,
            final(self).window_size == old(self).window_size,
            final(self).osc_options_sent_us == old(self).osc_options_sent_us,
            final(self).last_mode == options.mode,
            !final(self).blacked_out,
            ({
                &&& (options.mode != old(self).last_mode ==> spec_step_relation_holds_from_fresh(
                    options.mode,
                    old(self).pixel_count as nat,
                    final(self).effect,
                    frame@,
                    *options,
                    intensities@,
                ))
                &&& (options.mode == old(self).last_mode ==> spec_step_relation(
                    old(self).effect,
                    final(self).effect,
                    frame@,
                    *options,
                    intensities@,
                ))
            }),
            frame@.len() == old(self).pixel_count,
            frame_wf(frame@),
            final(ola).wf(),
            final(ola).buffer@ == spec_encoded_universe(
                old(ola).buffer@,
                frame@,
                options.master_intensity as int,
            ),
    {
        if options.mode != self.last_mode {
            self.effect = Effect::for_mode(options.mode, self.pixel_count);
            self.last_mode = options.mode;
        }
        let frame = self.effect.step(options, intensities);
        let ghost universe_before = ola.buffer@;
        let n = frame.len();
        let mut i: usize = 0;
        while i < n
            invariant
                n == frame@.len(),
                n <= STRIP_LIMIT,
                i <= n,
                frame_wf(frame@),
                options.wf(),
                ola.wf(),
                universe_before.len() == ola.buffer@.len(),
                forall|c: int|
                    0 <= c < ola.buffer@.len() ==> #[trigger] ola.buffer@[c] == (
                    if c < 3 * i {
                        spec_encoded_universe(
                            universe_before,
                            frame@,
                            options.master_intensity as int,
                        )[c]
                    } else {
                        universe_before[c]
                    }),
            decreases n - i,
        {
            let scaled = scale_rgb(&frame[i], options.master_intensity);
            let bytes = dmx_bytes(&scaled);
            let start = (i * 3) as u8;
            ola.set_rgb(start, bytes);
            proof {
                let enc = spec_encoded_universe(
                    universe_before,
                    frame@,
                    options.master_intensity as int,
                );
                assert forall|c: int| 0 <= c < ola.buffer@.len() implies #[trigger] ola.buffer@[c]
                    == (if c < 3 * (i + 1) {
                    enc[c]
                } else {
                    universe_before[c]
                }) by {
                    if 3 * (i as int) <= c < 3 * (i + 1) {
                        let k = c - 3 * (i as int);
                        lemma_pixel_channel(i as int, k);
                        assert(c == 3 * (i as int) + k);
                        assert(frame@[i as int].wf());
                        lemma_scale_bounds(
                            frame@[i as int].red as int,
                            options.master_intensity as int,
                        );
                        lemma_scale_bounds(
                            frame@[i as int].green as int,
                            options.master_intensity as int,
                        );
                        lemma_scale_bounds(
                            frame@[i as int].blue as int,
                            options.master_intensity as int,
                        );
                    }
                }
            }
            i = i + 1;
        }
        self.blacked_out = false;
        proof {
            assert(ola.buffer@ =~= spec_encoded_universe(
                universe_before,
                frame@,
                options.master_intensity as int,
            ));
        }
        frame
    }

    /// Take the sink to blackout once when output is disabled.  Returns
    /// whether a (black) universe must be flushed to the device: the
    /// blackout frame is sent only on the transition, never repeated.
    pub fn blackout(&mut self, ola: &mut OlaOutput) -> (send: bool)
        requires
            old(self).wf(),
            old(ola).wf(),
        ensures
            final(self).wf(),
            final(ola).wf(),
            send == !old(self).blacked_out,
            final(self).blacked_out,
            final(self).effect == old(self).effect,
            final(self).last_mode == old(self).last_mode,
            final(self).pixel_count == old(self).pixel_count,
            final(self).window_size == old(self).window_size,
            final(self).osc_options_sent_us == old(self).osc_options_sent_us,
            send ==> final(ola).buffer@ == crate::olaoutput::spec_zero_universe(),
            !send ==> final(ola).buffer@ == old(ola).buffer@,
    {
        if !self.blacked_out {
            ola.blackout();
            self.blacked_out = true;
            true
        } else {
            false
        }
    }

    /// Rate-limit the scalar configuration telemetry to once per second:
    /// report whether it is due and, if so, restart the interval.
    pub fn should_send_options(&mut self, now_us: u64) -> (send: bool)
        requires
            now_us >= old(self).osc_options_sent_us,
        ensures
            final(self).wf() == old(self).wf(),
            send == (now_us - old(self).osc_options_sent_us > 1000000),
            send ==> final(self).osc_options_sent_us == now_us,
            !send ==> final(self).osc_options_sent_us == old(self).osc_options_sent_us,
            final(self).effect == old(self).effect,
            final(self).last_mode == old(self).last_mode,
            final(self).pixel_count == old(self).pixel_count,
            final(self).window_size == old(self).window_size,
            final(self).blacked_out == old(self).blacked_out,
    {
        if now_us - self.osc_options_sent_us > 1000000 {
            self.osc_options_sent_us = now_us;
            true
        } else {
            false
        }
    }
}

/// The step relation, entered from a fresh instance of the mode: what a
/// tick produces right after a mode switch.
pub open spec fn spec_step_relation_holds_from_fresh(
    mode: Mode,
    pixel_count: nat,
    post: Effect,
    frame: Seq<Rgb>,
    options: PhotonizerOptions,
    intensities: Seq<u32>,
) -> bool {
    exists|fresh: Effect|
        spec_is_fresh(fresh, mode, pixel_count) && #[trigger] spec_step_relation(
            fresh,
            post,
            frame,
            options,
            intensities,
        )
}

} // verus!
