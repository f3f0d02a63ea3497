//! The device-discovery/state protocol's command rules: which fields of an
//! inbound state document update which configuration fields, with partial,
//! field-by-field application, and the state report published back.
//!
//! The client decodes the document and hands its fields in as plain values:
//! raw strings for `state` and `effect`, and numbers scaled by `UNIT` for
//! `brightness` and the three color channels (so a channel value `v` in
//! `0..=255` arrives as `v * UNIT`).

use vstd::prelude::*;
use crate::fixed::{UNIT, spec_clamp_unit, clamp_unit_i64};
use crate::osc::str_eq;
use crate::photonizer::{Mode, PhotonizerOptions};

verus! {

/// One inbound command document, reduced to plain values.  An absent or
/// unreadable field is `None` and leaves its configuration field alone.
pub struct StateCommand {
    /// The raw `state` value; only `"ON"` and `"OFF"` are meaningful.
    pub state: Option<String>,
    /// Brightness `0..=255`, scaled by `UNIT`.
    pub brightness: Option<i64>,
    /// Color channels `0..=255`, each scaled by `UNIT` and applied on its
    /// own: a document may update a single channel.
    pub red: Option<i64>,
    pub green: Option<i64>,
    pub blue: Option<i64>,
    /// The raw `effect` value; only the published effect names select one.
    pub effect: Option<String>,
}

impl StateCommand {
    /// A command that changes nothing.
    pub fn empty() -> (cmd: StateCommand)
        ensures
            cmd.state is None,
            cmd.brightness is None,
            cmd.red is None,
            cmd.green is None,
            cmd.blue is None,
            cmd.effect is None,
    {
        StateCommand {
            state: None,
            brightness: None,
            red: None,
            green: None,
            blue: None,
            effect: None,
        }
    }
}

/// What a `state` value means: on, off, or nothing.
pub open spec fn spec_state_value(s: Seq<char>) -> Option<bool> {
    if s == "ON"@ {
        Some(true)
    } else if s == "OFF"@ {
        Some(false)
    } else {
        None
    }
}

/// Read a `state` value.
pub fn parse_state_value(s: &str) -> (r: Option<bool>)
    ensures
        r == spec_state_value(s@),
{
    if str_eq(s, "ON") {
        Some(true)
    } else if str_eq(s, "OFF") {
        Some(false)
    } else {
        None
    }
}

/// The mode each published effect name selects.
pub open spec fn spec_effect_mode(s: Seq<char>) -> Option<Mode> {
    if s == "None"@ {
        Some(Mode::Static)
    } else if s == "Light Bar"@ {
        Some(Mode::LightBar)
    } else if s == "Pixel Flow"@ {
        Some(Mode::Pixels)
    } else if s == "Thunderstruck"@ {
        Some(Mode::Thunderstruck)
    } else {
        None
    }
}

/// Read an `effect` value.
pub fn parse_effect_name(s: &str) -> (r: Option<Mode>)
    ensures
        r == spec_effect_mode(s@),
{
    if str_eq(s, "None") {
        Some(Mode::Static)
    } else if str_eq(s, "Light Bar") {
        Some(Mode::LightBar)
    } else if str_eq(s, "Pixel Flow") {
        Some(Mode::Pixels)
    } else if str_eq(s, "Thunderstruck") {
        Some(Mode::Thunderstruck)
    } else {
        None
    }
}

/// The published name of each mode.  Reading a published name back selects
/// the same mode.
pub fn effect_name(mode: Mode) -> (r: &'static str)
    ensures
        spec_effect_mode(r@) == Some(mode),
{
    proof {
        reveal_strlit("None");
        reveal_strlit("Light Bar");
        reveal_strlit("Pixel Flow");
        reveal_strlit("Thunderstruck");
        assert("None"@.len() == 4);
        assert("Light Bar"@.len() == 9);
        assert("Pixel Flow"@.len() == 10);
        assert("Thunderstruck"@.len() == 13);
    }
    match mode {
        Mode::Static => "None",
        Mode::LightBar => "Light Bar",
        Mode::Pixels => "Pixel Flow",
        Mode::Thunderstruck => "Thunderstruck",
    }
}

/// A scaled channel or brightness value mapped to an intensity fraction:
/// divided by 255 and clamped into `[0, 1]`.
pub open spec fn spec_channel_fraction(v: int) -> int {
    spec_clamp_unit(v / 255)
}

/// One configuration field updated by one optional raw string, through a
/// meaning function: an absent or meaningless value changes nothing.
pub open spec fn spec_apply_state_command(
    pre: PhotonizerOptions,
    cmd: StateCommand,
) -> PhotonizerOptions {
    let enabled = match cmd.state {
        Some(s) => match spec_state_value(s@) {
            Some(on) => on,
            None => pre.enabled,
        },
        None => pre.enabled,
    };
    let master_intensity = match cmd.brightness {
        Some(b) => spec_channel_fraction(b as int) as u32,
        None => pre.master_intensity,
    };
    let red = match cmd.red {
        Some(v) => spec_channel_fraction(v as int) as u32,
        None => pre.accent_color.red,
    };
    let green = match cmd.green {
        Some(v) => spec_channel_fraction(v as int) as u32,
        None => pre.accent_color.green,
    };
    let blue = match cmd.blue {
        Some(v) => spec_channel_fraction(v as int) as u32,
        None => pre.accent_color.blue,
    };
    let mode = match cmd.effect {
        Some(s) => match spec_effect_mode(s@) {
            Some(m) => m,
            None => pre.mode,
        },
        None => pre.mode,
    };
    PhotonizerOptions {
        enabled,
        master_intensity,
        accent_color: crate::color::Rgb { red, green, blue },
        mode,
        ..pre
    }
}

/// Apply one command document to the shared configuration, field by field:
/// each present, meaningful field updates exactly its configuration field,
/// and nothing else changes.
pub fn apply_state_command(options: &mut PhotonizerOptions, cmd: &StateCommand)
    ensures
        *final(options) == spec_apply_state_command(*old(options), *cmd),
        old(options).wf() ==> final(options).wf(),
{
    if let Some(s) = &cmd.state {
        match parse_state_value(s.as_str()) {
            Some(on) => {
                options.enabled = on;
            },
            None => {},
        }
    }
    if let Some(b) = &cmd.brightness {
        options.master_intensity = channel_fraction(*b);
    }
    if let Some(v) = &cmd.red {
        options.accent_color.red = channel_fraction(*v);
    }
    if let Some(v) = &cmd.green {
        options.accent_color.green = channel_fraction(*v);
    }
    if let Some(v) = &cmd.blue {
        options.accent_color.blue = channel_fraction(*v);
    }
    if let Some(s) = &cmd.effect {
        match parse_effect_name(s.as_str()) {
            Some(m) => {
                options.mode = m;
            },
            None => {},
        }
    }
}

fn channel_fraction(v: i64) -> (r: u32)
    ensures
        r == spec_channel_fraction(v as int),
        crate::fixed::is_unit(r),
{
    clamp_unit_i64(v / 255)
}

/// Field isolation of command documents: a state document only ever
/// touches the enabled flag, the master intensity, the accent color and
/// the mode; the shutdown flag, the background color and intensity and the
/// pulse speed of the result are bit-identical to their old values, and a
/// field the document does not name keeps its value too.
pub proof fn lemma_state_command_isolation(pre: PhotonizerOptions, cmd: StateCommand)
    ensures
        ({
            let post = spec_apply_state_command(pre, cmd);
            &&& post.shutdown == pre.shutdown
            &&& post.background_intensity == pre.background_intensity
            &&& post.background_color == pre.background_color
            &&& post.pulse_speed == pre.pulse_speed
            &&& (cmd.state is None ==> post.enabled == pre.enabled)
            &&& (cmd.brightness is None ==> post.master_intensity == pre.master_intensity)
            &&& (cmd.red is None && cmd.green is None && cmd.blue is None ==> post.accent_color
                == pre.accent_color)
            &&& (cmd.effect is None ==> post.mode == pre.mode)
        }),
{
}

/// The retained state report the client publishes after a change: the
/// current configuration as the protocol's plain values, with intensities
/// and channels mapped back to `0..=255`.
pub struct StateReport {
    pub on: bool,
    pub brightness: u8,
    pub red: u8,
    pub green: u8,
    pub blue: u8,
    pub effect: Mode,
}

/// An intensity fraction mapped back to a byte, `(v * 255) / UNIT`.
pub open spec fn spec_report_byte(v: int) -> int {
    (v * 255) / (UNIT as int)
}

fn report_byte(v: u32) -> (r: u8)
    requires
        crate::fixed::is_unit(v),
    ensures
        r == spec_report_byte(v as int),
{
    proof {
        assert(0 <= (v as int * 255) / (UNIT as int) <= 255) by (nonlinear_arith)
            requires 0 <= v <= UNIT;
    }
    ((v * 255) / UNIT) as u8
}

/// Render the configuration as a state report.
pub fn state_report(options: &PhotonizerOptions) -> (r: StateReport)
    requires
        options.wf(),
    ensures
        r.on == options.enabled,
        r.brightness == spec_report_byte(options.master_intensity as int),
        r.red == spec_report_byte(options.accent_color.red as int),
        r.green == spec_report_byte(options.accent_color.green as int),
        r.blue == spec_report_byte(options.accent_color.blue as int),
        r.effect == options.mode,
{
    StateReport {
        on: options.enabled,
        brightness: report_byte(options.master_intensity),
        red: report_byte(options.accent_color.red),
        green: report_byte(options.accent_color.green),
        blue: report_byte(options.accent_color.blue),
        effect: options.mode,
    }
}

} // verus!
