//! The remote control protocol's inbound rules: which message address
//! mutates which configuration field, how arguments are read, and the
//! guarantee that an update touches nothing but the field it names.
//!
//! The transport decodes datagrams and hands the address with the message's
//! arguments in; float arguments arrive as fixed-point fractions of `UNIT`.
//! Color coordinates go back out to be mapped through hue and saturation,
//! and return as a ready color.

use vstd::prelude::*;
use crate::fixed::{
    SPEED_LIMIT, spec_clamp_unit, spec_clamp_magnitude, clamp_unit_i64, clamp_speed,
};
use crate::color::Rgb;
use crate::photonizer::{Mode, PhotonizerOptions};

verus! {

/// One argument of an inbound message: a float (as a fixed-point fraction
/// of `UNIT`) or anything else.
#[derive(Clone, Copy, Debug, PartialEq, Eq, Structural)]
pub enum OscValue {
    Number(i64),
    Other,
}

/// Why a recognized message could not be applied.
#[derive(Clone, Copy, Debug, PartialEq, Eq, Structural)]
pub enum OscError {
    /// The message carries no argument where one float is expected.
    MissingFloat,
    /// An argument has an unexpected type.
    UnexpectedType,
    /// A color message needs exactly two float parameters.
    WrongArity,
}

/// Which color of the configuration a coordinate message addresses.
#[derive(Clone, Copy, Debug, PartialEq, Eq, Structural)]
pub enum ColorTarget {
    Accent,
    Background,
}

/// A ready-to-apply change of exactly one configuration field.
#[derive(Clone, Copy, Debug, PartialEq, Eq, Structural)]
pub enum ConfigUpdate {
    SetMode(Mode),
    SetAccentColor(Rgb),
    SetBackgroundColor(Rgb),
    SetMasterIntensity(i64),
    SetBackgroundIntensity(i64),
    SetPulseSpeed(i64),
}

/// What a recognized message asks for: either a direct update, or a color
/// given as a normalized 2-D coordinate that still has to be mapped to a
/// color by the collaborator that owns that mapping.
#[derive(Clone, Copy, Debug, PartialEq, Eq, Structural)]
pub enum OscUpdate {
    Direct(ConfigUpdate),
    ColorCoords(ColorTarget, i64, i64),
}

/// String equality by content.
pub fn str_eq(a: &str, b: &str) -> (r: bool)
    ensures
        r == (a@ == b@),
{
    let owned_a = a.to_owned();
    let owned_b = b.to_owned();
    owned_a == owned_b
}

/// The first argument read as a float.
pub open spec fn spec_float_arg(args: Seq<OscValue>) -> Result<i64, OscError> {
    if args.len() == 0 {
        Err(OscError::MissingFloat)
    } else {
        match args[0] {
            OscValue::Number(v) => Ok(v),
            OscValue::Other => Err(OscError::UnexpectedType),
        }
    }
}

/// Both arguments of a coordinate message read as floats.
pub open spec fn spec_coord_args(args: Seq<OscValue>) -> Result<(i64, i64), OscError> {
    if args.len() != 2 {
        Err(OscError::WrongArity)
    } else {
        match (args[0], args[1]) {
            (OscValue::Number(x), OscValue::Number(y)) => Ok((x, y)),
            _ => Err(OscError::UnexpectedType),
        }
    }
}

/// The complete address table of the control protocol: what each known
/// address asks for, `None` for an unrecognized one.
pub open spec fn spec_handle_message(addr: Seq<char>, args: Seq<OscValue>) -> Option<
    Result<OscUpdate, OscError>,
> {
    if addr == "/main/lightbar"@ {
        Some(Ok(OscUpdate::Direct(ConfigUpdate::SetMode(Mode::LightBar))))
    } else if addr == "/main/pixels"@ {
        Some(Ok(OscUpdate::Direct(ConfigUpdate::SetMode(Mode::Pixels))))
    } else if addr == "/main/static"@ {
        Some(Ok(OscUpdate::Direct(ConfigUpdate::SetMode(Mode::Static))))
    } else if addr == "/main/accentColor"@ {
        match spec_coord_args(args) {
            Ok(coords) => Some(Ok(OscUpdate::ColorCoords(ColorTarget::Accent, coords.0, coords.1))),
            Err(e) => Some(Err(e)),
        }
    } else if addr == "/main/backgroundColor"@ {
        match spec_coord_args(args) {
            Ok(coords) => Some(
                Ok(OscUpdate::ColorCoords(ColorTarget::Background, coords.0, coords.1)),
            ),
            Err(e) => Some(Err(e)),
        }
    } else if addr == "/main/masterIntensity"@ {
        match spec_float_arg(args) {
            Ok(v) => Some(Ok(OscUpdate::Direct(ConfigUpdate::SetMasterIntensity(v)))),
            Err(e) => Some(Err(e)),
        }
    } else if addr == "/main/backgroundIntensity"@ {
        match spec_float_arg(args) {
            Ok(v) => Some(Ok(OscUpdate::Direct(ConfigUpdate::SetBackgroundIntensity(v)))),
            Err(e) => Some(Err(e)),
        }
    } else if addr == "/main/pulseSpeed"@ {
        match spec_float_arg(args) {
            Ok(v) => Some(Ok(OscUpdate::Direct(ConfigUpdate::SetPulseSpeed(v)))),
            Err(e) => Some(Err(e)),
        }
    } else {
        None
    }
}

fn float_arg(args: &Vec<OscValue>) -> (r: Result<i64, OscError>)
    ensures
        r == spec_float_arg(args@),
{
    if args.len() == 0 {
        Err(OscError::MissingFloat)
    } else {
        match args[0] {
            OscValue::Number(v) => Ok(v),
            OscValue::Other => Err(OscError::UnexpectedType),
        }
    }
}

fn coord_args(args: &Vec<OscValue>) -> (r: Result<(i64, i64), OscError>)
    ensures
        r == spec_coord_args(args@),
{
    if args.len() != 2 {
        Err(OscError::WrongArity)
    } else {
        match (args[0], args[1]) {
            (OscValue::Number(x), OscValue::Number(y)) => Ok((x, y)),
            _ => Err(OscError::UnexpectedType),
        }
    }
}

/// Decide what an inbound message asks for.  Returns `None` for an address
/// this protocol does not know, which the caller logs and ignores.
pub fn handle_message(addr: &str, args: &Vec<OscValue>) -> (r: Option<
    Result<OscUpdate, OscError>,
>)
    ensures
        r == spec_handle_message(addr@, args@),
{
    if str_eq(addr, "/main/lightbar") {
        Some(Ok(OscUpdate::Direct(ConfigUpdate::SetMode(Mode::LightBar))))
    } else if str_eq(addr, "/main/pixels") {
        Some(Ok(OscUpdate::Direct(ConfigUpdate::SetMode(Mode::Pixels))))
    } else if str_eq(addr, "/main/static") {
        Some(Ok(OscUpdate::Direct(ConfigUpdate::SetMode(Mode::Static))))
    } else if str_eq(addr, "/main/accentColor") {
        match coord_args(args) {
            Ok(coords) => Some(
                Ok(OscUpdate::ColorCoords(ColorTarget::Accent, coords.0, coords.1)),
            ),
            Err(e) => Some(Err(e)),
        }
    } else if str_eq(addr, "/main/backgroundColor") {
        match coord_args(args) {
            Ok(coords) => Some(
                Ok(OscUpdate::ColorCoords(ColorTarget::Background, coords.0, coords.1)),
            ),
            Err(e) => Some(Err(e)),
        }
    } else if str_eq(addr, "/main/masterIntensity") {
        match float_arg(args) {
            Ok(v) => Some(Ok(OscUpdate::Direct(ConfigUpdate::SetMasterIntensity(v)))),
            Err(e) => Some(Err(e)),
        }
    } else if str_eq(addr, "/main/backgroundIntensity") {
        match float_arg(args) {
            Ok(v) => Some(Ok(OscUpdate::Direct(ConfigUpdate::SetBackgroundIntensity(v)))),
            Err(e) => Some(Err(e)),
        }
    } else if str_eq(addr, "/main/pulseSpeed") {
        match float_arg(args) {
            Ok(v) => Some(Ok(OscUpdate::Direct(ConfigUpdate::SetPulseSpeed(v)))),
            Err(e) => Some(Err(e)),
        }
    } else {
        None
    }
}

/// The colors an update may carry are valid fractions.
pub open spec fn spec_update_wf(u: ConfigUpdate) -> bool {
    match u {
        ConfigUpdate::SetAccentColor(c) => c.wf(),
        ConfigUpdate::SetBackgroundColor(c) => c.wf(),
        _ => true,
    }
}

/// The configuration after one update: the named field takes the new
/// value (intensities clamped into `[0, 1]`, the speed into its limits);
/// every other field keeps its old value.
pub open spec fn spec_applied(pre: PhotonizerOptions, u: ConfigUpdate) -> PhotonizerOptions {
    match u {
        ConfigUpdate::SetMode(m) => PhotonizerOptions { mode: m, ..pre },
        ConfigUpdate::SetAccentColor(c) => PhotonizerOptions { accent_color: c, ..pre },
        ConfigUpdate::SetBackgroundColor(c) => PhotonizerOptions { background_color: c, ..pre },
        ConfigUpdate::SetMasterIntensity(v) => PhotonizerOptions {
            master_intensity: spec_clamp_unit(v as int) as u32,
            ..pre
        },
        ConfigUpdate::SetBackgroundIntensity(v) => PhotonizerOptions {
            background_intensity: spec_clamp_unit(v as int) as u32,
            ..pre
        },
        ConfigUpdate::SetPulseSpeed(v) => PhotonizerOptions {
            pulse_speed: spec_clamp_magnitude(v as int, SPEED_LIMIT as int) as i64,
            ..pre
        },
    }
}

/// Apply one update to the shared configuration.
pub fn apply_update(options: &mut PhotonizerOptions, update: &ConfigUpdate)
    requires
        spec_update_wf(*update),
    ensures
        *final(options) == spec_applied(*old(options), *update),
        old(options).wf() ==> final(options).wf(),
{
    match update {
        ConfigUpdate::SetMode(m) => {
            options.mode = *m;
        },
        ConfigUpdate::SetAccentColor(c) => {
            options.accent_color = *c;
        },
        ConfigUpdate::SetBackgroundColor(c) => {
            options.background_color = *c;
        },
        ConfigUpdate::SetMasterIntensity(v) => {
            options.master_intensity = clamp_unit_i64(*v);
        },
        ConfigUpdate::SetBackgroundIntensity(v) => {
            options.background_intensity = clamp_unit_i64(*v);
        },
        ConfigUpdate::SetPulseSpeed(v) => {
            options.pulse_speed = clamp_speed(*v);
        },
    }
}

/// Field isolation of control updates: whatever update arrives, only the
/// field its variant names changes; every other configuration field of the
/// result is bit-identical to its old value.
pub proof fn lemma_update_isolation(pre: PhotonizerOptions, u: ConfigUpdate)
    ensures
        ({
            let post = spec_applied(pre, u);
            &&& post.shutdown == pre.shutdown
            &&& post.enabled == pre.enabled
            &&& match u {
                ConfigUpdate::SetMode(_) => post.master_intensity == pre.master_intensity
                    && post.background_intensity == pre.background_intensity && post.pulse_speed
                    == pre.pulse_speed && post.accent_color == pre.accent_color
                    && post.background_color == pre.background_color,
                ConfigUpdate::SetAccentColor(_) => post.mode == pre.mode
                    && post.master_intensity == pre.master_intensity
                    && post.background_intensity == pre.background_intensity && post.pulse_speed
                    == pre.pulse_speed && post.background_color == pre.background_color,
                ConfigUpdate::SetBackgroundColor(_) => post.mode == pre.mode
                    && post.master_intensity == pre.master_intensity
                    && post.background_intensity == pre.background_intensity && post.pulse_speed
                    == pre.pulse_speed && post.accent_color == pre.accent_color,
                ConfigUpdate::SetMasterIntensity(_) => post.mode == pre.mode
                    && post.background_intensity == pre.background_intensity && post.pulse_speed
                    == pre.pulse_speed && post.accent_color == pre.accent_color
                    && post.background_color == pre.background_color,
                ConfigUpdate::SetBackgroundIntensity(_) => post.mode == pre.mode
                    && post.master_intensity == pre.master_intensity && post.pulse_speed
                    == pre.pulse_speed && post.accent_color == pre.accent_color
                    && post.background_color == pre.background_color,
                ConfigUpdate::SetPulseSpeed(_) => post.mode == pre.mode
                    && post.master_intensity == pre.master_intensity
                    && post.background_intensity == pre.background_intensity && post.accent_color
                    == pre.accent_color && post.background_color == pre.background_color,
            }
        }),
{
}

} // verus!
