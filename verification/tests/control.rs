use krachlicht::color::Rgb;
use krachlicht::config::{validate_config, Cli, Config, ConfigError};
use krachlicht::fixed::UNIT;
use krachlicht::mqtt::{
    apply_state_command, effect_name, parse_effect_name, parse_state_value, state_report,
    StateCommand,
};
use krachlicht::osc::{
    apply_update, handle_message, ColorTarget, ConfigUpdate, OscError, OscUpdate, OscValue,
};
use krachlicht::photonizer::{Mode, PhotonizerOptions};

fn float_args(v: i64) -> Vec<OscValue> {
    vec![OscValue::Number(v)]
}

#[test]
fn mode_addresses_select_their_modes() {
    let none: Vec<OscValue> = vec![];
    assert_eq!(
        handle_message("/main/lightbar", &none),
        Some(Ok(OscUpdate::Direct(ConfigUpdate::SetMode(Mode::LightBar))))
    );
    assert_eq!(
        handle_message("/main/pixels", &none),
        Some(Ok(OscUpdate::Direct(ConfigUpdate::SetMode(Mode::Pixels))))
    );
    assert_eq!(
        handle_message("/main/static", &none),
        Some(Ok(OscUpdate::Direct(ConfigUpdate::SetMode(Mode::Static))))
    );
}

#[test]
fn float_addresses_read_their_argument() {
    assert_eq!(
        handle_message("/main/masterIntensity", &float_args(7500)),
        Some(Ok(OscUpdate::Direct(ConfigUpdate::SetMasterIntensity(7500))))
    );
    assert_eq!(
        handle_message("/main/backgroundIntensity", &float_args(100)),
        Some(Ok(OscUpdate::Direct(ConfigUpdate::SetBackgroundIntensity(100))))
    );
    assert_eq!(
        handle_message("/main/pulseSpeed", &float_args(-6000)),
        Some(Ok(OscUpdate::Direct(ConfigUpdate::SetPulseSpeed(-6000))))
    );
}

#[test]
fn color_addresses_hand_out_coordinates() {
    let coords = vec![OscValue::Number(2500), OscValue::Number(5000)];
    assert_eq!(
        handle_message("/main/accentColor", &coords),
        Some(Ok(OscUpdate::ColorCoords(ColorTarget::Accent, 2500, 5000)))
    );
    assert_eq!(
        handle_message("/main/backgroundColor", &coords),
        Some(Ok(OscUpdate::ColorCoords(ColorTarget::Background, 2500, 5000)))
    );
}

#[test]
fn malformed_messages_give_their_errors() {
    let none: Vec<OscValue> = vec![];
    assert_eq!(
        handle_message("/main/masterIntensity", &none),
        Some(Err(OscError::MissingFloat))
    );
    assert_eq!(
        handle_message("/main/masterIntensity", &vec![OscValue::Other]),
        Some(Err(OscError::UnexpectedType))
    );
    assert_eq!(
        handle_message("/main/accentColor", &float_args(1)),
        Some(Err(OscError::WrongArity))
    );
    assert_eq!(
        handle_message("/main/accentColor", &vec![OscValue::Other, OscValue::Number(1)]),
        Some(Err(OscError::UnexpectedType))
    );
}

#[test]
fn unknown_addresses_are_not_recognized() {
    assert_eq!(handle_message("/main/unknown", &vec![]), None);
    assert_eq!(handle_message("", &vec![]), None);
}

#[test]
fn updates_change_only_their_field() {
    let baseline = PhotonizerOptions::new();

    let mut opts = baseline;
    apply_update(&mut opts, &ConfigUpdate::SetMode(Mode::Static));
    assert_eq!(opts.mode, Mode::Static);
    assert_eq!(opts.master_intensity, baseline.master_intensity);
    assert_eq!(opts.background_intensity, baseline.background_intensity);
    assert_eq!(opts.pulse_speed, baseline.pulse_speed);
    assert_eq!(opts.accent_color, baseline.accent_color);
    assert_eq!(opts.background_color, baseline.background_color);
    assert_eq!(opts.enabled, baseline.enabled);
    assert_eq!(opts.shutdown, baseline.shutdown);

    let mut opts = baseline;
    apply_update(&mut opts, &ConfigUpdate::SetMasterIntensity(2500));
    assert_eq!(opts.master_intensity, 2500);
    assert_eq!(opts.mode, baseline.mode);
    assert_eq!(opts.accent_color, baseline.accent_color);

    let mut opts = baseline;
    let red = Rgb::new(UNIT, 0, 0);
    apply_update(&mut opts, &ConfigUpdate::SetAccentColor(red));
    assert_eq!(opts.accent_color, red);
    assert_eq!(opts.background_color, baseline.background_color);
    assert_eq!(opts.master_intensity, baseline.master_intensity);

    let mut opts = baseline;
    apply_update(&mut opts, &ConfigUpdate::SetPulseSpeed(-1234));
    assert_eq!(opts.pulse_speed, -1234);
    assert_eq!(opts.mode, baseline.mode);
}

#[test]
fn intensities_and_speed_are_clamped() {
    let mut opts = PhotonizerOptions::new();
    apply_update(&mut opts, &ConfigUpdate::SetMasterIntensity(99_999_999));
    assert_eq!(opts.master_intensity, UNIT);
    apply_update(&mut opts, &ConfigUpdate::SetBackgroundIntensity(-5));
    assert_eq!(opts.background_intensity, 0);
    apply_update(&mut opts, &ConfigUpdate::SetPulseSpeed(i64::MAX));
    assert_eq!(opts.pulse_speed, 10_000_000);
}

#[test]
fn state_values_parse_exactly() {
    assert_eq!(parse_state_value("ON"), Some(true));
    assert_eq!(parse_state_value("OFF"), Some(false));
    assert_eq!(parse_state_value("on"), None);
    assert_eq!(parse_state_value(""), None);
}

#[test]
fn effect_names_round_trip() {
    for mode in [Mode::LightBar, Mode::Pixels, Mode::Static, Mode::Thunderstruck] {
        assert_eq!(parse_effect_name(effect_name(mode)), Some(mode));
    }
    assert_eq!(parse_effect_name("None"), Some(Mode::Static));
    assert_eq!(parse_effect_name("Light Bar"), Some(Mode::LightBar));
    assert_eq!(parse_effect_name("Pixel Flow"), Some(Mode::Pixels));
    assert_eq!(parse_effect_name("Disco"), None);
}

#[test]
fn state_command_applies_field_by_field() {
    let mut opts = PhotonizerOptions::new();
    let baseline = opts;

    // A full document.
    let cmd = StateCommand {
        state: Some("OFF".to_string()),
        brightness: Some(255 * UNIT as i64),
        red: Some(255 * UNIT as i64),
        green: Some(0),
        blue: Some(128 * UNIT as i64),
        effect: Some("Light Bar".to_string()),
    };
    apply_state_command(&mut opts, &cmd);
    assert!(!opts.enabled);
    assert_eq!(opts.master_intensity, UNIT);
    assert_eq!(opts.accent_color, Rgb::new(UNIT, 0, 5019));  // 128/255
    assert_eq!(opts.mode, Mode::LightBar);
    // Untouched fields stay bit-identical.
    assert_eq!(opts.background_intensity, baseline.background_intensity);
    assert_eq!(opts.background_color, baseline.background_color);
    assert_eq!(opts.pulse_speed, baseline.pulse_speed);
    assert_eq!(opts.shutdown, baseline.shutdown);

    // A partial document touches only what it names: here one channel.
    let before = opts;
    let mut cmd = StateCommand::empty();
    cmd.green = Some(255 * UNIT as i64);
    apply_state_command(&mut opts, &cmd);
    assert_eq!(opts.accent_color, Rgb::new(UNIT, UNIT, 5019));
    assert_eq!(opts.enabled, before.enabled);
    assert_eq!(opts.master_intensity, before.master_intensity);
    assert_eq!(opts.mode, before.mode);

    // A meaningless value is ignored, field by field.
    let before = opts;
    let mut cmd = StateCommand::empty();
    cmd.state = Some("BLINK".to_string());
    cmd.effect = Some("Disco".to_string());
    apply_state_command(&mut opts, &cmd);
    assert_eq!(opts.enabled, before.enabled);
    assert_eq!(opts.mode, before.mode);
}

#[test]
fn state_report_mirrors_the_configuration() {
    let mut opts = PhotonizerOptions::new();
    opts.master_intensity = 5019;
    opts.accent_color = Rgb::new(UNIT, 0, 2500);
    opts.mode = Mode::Pixels;
    let report = state_report(&opts);
    assert!(report.on);
    assert_eq!(report.brightness, 127);  // (5019 * 255) / 10000
    assert_eq!(report.red, 255);
    assert_eq!(report.green, 0);
    assert_eq!(report.blue, 63);
    assert_eq!(report.effect, Mode::Pixels);
    assert_eq!(effect_name(report.effect), "Pixel Flow");
}

fn disk_config() -> Config {
    Config {
        pa_device: Some("pulse-monitor".to_string()),
        sound_file_path: None,
        osc_listen_addr: "0.0.0.0:7770".to_string(),
        osc_dst_addr: "10.0.0.2:7771".to_string(),
        ola_host_addr: "127.0.0.1:7777".to_string(),
        mqtt_broker_url: "tcp://broker:1883".to_string(),
        mqtt_discovery_prefix: "homeassistant".to_string(),
        mqtt_unique_id: "krachlicht-1".to_string(),
    }
}

#[test]
fn command_line_audio_source_wins_over_the_file() {
    let args = Cli {
        config_file_path: None,
        sound_file_path: Some("track.wav".to_string()),
        pa_device: None,
    };
    let config = validate_config(&args, &disk_config()).unwrap();
    assert_eq!(config.sound_file_path.as_deref(), Some("track.wav"));
    assert_eq!(config.pa_device.as_deref(), Some("pulse-monitor"));
    assert_eq!(config.osc_listen_addr, "0.0.0.0:7770");
    assert_eq!(config.mqtt_unique_id, "krachlicht-1");
}

#[test]
fn both_audio_sources_are_rejected() {
    let args = Cli {
        config_file_path: None,
        sound_file_path: Some("track.wav".to_string()),
        pa_device: Some("mic".to_string()),
    };
    let err = match validate_config(&args, &disk_config()) {
        Err(err) => err,
        Ok(_) => panic!("conflicting audio sources must be rejected"),
    };
    assert_eq!(err, ConfigError::ConflictingAudioSources);
    assert_eq!(
        err.message(),
        "Must not provide both a PulseAudio device and a sound file"
    );
}
