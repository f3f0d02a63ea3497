//! Startup configuration: merging command-line arguments over the on-disk
//! configuration, and the one validation rule between them.

use vstd::prelude::*;
use vstd::string::StringExecFns;

verus! {

/// The command-line arguments that matter to validation.
pub struct Cli {
    pub config_file_path: Option<String>,
    pub sound_file_path: Option<String>,
    pub pa_device: Option<String>,
}

/// The effective configuration.
pub struct Config {
    pub pa_device: Option<String>,
    pub sound_file_path: Option<String>,
    pub osc_listen_addr: String,
    pub osc_dst_addr: String,
    pub ola_host_addr: String,
    pub mqtt_broker_url: String,
    pub mqtt_discovery_prefix: String,
    pub mqtt_unique_id: String,
}

/// Why a configuration is rejected.
#[derive(Clone, Copy, Debug, PartialEq, Eq, Structural)]
pub enum ConfigError {
    /// A capture device and a sound file cannot both be given.
    ConflictingAudioSources,
}

impl ConfigError {
    pub fn message(&self) -> (r: String)
        ensures
            r@ == "Must not provide both a PulseAudio device and a sound file"@,
    {
        String::from_str("Must not provide both a PulseAudio device and a sound file")
    }
}

/// Two optional strings with the same presence and content.
pub open spec fn opt_str_like(a: Option<String>, b: Option<String>) -> bool {
    match (a, b) {
        (Some(x), Some(y)) => x@ == y@,
        (None, None) => true,
        _ => false,
    }
}

fn clone_opt_str(s: &Option<String>) -> (r: Option<String>)
    ensures
        opt_str_like(r, *s),
{
    match s {
        Some(x) => Some(x.clone()),
        None => None,
    }
}

/// Merge the command line over the on-disk configuration.  The audio
/// source (capture device or sound file) given on the command line wins
/// over the file's; every address and identifier comes from the file.
/// Rejected if and only if the command line names both a capture device
/// and a sound file.
pub fn validate_config(args: &Cli, disk_config: &Config) -> (r: Result<Config, ConfigError>)
    ensures
        r is Err <==> args.pa_device is Some && args.sound_file_path is Some,
        r is Err ==> r->Err_0 == ConfigError::ConflictingAudioSources,
        r is Ok ==> ({
            let c = r->Ok_0;
            &&& opt_str_like(
                c.pa_device,
                if args.pa_device is Some {
                    args.pa_device
                } else {
                    disk_config.pa_device
                },
            )
            &&& opt_str_like(
                c.sound_file_path,
                if args.sound_file_path is Some {
                    args.sound_file_path
                } else {
                    disk_config.sound_file_path
                },
            )
            &&& c.osc_listen_addr@ == disk_config.osc_listen_addr@
            &&& c.osc_dst_addr@ == disk_config.osc_dst_addr@
            &&& c.ola_host_addr@ == disk_config.ola_host_addr@
            &&& c.mqtt_broker_url@ == disk_config.mqtt_broker_url@
            &&& c.mqtt_discovery_prefix@ == disk_config.mqtt_discovery_prefix@
            &&& c.mqtt_unique_id@ == disk_config.mqtt_unique_id@
        }),
{
    if args.pa_device.is_some() && args.sound_file_path.is_some() {
        return Err(ConfigError::ConflictingAudioSources);
    }
    let config = Config {
        pa_device: if args.pa_device.is_some() {
            clone_opt_str(&args.pa_device)
        } else {
            clone_opt_str(&disk_config.pa_device)
        },
        sound_file_path: if args.sound_file_path.is_some() {
            clone_opt_str(&args.sound_file_path)
        } else {
            clone_opt_str(&disk_config.sound_file_path)
        },
        osc_listen_addr: disk_config.osc_listen_addr.clone(),
        osc_dst_addr: disk_config.osc_dst_addr.clone(),
        ola_host_addr: disk_config.ola_host_addr.clone(),
        mqtt_broker_url: disk_config.mqtt_broker_url.clone(),
        mqtt_discovery_prefix: disk_config.mqtt_discovery_prefix.clone(),
        mqtt_unique_id: disk_config.mqtt_unique_id.clone(),
    };
    Ok(config)
}

} // verus!
