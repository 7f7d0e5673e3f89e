use vstd::prelude::*;

use crate::mode::ColorMode;

verus! {

/// The daemon's configuration. Loading it from disk is the configuration
/// collaborator's job outside the library; the library only defines the
/// values and their defaults.
pub struct Config {
    /// The default color mode, if none can be inferred.
    pub default_mode: ColorMode,
    /// Scripts run sequentially unless this asks for the parallel strategy.
    pub run_scripts_in_parallel: bool,
    /// Whether each script's output is logged under `logs_dir`.
    pub log_command_output: bool,
    /// Where per-script output logs go.
    pub logs_dir: String,
}

/// The mode assumed when detection is unavailable.
pub fn default_color_mode() -> (r: ColorMode)
    ensures
        r == ColorMode::Dark,
{
    ColorMode::Dark
}

/// Scripts run sequentially by default.
pub fn default_run_scripts_in_parallel() -> (r: bool)
    ensures
        r == false,
{
    false
}

/// Script output is not logged by default.
pub fn default_log_command_output() -> (r: bool)
    ensures
        r == false,
{
    false
}

/// The default directory for per-script output logs.
pub fn default_logs_dir() -> (r: String)
    ensures
        r@ == "/var/log/dark-mode-daemon/script-outputs"@,
{
    String::from_str("/var/log/dark-mode-daemon/script-outputs")
}

impl Config {
    /// The configuration used when no configuration file provides a value.
    pub fn default() -> (r: Config)
        ensures
            r.default_mode == ColorMode::Dark,
            r.run_scripts_in_parallel == false,
            r.log_command_output == false,
            r.logs_dir@ == "/var/log/dark-mode-daemon/script-outputs"@,
    {
        Config {
            default_mode: default_color_mode(),
            run_scripts_in_parallel: default_run_scripts_in_parallel(),
            log_command_output: default_log_command_output(),
            logs_dir: default_logs_dir(),
        }
    }
}

} // verus!
