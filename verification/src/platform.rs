use vstd::prelude::*;

use crate::mode::ColorMode;

verus! {

/// Why a platform backend could not report the current mode. The failure is
/// not retried here: it propagates to the caller, who decides whether to
/// abort the daemon or fall back to a configured default mode.
#[derive(Debug)]
pub struct DetectorError {
    pub message: String,
}

/// The capability a platform backend must expose for querying the current
/// color mode. Implemented outside the library by each OS-specific detector;
/// nothing is assumed of those implementations.
pub trait ColorModeDetector {
    /// Query the OS for the current color mode.
    fn current_mode(&self) -> Result<ColorMode, DetectorError>;
}

/// The capability a platform backend must expose for subscribing to future
/// mode changes: once invoked, it blocks as the daemon's main loop and calls
/// `callback` on notifications. Implemented outside the library, push-based
/// or polling.
pub trait ColorModeDaemon {
    fn on_color_changed<F: Fn(ColorMode)>(&self, callback: F);
}

/// A daemon that synthesizes raw notifications by sleeping a fixed interval,
/// re-querying the detector, and comparing against the previously observed
/// value — the same deduplication as a push-based backend, with latency
/// bounded by the interval. The loop itself is run by the caller; this holds
/// its configuration.
pub struct PollingColorModeDaemon<Detector> where Detector: ColorModeDetector {
    pub detector: Detector,
    pub sleep_duration: core::time::Duration,
}

impl<Detector> PollingColorModeDaemon<Detector> where Detector: ColorModeDetector {
    pub fn new(detector: Detector, sleep_duration: core::time::Duration) -> (r:
        PollingColorModeDaemon<Detector>)
        ensures
            r.detector == detector,
            r.sleep_duration == sleep_duration,
    {
        PollingColorModeDaemon { detector, sleep_duration }
    }
}

impl<Detector> ColorModeDetector for PollingColorModeDaemon<Detector> where
    Detector: ColorModeDetector,
 {
    fn current_mode(&self) -> Result<ColorMode, DetectorError> {
        self.detector.current_mode()
    }
}

/// The three-valued color-scheme preference the desktop settings portal
/// reports, held as the library's own value so the mapping onto a mode can
/// be stated and checked. The portal read itself happens outside the
/// library; its caller converts the portal's value variant for variant.
#[derive(Copy, Clone, PartialEq, Eq, Structural, Debug)]
pub enum PortalColorScheme {
    NoPreference,
    PreferDark,
    PreferLight,
}

impl core::convert::From<PortalColorScheme> for ColorMode {
    /// Only an explicit dark preference selects dark; no preference counts
    /// as light.
    fn from(value: PortalColorScheme) -> (r: ColorMode)
        ensures
            r == match value {
                PortalColorScheme::NoPreference => ColorMode::Light,
                PortalColorScheme::PreferDark => ColorMode::Dark,
                PortalColorScheme::PreferLight => ColorMode::Light,
            },
    {
        match value {
            PortalColorScheme::NoPreference => ColorMode::Light,
            PortalColorScheme::PreferDark => ColorMode::Dark,
            PortalColorScheme::PreferLight => ColorMode::Light,
        }
    }
}

impl vstd::std_specs::convert::FromSpecImpl<PortalColorScheme> for ColorMode {
    open spec fn obeys_from_spec() -> bool {
        true
    }

    open spec fn from_spec(value: PortalColorScheme) -> ColorMode {
        match value {
            PortalColorScheme::NoPreference => ColorMode::Light,
            PortalColorScheme::PreferDark => ColorMode::Dark,
            PortalColorScheme::PreferLight => ColorMode::Light,
        }
    }
}

/// Queries the macOS interface style. Only the classification of the style
/// string lives here; the user-defaults read itself happens in the platform
/// layer outside the library.
pub struct MacOsColorModeDetector {}

impl MacOsColorModeDetector {
    /// The interface style key is absent in light mode; when present, only
    /// the documented value `Dark` means dark mode.
    pub fn color_mode_for(interface_style: Option<&str>) -> (r: ColorMode)
        ensures
            r == match interface_style {
                None => ColorMode::Light,
                Some(style) => if style@ == "Dark"@ {
                    ColorMode::Dark
                } else {
                    ColorMode::Light
                },
            },
    {
        match interface_style {
            None => ColorMode::Light,
            Some(style) => {
                let owned: String = style.to_owned();
                if owned == String::from_str("Dark") {
                    ColorMode::Dark
                } else {
                    ColorMode::Light
                }
            },
        }
    }
}

/// Reads the GNOME desktop interface settings. Only the classification of
/// the `color-scheme` value lives here; the settings read itself happens in
/// the platform layer outside the library.
pub struct GnomeDesktopSettingsProvider {}

impl GnomeDesktopSettingsProvider {
    /// GNOME reports dark mode exactly as the string `prefer-dark`; every
    /// other value (`default`, `prefer-light`, anything unknown) is light.
    pub fn color_mode_for(color_scheme: &str) -> (r: ColorMode)
        ensures
            r == (if color_scheme@ == "prefer-dark"@ {
                ColorMode::Dark
            } else {
                ColorMode::Light
            }),
    {
        let scheme: String = color_scheme.to_owned();
        if scheme == String::from_str("prefer-dark") {
            ColorMode::Dark
        } else {
            ColorMode::Light
        }
    }
}

/// Reads the freedesktop appearance settings. Only the classification of the
/// `color-scheme` value lives here; the settings read itself happens in the
/// platform layer outside the library.
pub struct FreeDesktopSettingsProvider {}

impl FreeDesktopSettingsProvider {
    /// The freedesktop settings portal reports the color scheme as a number:
    /// 1 means prefer dark, everything else is light.
    pub fn color_mode_for(color_scheme: u32) -> (r: ColorMode)
        ensures
            r == (if color_scheme == 1 {
                ColorMode::Dark
            } else {
                ColorMode::Light
            }),
    {
        if color_scheme == 1 {
            ColorMode::Dark
        } else {
            ColorMode::Light
        }
    }
}

} // verus!
