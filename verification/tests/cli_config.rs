use dark_mode_daemon::cli::{list_items, AutostartCommand, Cli, Command, Environment, ListItem};
use dark_mode_daemon::config::{
    default_color_mode, default_log_command_output, default_logs_dir,
    default_run_scripts_in_parallel, Config,
};
use dark_mode_daemon::discovery::{
    scan_listing, FileMetadata, RawEntry, ScriptsDirectoryEntryError,
};
use dark_mode_daemon::mode::ColorMode;
use dark_mode_daemon::platform::{
    FreeDesktopSettingsProvider, GnomeDesktopSettingsProvider, MacOsColorModeDetector,
    PortalColorScheme,
};

#[test]
fn mode_text_is_lowercase() {
    assert_eq!(ColorMode::Light.text(), "light");
    assert_eq!(ColorMode::Dark.text(), "dark");
}

#[test]
fn mode_emoji_is_per_mode() {
    assert_eq!(ColorMode::Light.emoji(), "\u{1f31e}");
    assert_eq!(ColorMode::Dark.emoji(), "\u{1f30c}");
}

#[test]
fn other_mode_switches() {
    assert_eq!(ColorMode::Light.other(), ColorMode::Dark);
    assert_eq!(ColorMode::Dark.other(), ColorMode::Light);
    assert_eq!(ColorMode::Dark.other().other(), ColorMode::Dark);
}

#[test]
fn config_defaults_match_the_documented_values() {
    let config = Config::default();
    assert_eq!(config.default_mode, ColorMode::Dark);
    assert!(!config.run_scripts_in_parallel);
    assert!(!config.log_command_output);
    assert_eq!(config.logs_dir, "/var/log/dark-mode-daemon/script-outputs");
    assert_eq!(default_color_mode(), ColorMode::Dark);
    assert!(!default_run_scripts_in_parallel());
    assert!(!default_log_command_output());
    assert_eq!(default_logs_dir(), "/var/log/dark-mode-daemon/script-outputs");
}

#[test]
fn missing_subcommand_runs_the_daemon_quietly() {
    let cli = Cli { command: None };
    assert!(matches!(cli.effective_command(), Command::Daemon { verbose: false }));
    let cli = Cli { command: Some(Command::List { resolve: true, verbose: false }) };
    assert!(matches!(cli.effective_command(), Command::List { resolve: true, verbose: false }));
}

#[test]
fn autostart_commands_carry_their_arguments() {
    let setup = AutostartCommand::Setup {
        binary_path: Some(String::from("/usr/bin/dark-mode-daemon")),
        override_existing_entry: true,
    };
    match setup {
        AutostartCommand::Setup { binary_path, override_existing_entry } => {
            assert_eq!(binary_path.as_deref(), Some("/usr/bin/dark-mode-daemon"));
            assert!(override_existing_entry);
        }
        _ => panic!("expected the setup variant"),
    }
    let environment = Environment { piped: true };
    assert!(environment.piped);
}

fn sample_listing() -> Vec<RawEntry> {
    vec![
        RawEntry::Resolved {
            path: String::from("/scripts/link.sh"),
            target: String::from("/opt/real.sh"),
            metadata: FileMetadata { is_file: true, permissions: 0o755 },
        },
        RawEntry::Resolved {
            path: String::from("/scripts/notes.txt"),
            target: String::from("/scripts/notes.txt"),
            metadata: FileMetadata { is_file: true, permissions: 0o644 },
        },
        RawEntry::Resolved {
            path: String::from("/scripts/subdir"),
            target: String::from("/scripts/subdir"),
            metadata: FileMetadata { is_file: false, permissions: 0o755 },
        },
    ]
}

#[test]
fn listing_shows_scripts_and_hides_skips_unless_verbose() {
    let steps = scan_listing(&sample_listing());
    let items = list_items(&steps, false, false);
    assert_eq!(items, vec![ListItem::Listed { path: String::from("/scripts/link.sh") }]);

    let verbose_items = list_items(&steps, false, true);
    assert_eq!(
        verbose_items,
        vec![
            ListItem::Listed { path: String::from("/scripts/link.sh") },
            ListItem::SkippedNonExecutableFile { path: String::from("/scripts/notes.txt") },
            ListItem::SkippedDirectory { path: String::from("/scripts/subdir") },
        ]
    );
}

#[test]
fn listing_resolves_targets_on_request() {
    let steps = scan_listing(&sample_listing());
    let items = list_items(&steps, true, false);
    assert_eq!(items, vec![ListItem::Listed { path: String::from("/opt/real.sh") }]);
}

#[test]
fn listing_recovers_from_an_entry_failure_and_continues() {
    // A broken symlink sits in the middle of the listing: it costs only its
    // own entry, and every later entry is still listed.
    let mut raws = sample_listing();
    raws.insert(0, RawEntry::ResolutionFailed { path: String::from("/scripts/broken") });
    let steps = scan_listing(&raws);

    let items = list_items(&steps, false, false);
    assert_eq!(items, vec![ListItem::Listed { path: String::from("/scripts/link.sh") }]);

    // Verbosely, the failed entry's error is reported in place.
    let verbose_items = list_items(&steps, false, true);
    assert_eq!(
        verbose_items,
        vec![
            ListItem::ScanError(ScriptsDirectoryEntryError::FailedToResolveSymlink {
                source: String::from("/scripts/broken"),
            }),
            ListItem::Listed { path: String::from("/scripts/link.sh") },
            ListItem::SkippedNonExecutableFile { path: String::from("/scripts/notes.txt") },
            ListItem::SkippedDirectory { path: String::from("/scripts/subdir") },
        ]
    );
}

#[test]
fn portal_scheme_maps_onto_modes() {
    assert_eq!(ColorMode::from(PortalColorScheme::NoPreference), ColorMode::Light);
    assert_eq!(ColorMode::from(PortalColorScheme::PreferDark), ColorMode::Dark);
    assert_eq!(ColorMode::from(PortalColorScheme::PreferLight), ColorMode::Light);
}

#[test]
fn gnome_scheme_string_maps_onto_modes() {
    assert_eq!(GnomeDesktopSettingsProvider::color_mode_for("prefer-dark"), ColorMode::Dark);
    assert_eq!(GnomeDesktopSettingsProvider::color_mode_for("prefer-light"), ColorMode::Light);
    assert_eq!(GnomeDesktopSettingsProvider::color_mode_for("default"), ColorMode::Light);
}

#[test]
fn freedesktop_scheme_number_maps_onto_modes() {
    assert_eq!(FreeDesktopSettingsProvider::color_mode_for(1), ColorMode::Dark);
    assert_eq!(FreeDesktopSettingsProvider::color_mode_for(0), ColorMode::Light);
    assert_eq!(FreeDesktopSettingsProvider::color_mode_for(2), ColorMode::Light);
}

#[test]
fn macos_interface_style_maps_onto_modes() {
    assert_eq!(MacOsColorModeDetector::color_mode_for(None), ColorMode::Light);
    assert_eq!(MacOsColorModeDetector::color_mode_for(Some("Dark")), ColorMode::Dark);
    assert_eq!(MacOsColorModeDetector::color_mode_for(Some("Light")), ColorMode::Light);
}
