use dark_mode_daemon::discovery::{
    classify_entry, classify_metadata, read_outcome, scan_listing, FileMetadata, RawEntry,
    ScriptsDirectoryEntry, ScriptsDirectoryEntryError, ScriptsDirectoryEntryKind,
    ScriptsDirectoryError,
};

fn executable_file() -> FileMetadata {
    FileMetadata { is_file: true, permissions: 0o755 }
}

fn plain_file() -> FileMetadata {
    FileMetadata { is_file: true, permissions: 0o644 }
}

fn directory() -> FileMetadata {
    FileMetadata { is_file: false, permissions: 0o755 }
}

#[test]
fn classifies_executable_file_as_script() {
    assert_eq!(classify_metadata(executable_file()), ScriptsDirectoryEntryKind::Script);
}

#[test]
fn classifies_each_execute_bit_as_script() {
    for bits in [0o100, 0o010, 0o001, 0o111, 0o755, 0o500] {
        let meta = FileMetadata { is_file: true, permissions: bits };
        assert_eq!(classify_metadata(meta), ScriptsDirectoryEntryKind::Script);
    }
}

#[test]
fn classifies_file_without_execute_bits_as_non_executable() {
    assert_eq!(classify_metadata(plain_file()), ScriptsDirectoryEntryKind::NonExecutableFile);
    let meta = FileMetadata { is_file: true, permissions: 0o000 };
    assert_eq!(classify_metadata(meta), ScriptsDirectoryEntryKind::NonExecutableFile);
}

#[test]
fn classifies_non_file_as_directory() {
    assert_eq!(classify_metadata(directory()), ScriptsDirectoryEntryKind::Directory);
}

#[test]
fn directory_of_executables_yields_only_scripts() {
    let raws = vec![
        RawEntry::Resolved {
            path: String::from("/scripts/a.sh"),
            target: String::from("/scripts/a.sh"),
            metadata: executable_file(),
        },
        RawEntry::Resolved {
            path: String::from("/scripts/b.sh"),
            target: String::from("/scripts/b.sh"),
            metadata: executable_file(),
        },
    ];
    let results = scan_listing(&raws);
    assert_eq!(results.len(), 2);
    for result in results {
        let entry = result.expect("every entry should classify");
        assert_eq!(entry.kind, ScriptsDirectoryEntryKind::Script);
    }
}

#[test]
fn symlink_to_executable_keeps_resolved_target() {
    let raw = RawEntry::Resolved {
        path: String::from("/scripts/link.sh"),
        target: String::from("/usr/local/bin/real.sh"),
        metadata: executable_file(),
    };
    let entry = classify_entry(&raw).expect("a resolved symlink should classify");
    assert_eq!(entry.kind, ScriptsDirectoryEntryKind::Script);
    assert_eq!(entry.script, "/scripts/link.sh");
    assert_eq!(entry.target, "/usr/local/bin/real.sh");
}

#[test]
fn broken_symlink_yields_resolution_failure_and_scan_continues() {
    let raws = vec![
        RawEntry::ResolutionFailed { path: String::from("/scripts/broken.sh") },
        RawEntry::Resolved {
            path: String::from("/scripts/fine.sh"),
            target: String::from("/scripts/fine.sh"),
            metadata: executable_file(),
        },
    ];
    let results = scan_listing(&raws);
    assert_eq!(results.len(), 2);
    assert_eq!(
        results[0],
        Err(ScriptsDirectoryEntryError::FailedToResolveSymlink {
            source: String::from("/scripts/broken.sh"),
        })
    );
    let entry = results[1].as_ref().expect("the scan should go on past the broken link");
    assert_eq!(entry.kind, ScriptsDirectoryEntryKind::Script);
    assert_eq!(entry.target, "/scripts/fine.sh");
}

#[test]
fn metadata_failure_names_the_listed_path() {
    let raw = RawEntry::MetadataFailed { path: String::from("/scripts/odd.sh") };
    assert_eq!(
        classify_entry(&raw),
        Err(ScriptsDirectoryEntryError::FailedToReadMetadata {
            source: String::from("/scripts/odd.sh"),
        })
    );
}

#[test]
fn unlistable_step_reports_iteration_failure() {
    let raw = RawEntry::Unlistable;
    assert_eq!(classify_entry(&raw), Err(ScriptsDirectoryEntryError::CouldNotStartIterating));
}

#[test]
fn classification_uses_resolved_target_metadata() {
    // The listed path looks like a script, but the resolved target is a
    // directory: the entry must be classified from the target.
    let raw = RawEntry::Resolved {
        path: String::from("/scripts/looks-like-script.sh"),
        target: String::from("/somewhere/actually-a-directory"),
        metadata: directory(),
    };
    let entry = classify_entry(&raw).expect("a resolved entry should classify");
    assert_eq!(entry.kind, ScriptsDirectoryEntryKind::Directory);
}

#[test]
fn missing_directory_is_a_fatal_read_error() {
    assert_eq!(read_outcome(None, true), Err(ScriptsDirectoryError::Missing));
    assert_eq!(read_outcome(None, false), Err(ScriptsDirectoryError::Missing));
}

#[test]
fn unreadable_directory_names_the_path() {
    assert_eq!(
        read_outcome(Some(String::from("/home/u/.config/dark-mode-daemon/scripts")), false),
        Err(ScriptsDirectoryError::Unreadable(String::from(
            "/home/u/.config/dark-mode-daemon/scripts",
        )))
    );
}

#[test]
fn readable_directory_opens() {
    assert_eq!(
        read_outcome(Some(String::from("/tmp/scripts")), true),
        Ok(String::from("/tmp/scripts"))
    );
}

#[test]
fn scan_entry_holds_original_and_target() {
    let raw = RawEntry::Resolved {
        path: String::from("/scripts/plain.sh"),
        target: String::from("/scripts/plain.sh"),
        metadata: plain_file(),
    };
    let entry: ScriptsDirectoryEntry = classify_entry(&raw).unwrap();
    assert_eq!(entry.script, entry.target);
    assert_eq!(entry.kind, ScriptsDirectoryEntryKind::NonExecutableFile);
}
