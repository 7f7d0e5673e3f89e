use vstd::prelude::*;

use crate::discovery::{
    ScriptsDirectoryEntry, ScriptsDirectoryEntryError, ScriptsDirectoryEntryKind,
    SpecScriptsDirectoryEntry, SpecScriptsDirectoryEntryError, scan_step_view,
};
use crate::mode::ColorMode;

verus! {

/// The parsed command line: an optional subcommand. Parsing itself is the
/// excluded command-line collaborator's job; the library defines the shape
/// and the decisions taken on it.
pub struct Cli {
    pub command: Option<Command>,
}

/// The subcommand surface.
pub enum Command {
    /// Start the daemon.
    Daemon { verbose: bool },
    /// Print the current color mode, optionally watching for changes, and
    /// optionally in the plain form without the symbol.
    Current { watch: bool, plain: bool },
    /// Manually run scripts for a given mode.
    Run { mode: ColorMode, verbose: bool },
    /// Print the scripts that would be run, optionally with resolved symlink
    /// targets.
    List { resolve: bool, verbose: bool },
    /// Manage the autostart registration.
    Autostart { command: AutostartCommand },
}

/// Subcommands for running the daemon on login.
pub enum AutostartCommand {
    /// Create the startup entry.
    Setup { binary_path: Option<String>, override_existing_entry: bool },
    /// Check whether the startup entry exists.
    Check,
    /// Remove the startup entry.
    Remove,
}

impl Cli {
    /// With no subcommand given, the daemon runs, not verbosely.
    pub fn effective_command(self) -> (r: Command)
        ensures
            r == match self.command {
                Some(command) => command,
                None => Command::Daemon { verbose: false },
            },
    {
        match self.command {
            Some(command) => command,
            None => Command::Daemon { verbose: false },
        }
    }
}

/// How the current command is being consumed: piped into something, or shown
/// on a terminal. Inferring it is the caller's job.
pub struct Environment {
    /// Whether the current command is being piped into something.
    pub piped: bool,
}

/// One line of the listing command's output.
#[derive(Debug, PartialEq, Eq)]
pub enum ListItem {
    /// A runnable script: always printed.
    Listed { path: String },
    /// A directory (or other non-file) entry: printed only verbosely.
    SkippedDirectory { path: String },
    /// A non-executable file: printed only verbosely.
    SkippedNonExecutableFile { path: String },
    /// A per-entry scan failure, recovered locally: printed only verbosely.
    ScanError(ScriptsDirectoryEntryError),
}

/// The mathematical value of a [`ListItem`].
pub enum SpecListItem {
    Listed { path: Seq<char> },
    SkippedDirectory { path: Seq<char> },
    SkippedNonExecutableFile { path: Seq<char> },
    ScanError(SpecScriptsDirectoryEntryError),
}

impl View for ListItem {
    type V = SpecListItem;

    open spec fn view(&self) -> SpecListItem {
        match self {
            ListItem::Listed { path } => SpecListItem::Listed { path: path@ },
            ListItem::SkippedDirectory { path } => SpecListItem::SkippedDirectory { path: path@ },
            ListItem::SkippedNonExecutableFile { path } => SpecListItem::SkippedNonExecutableFile {
                path: path@,
            },
            ListItem::ScanError(error) => SpecListItem::ScanError(error@),
        }
    }
}

/// The path a listing shows for an entry: the resolved target under
/// `--resolve`, the path as listed otherwise.
pub open spec fn shown_path(entry: SpecScriptsDirectoryEntry, resolve: bool) -> Seq<char> {
    if resolve {
        entry.target
    } else {
        entry.script
    }
}

/// What the listing prints for one classified entry: scripts always, skipped
/// entries only verbosely, with the reason.
pub open spec fn list_lines_for(
    entry: SpecScriptsDirectoryEntry,
    resolve: bool,
    verbose: bool,
) -> Seq<SpecListItem> {
    match entry.kind {
        ScriptsDirectoryEntryKind::Script => seq![
            SpecListItem::Listed { path: shown_path(entry, resolve) },
        ],
        ScriptsDirectoryEntryKind::Directory => if verbose {
            seq![SpecListItem::SkippedDirectory { path: shown_path(entry, resolve) }]
        } else {
            Seq::empty()
        },
        ScriptsDirectoryEntryKind::NonExecutableFile => if verbose {
            seq![SpecListItem::SkippedNonExecutableFile { path: shown_path(entry, resolve) }]
        } else {
            Seq::empty()
        },
    }
}

/// What the listing prints for one scan step. A failed step is recovered
/// locally, as everywhere in the scan: its error is shown only verbosely,
/// and it costs nothing beyond its own line.
pub open spec fn list_step_lines(
    step: Result<SpecScriptsDirectoryEntry, SpecScriptsDirectoryEntryError>,
    resolve: bool,
    verbose: bool,
) -> Seq<SpecListItem> {
    match step {
        Ok(entry) => list_lines_for(entry, resolve, verbose),
        Err(error) => if verbose {
            seq![SpecListItem::ScanError(error)]
        } else {
            Seq::empty()
        },
    }
}

/// Everything the listing prints, in enumeration order.
pub open spec fn listed_items(
    steps: Seq<Result<SpecScriptsDirectoryEntry, SpecScriptsDirectoryEntryError>>,
    resolve: bool,
    verbose: bool,
) -> Seq<SpecListItem>
    decreases steps.len(),
{
    if steps.len() == 0 {
        Seq::empty()
    } else {
        listed_items(steps.drop_last(), resolve, verbose) + list_step_lines(
            steps.last(),
            resolve,
            verbose,
        )
    }
}

/// The listing command's output for a scanned directory. A per-entry scan
/// failure is recovered locally, exactly as in the runner: its error is
/// shown only verbosely, and every other entry is still listed, in
/// enumeration order.
pub fn list_items(
    steps: &Vec<Result<ScriptsDirectoryEntry, ScriptsDirectoryEntryError>>,
    resolve: bool,
    verbose: bool,
) -> (r: Vec<ListItem>)
    ensures
        r@.map_values(|item: ListItem| item@) == listed_items(
            steps@.map_values(
                |s: Result<ScriptsDirectoryEntry, ScriptsDirectoryEntryError>| scan_step_view(s),
            ),
            resolve,
            verbose,
        ),
{
    let ghost all = steps@.map_values(
        |s: Result<ScriptsDirectoryEntry, ScriptsDirectoryEntryError>| scan_step_view(s),
    );
    let mut items: Vec<ListItem> = Vec::new();
    let mut idx: usize = 0;
    while idx < steps.len()
        invariant
            idx <= steps@.len(),
            all == steps@.map_values(
                |s: Result<ScriptsDirectoryEntry, ScriptsDirectoryEntryError>| scan_step_view(s),
            ),
            items@.map_values(|item: ListItem| item@) == listed_items(
                all.take(idx as int),
                resolve,
                verbose,
            ),
        decreases steps@.len() - idx,
    {
        let ghost prefix = all.take(idx as int);
        let ghost next_prefix = all.take(idx + 1);
        assert(next_prefix.drop_last() =~= prefix);
        assert(next_prefix.last() == all[idx as int]);
        match &steps[idx] {
            Err(error) => {
                if verbose {
                    items.push(ListItem::ScanError(error.clone()));
                }
            },
            Ok(entry) => {
                let path = if resolve {
                    entry.target.clone()
                } else {
                    entry.script.clone()
                };
                match entry.kind {
                    ScriptsDirectoryEntryKind::Script => {
                        items.push(ListItem::Listed { path });
                    },
                    ScriptsDirectoryEntryKind::Directory => {
                        if verbose {
                            items.push(ListItem::SkippedDirectory { path });
                        }
                    },
                    ScriptsDirectoryEntryKind::NonExecutableFile => {
                        if verbose {
                            items.push(ListItem::SkippedNonExecutableFile { path });
                        }
                    },
                }
            },
        }
        assert(items@.map_values(|item: ListItem| item@) =~= listed_items(
            next_prefix,
            resolve,
            verbose,
        ));
        idx = idx + 1;
    }
    assert(all.take(steps@.len() as int) =~= all);
    items
}

} // verus!
