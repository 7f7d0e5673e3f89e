use vstd::prelude::*;

verus! {

/// What a metadata read at a resolved path reported: whether the target is a
/// regular file, and its Unix permission bits.
#[derive(Copy, Clone, PartialEq, Eq, Structural, Debug)]
pub struct FileMetadata {
    pub is_file: bool,
    pub permissions: u32,
}

impl FileMetadata {
    /// A regular file is runnable when any execute bit (owner, group or
    /// other) is set.
    pub open spec fn is_executable(self) -> bool {
        self.permissions & 0o111 != 0
    }
}

/// How one classified entry of the scripts directory is treated.
#[derive(Copy, Clone, PartialEq, Eq, Structural, Debug)]
pub enum ScriptsDirectoryEntryKind {
    /// A regular file with at least one execute bit: it will be launched.
    Script,
    /// Anything that is not a regular file. Devices, FIFOs and the like are
    /// lumped in here deliberately: all of them are skip cases.
    Directory,
    /// A regular file without any execute bit: skipped.
    NonExecutableFile,
}

/// One classified entry of the scripts directory.
#[derive(Debug, PartialEq, Eq)]
pub struct ScriptsDirectoryEntry {
    /// What type of entry this is.
    pub kind: ScriptsDirectoryEntryKind,
    /// The path as it appeared in the directory listing, which may be a
    /// symlink.
    pub script: String,
    /// The canonical location the entry resolves to; equal to `script` when
    /// the entry is not a symlink.
    pub target: String,
}

/// The mathematical value of a [`ScriptsDirectoryEntry`].
pub struct SpecScriptsDirectoryEntry {
    pub kind: ScriptsDirectoryEntryKind,
    pub script: Seq<char>,
    pub target: Seq<char>,
}

impl View for ScriptsDirectoryEntry {
    type V = SpecScriptsDirectoryEntry;

    open spec fn view(&self) -> SpecScriptsDirectoryEntry {
        SpecScriptsDirectoryEntry { kind: self.kind, script: self.script@, target: self.target@ }
    }
}

impl Clone for ScriptsDirectoryEntry {
    fn clone(&self) -> (r: Self)
        ensures
            r@ == self@,
    {
        ScriptsDirectoryEntry {
            kind: self.kind,
            script: self.script.clone(),
            target: self.target.clone(),
        }
    }
}

/// Failure to open the scripts directory at all: fatal to the whole command.
#[derive(Debug, PartialEq, Eq)]
pub enum ScriptsDirectoryError {
    /// The configured scripts directory could not be located.
    Missing,
    /// The directory exists but could not be opened for listing.
    Unreadable(String),
}

/// The mathematical value of a [`ScriptsDirectoryError`].
pub enum SpecScriptsDirectoryError {
    Missing,
    Unreadable(Seq<char>),
}

impl View for ScriptsDirectoryError {
    type V = SpecScriptsDirectoryError;

    open spec fn view(&self) -> SpecScriptsDirectoryError {
        match self {
            ScriptsDirectoryError::Missing => SpecScriptsDirectoryError::Missing,
            ScriptsDirectoryError::Unreadable(p) => SpecScriptsDirectoryError::Unreadable(p@),
        }
    }
}

/// Failure at one entry of the scan. It costs only that entry: the scan goes
/// on with the next one.
#[derive(Debug, PartialEq, Eq)]
pub enum ScriptsDirectoryEntryError {
    /// The directory iterator itself failed at this step.
    CouldNotStartIterating,
    /// The resolved path's metadata could not be read. Carries the path as
    /// listed.
    FailedToReadMetadata { source: String },
    /// Symlink resolution failed (broken link, permission error). Carries the
    /// path as listed.
    FailedToResolveSymlink { source: String },
}

/// The mathematical value of a [`ScriptsDirectoryEntryError`].
pub enum SpecScriptsDirectoryEntryError {
    CouldNotStartIterating,
    FailedToReadMetadata { source: Seq<char> },
    FailedToResolveSymlink { source: Seq<char> },
}

impl View for ScriptsDirectoryEntryError {
    type V = SpecScriptsDirectoryEntryError;

    open spec fn view(&self) -> SpecScriptsDirectoryEntryError {
        match self {
            ScriptsDirectoryEntryError::CouldNotStartIterating => SpecScriptsDirectoryEntryError::CouldNotStartIterating,
            ScriptsDirectoryEntryError::FailedToReadMetadata { source } => SpecScriptsDirectoryEntryError::FailedToReadMetadata { source: source@ },
            ScriptsDirectoryEntryError::FailedToResolveSymlink { source } => SpecScriptsDirectoryEntryError::FailedToResolveSymlink { source: source@ },
        }
    }
}

impl Clone for ScriptsDirectoryEntryError {
    fn clone(&self) -> (r: Self)
        ensures
            r@ == self@,
    {
        match self {
            ScriptsDirectoryEntryError::CouldNotStartIterating => ScriptsDirectoryEntryError::CouldNotStartIterating,
            ScriptsDirectoryEntryError::FailedToReadMetadata { source } => ScriptsDirectoryEntryError::FailedToReadMetadata {
                source: source.clone(),
            },
            ScriptsDirectoryEntryError::FailedToResolveSymlink { source } => ScriptsDirectoryEntryError::FailedToResolveSymlink {
                source: source.clone(),
            },
        }
    }
}

/// What the filesystem reported for one step of the directory listing,
/// before any classification. The walk itself happens outside the library;
/// it hands each observation in as one of these.
#[derive(Debug)]
pub enum RawEntry {
    /// The directory iterator returned an error instead of an entry.
    Unlistable,
    /// The entry was listed but canonicalizing its path failed.
    ResolutionFailed { path: String },
    /// The path resolved, but metadata could not be read at the target.
    MetadataFailed { path: String },
    /// The path resolved and the target's metadata was read.
    Resolved { path: String, target: String, metadata: FileMetadata },
}

/// The mathematical value of a [`RawEntry`].
pub enum SpecRawEntry {
    Unlistable,
    ResolutionFailed { path: Seq<char> },
    MetadataFailed { path: Seq<char> },
    Resolved { path: Seq<char>, target: Seq<char>, metadata: FileMetadata },
}

impl View for RawEntry {
    type V = SpecRawEntry;

    open spec fn view(&self) -> SpecRawEntry {
        match self {
            RawEntry::Unlistable => SpecRawEntry::Unlistable,
            RawEntry::ResolutionFailed { path } => SpecRawEntry::ResolutionFailed { path: path@ },
            RawEntry::MetadataFailed { path } => SpecRawEntry::MetadataFailed { path: path@ },
            RawEntry::Resolved { path, target, metadata } => SpecRawEntry::Resolved {
                path: path@,
                target: target@,
                metadata: *metadata,
            },
        }
    }
}

/// The kind an entry gets from its resolved target's metadata: anything that
/// is not a regular file is a skip case, a regular file without execute bits
/// is skipped too, and everything else runs.
pub open spec fn classification_of(metadata: FileMetadata) -> ScriptsDirectoryEntryKind {
    if !metadata.is_file {
        ScriptsDirectoryEntryKind::Directory
    } else if !metadata.is_executable() {
        ScriptsDirectoryEntryKind::NonExecutableFile
    } else {
        ScriptsDirectoryEntryKind::Script
    }
}

/// The whole per-entry algorithm: each failed step turns into the per-entry
/// error that names the listed path, and a fully resolved entry is classified
/// from the metadata of its resolved target, never the listed path's own.
pub open spec fn classify_raw(raw: SpecRawEntry) -> Result<
    SpecScriptsDirectoryEntry,
    SpecScriptsDirectoryEntryError,
> {
    match raw {
        SpecRawEntry::Unlistable => Err(SpecScriptsDirectoryEntryError::CouldNotStartIterating),
        SpecRawEntry::ResolutionFailed { path } => Err(
            SpecScriptsDirectoryEntryError::FailedToResolveSymlink { source: path },
        ),
        SpecRawEntry::MetadataFailed { path } => Err(
            SpecScriptsDirectoryEntryError::FailedToReadMetadata { source: path },
        ),
        SpecRawEntry::Resolved { path, target, metadata } => Ok(
            SpecScriptsDirectoryEntry {
                kind: classification_of(metadata),
                script: path,
                target,
            },
        ),
    }
}

/// The mathematical value of one scan step's result.
pub open spec fn scan_step_view(
    step: Result<ScriptsDirectoryEntry, ScriptsDirectoryEntryError>,
) -> Result<SpecScriptsDirectoryEntry, SpecScriptsDirectoryEntryError> {
    match step {
        Ok(entry) => Ok(entry@),
        Err(error) => Err(error@),
    }
}

pub fn classify_metadata(metadata: FileMetadata) -> (r: ScriptsDirectoryEntryKind)
    ensures
        r == classification_of(metadata),
{
    if !metadata.is_file {
        ScriptsDirectoryEntryKind::Directory
    } else if metadata.permissions & 0o111 == 0 {
        ScriptsDirectoryEntryKind::NonExecutableFile
    } else {
        ScriptsDirectoryEntryKind::Script
    }
}

/// Classify one observation of the directory walk.
pub fn classify_entry(raw: &RawEntry) -> (r: Result<
    ScriptsDirectoryEntry,
    ScriptsDirectoryEntryError,
>)
    ensures
        scan_step_view(r) == classify_raw(raw@),
{
    match raw {
        RawEntry::Unlistable => Err(ScriptsDirectoryEntryError::CouldNotStartIterating),
        RawEntry::ResolutionFailed { path } => Err(
            ScriptsDirectoryEntryError::FailedToResolveSymlink { source: path.clone() },
        ),
        RawEntry::MetadataFailed { path } => Err(
            ScriptsDirectoryEntryError::FailedToReadMetadata { source: path.clone() },
        ),
        RawEntry::Resolved { path, target, metadata } => Ok(
            ScriptsDirectoryEntry {
                kind: classify_metadata(*metadata),
                script: path.clone(),
                target: target.clone(),
            },
        ),
    }
}

/// Classify a whole directory listing. One failed entry costs only its own
/// slot: every observation, before or after it, gets its own classification.
pub fn scan_listing(raws: &Vec<RawEntry>) -> (r: Vec<
    Result<ScriptsDirectoryEntry, ScriptsDirectoryEntryError>,
>)
    ensures
        r@.len() == raws@.len(),
        forall|i: int|
            0 <= i < raws@.len() ==> scan_step_view(#[trigger] r@[i]) == classify_raw(raws@[i]@),
{
    let mut results: Vec<Result<ScriptsDirectoryEntry, ScriptsDirectoryEntryError>> = Vec::new();
    let mut idx: usize = 0;
    while idx < raws.len()
        invariant
            idx <= raws@.len(),
            results@.len() == idx,
            forall|i: int|
                0 <= i < idx ==> scan_step_view(#[trigger] results@[i]) == classify_raw(
                    raws@[i]@,
                ),
        decreases raws@.len() - idx,
    {
        results.push(classify_entry(&raws[idx]));
        idx = idx + 1;
    }
    results
}

/// The decision behind opening the scripts directory: no located directory
/// is `Missing`; a located directory that cannot be opened for listing is
/// `Unreadable` and names the path; otherwise the scan may start there.
pub fn read_outcome(located: Option<String>, readable: bool) -> (r: Result<
    String,
    ScriptsDirectoryError,
>)
    ensures
        match located {
            None => r == Err::<String, ScriptsDirectoryError>(ScriptsDirectoryError::Missing),
            Some(path) => if readable {
                r == Ok::<String, ScriptsDirectoryError>(path)
            } else {
                r == Err::<String, ScriptsDirectoryError>(ScriptsDirectoryError::Unreadable(path))
            },
        },
{
    match located {
        None => Err(ScriptsDirectoryError::Missing),
        Some(path) => if readable {
            Ok(path)
        } else {
            Err(ScriptsDirectoryError::Unreadable(path))
        },
    }
}

/// In a directory whose entries all resolve to regular executable files,
/// every entry is classified as a runnable script.
pub proof fn lemma_all_executables_are_scripts(raws: Seq<SpecRawEntry>)
    requires
        forall|i: int|
            0 <= i < raws.len() ==> ((#[trigger] raws[i]) matches SpecRawEntry::Resolved {
                metadata,
                ..
            } && metadata.is_file && metadata.is_executable()),
    ensures
        forall|i: int|
            0 <= i < raws.len() ==> ((#[trigger] classify_raw(raws[i])) matches Ok(entry)
                && entry.kind == ScriptsDirectoryEntryKind::Script),
{
    assert forall|i: int| 0 <= i < raws.len() implies (#[trigger] classify_raw(
        raws[i],
    )) matches Ok(entry) && entry.kind == ScriptsDirectoryEntryKind::Script by {
        assert(raws[i] matches SpecRawEntry::Resolved { metadata, .. } && metadata.is_file
            && metadata.is_executable());
    }
}

/// A symlink whose chain resolves to an executable regular file is classified
/// as a script — never as a directory — and the entry records the chain's
/// ultimate destination as its target.
pub proof fn lemma_symlink_to_executable(path: Seq<char>, target: Seq<char>, metadata: FileMetadata)
    requires
        metadata.is_file,
        metadata.is_executable(),
    ensures
        classify_raw(SpecRawEntry::Resolved { path, target, metadata }) == Ok::<
            SpecScriptsDirectoryEntry,
            SpecScriptsDirectoryEntryError,
        >(SpecScriptsDirectoryEntry { kind: ScriptsDirectoryEntryKind::Script, script: path, target }),
{
}

/// A broken symlink yields a symlink-resolution failure for its own entry and
/// nothing more: the scan still covers every entry, and each of the others is
/// classified exactly as it would have been.
pub proof fn lemma_scan_survives_broken_symlink(
    raws: Seq<SpecRawEntry>,
    results: Seq<Result<SpecScriptsDirectoryEntry, SpecScriptsDirectoryEntryError>>,
    i: int,
)
    requires
        results.len() == raws.len(),
        forall|j: int| 0 <= j < raws.len() ==> #[trigger] results[j] == classify_raw(raws[j]),
        0 <= i < raws.len(),
        raws[i] matches SpecRawEntry::ResolutionFailed { .. },
    ensures
        raws[i] matches SpecRawEntry::ResolutionFailed { path } ==> results[i] == Err::<
            SpecScriptsDirectoryEntry,
            SpecScriptsDirectoryEntryError,
        >(SpecScriptsDirectoryEntryError::FailedToResolveSymlink { source: path }),
        results.len() == raws.len(),
        forall|j: int|
            0 <= j < raws.len() && j != i ==> #[trigger] results[j] == classify_raw(raws[j]),
{
}

} // verus!
