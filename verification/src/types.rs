//! The data model: manifest entries, per-entry metadata, local file state,
//! the error taxonomy and the terminal outcome of one pipeline run.

use vstd::prelude::*;

verus! {

/// One entry of the manifest: a download target named by a project
/// identifier and a file identifier.
#[derive(Clone, Copy, PartialEq, Eq, Structural, Debug)]
pub struct ManifestEntry {
    pub project_id: u64,
    pub file_id: u64,
}

/// A network failure: connection failure, timeout, or a non-2xx status.
#[derive(Clone, Copy, PartialEq, Eq, Structural, Debug)]
pub enum NetworkError {
    Connection,
    Timeout,
    Status(u16),
}

/// A disk failure: the open, read or write call that failed.
#[derive(Clone, Copy, PartialEq, Eq, Structural, Debug)]
pub enum IoFailure {
    Open,
    Read,
    Write,
}

/// The class of error behind a failed stage.
#[derive(Clone, Copy, PartialEq, Eq, Structural, Debug)]
pub enum ErrorKind {
    Network,
    Parse,
    Io,
}

/// The pipeline stage at which an entry failed.
#[derive(Clone, Copy, PartialEq, Eq, Structural, Debug)]
pub enum Stage {
    /// The buffered fetch of the metadata page failed.
    MetadataFetch,
    /// The metadata page lacked the filename or the checksum element.
    MetadataParse,
    /// The local file could not be opened or read.
    LocalCheck,
    /// The streaming download request failed.
    Download,
    /// The streamed body could not be drained into the file.
    Save,
}

/// The error class raised at each stage.
pub open spec fn stage_error_kind(stage: Stage) -> ErrorKind {
    match stage {
        Stage::MetadataFetch => ErrorKind::Network,
        Stage::MetadataParse => ErrorKind::Parse,
        Stage::LocalCheck => ErrorKind::Io,
        Stage::Download => ErrorKind::Network,
        Stage::Save => ErrorKind::Io,
    }
}

/// Returns the error class raised at `stage`.
pub fn error_kind_of(stage: Stage) -> (k: ErrorKind)
    ensures
        k == stage_error_kind(stage),
{
    match stage {
        Stage::MetadataFetch => ErrorKind::Network,
        Stage::MetadataParse => ErrorKind::Parse,
        Stage::LocalCheck => ErrorKind::Io,
        Stage::Download => ErrorKind::Network,
        Stage::Save => ErrorKind::Io,
    }
}

/// Why an entry was skipped. The one reason the design admits is that the
/// local copy already carries the expected checksum.
#[derive(Clone, Copy, PartialEq, Eq, Structural, Debug)]
pub enum SkipReason {
    ChecksumMatch,
}

/// The metadata derived for one entry: the authoritative display name, the
/// expected checksum (hex, compared case-insensitively) and the download
/// URL, all as ASCII bytes.
#[derive(Debug)]
pub struct ModMetadata {
    pub display_name: Vec<u8>,
    pub expected_checksum: Vec<u8>,
    pub source_url: Vec<u8>,
}

/// The mathematical value of a [`ModMetadata`].
pub struct ModMetadataView {
    pub display_name: Seq<u8>,
    pub expected_checksum: Seq<u8>,
    pub source_url: Seq<u8>,
}

impl View for ModMetadata {
    type V = ModMetadataView;

    open spec fn view(&self) -> ModMetadataView {
        ModMetadataView {
            display_name: self.display_name@,
            expected_checksum: self.expected_checksum@,
            source_url: self.source_url@,
        }
    }
}

/// What a look at the local file found: whether it exists, and whether its
/// (non-empty) content already carries the expected checksum.
#[derive(Clone, Copy, PartialEq, Eq, Structural, Debug)]
pub struct LocalFileState {
    pub exists: bool,
    pub checksum_matches: bool,
}

/// The terminal classification of one entry's pipeline run.
#[derive(Debug)]
pub enum DownloadOutcome {
    /// The local copy already matched; nothing was written.
    Skipped(SkipReason),
    /// A fresh copy was downloaded and saved under the given path.
    Downloaded(Vec<u8>),
    /// The stage that failed and the class of its error.
    Failed(Stage, ErrorKind),
}

/// The mathematical value of a [`DownloadOutcome`].
pub enum OutcomeView {
    Skipped(SkipReason),
    Downloaded(Seq<u8>),
    Failed(Stage, ErrorKind),
}

impl View for DownloadOutcome {
    type V = OutcomeView;

    open spec fn view(&self) -> OutcomeView {
        match self {
            DownloadOutcome::Skipped(r) => OutcomeView::Skipped(*r),
            DownloadOutcome::Downloaded(p) => OutcomeView::Downloaded(p@),
            DownloadOutcome::Failed(s, k) => OutcomeView::Failed(*s, *k),
        }
    }
}

impl OutcomeView {
    /// An outcome is well formed when a failure carries the error class of
    /// its stage.
    pub open spec fn wf(self) -> bool {
        match self {
            OutcomeView::Failed(s, k) => k == stage_error_kind(s),
            _ => true,
        }
    }
}

} // verus!
