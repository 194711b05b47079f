//! The per-entry pipeline: a state machine whose suspension points are
//! exactly the outside calls — the buffered metadata fetch, the local file
//! read, and the streaming download with its write — and whose decisions are
//! all verified.
//!
//! The surrounding application drives one machine per entry: it performs the
//! call the current state asks for and hands the result back as an event.
//! `run_entry` is the sequential kernel of one such drive, over an
//! environment that holds every outside answer in advance.

use vstd::prelude::*;
use crate::checksum::{digest_matches, verify};
use crate::extract::{extract, extract_spec};
use crate::stream::write_stream;
use crate::types::{DownloadOutcome, ErrorKind, IoFailure, LocalFileState, ManifestEntry,
    ModMetadata, ModMetadataView, NetworkError, OutcomeView, SkipReason, Stage};
use crate::urls::{download_url, download_url_spec, local_path, local_path_spec};

verus! {

/// Whether a local file's bytes already settle the entry: the file must
/// exist, be non-empty, and carry the expected checksum. An absent or empty
/// file is always downloaded afresh.
pub open spec fn local_matches(local: Option<Seq<u8>>, expected_checksum: Seq<u8>) -> bool {
    match local {
        None => false,
        Some(bytes) => bytes.len() > 0 && digest_matches(bytes, expected_checksum),
    }
}

/// Computes the [`LocalFileState`] of an entry from what the local read
/// found: `None` for an absent file, the file's bytes otherwise.
pub fn check_local(local: &Option<Vec<u8>>, expected_checksum: &Vec<u8>) -> (s: LocalFileState)
    ensures
        s.exists == (local is Some),
        s.checksum_matches == local_matches(
            match local {
                Some(b) => Some(b@),
                None => None,
            },
            expected_checksum@,
        ),
{
    match local {
        None => LocalFileState { exists: false, checksum_matches: false },
        Some(bytes) => {
            let matches = if bytes.len() > 0 {
                verify(bytes.as_slice(), expected_checksum.as_slice())
            } else {
                false
            };
            LocalFileState { exists: true, checksum_matches: matches }
        },
    }
}

/// Every outside answer one entry's pipeline can consume: the metadata
/// response, the local file's bytes (`None` when the file is absent), the
/// downloaded body as a chunk stream, and whether draining it to disk
/// succeeded.
pub struct EntryEnv {
    pub metadata: Result<Vec<u8>, NetworkError>,
    pub local: Result<Option<Vec<u8>>, IoFailure>,
    pub download: Result<Vec<Vec<u8>>, NetworkError>,
    pub save_ok: bool,
}

/// The mathematical value of an [`EntryEnv`].
pub struct EntryEnvView {
    pub metadata: Result<Seq<u8>, NetworkError>,
    pub local: Result<Option<Seq<u8>>, IoFailure>,
    pub download: Result<Seq<Seq<u8>>, NetworkError>,
    pub save_ok: bool,
}

impl View for EntryEnv {
    type V = EntryEnvView;

    open spec fn view(&self) -> EntryEnvView {
        EntryEnvView {
            metadata: match self.metadata {
                Ok(ref body) => Ok(body@),
                Err(e) => Err(e),
            },
            local: match self.local {
                Ok(Some(ref bytes)) => Ok(Some(bytes@)),
                Ok(None) => Ok(None),
                Err(e) => Err(e),
            },
            download: match self.download {
                Ok(ref chunks) => Ok(chunks.deep_view()),
                Err(e) => Err(e),
            },
            save_ok: self.save_ok,
        }
    }
}

/// The states of one entry's pipeline. Each non-terminal state names the
/// outside call the application must perform next.
pub enum PipelineState {
    /// Fetch the metadata URL of `entry`, buffered.
    FetchingMetadata { entry: ManifestEntry },
    /// Open or create the artifact at the local path of `meta` and read its
    /// current bytes.
    CheckingLocal { entry: ManifestEntry, meta: ModMetadata },
    /// Fetch the source URL of `meta`, streaming, and drain the body into
    /// the artifact, truncating first.
    Downloading { entry: ManifestEntry, meta: ModMetadata },
    /// The entry is settled.
    Finished { outcome: DownloadOutcome },
}

/// The mathematical value of a [`PipelineState`].
pub enum StateView {
    FetchingMetadata { entry: ManifestEntry },
    CheckingLocal { entry: ManifestEntry, meta: ModMetadataView },
    Downloading { entry: ManifestEntry, meta: ModMetadataView },
    Finished { outcome: OutcomeView },
}

impl View for PipelineState {
    type V = StateView;

    open spec fn view(&self) -> StateView {
        match self {
            PipelineState::FetchingMetadata { entry } => StateView::FetchingMetadata {
                entry: *entry,
            },
            PipelineState::CheckingLocal { entry, meta } => StateView::CheckingLocal {
                entry: *entry,
                meta: meta@,
            },
            PipelineState::Downloading { entry, meta } => StateView::Downloading {
                entry: *entry,
                meta: meta@,
            },
            PipelineState::Finished { outcome } => StateView::Finished { outcome: outcome@ },
        }
    }
}

/// The outside answers, one event per suspension point.
pub enum PipelineEvent {
    /// The buffered metadata fetch returned, or failed.
    MetadataResponse(Result<Vec<u8>, NetworkError>),
    /// The local file was read (`None`: absent), or could not be.
    LocalContents(Result<Option<Vec<u8>>, IoFailure>),
    /// The streaming download request failed.
    DownloadFailed(NetworkError),
    /// The streamed body could not be drained into the file.
    SaveFailed,
    /// The body was drained into the file completely.
    Saved,
}

/// The mathematical value of a [`PipelineEvent`].
pub enum EventView {
    MetadataResponse(Result<Seq<u8>, NetworkError>),
    LocalContents(Result<Option<Seq<u8>>, IoFailure>),
    DownloadFailed(NetworkError),
    SaveFailed,
    Saved,
}

impl View for PipelineEvent {
    type V = EventView;

    open spec fn view(&self) -> EventView {
        match self {
            PipelineEvent::MetadataResponse(r) => EventView::MetadataResponse(
                match r {
                    Ok(ref body) => Ok(body@),
                    Err(e) => Err(*e),
                },
            ),
            PipelineEvent::LocalContents(r) => EventView::LocalContents(
                match r {
                    Ok(Some(ref bytes)) => Ok(Some(bytes@)),
                    Ok(None) => Ok(None),
                    Err(e) => Err(*e),
                },
            ),
            PipelineEvent::DownloadFailed(e) => EventView::DownloadFailed(*e),
            PipelineEvent::SaveFailed => EventView::SaveFailed,
            PipelineEvent::Saved => EventView::Saved,
        }
    }
}

/// The transition relation of the pipeline. An event out of protocol for
/// the current state changes nothing.
pub open spec fn step_spec(s: StateView, e: EventView) -> StateView {
    match (s, e) {
        (StateView::FetchingMetadata { entry }, EventView::MetadataResponse(r)) => match r {
            Err(_) => StateView::Finished {
                outcome: OutcomeView::Failed(Stage::MetadataFetch, ErrorKind::Network),
            },
            Ok(html) => match extract_spec(html, download_url_spec(entry)) {
                None => StateView::Finished {
                    outcome: OutcomeView::Failed(Stage::MetadataParse, ErrorKind::Parse),
                },
                Some(meta) => StateView::CheckingLocal { entry, meta },
            },
        },
        (StateView::CheckingLocal { entry, meta }, EventView::LocalContents(r)) => match r {
            Err(_) => StateView::Finished {
                outcome: OutcomeView::Failed(Stage::LocalCheck, ErrorKind::Io),
            },
            Ok(local) => if local_matches(local, meta.expected_checksum) {
                StateView::Finished { outcome: OutcomeView::Skipped(SkipReason::ChecksumMatch) }
            } else {
                StateView::Downloading { entry, meta }
            },
        },
        (StateView::Downloading { .. }, EventView::DownloadFailed(_)) => StateView::Finished {
            outcome: OutcomeView::Failed(Stage::Download, ErrorKind::Network),
        },
        (StateView::Downloading { .. }, EventView::SaveFailed) => StateView::Finished {
            outcome: OutcomeView::Failed(Stage::Save, ErrorKind::Io),
        },
        (StateView::Downloading { meta, .. }, EventView::Saved) => StateView::Finished {
            outcome: OutcomeView::Downloaded(local_path_spec(meta.display_name)),
        },
        (other, _) => other,
    }
}

/// Advances one entry's pipeline by one event.
pub fn step(s: PipelineState, e: PipelineEvent) -> (next: PipelineState)
    ensures
        next@ == step_spec(s@, e@),
{
    match (s, e) {
        (PipelineState::FetchingMetadata { entry }, PipelineEvent::MetadataResponse(r)) => match r {
            Err(_) => PipelineState::Finished {
                outcome: DownloadOutcome::Failed(Stage::MetadataFetch, ErrorKind::Network),
            },
            Ok(html) => {
                let url = download_url(entry);
                match extract(html.as_slice(), url) {
                    Err(_) => PipelineState::Finished {
                        outcome: DownloadOutcome::Failed(Stage::MetadataParse, ErrorKind::Parse),
                    },
                    Ok(meta) => PipelineState::CheckingLocal { entry, meta },
                }
            },
        },
        (PipelineState::CheckingLocal { entry, meta }, PipelineEvent::LocalContents(r)) => match r {
            Err(_) => PipelineState::Finished {
                outcome: DownloadOutcome::Failed(Stage::LocalCheck, ErrorKind::Io),
            },
            Ok(local) => {
                let state = check_local(&local, &meta.expected_checksum);
                if state.checksum_matches {
                    PipelineState::Finished {
                        outcome: DownloadOutcome::Skipped(SkipReason::ChecksumMatch),
                    }
                } else {
                    PipelineState::Downloading { entry, meta }
                }
            },
        },
        (PipelineState::Downloading { .. }, PipelineEvent::DownloadFailed(_)) => {
            PipelineState::Finished {
                outcome: DownloadOutcome::Failed(Stage::Download, ErrorKind::Network),
            }
        },
        (PipelineState::Downloading { .. }, PipelineEvent::SaveFailed) => PipelineState::Finished {
            outcome: DownloadOutcome::Failed(Stage::Save, ErrorKind::Io),
        },
        (PipelineState::Downloading { meta, .. }, PipelineEvent::Saved) => {
            let path = local_path(&meta.display_name);
            PipelineState::Finished { outcome: DownloadOutcome::Downloaded(path) }
        },
        (other, _) => other,
    }
}

/// The outcome one entry reaches against the outside answers in `env`: the
/// unique terminal classification the transition relation assigns.
pub open spec fn outcome_of(entry: ManifestEntry, env: EntryEnvView) -> OutcomeView {
    match env.metadata {
        Err(_) => OutcomeView::Failed(Stage::MetadataFetch, ErrorKind::Network),
        Ok(html) => match extract_spec(html, download_url_spec(entry)) {
            None => OutcomeView::Failed(Stage::MetadataParse, ErrorKind::Parse),
            Some(meta) => match env.local {
                Err(_) => OutcomeView::Failed(Stage::LocalCheck, ErrorKind::Io),
                Ok(local) => if local_matches(local, meta.expected_checksum) {
                    OutcomeView::Skipped(SkipReason::ChecksumMatch)
                } else {
                    match env.download {
                        Err(_) => OutcomeView::Failed(Stage::Download, ErrorKind::Network),
                        Ok(_) => if env.save_ok {
                            OutcomeView::Downloaded(local_path_spec(meta.display_name))
                        } else {
                            OutcomeView::Failed(Stage::Save, ErrorKind::Io)
                        },
                    }
                },
            },
        },
    }
}

/// Runs one entry's whole pipeline against the outside answers in `env`,
/// with `file` standing for the local artifact's content.
///
/// Exactly one outcome comes back. The artifact is rewritten — with exactly
/// the downloaded bytes — only when the outcome is `Downloaded`; an entry
/// that is skipped or fails before its save leaves the artifact untouched,
/// and only a failed save may leave partial content behind.
pub fn run_entry(entry: ManifestEntry, env: EntryEnv, file: &mut Vec<u8>) -> (o: DownloadOutcome)
    ensures
        o@ == outcome_of(entry, env@),
        o@.wf(),
        o@ is Downloaded ==> final(file)@ == env@.download->Ok_0.flatten(),
        !(o@ is Downloaded) && !(o@ == OutcomeView::Failed(Stage::Save, ErrorKind::Io))
            ==> final(file)@ == old(file)@,
{
    let state = step(
        PipelineState::FetchingMetadata { entry },
        PipelineEvent::MetadataResponse(env.metadata),
    );
    let state = match state {
        PipelineState::Finished { outcome } => {
            return outcome;
        },
        s => step(s, PipelineEvent::LocalContents(env.local)),
    };
    match state {
        PipelineState::Finished { outcome } => outcome,
        s => {
            match env.download {
                Err(e) => {
                    match step(s, PipelineEvent::DownloadFailed(e)) {
                        PipelineState::Finished { outcome } => outcome,
                        _ => vstd::pervasive::unreached(),
                    }
                },
                Ok(chunks) => {
                    if env.save_ok {
                        write_stream(file, &chunks);
                        match step(s, PipelineEvent::Saved) {
                            PipelineState::Finished { outcome } => outcome,
                            _ => vstd::pervasive::unreached(),
                        }
                    } else {
                        // A failed drain leaves whatever the truncate and the
                        // partial writes left behind; here, the truncate alone.
                        file.clear();
                        match step(s, PipelineEvent::SaveFailed) {
                            PipelineState::Finished { outcome } => outcome,
                            _ => vstd::pervasive::unreached(),
                        }
                    }
                },
            }
        },
    }
}

/// Idempotence of the pipeline: after an entry was downloaded, re-running it
/// against the unchanged remote — whose metadata page still reports the
/// checksum that the downloaded body indeed carries — with the local file now
/// holding that (non-empty) body, skips.
pub proof fn lemma_rerun_skips(entry: ManifestEntry, env1: EntryEnvView, env2: EntryEnvView)
    requires
        outcome_of(entry, env1) is Downloaded,
        env2.metadata == env1.metadata,
        env2.local == Ok::<Option<Seq<u8>>, IoFailure>(Some(env1.download->Ok_0.flatten())),
        env1.download->Ok_0.flatten().len() > 0,
        digest_matches(
            env1.download->Ok_0.flatten(),
            extract_spec(
                env1.metadata->Ok_0,
                download_url_spec(entry),
            )->Some_0.expected_checksum,
        ),
    ensures
        outcome_of(entry, env2) == OutcomeView::Skipped(SkipReason::ChecksumMatch),
{
}

} // verus!
