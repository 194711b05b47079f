use modsync::pipeline::{check_local, step, PipelineEvent, PipelineState};
use modsync::search::{find, find_byte};
use modsync::types::{
    DownloadOutcome, ErrorKind, LocalFileState, ManifestEntry, NetworkError, Stage,
};

fn entry() -> ManifestEntry {
    ManifestEntry { project_id: 7, file_id: 9 }
}

fn page() -> Vec<u8> {
    b"<span class='filename'>a.jar</span><span class='md5'>d41d8cd98f00b204e9800998ecf8427e</span>"
        .to_vec()
}

#[test]
fn metadata_response_moves_to_checking_local() {
    let s = step(
        PipelineState::FetchingMetadata { entry: entry() },
        PipelineEvent::MetadataResponse(Ok(page())),
    );
    match s {
        PipelineState::CheckingLocal { entry: e, meta } => {
            assert_eq!(e, entry());
            assert_eq!(meta.display_name, b"a.jar".to_vec());
            assert_eq!(
                meta.source_url,
                b"https://minecraft.curseforge.com/projects/7/files/9/download".to_vec()
            );
        }
        other => panic!("unexpected state: {:?}", state_name(&other)),
    }
}

#[test]
fn metadata_failure_finishes_at_fetch_stage() {
    let s = step(
        PipelineState::FetchingMetadata { entry: entry() },
        PipelineEvent::MetadataResponse(Err(NetworkError::Connection)),
    );
    match s {
        PipelineState::Finished { outcome } => assert!(matches!(
            outcome,
            DownloadOutcome::Failed(Stage::MetadataFetch, ErrorKind::Network)
        )),
        other => panic!("unexpected state: {:?}", state_name(&other)),
    }
}

#[test]
fn out_of_protocol_event_changes_nothing() {
    let s = step(
        PipelineState::FetchingMetadata { entry: entry() },
        PipelineEvent::Saved,
    );
    assert!(matches!(s, PipelineState::FetchingMetadata { .. }));
}

#[test]
fn check_local_reports_absent_file() {
    let state = check_local(&None, &b"d41d8cd98f00b204e9800998ecf8427e".to_vec());
    assert_eq!(state, LocalFileState { exists: false, checksum_matches: false });
}

#[test]
fn check_local_empty_file_never_matches() {
    let state = check_local(&Some(Vec::new()), &b"d41d8cd98f00b204e9800998ecf8427e".to_vec());
    assert_eq!(state, LocalFileState { exists: true, checksum_matches: false });
}

#[test]
fn check_local_matching_content() {
    // MD5 of "abc".
    let state = check_local(
        &Some(b"abc".to_vec()),
        &b"900150983cd24fb0d6963f7d28e17f72".to_vec(),
    );
    assert_eq!(state, LocalFileState { exists: true, checksum_matches: true });
}

#[test]
fn find_first_occurrence() {
    assert_eq!(find(b"abcabc", b"bc"), Some(1));
    assert_eq!(find(b"abcabc", b"abcabc"), Some(0));
    assert_eq!(find(b"abcabc", b"cb"), None);
    assert_eq!(find(b"", b"a"), None);
}

#[test]
fn find_byte_respects_offset() {
    assert_eq!(find_byte(b"a<b<c", b'<', 0), Some(1));
    assert_eq!(find_byte(b"a<b<c", b'<', 2), Some(3));
    assert_eq!(find_byte(b"a<b<c", b'<', 4), None);
}

fn state_name(s: &PipelineState) -> &'static str {
    match s {
        PipelineState::FetchingMetadata { .. } => "FetchingMetadata",
        PipelineState::CheckingLocal { .. } => "CheckingLocal",
        PipelineState::Downloading { .. } => "Downloading",
        PipelineState::Finished { .. } => "Finished",
    }
}
