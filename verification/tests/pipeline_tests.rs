use modsync::checksum::{hex_render, verify};
use modsync::orchestrator::run;
use modsync::pipeline::{run_entry, EntryEnv};
use modsync::stream::{write_buffered, write_stream};
use modsync::types::{error_kind_of, DownloadOutcome, ErrorKind, ManifestEntry, NetworkError, SkipReason, Stage};

fn page(name: &str, checksum: &[u8]) -> Vec<u8> {
    let mut html = b"<html><span class='filename'>".to_vec();
    html.extend_from_slice(name.as_bytes());
    html.extend_from_slice(b"</span><span class='md5'>");
    html.extend_from_slice(checksum);
    html.extend_from_slice(b"</span></html>");
    html
}

fn hex_digest(data: &[u8]) -> Vec<u8> {
    hex_render(&md5::compute(data).0)
}

fn good_env(name: &str, body: &[u8]) -> EntryEnv {
    EntryEnv {
        metadata: Ok(page(name, &hex_digest(body))),
        local: Ok(None),
        download: Ok(vec![body.to_vec()]),
        save_ok: true,
    }
}

#[test]
fn concrete_scenario_downloads_and_verifies() {
    // Entry {1, 2}; the page reports `foo.jar` with the empty-content
    // digest; `mods/foo.jar` does not exist beforehand.
    let entries = vec![ManifestEntry { project_id: 1, file_id: 2 }];
    let env = EntryEnv {
        metadata: Ok(page("foo.jar", b"d41d8cd98f00b204e9800998ecf8427e")),
        local: Ok(None),
        download: Ok(Vec::new()),
        save_ok: true,
    };
    let outcomes = run(&entries, vec![env]);
    assert_eq!(outcomes.len(), 1);
    match &outcomes[0] {
        DownloadOutcome::Downloaded(path) => assert_eq!(path, &b"mods/foo.jar".to_vec()),
        other => panic!("expected Downloaded, got {:?}", other),
    }
    // The saved bytes are the drained chunk stream; here the empty body.
    let mut file = b"stale content".to_vec();
    let env = EntryEnv {
        metadata: Ok(page("foo.jar", b"d41d8cd98f00b204e9800998ecf8427e")),
        local: Ok(None),
        download: Ok(Vec::new()),
        save_ok: true,
    };
    let o = run_entry(entries[0], env, &mut file);
    assert!(matches!(o, DownloadOutcome::Downloaded(_)));
    assert!(verify(&file, b"d41d8cd98f00b204e9800998ecf8427e"));
}

#[test]
fn one_outcome_per_entry() {
    let entries: Vec<ManifestEntry> =
        (0..5).map(|i| ManifestEntry { project_id: i, file_id: i + 1 }).collect();
    let envs: Vec<EntryEnv> = (0..5).map(|i| good_env(&format!("m{}.jar", i), b"x")).collect();
    let outcomes = run(&entries, envs);
    assert_eq!(outcomes.len(), entries.len());
}

#[test]
fn rerun_with_saved_file_skips() {
    let entry = ManifestEntry { project_id: 3, file_id: 4 };
    let body = b"the mod bytes";

    let mut file = Vec::new();
    let o1 = run_entry(entry, good_env("m.jar", body), &mut file);
    assert!(matches!(o1, DownloadOutcome::Downloaded(_)));
    assert_eq!(file, body.to_vec());

    // Second run: unchanged remote, local file now holds the saved bytes.
    let env2 = EntryEnv {
        metadata: Ok(page("m.jar", &hex_digest(body))),
        local: Ok(Some(file.clone())),
        download: Ok(vec![body.to_vec()]),
        save_ok: true,
    };
    let mut file2 = file.clone();
    let o2 = run_entry(entry, env2, &mut file2);
    assert!(matches!(o2, DownloadOutcome::Skipped(SkipReason::ChecksumMatch)));
    assert_eq!(file2, file);
}

#[test]
fn empty_local_file_downloads_again() {
    let entry = ManifestEntry { project_id: 1, file_id: 1 };
    let env = EntryEnv {
        metadata: Ok(page("m.jar", b"d41d8cd98f00b204e9800998ecf8427e")),
        local: Ok(Some(Vec::new())),
        download: Ok(Vec::new()),
        save_ok: true,
    };
    let mut file = Vec::new();
    let o = run_entry(entry, env, &mut file);
    assert!(matches!(o, DownloadOutcome::Downloaded(_)));
}

#[test]
fn checksum_mismatch_downloads_again() {
    let entry = ManifestEntry { project_id: 1, file_id: 1 };
    let env = EntryEnv {
        metadata: Ok(page("m.jar", &hex_digest(b"new version"))),
        local: Ok(Some(b"old version".to_vec())),
        download: Ok(vec![b"new version".to_vec()]),
        save_ok: true,
    };
    let mut file = b"old version".to_vec();
    let o = run_entry(entry, env, &mut file);
    assert!(matches!(o, DownloadOutcome::Downloaded(_)));
    assert_eq!(file, b"new version".to_vec());
}

#[test]
fn each_stage_fails_with_its_error_kind() {
    let entry = ManifestEntry { project_id: 1, file_id: 1 };
    let cases: Vec<(EntryEnv, Stage, ErrorKind)> = vec![
        (
            EntryEnv {
                metadata: Err(NetworkError::Timeout),
                local: Ok(None),
                download: Ok(Vec::new()),
                save_ok: true,
            },
            Stage::MetadataFetch,
            ErrorKind::Network,
        ),
        (
            EntryEnv {
                metadata: Ok(b"<html>no markers here</html>".to_vec()),
                local: Ok(None),
                download: Ok(Vec::new()),
                save_ok: true,
            },
            Stage::MetadataParse,
            ErrorKind::Parse,
        ),
        (
            EntryEnv {
                metadata: Ok(page("m.jar", b"aa")),
                local: Err(modsync::types::IoFailure::Read),
                download: Ok(Vec::new()),
                save_ok: true,
            },
            Stage::LocalCheck,
            ErrorKind::Io,
        ),
        (
            EntryEnv {
                metadata: Ok(page("m.jar", b"aa")),
                local: Ok(None),
                download: Err(NetworkError::Status(503)),
                save_ok: true,
            },
            Stage::Download,
            ErrorKind::Network,
        ),
        (
            EntryEnv {
                metadata: Ok(page("m.jar", b"aa")),
                local: Ok(None),
                download: Ok(vec![b"body".to_vec()]),
                save_ok: false,
            },
            Stage::Save,
            ErrorKind::Io,
        ),
    ];
    for (env, stage, kind) in cases {
        let mut file = Vec::new();
        let o = run_entry(entry, env, &mut file);
        match o {
            DownloadOutcome::Failed(s, k) => {
                assert_eq!(s, stage);
                assert_eq!(k, kind);
            },
            other => panic!("expected Failed({:?}), got {:?}", stage, other),
        }
    }
}

#[test]
fn one_failing_entry_leaves_the_others_done() {
    // Entry 1 of 3 is engineered to fail at the parse stage; the other two
    // still settle as Downloaded.
    let entries: Vec<ManifestEntry> =
        (0..3).map(|i| ManifestEntry { project_id: i, file_id: i }).collect();
    let envs = vec![
        good_env("a.jar", b"aaa"),
        EntryEnv {
            metadata: Ok(b"<html>markup drifted</html>".to_vec()),
            local: Ok(None),
            download: Ok(Vec::new()),
            save_ok: true,
        },
        good_env("c.jar", b"ccc"),
    ];
    let outcomes = run(&entries, envs);
    assert_eq!(outcomes.len(), 3);
    assert!(matches!(outcomes[0], DownloadOutcome::Downloaded(_)));
    assert!(matches!(
        outcomes[1],
        DownloadOutcome::Failed(Stage::MetadataParse, ErrorKind::Parse)
    ));
    assert!(matches!(outcomes[2], DownloadOutcome::Downloaded(_)));
}

#[test]
fn streamed_write_equals_buffered_write() {
    let source = b"abcdefghijklmnopqrstuvwxyz0123456789".to_vec();
    // Uneven chunking, with an empty chunk at a boundary.
    let chunks = vec![
        b"abcde".to_vec(),
        b"".to_vec(),
        b"fghijklmnopqrs".to_vec(),
        b"tuvwxyz0123456789".to_vec(),
    ];
    let mut streamed = b"previous content, longer than the source".to_vec();
    let n = write_stream(&mut streamed, &chunks);
    let mut buffered = Vec::new();
    let m = write_buffered(&mut buffered, &source);
    assert_eq!(streamed, buffered);
    assert_eq!(streamed, source);
    assert_eq!(n, m);
}

#[test]
fn write_stream_truncates_prior_content() {
    let mut file = b"a long stale artifact that must vanish".to_vec();
    let n = write_stream(&mut file, &vec![b"new".to_vec()]);
    assert_eq!(file, b"new".to_vec());
    assert_eq!(n, 3);
}

#[test]
fn failed_entries_report_reason_kinds() {
    assert_eq!(error_kind_of(Stage::MetadataFetch), ErrorKind::Network);
    assert_eq!(error_kind_of(Stage::MetadataParse), ErrorKind::Parse);
    assert_eq!(error_kind_of(Stage::LocalCheck), ErrorKind::Io);
    assert_eq!(error_kind_of(Stage::Download), ErrorKind::Network);
    assert_eq!(error_kind_of(Stage::Save), ErrorKind::Io);
}
