use modsync::extract::{extract, ExtractError};
use modsync::types::ManifestEntry;
use modsync::urls::{download_url, local_path, metadata_url};

fn page(name: &str, checksum: &str) -> Vec<u8> {
    format!(
        "<html><body><h1>Mod file</h1>\
         <span class='filename'>{}</span>\
         <div><span class='md5'>{}</span></div>\
         </body></html>",
        name, checksum
    )
    .into_bytes()
}

#[test]
fn extracts_both_fields() {
    let html = page("foo.jar", "d41d8cd98f00b204e9800998ecf8427e");
    let meta = extract(&html, b"https://example/dl".to_vec()).unwrap();
    assert_eq!(meta.display_name, b"foo.jar".to_vec());
    assert_eq!(
        meta.expected_checksum,
        b"d41d8cd98f00b204e9800998ecf8427e".to_vec()
    );
    assert_eq!(meta.source_url, b"https://example/dl".to_vec());
}

#[test]
fn missing_checksum_node_fails() {
    let html = b"<html><span class='filename'>foo.jar</span></html>".to_vec();
    let r = extract(&html, Vec::new());
    assert!(matches!(r, Err(ExtractError::MetadataNotFound)));
}

#[test]
fn missing_filename_node_fails() {
    let html = b"<html><span class='md5'>d41d8cd98f00b204e9800998ecf8427e</span></html>".to_vec();
    let r = extract(&html, Vec::new());
    assert!(matches!(r, Err(ExtractError::MetadataNotFound)));
}

#[test]
fn empty_checksum_never_returned() {
    let html = page("foo.jar", "");
    let r = extract(&html, Vec::new());
    assert!(matches!(r, Err(ExtractError::MetadataNotFound)));
}

#[test]
fn unterminated_field_fails() {
    let html = b"<html><span class='filename'>foo.jar".to_vec();
    let r = extract(&html, Vec::new());
    assert!(matches!(r, Err(ExtractError::MetadataNotFound)));
}

#[test]
fn empty_page_fails() {
    let r = extract(b"", Vec::new());
    assert!(matches!(r, Err(ExtractError::MetadataNotFound)));
}

#[test]
fn first_occurrence_wins() {
    let html = page("first.jar", "aa").into_iter().chain(page("second.jar", "bb")).collect::<Vec<u8>>();
    let meta = extract(&html, Vec::new()).unwrap();
    assert_eq!(meta.display_name, b"first.jar".to_vec());
    assert_eq!(meta.expected_checksum, b"aa".to_vec());
}

#[test]
fn metadata_url_template() {
    let entry = ManifestEntry { project_id: 1, file_id: 2 };
    assert_eq!(
        metadata_url(entry),
        b"https://minecraft.curseforge.com/projects/1/files/2".to_vec()
    );
}

#[test]
fn download_url_is_metadata_url_plus_suffix() {
    let entry = ManifestEntry { project_id: 238222, file_id: 2353623 };
    let mut expected = metadata_url(entry);
    expected.extend_from_slice(b"/download");
    assert_eq!(download_url(entry), expected);
    assert_eq!(
        download_url(entry),
        b"https://minecraft.curseforge.com/projects/238222/files/2353623/download".to_vec()
    );
}

#[test]
fn url_of_largest_ids() {
    let entry = ManifestEntry { project_id: u64::MAX, file_id: 0 };
    assert_eq!(
        metadata_url(entry),
        b"https://minecraft.curseforge.com/projects/18446744073709551615/files/0".to_vec()
    );
}

#[test]
fn local_path_prefixes_mods_dir() {
    assert_eq!(local_path(&b"foo.jar".to_vec()), b"mods/foo.jar".to_vec());
    assert_eq!(local_path(&Vec::new()), b"mods/".to_vec());
}
