//! Building the metadata URL, the download URL and the local path of an
//! entry, as ASCII bytes.

use vstd::prelude::*;
use crate::text::{ascii_seq, dec_digits, lit_bytes, push_decimal};
use crate::types::ManifestEntry;

verus! {

/// The fixed prefix of every metadata URL.
pub open spec fn url_prefix() -> Seq<u8> {
    ascii_seq("https://minecraft.curseforge.com/projects/"@)
}

/// The path segment between the project id and the file id.
pub open spec fn files_segment() -> Seq<u8> {
    ascii_seq("/files/"@)
}

/// The suffix that turns a metadata URL into its download URL.
pub open spec fn download_suffix() -> Seq<u8> {
    ascii_seq("/download"@)
}

/// The fixed directory that every artifact is written under.
pub open spec fn local_dir() -> Seq<u8> {
    ascii_seq("mods/"@)
}

/// The metadata URL of an entry:
/// `https://<host>/projects/{projectID}/files/{fileID}`.
pub open spec fn metadata_url_spec(entry: ManifestEntry) -> Seq<u8> {
    url_prefix() + dec_digits(entry.project_id as nat) + files_segment() + dec_digits(
        entry.file_id as nat,
    )
}

/// The download URL of an entry: its metadata URL plus a fixed suffix.
pub open spec fn download_url_spec(entry: ManifestEntry) -> Seq<u8> {
    metadata_url_spec(entry) + download_suffix()
}

/// The local path an entry's artifact is written to: the fixed directory
/// plus the display name scraped from the metadata page.
pub open spec fn local_path_spec(display_name: Seq<u8>) -> Seq<u8> {
    local_dir() + display_name
}

/// Builds the metadata URL of `entry`.
pub fn metadata_url(entry: ManifestEntry) -> (url: Vec<u8>)
    ensures
        url@ == metadata_url_spec(entry),
{
    proof {
        reveal_strlit("https://minecraft.curseforge.com/projects/");
        reveal_strlit("/files/");
    }
    let mut url = lit_bytes("https://minecraft.curseforge.com/projects/");
    push_decimal(entry.project_id, &mut url);
    let mut seg = lit_bytes("/files/");
    url.append(&mut seg);
    push_decimal(entry.file_id, &mut url);
    assert(url@ =~= metadata_url_spec(entry));
    url
}

/// Builds the download URL of `entry`.
pub fn download_url(entry: ManifestEntry) -> (url: Vec<u8>)
    ensures
        url@ == download_url_spec(entry),
{
    proof {
        reveal_strlit("/download");
    }
    let mut url = metadata_url(entry);
    let mut suffix = lit_bytes("/download");
    url.append(&mut suffix);
    assert(url@ =~= download_url_spec(entry));
    url
}

/// Builds the local path for an artifact named `display_name`.
pub fn local_path(display_name: &Vec<u8>) -> (path: Vec<u8>)
    ensures
        path@ == local_path_spec(display_name@),
{
    proof {
        reveal_strlit("mods/");
    }
    let mut path = lit_bytes("mods/");
    let mut i: usize = 0;
    while i < display_name.len()
        invariant
            i <= display_name.len(),
            path@ == local_dir() + display_name@.subrange(0, i as int),
        decreases display_name.len() - i,
    {
        path.push(display_name[i]);
        i = i + 1;
        assert(path@ =~= local_dir() + display_name@.subrange(0, i as int));
    }
    assert(display_name@.subrange(0, display_name@.len() as int) =~= display_name@);
    path
}

} // verus!
