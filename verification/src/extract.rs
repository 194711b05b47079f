//! Extraction of the authoritative display name and expected checksum from
//! the raw bytes of a metadata page.
//!
//! The page is HTML; the two values stand in dedicated elements. Each value
//! is the text between a fixed structural marker and the following tag
//! opener. A page lacking either element, or carrying an empty value, is
//! rejected: markup drift must fail loudly, never default.

use vstd::prelude::*;
use crate::search::{find, find_byte, find_byte_from, find_first, copy_range, lemma_find_first,
    lemma_find_byte_from, occurs_at};
use crate::text::{ascii_seq, lit_bytes};
use crate::types::{ModMetadata, ModMetadataView};

verus! {

/// The extraction failure: an expected metadata element was absent.
#[derive(Clone, Copy, PartialEq, Eq, Structural, Debug)]
pub enum ExtractError {
    MetadataNotFound,
}

/// The marker that precedes the display filename.
pub open spec fn name_marker() -> Seq<u8> {
    ascii_seq("<span class='filename'>"@)
}

/// The marker that precedes the checksum.
pub open spec fn md5_marker() -> Seq<u8> {
    ascii_seq("<span class='md5'>"@)
}

/// The text between the first occurrence of `marker` and the next tag
/// opener: present exactly when the marker occurs, a `<` follows it, and
/// the text between the two is non-empty.
pub open spec fn field_after(h: Seq<u8>, marker: Seq<u8>) -> Option<Seq<u8>> {
    match find_first(h, marker) {
        None => None,
        Some(i) => {
            let start = i + marker.len();
            match find_byte_from(h, '<' as u8, start) {
                None => None,
                Some(end) => if end > start {
                    Some(h.subrange(start as int, end))
                } else {
                    None
                },
            }
        },
    }
}

/// The metadata the page yields: the display name and the checksum, with the
/// given source URL attached; `None` when either element is missing or empty.
pub open spec fn extract_spec(h: Seq<u8>, source_url: Seq<u8>) -> Option<ModMetadataView> {
    match field_after(h, name_marker()) {
        None => None,
        Some(name) => match field_after(h, md5_marker()) {
            None => None,
            Some(ck) => Some(
                ModMetadataView {
                    display_name: name,
                    expected_checksum: ck,
                    source_url: source_url,
                },
            ),
        },
    }
}

/// Finds the value of the field introduced by `marker` in `h`.
fn field_value(h: &[u8], marker: &[u8]) -> (r: Option<Vec<u8>>)
    requires
        marker@.len() >= 1,
    ensures
        match r {
            Some(v) => field_after(h@, marker@) == Some(v@) && v@.len() > 0,
            None => field_after(h@, marker@) is None,
        },
{
    match find(h, marker) {
        None => None,
        Some(i) => {
            proof {
                vstd::slice::axiom_spec_len(h);
                lemma_find_first(h@, marker@);
                assert(occurs_at(h@, marker@, i as int));
            }
            let start: usize = i + marker.len();
            match find_byte(h, '<' as u8, start) {
                None => None,
                Some(end) => {
                    proof {
                        lemma_find_byte_from(h@, '<' as u8, start as int);
                    }
                    if end > start {
                        Some(copy_range(h, start, end))
                    } else {
                        None
                    }
                },
            }
        },
    }
}

/// Extracts the display name and the expected checksum from the metadata
/// page `html`, attaching `source_url` as the page's download URL.
///
/// Succeeds exactly when the page holds both elements with non-empty
/// values; a page lacking either fails with `MetadataNotFound` and never
/// yields a default or empty value.
pub fn extract(html: &[u8], source_url: Vec<u8>) -> (r: Result<ModMetadata, ExtractError>)
    ensures
        r is Ok <==> extract_spec(html@, source_url@) is Some,
        r matches Ok(m) ==> extract_spec(html@, source_url@) == Some(m@),
        r matches Ok(m) ==> m@.expected_checksum.len() > 0 && m@.display_name.len() > 0,
        r matches Err(e) ==> e == ExtractError::MetadataNotFound,
{
    proof {
        reveal_strlit("<span class='filename'>");
        reveal_strlit("<span class='md5'>");
    }
    let name_pat = lit_bytes("<span class='filename'>");
    let md5_pat = lit_bytes("<span class='md5'>");
    let name = match field_value(html, name_pat.as_slice()) {
        Some(v) => v,
        None => {
            return Err(ExtractError::MetadataNotFound);
        },
    };
    let checksum = match field_value(html, md5_pat.as_slice()) {
        Some(v) => v,
        None => {
            return Err(ExtractError::MetadataNotFound);
        },
    };
    Ok(
        ModMetadata {
            display_name: name,
            expected_checksum: checksum,
            source_url: source_url,
        },
    )
}

} // verus!
