//! Content-digest verification: the MD5 digest of the candidate bytes,
//! rendered as lowercase hex, compared case-insensitively against the
//! expected hex digest.

use vstd::prelude::*;

verus! {

/// The 16-byte MD5 digest of a byte sequence. The digest is a pure function
/// of the bytes; its value is not restated here.
pub uninterp spec fn digest_of(data: Seq<u8>) -> Seq<u8>;

/// Relies on `md5::compute`: the 16-byte MD5 digest of the input, a function
/// of the input bytes alone.
#[verifier::external_body]
fn md5_digest(data: &[u8]) -> (r: Vec<u8>)
    ensures
        r@ == digest_of(data@),
        r@.len() == 16,
{
    md5::compute(data).0.to_vec()
}

/// The lowercase hex byte of a value below 16.
pub open spec fn hex_digit(d: nat) -> u8
    recommends
        d < 16,
{
    if d < 10 {
        (48 + d) as u8
    } else {
        (87 + d) as u8
    }
}

/// The lowercase hex rendering of a byte sequence, two digits per byte,
/// high nibble first.
pub open spec fn hex_of(bytes: Seq<u8>) -> Seq<u8> {
    Seq::new(
        2 * bytes.len(),
        |i: int|
            if i % 2 == 0 {
                hex_digit((bytes[i / 2] / 16) as nat)
            } else {
                hex_digit((bytes[i / 2] % 16) as nat)
            },
    )
}

/// ASCII lowercasing of one byte.
pub open spec fn lower_byte(b: u8) -> u8 {
    if 65 <= b <= 90 {
        (b + 32) as u8
    } else {
        b
    }
}

/// ASCII uppercasing of one byte.
pub open spec fn upper_byte(b: u8) -> u8 {
    if 97 <= b <= 122 {
        (b - 32) as u8
    } else {
        b
    }
}

/// ASCII lowercasing of a byte sequence.
pub open spec fn lower_seq(s: Seq<u8>) -> Seq<u8> {
    Seq::new(s.len(), |i: int| lower_byte(s[i]))
}

/// ASCII uppercasing of a byte sequence.
pub open spec fn upper_seq(s: Seq<u8>) -> Seq<u8> {
    Seq::new(s.len(), |i: int| upper_byte(s[i]))
}

/// Whether `expected`, lowercased, is the hex rendering of the MD5 digest
/// of `data`.
pub open spec fn digest_matches(data: Seq<u8>, expected: Seq<u8>) -> bool {
    lower_seq(expected) == hex_of(digest_of(data))
}

/// Renders `bytes` as lowercase hex.
pub fn hex_render(bytes: &[u8]) -> (v: Vec<u8>)
    ensures
        v@ == hex_of(bytes@),
{
    let mut v: Vec<u8> = Vec::new();
    let mut i: usize = 0;
    while i < bytes.len()
        invariant
            i <= bytes@.len(),
            v@ == hex_of(bytes@.subrange(0, i as int)),
        decreases bytes@.len() - i,
    {
        let b = bytes[i];
        let hi: u8 = b / 16;
        let lo: u8 = b % 16;
        v.push(if hi < 10 { 48 + hi } else { 87 + hi });
        v.push(if lo < 10 { 48 + lo } else { 87 + lo });
        i = i + 1;
        assert(v@ =~= hex_of(bytes@.subrange(0, i as int)));
    }
    assert(bytes@.subrange(0, bytes@.len() as int) =~= bytes@);
    v
}

/// Verifies `data` against the expected hex digest, case-insensitively.
///
/// Returns `true` exactly when the lowercased expected digest equals the
/// lowercase hex rendering of the MD5 digest of `data`.
pub fn verify(data: &[u8], expected: &[u8]) -> (r: bool)
    ensures
        r == digest_matches(data@, expected@),
{
    let digest = md5_digest(data);
    let rendered = hex_render(digest.as_slice());
    if expected.len() != rendered.len() {
        assert(lower_seq(expected@).len() != hex_of(digest_of(data@)).len());
        return false;
    }
    let mut i: usize = 0;
    while i < expected.len()
        invariant
            expected@.len() == rendered@.len(),
            rendered@ == hex_of(digest_of(data@)),
            i <= expected@.len(),
            forall|j: int| 0 <= j < i ==> lower_byte(expected@[j]) == rendered@[j],
        decreases expected@.len() - i,
    {
        let e = expected[i];
        let low: u8 = if 65 <= e && e <= 90 {
            e + 32
        } else {
            e
        };
        if low != rendered[i] {
            assert(lower_seq(expected@)[i as int] != hex_of(digest_of(data@))[i as int]);
            return false;
        }
        i = i + 1;
    }
    assert(lower_seq(expected@) =~= hex_of(digest_of(data@)));
    true
}

/// Every byte of a hex rendering is a digit or a lowercase letter, so
/// lowercasing it changes nothing.
proof fn lemma_hex_is_lowercase(bytes: Seq<u8>)
    ensures
        lower_seq(hex_of(bytes)) == hex_of(bytes),
{
    assert(lower_seq(hex_of(bytes)) =~= hex_of(bytes));
}

/// Round trip: a digest freshly rendered from the data always verifies.
pub proof fn lemma_verify_roundtrip(data: Seq<u8>)
    ensures
        digest_matches(data, hex_of(digest_of(data))),
{
    lemma_hex_is_lowercase(digest_of(data));
}

/// Case-insensitivity: the uppercased rendering of the digest verifies too.
pub proof fn lemma_verify_case_insensitive(data: Seq<u8>)
    ensures
        digest_matches(data, upper_seq(hex_of(digest_of(data)))),
{
    assert(lower_seq(upper_seq(hex_of(digest_of(data)))) =~= hex_of(digest_of(data)));
}

/// Case-insensitivity in general: verification only reads the expected
/// digest through its lowercasing, so uppercasing the expected digest
/// never changes the answer.
pub proof fn lemma_verify_ignores_case(data: Seq<u8>, expected: Seq<u8>)
    ensures
        digest_matches(data, upper_seq(expected)) == digest_matches(data, expected),
        digest_matches(data, lower_seq(expected)) == digest_matches(data, expected),
{
    assert(lower_seq(upper_seq(expected)) =~= lower_seq(expected));
    assert(lower_seq(lower_seq(expected)) =~= lower_seq(expected));
}

} // verus!
