//! Byte-level text helpers: ASCII views of string literals and decimal
//! rendering of the numeric manifest identifiers.
//!
//! All textual data in this crate (URLs, file names, checksums) is held as
//! ASCII bytes in `Vec<u8>`, so that every piece of text manipulation is
//! verified over `Seq<u8>`.

use vstd::prelude::*;
use vstd::string::StrSliceExecFns;

verus! {

/// The bytes of an ASCII character sequence, one byte per character.
pub open spec fn ascii_seq(s: Seq<char>) -> Seq<u8> {
    Seq::new(s.len(), |i: int| s[i] as u8)
}

/// The UTF-8 bytes of an ASCII string slice, as a fresh vector.
pub fn lit_bytes(s: &str) -> (v: Vec<u8>)
    requires
        vstd::string::is_ascii(s),
    ensures
        v@ == ascii_seq(s@),
{
    proof {
        broadcast use vstd::string::is_ascii_spec_bytes;

    }
    let v = s.as_bytes_vec();
    assert(v@ =~= ascii_seq(s@));
    v
}

/// The ASCII byte of a single decimal digit.
pub open spec fn digit_byte(d: nat) -> u8
    recommends
        d < 10,
{
    (48 + d) as u8
}

/// The decimal rendering of `n`, most significant digit first, with no sign
/// and no leading zero (`0` itself is rendered as `"0"`).
pub open spec fn dec_digits(n: nat) -> Seq<u8>
    decreases n,
{
    if n < 10 {
        seq![digit_byte(n)]
    } else {
        dec_digits(n / 10) + seq![digit_byte(n % 10)]
    }
}

/// Appends the decimal rendering of `n` to `out`.
pub fn push_decimal(n: u64, out: &mut Vec<u8>)
    ensures
        final(out)@ == old(out)@ + dec_digits(n as nat),
    decreases n,
{
    if n >= 10 {
        push_decimal(n / 10, out);
    }
    let d: u8 = (n % 10) as u8 + 48;
    out.push(d);
    assert(out@ =~= old(out)@ + dec_digits(n as nat));
}

} // verus!
