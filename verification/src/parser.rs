//! Version information read from Windows executables.

use vstd::prelude::*;
use vstd::utf8::{decode_utf8, valid_utf8};
use crate::text::{trim_str, trimmed};

verus! {

broadcast use vstd::string::group_string_axioms;

/// Version information as the PE reader fills it in: flags and
/// NUL-terminated text fields of fixed size.
pub struct PeMetadataRaw {
    pub is_valid: bool,
    pub is_64bit: bool,
    pub product_name: [u8; 128],
    pub product_version: [u8; 64],
    pub company_name: [u8; 128],
}

/// Version information of an executable.
pub struct PeMetadata {
    pub is_64bit: bool,
    pub product_name: String,
    pub product_version: String,
    pub company_name: String,
}

/// The text that `String::from_utf8_lossy` makes of some bytes: their UTF-8
/// decoding, each invalid sequence replaced by U+FFFD.
pub uninterp spec fn utf8_lossy(bytes: Seq<u8>) -> Seq<char>;

/// std's `String::from_utf8_lossy`.
/// Claims: the result is `utf8_lossy` of the bytes, and for valid UTF-8 it
/// is exactly their decoding.
#[verifier::external_body]
fn decode_utf8_lossy(bytes: &[u8]) -> (s: String)
    ensures
        s@ == utf8_lossy(bytes@),
        valid_utf8(bytes@) ==> s@ == decode_utf8(bytes@),
{
    String::from_utf8_lossy(bytes).into_owned()
}

/// The position of the first zero byte at or after `i`, or the length when
/// there is none.
pub open spec fn nul_from(b: Seq<u8>, i: int) -> int
    decreases b.len() - i,
{
    if i < 0 || i >= b.len() {
        b.len() as int
    } else if b[i] == 0 {
        i
    } else {
        nul_from(b, i + 1)
    }
}

/// The position of the first zero byte, or the length when there is none.
pub open spec fn nul_end(b: Seq<u8>) -> int {
    nul_from(b, 0)
}

/// The text of a NUL-terminated field: the bytes before the first zero,
/// decoded (lossily) and trimmed of white space.
pub open spec fn field_text(b: Seq<u8>) -> Seq<char> {
    trimmed(utf8_lossy(b.take(nul_end(b))))
}

/// The text of a NUL-terminated byte field.
pub fn bytes_to_string(bytes: &[u8]) -> (s: String)
    ensures
        s@ == field_text(bytes@),
        valid_utf8(bytes@.take(nul_end(bytes@))) ==> s@ == trimmed(
            decode_utf8(bytes@.take(nul_end(bytes@))),
        ),
{
    let mut len: usize = 0;
    while len < bytes.len() && bytes[len] != 0
        invariant
            len <= bytes@.len(),
            nul_end(bytes@) == nul_from(bytes@, len as int),
        decreases bytes.len() - len,
    {
        len = len + 1;
    }
    assert(nul_end(bytes@) == len);
    let mut prefix: Vec<u8> = Vec::new();
    let mut k: usize = 0;
    while k < len
        invariant
            k <= len <= bytes@.len(),
            prefix@ == bytes@.take(k as int),
        decreases len - k,
    {
        prefix.push(bytes[k]);
        k = k + 1;
        assert(prefix@ =~= bytes@.take(k as int));
    }
    assert(prefix@ == bytes@.take(nul_end(bytes@)));
    let text = decode_utf8_lossy(prefix.as_slice());
    trim_str(text.as_str())
}

impl PeMetadata {
    /// The metadata of an executable from what the PE reader filled in,
    /// when it reported success and marked the result valid.
    pub fn from_raw(read_ok: bool, raw: &PeMetadataRaw) -> (r: Option<PeMetadata>)
        ensures
            r is Some <==> read_ok && raw.is_valid,
            r matches Some(m) ==> {
                &&& m.is_64bit == raw.is_64bit
                &&& m.product_name@ == field_text(raw.product_name@)
                &&& m.product_version@ == field_text(raw.product_version@)
                &&& m.company_name@ == field_text(raw.company_name@)
            },
    {
        if read_ok && raw.is_valid {
            Some(
                PeMetadata {
                    is_64bit: raw.is_64bit,
                    product_name: bytes_to_string(raw.product_name.as_slice()),
                    product_version: bytes_to_string(raw.product_version.as_slice()),
                    company_name: bytes_to_string(raw.company_name.as_slice()),
                },
            )
        } else {
            None
        }
    }
}

} // verus!
