//! Length-prefixed and externally-sized string fields.
//!
//! A string field is a little-endian `u32` byte count followed by that many
//! bytes, decoded under the field's legacy code page. A zero count means the
//! field is not present — it is `None`, never the empty string. Decoding is
//! delegated to `encoding_rs`; the decoded text of each code page is named
//! by an uninterpreted function, since spelling out the code-page tables
//! here would state nothing checkable.

use vstd::prelude::*;

use crate::inno::reader::{take_bytes, take_u32, InnoError, Reader};

verus! {

/// The two legacy code pages the header uses.
#[derive(Clone, Copy, Debug, PartialEq, Eq, Structural)]
pub enum Codepage {
    Utf16Le,
    Windows1252,
}

/// The text that `encoding_rs`'s UTF-16LE decoder produces for `bytes`.
pub uninterp spec fn utf16le_of(bytes: Seq<u8>) -> Seq<char>;

/// The text that `encoding_rs`'s windows-1252 decoder produces for `bytes`.
pub uninterp spec fn windows1252_of(bytes: Seq<u8>) -> Seq<char>;

/// The text that `String::from_utf8_lossy` produces for `bytes`.
pub uninterp spec fn utf8_lossy_of(bytes: Seq<u8>) -> Seq<char>;

/// Relies on `encoding_rs::UTF_16LE.decode`: a lossy, BOM-sniffing decode
/// whose result depends on the input bytes alone; empty input gives the
/// empty string.
#[verifier::external_body]
fn decode_utf16le(bytes: &[u8]) -> (r: String)
    ensures
        r@ == utf16le_of(bytes@),
        bytes@.len() == 0 ==> r@.len() == 0,
{
    encoding_rs::UTF_16LE.decode(bytes).0.into_owned()
}

/// Relies on `encoding_rs::WINDOWS_1252.decode`: a lossy, BOM-sniffing
/// decode whose result depends on the input bytes alone; empty input gives
/// the empty string.
#[verifier::external_body]
fn decode_windows1252(bytes: &[u8]) -> (r: String)
    ensures
        r@ == windows1252_of(bytes@),
        bytes@.len() == 0 ==> r@.len() == 0,
{
    encoding_rs::WINDOWS_1252.decode(bytes).0.into_owned()
}

/// Relies on `String::from_utf8_lossy`: invalid UTF-8 sequences are
/// replaced, valid input is kept as is, and the result depends on the input
/// bytes alone.
#[verifier::external_body]
pub fn utf8_lossy(bytes: &[u8]) -> (r: String)
    ensures
        r@ == utf8_lossy_of(bytes@),
{
    String::from_utf8_lossy(bytes).into_owned()
}

/// The decoded text of `bytes` under `cp`.
pub open spec fn decode_spec(bytes: Seq<u8>, cp: Codepage) -> Seq<char> {
    match cp {
        Codepage::Utf16Le => utf16le_of(bytes),
        Codepage::Windows1252 => windows1252_of(bytes),
    }
}

fn decode_codepage(bytes: &Vec<u8>, cp: Codepage) -> (r: String)
    ensures
        r@ == decode_spec(bytes@, cp),
{
    match cp {
        Codepage::Utf16Le => decode_utf16le(bytes.as_slice()),
        Codepage::Windows1252 => decode_windows1252(bytes.as_slice()),
    }
}

/// The view of an optional string field.
pub open spec fn opt_view(o: Option<String>) -> Option<Seq<char>> {
    match o {
        Some(s) => Some(s@),
        None => None,
    }
}

/// A length-prefixed string at `p`: a `u32` byte count, then that many
/// bytes decoded under `cp`; a count of zero means "not present".
pub open spec fn take_string(s: Seq<u8>, p: int, cp: Codepage) -> Result<
    (Option<Seq<char>>, int),
    InnoError,
> {
    match take_u32(s, p) {
        Err(e) => Err(e),
        Ok((len, p2)) => if len == 0 {
            Ok((None, p2))
        } else {
            match take_bytes(s, p2, len as int) {
                Err(e) => Err(e),
                Ok((bytes, p3)) => Ok((Some(decode_spec(bytes, cp)), p3)),
            }
        },
    }
}

/// An externally sized string at `p`: `len` bytes decoded under `cp`, with
/// a length of zero again meaning "not present".
pub open spec fn take_sized_string(s: Seq<u8>, p: int, len: u32, cp: Codepage) -> Result<
    (Option<Seq<char>>, int),
    InnoError,
> {
    if len == 0 {
        Ok((None, p))
    } else {
        match take_bytes(s, p, len as int) {
            Err(e) => Err(e),
            Ok((bytes, p2)) => Ok((Some(decode_spec(bytes, cp)), p2)),
        }
    }
}

/// Reads a length-prefixed string field.
pub fn encoded_string(r: &mut Reader, cp: Codepage) -> (res: Result<Option<String>, InnoError>)
    ensures
        final(r).data() == old(r).data(),
        match take_string(old(r).data(), old(r).pos as int, cp) {
            Ok(vp) => res matches Ok(o) && opt_view(o) == vp.0 && final(r).pos == vp.1,
            Err(e) => res == Err::<Option<String>, InnoError>(e),
        },
{
    let len = match r.read_u32() {
        Ok(v) => v,
        Err(e) => {
            return Err(e);
        },
    };
    if len == 0 {
        Ok(None)
    } else {
        let bytes = match r.read_bytes(len as usize) {
            Ok(v) => v,
            Err(e) => {
                return Err(e);
            },
        };
        Ok(Some(decode_codepage(&bytes, cp)))
    }
}

/// Reads a string field whose byte count was read earlier in the header.
pub fn sized_encoded_string(r: &mut Reader, len: u32, cp: Codepage) -> (res: Result<
    Option<String>,
    InnoError,
>)
    ensures
        final(r).data() == old(r).data(),
        match take_sized_string(old(r).data(), old(r).pos as int, len, cp) {
            Ok(vp) => res matches Ok(o) && opt_view(o) == vp.0 && final(r).pos == vp.1,
            Err(e) => res == Err::<Option<String>, InnoError>(e),
        },
{
    if len == 0 {
        Ok(None)
    } else {
        let bytes = match r.read_bytes(len as usize) {
            Ok(v) => v,
            Err(e) => {
                return Err(e);
            },
        };
        Ok(Some(decode_codepage(&bytes, cp)))
    }
}

} // verus!
