//! Primitive readers over a borrowed byte slice.
//!
//! The decoder never seeks backwards and never buffers: every read takes the
//! next bytes at the current position or fails with
//! [`InnoError::UnexpectedEof`]. The `take_*` spec functions are the
//! mathematical meaning of each primitive; the exec methods are proved
//! against them.

use vstd::prelude::*;

verus! {

/// The enum-valued header fields, named so that a failed enum decode can
/// report which field held the unknown discriminant.
#[derive(Clone, Copy, Debug, PartialEq, Eq, Structural)]
pub enum EnumField {
    WizardStyle,
    ImageAlphaFormat,
    InstallVerbosity,
    UninstallLogMode,
    UninstallStyle,
    DirExistsWarning,
    PrivilegesRequired,
    ShowLanguageDialog,
    LanguageDetection,
    Compression,
    DisableDirPage,
    DisableProgramGroupPage,
    SetupType,
}

/// How decoding a header can fail.
///
/// Truncated input is reported as `UnexpectedEof`; an unknown discriminant
/// for a `u8`-valued enum is reported with the field and the observed byte;
/// a malformed architecture expression is reported as its own variant. No
/// partial header is ever returned.
#[derive(Clone, Copy, Debug, PartialEq, Eq, Structural)]
pub enum InnoError {
    UnexpectedEof,
    InvalidEnum { field: EnumField, value: u8 },
    InvalidArchitectureExpression,
}

/// Little-endian value of the 2 bytes at `p`.
pub open spec fn le16(s: Seq<u8>, p: int) -> u16 {
    (s[p] + s[p + 1] * 0x100) as u16
}

/// Little-endian value of the 4 bytes at `p`.
pub open spec fn le32(s: Seq<u8>, p: int) -> u32 {
    (s[p] + s[p + 1] * 0x100 + s[p + 2] * 0x1_0000 + s[p + 3] * 0x100_0000) as u32
}

/// Little-endian value of the 8 bytes at `p`.
pub open spec fn le64(s: Seq<u8>, p: int) -> u64 {
    (le32(s, p) + le32(s, p + 4) * 0x1_0000_0000) as u64
}

pub open spec fn take_u8(s: Seq<u8>, p: int) -> Result<(u8, int), InnoError> {
    if 0 <= p && p + 1 <= s.len() {
        Ok((s[p], p + 1))
    } else {
        Err(InnoError::UnexpectedEof)
    }
}

pub open spec fn take_u16(s: Seq<u8>, p: int) -> Result<(u16, int), InnoError> {
    if 0 <= p && p + 2 <= s.len() {
        Ok((le16(s, p), p + 2))
    } else {
        Err(InnoError::UnexpectedEof)
    }
}

pub open spec fn take_u32(s: Seq<u8>, p: int) -> Result<(u32, int), InnoError> {
    if 0 <= p && p + 4 <= s.len() {
        Ok((le32(s, p), p + 4))
    } else {
        Err(InnoError::UnexpectedEof)
    }
}

pub open spec fn take_u64(s: Seq<u8>, p: int) -> Result<(u64, int), InnoError> {
    if 0 <= p && p + 8 <= s.len() {
        Ok((le64(s, p), p + 8))
    } else {
        Err(InnoError::UnexpectedEof)
    }
}

pub open spec fn take_bytes(s: Seq<u8>, p: int, n: int) -> Result<(Seq<u8>, int), InnoError> {
    if 0 <= p && 0 <= n && p + n <= s.len() {
        Ok((s.subrange(p, p + n), p + n))
    } else {
        Err(InnoError::UnexpectedEof)
    }
}

/// A forward-only reader over a borrowed byte slice.
pub struct Reader<'a> {
    pub buf: &'a [u8],
    pub pos: usize,
}

impl<'a> Reader<'a> {
    /// The whole underlying byte sequence; reads never change it.
    pub open spec fn data(self) -> Seq<u8> {
        self.buf@
    }

    /// True when at least `n` more bytes are available.
    pub open spec fn spec_has(self, n: int) -> bool {
        self.pos + n <= self.data().len()
    }

    pub fn new(buf: &'a [u8]) -> (r: Reader<'a>)
        ensures
            r.data() == buf@,
            r.pos == 0,
    {
        Reader { buf, pos: 0 }
    }

    fn has(&self, n: usize) -> (r: bool)
        ensures
            r == self.spec_has(n as int),
    {
        n <= self.buf.len() && self.pos <= self.buf.len() - n
    }

    pub fn read_u8(&mut self) -> (r: Result<u8, InnoError>)
        ensures
            final(self).data() == old(self).data(),
            match take_u8(old(self).data(), old(self).pos as int) {
                Ok(vp) => r == Ok::<u8, InnoError>(vp.0) && final(self).pos == vp.1,
                Err(e) => r == Err::<u8, InnoError>(e) && final(self).pos == old(self).pos,
            },
    {
        if self.has(1) {
            let b = self.buf[self.pos];
            self.pos = self.pos + 1;
            Ok(b)
        } else {
            Err(InnoError::UnexpectedEof)
        }
    }

    pub fn read_u16(&mut self) -> (r: Result<u16, InnoError>)
        ensures
            final(self).data() == old(self).data(),
            match take_u16(old(self).data(), old(self).pos as int) {
                Ok(vp) => r == Ok::<u16, InnoError>(vp.0) && final(self).pos == vp.1,
                Err(e) => r == Err::<u16, InnoError>(e) && final(self).pos == old(self).pos,
            },
    {
        if self.has(2) {
            let b0 = self.buf[self.pos] as u16;
            let b1 = self.buf[self.pos + 1] as u16;
            self.pos = self.pos + 2;
            Ok(b0 + b1 * 0x100)
        } else {
            Err(InnoError::UnexpectedEof)
        }
    }

    pub fn read_u32(&mut self) -> (r: Result<u32, InnoError>)
        ensures
            final(self).data() == old(self).data(),
            match take_u32(old(self).data(), old(self).pos as int) {
                Ok(vp) => r == Ok::<u32, InnoError>(vp.0) && final(self).pos == vp.1,
                Err(e) => r == Err::<u32, InnoError>(e) && final(self).pos == old(self).pos,
            },
    {
        if self.has(4) {
            let b0 = self.buf[self.pos] as u32;
            let b1 = self.buf[self.pos + 1] as u32;
            let b2 = self.buf[self.pos + 2] as u32;
            let b3 = self.buf[self.pos + 3] as u32;
            self.pos = self.pos + 4;
            Ok(b0 + b1 * 0x100 + b2 * 0x1_0000 + b3 * 0x100_0000)
        } else {
            Err(InnoError::UnexpectedEof)
        }
    }

    pub fn read_u64(&mut self) -> (r: Result<u64, InnoError>)
        ensures
            final(self).data() == old(self).data(),
            match take_u64(old(self).data(), old(self).pos as int) {
                Ok(vp) => r == Ok::<u64, InnoError>(vp.0) && final(self).pos == vp.1,
                Err(e) => r == Err::<u64, InnoError>(e) && final(self).pos == old(self).pos,
            },
    {
        if self.has(8) {
            let lo = match self.read_u32() {
                Ok(v) => v,
                Err(e) => {
                    return Err(e);
                },
            };
            let hi = match self.read_u32() {
                Ok(v) => v,
                Err(e) => {
                    return Err(e);
                },
            };
            Ok((lo as u64) + (hi as u64) * 0x1_0000_0000)
        } else {
            Err(InnoError::UnexpectedEof)
        }
    }

    /// Reads and returns the next `n` bytes.
    pub fn read_bytes(&mut self, n: usize) -> (r: Result<Vec<u8>, InnoError>)
        ensures
            final(self).data() == old(self).data(),
            match take_bytes(old(self).data(), old(self).pos as int, n as int) {
                Ok(vp) => r matches Ok(v) && v@ == vp.0 && final(self).pos == vp.1,
                Err(e) => r == Err::<Vec<u8>, InnoError>(e) && final(self).pos == old(self).pos,
            },
    {
        if self.has(n) {
            let mut v: Vec<u8> = Vec::new();
            let mut i: usize = 0;
            while i < n
                invariant
                    i <= n,
                    self.pos + n <= self.buf.len(),
                    v@ == self.buf@.subrange(self.pos as int, self.pos + i as int),
                decreases n - i,
            {
                v.push(self.buf[self.pos + i]);
                assert(v@ == self.buf@.subrange(self.pos as int, self.pos + i + 1 as int));
                i = i + 1;
            }
            self.pos = self.pos + n;
            Ok(v)
        } else {
            Err(InnoError::UnexpectedEof)
        }
    }

    /// Reads and discards the next `n` bytes.
    pub fn skip(&mut self, n: usize) -> (r: Result<(), InnoError>)
        ensures
            final(self).data() == old(self).data(),
            match take_bytes(old(self).data(), old(self).pos as int, n as int) {
                Ok(vp) => r is Ok && final(self).pos == vp.1,
                Err(e) => r == Err::<(), InnoError>(e) && final(self).pos == old(self).pos,
            },
    {
        if self.has(n) {
            let len = self.buf.len();
            assert(self.pos + n <= len);
            self.pos = self.pos + n;
            Ok(())
        } else {
            Err(InnoError::UnexpectedEof)
        }
    }
}

} // verus!
