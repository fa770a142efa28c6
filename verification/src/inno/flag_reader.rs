//! The flag bitstream reader.
//!
//! The decoder enrols one flag after another — in the fixed order the
//! installer compiler used — and then reads `ceil(n / 8)` bytes at once.
//! Bit `k` of the stream (least significant bit first within each byte)
//! belongs to the `k`-th enrolled flag. Padding bits in the last byte are
//! ignored: the resulting set can only hold enrolled flags.

use vstd::prelude::*;

use crate::inno::flags::{FlagSet, HeaderFlag};
use crate::inno::reader::{take_bytes, InnoError, Reader};

verus! {

/// Bit `k` of a little-endian-bit-order bitstream.
pub open spec fn bit_of(bytes: Seq<u8>, k: int) -> bool {
    (bytes[k / 8] >> ((k % 8) as u8)) & 1u8 == 1u8
}

/// The flag set encoded by `bytes` for the first `k` enrolled flags.
pub open spec fn flags_of_bits_upto(enrolled: Seq<HeaderFlag>, bytes: Seq<u8>, k: int) -> FlagSet
    decreases k,
{
    if k <= 0 {
        FlagSet::spec_empty()
    } else {
        let prev = flags_of_bits_upto(enrolled, bytes, k - 1);
        if bit_of(bytes, k - 1) {
            prev.spec_insert(enrolled[k - 1])
        } else {
            prev
        }
    }
}

/// The flag set encoded by `bytes` for `enrolled`.
pub open spec fn flags_of_bits(enrolled: Seq<HeaderFlag>, bytes: Seq<u8>) -> FlagSet {
    flags_of_bits_upto(enrolled, bytes, enrolled.len() as int)
}

/// Reading the bitstream for `enrolled` at `p`: exactly `ceil(n / 8)`
/// bytes are consumed.
pub open spec fn take_flag_bits(s: Seq<u8>, p: int, enrolled: Seq<HeaderFlag>) -> Result<
    (FlagSet, int),
    InnoError,
> {
    match take_bytes(s, p, (enrolled.len() + 7) as int / 8) {
        Err(e) => Err(e),
        Ok((bytes, p2)) => Ok((flags_of_bits(enrolled, bytes), p2)),
    }
}

/// Only enrolled flags can come out of the bitstream; in particular no
/// padding bit of the last byte ever appears as a set flag.
pub proof fn lemma_bits_only_enrolled(
    enrolled: Seq<HeaderFlag>,
    bytes: Seq<u8>,
    k: int,
    f: HeaderFlag,
)
    requires
        flags_of_bits_upto(enrolled, bytes, k).has(f),
        k <= enrolled.len(),
    ensures
        enrolled.contains(f),
    decreases k,
{
    if k > 0 {
        let prev = flags_of_bits_upto(enrolled, bytes, k - 1);
        if bit_of(bytes, k - 1) {
            crate::inno::flags::lemma_insert_has(prev, enrolled[k - 1], f);
            if f == enrolled[k - 1] {
                assert(enrolled.contains(f));
            } else {
                lemma_bits_only_enrolled(enrolled, bytes, k - 1, f);
            }
        } else {
            lemma_bits_only_enrolled(enrolled, bytes, k - 1, f);
        }
    } else {
        crate::inno::flags::lemma_empty_has(f);
    }
}

/// Accumulates the enrolment order, then decodes the bitstream in one read.
pub struct FlagReader {
    pub enrolled: Vec<HeaderFlag>,
}

impl FlagReader {
    pub fn new() -> (r: FlagReader)
        ensures
            r.enrolled@ == Seq::<HeaderFlag>::empty(),
    {
        FlagReader { enrolled: Vec::new() }
    }

    /// Enrols the next flag of the stream.
    pub fn add(&mut self, f: HeaderFlag)
        ensures
            final(self).enrolled@ == old(self).enrolled@.push(f),
    {
        self.enrolled.push(f);
    }

    /// Reads `ceil(n / 8)` bytes and returns the encoded flag set.
    pub fn finalize(&self, r: &mut Reader) -> (res: Result<FlagSet, InnoError>)
        requires
            self.enrolled@.len() + 7 <= usize::MAX,
        ensures
            final(r).data() == old(r).data(),
            match take_flag_bits(old(r).data(), old(r).pos as int, self.enrolled@) {
                Ok(vp) => res == Ok::<FlagSet, InnoError>(vp.0) && final(r).pos == vp.1,
                Err(e) => res == Err::<FlagSet, InnoError>(e),
            },
    {
        let n = self.enrolled.len();
        let bytes = match r.read_bytes((n + 7) / 8) {
            Ok(v) => v,
            Err(e) => {
                return Err(e);
            },
        };
        let mut flags = FlagSet::empty();
        let mut k: usize = 0;
        while k < n
            invariant
                n == self.enrolled@.len(),
                k <= n,
                bytes@.len() == (n + 7) / 8,
                flags == flags_of_bits_upto(self.enrolled@, bytes@, k as int),
            decreases n - k,
        {
            let byte = bytes[k / 8];
            let sh = (k % 8) as u8;
            if (byte >> sh) & 1u8 == 1u8 {
                flags.insert(self.enrolled[k]);
            }
            assert(bit_of(bytes@, k as int) == ((byte >> sh) & 1u8 == 1u8));
            k = k + 1;
        }
        Ok(flags)
    }
}

} // verus!
