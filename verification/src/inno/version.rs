//! The Inno Setup version model.
//!
//! Every gate in the header schedule is an ordered comparison of the version
//! triple against a literal triple, sometimes combined with the ISX fork
//! marker or the Unicode marker.

use vstd::prelude::*;

verus! {

/// An Inno Setup version triple `(major, minor, patch)` with lexicographic
/// ordering.
#[derive(Clone, Copy, Debug, PartialEq, Eq, Structural)]
pub struct InnoVersion {
    pub major: u8,
    pub minor: u8,
    pub patch: u8,
}

impl InnoVersion {
    pub open spec fn spec_at_least(self, a: u8, b: u8, c: u8) -> bool {
        self.major > a || (self.major == a && (self.minor > b || (self.minor == b
            && self.patch >= c)))
    }

    pub open spec fn spec_before(self, a: u8, b: u8, c: u8) -> bool {
        !self.spec_at_least(a, b, c)
    }

    pub fn new(major: u8, minor: u8, patch: u8) -> (r: InnoVersion)
        ensures
            r == (InnoVersion { major, minor, patch }),
    {
        InnoVersion { major, minor, patch }
    }

    /// Lexicographic `self >= (a, b, c)`.
    pub fn at_least(&self, a: u8, b: u8, c: u8) -> (r: bool)
        ensures
            r == self.spec_at_least(a, b, c),
    {
        self.major > a || (self.major == a && (self.minor > b || (self.minor == b
            && self.patch >= c)))
    }

    /// Lexicographic `self < (a, b, c)`.
    pub fn before(&self, a: u8, b: u8, c: u8) -> (r: bool)
        ensures
            r == self.spec_before(a, b, c),
    {
        !self.at_least(a, b, c)
    }
}

/// A fully qualified Inno Setup version: the triple plus the two modality
/// markers that change the schedule.
///
/// `is_isx` selects the ISX fork timeline, on which some fields landed
/// earlier than mainline. `is_unicode` marks a Unicode build, which stores
/// no lead-bytes table and skips the flags that only ANSI builds carry.
#[derive(Clone, Copy, Debug, PartialEq, Eq, Structural)]
pub struct KnownVersion {
    pub version: InnoVersion,
    pub is_unicode: bool,
    pub is_isx: bool,
}

impl KnownVersion {
    pub open spec fn spec_at_least(self, a: u8, b: u8, c: u8) -> bool {
        self.version.spec_at_least(a, b, c)
    }

    pub open spec fn spec_before(self, a: u8, b: u8, c: u8) -> bool {
        self.version.spec_before(a, b, c)
    }

    /// `is_isx && self >= (a, b, c)`: the shape of every ISX-early gate.
    pub open spec fn spec_isx_at_least(self, a: u8, b: u8, c: u8) -> bool {
        self.is_isx && self.version.spec_at_least(a, b, c)
    }

    pub fn new(major: u8, minor: u8, patch: u8, is_unicode: bool, is_isx: bool) -> (r:
        KnownVersion)
        ensures
            r == (KnownVersion {
                version: InnoVersion { major, minor, patch },
                is_unicode,
                is_isx,
            }),
    {
        KnownVersion { version: InnoVersion { major, minor, patch }, is_unicode, is_isx }
    }

    pub fn at_least(&self, a: u8, b: u8, c: u8) -> (r: bool)
        ensures
            r == self.spec_at_least(a, b, c),
    {
        self.version.at_least(a, b, c)
    }

    pub fn before(&self, a: u8, b: u8, c: u8) -> (r: bool)
        ensures
            r == self.spec_before(a, b, c),
    {
        self.version.before(a, b, c)
    }

    pub fn isx_at_least(&self, a: u8, b: u8, c: u8) -> (r: bool)
        ensures
            r == self.spec_isx_at_least(a, b, c),
    {
        self.is_isx && self.version.at_least(a, b, c)
    }
}

} // verus!
