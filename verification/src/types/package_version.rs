//! The package version string of a manifest.
//!
//! A version may hold neither control characters nor the characters that
//! Windows forbids in paths, and may not be longer than 128 characters —
//! counted as characters, not bytes.

use vstd::prelude::*;

use crate::text::{char_is_control, chars_of};

verus! {

/// Why a package version string was rejected, in the order the checks
/// run: forbidden characters first, then control characters, then length.
#[derive(Clone, Copy, Debug, PartialEq, Eq, Structural)]
pub enum PackageVersionError {
    ContainsControlChars,
    DisallowedCharacters,
    TooLong,
}

/// The characters Windows forbids in paths; a version never holds one.
pub open spec fn is_disallowed_char(c: char) -> bool {
    c == '<' || c == '>' || c == ':' || c == '"' || c == '/' || c == '\\' || c == '|' || c == '?'
        || c == '*'
}

pub open spec fn has_disallowed(s: Seq<char>) -> bool {
    exists|i: int| 0 <= i < s.len() && is_disallowed_char(#[trigger] s[i])
}

pub open spec fn has_control(s: Seq<char>) -> bool {
    exists|i: int| 0 <= i < s.len() && char_is_control(#[trigger] s[i])
}

/// What parsing a version string yields: the first failed check's error,
/// or the accepted characters.
pub open spec fn spec_parse_version(s: Seq<char>) -> Result<Seq<char>, PackageVersionError> {
    if has_disallowed(s) {
        Err(PackageVersionError::DisallowedCharacters)
    } else if has_control(s) {
        Err(PackageVersionError::ContainsControlChars)
    } else if s.len() > 128 {
        Err(PackageVersionError::TooLong)
    } else {
        Ok(s)
    }
}

/// A validated package version string.
#[derive(Clone, Debug)]
pub struct PackageVersion {
    version: String,
}

impl View for PackageVersion {
    type V = Seq<char>;

    closed spec fn view(&self) -> Seq<char> {
        self.version@
    }
}

fn any_disallowed(cs: &Vec<char>) -> (b: bool)
    ensures
        b == has_disallowed(cs@),
{
    let n = cs.len();
    let mut i: usize = 0;
    while i < n
        invariant
            n == cs@.len(),
            i <= n,
            forall|k: int| 0 <= k < i ==> !is_disallowed_char(#[trigger] cs@[k]),
        decreases n - i,
    {
        let c = cs[i];
        if c == '<' || c == '>' || c == ':' || c == '"' || c == '/' || c == '\\' || c == '|' || c
            == '?' || c == '*' {
            return true;
        }
        i = i + 1;
    }
    false
}

fn any_control(cs: &Vec<char>) -> (b: bool)
    ensures
        b == has_control(cs@),
{
    let n = cs.len();
    let mut i: usize = 0;
    while i < n
        invariant
            n == cs@.len(),
            i <= n,
            forall|k: int| 0 <= k < i ==> !char_is_control(#[trigger] cs@[k]),
        decreases n - i,
    {
        if cs[i].is_control() {
            return true;
        }
        i = i + 1;
    }
    false
}

impl PackageVersion {
    /// Validates `input`: no forbidden character, no control character,
    /// at most 128 characters.
    pub fn new(input: &str) -> (r: Result<PackageVersion, PackageVersionError>)
        ensures
            match spec_parse_version(input@) {
                Ok(sv) => r matches Ok(pv) && pv@ == sv,
                Err(e) => r == Err::<PackageVersion, PackageVersionError>(e),
            },
    {
        let cs = chars_of(input);
        if any_disallowed(&cs) {
            return Err(PackageVersionError::DisallowedCharacters);
        }
        if any_control(&cs) {
            return Err(PackageVersionError::ContainsControlChars);
        }
        if cs.len() > 128 {
            return Err(PackageVersionError::TooLong);
        }
        Ok(PackageVersion { version: input.to_owned() })
    }

    pub fn as_str(&self) -> (r: &str)
        ensures
            r@ == self@,
    {
        self.version.as_str()
    }
}

impl core::str::FromStr for PackageVersion {
    type Err = PackageVersionError;

    fn from_str(input: &str) -> Result<PackageVersion, PackageVersionError> {
        PackageVersion::new(input)
    }
}

} // verus!
