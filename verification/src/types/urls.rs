//! The URL-valued manifest fields.
//!
//! Each wrapper carries the URL text verbatim; fetching, normalising and
//! percent-decoding happen in the surrounding program, which hands the
//! library the final string.

use vstd::prelude::*;

verus! {

/// The publisher's home page.
#[derive(Clone, Debug)]
pub struct PublisherUrl {
    value: String,
}

impl View for PublisherUrl {
    type V = Seq<char>;

    closed spec fn view(&self) -> Seq<char> {
        self.value@
    }
}

impl PublisherUrl {
    pub fn new(value: String) -> (r: PublisherUrl)
        ensures
            r@ == value@,
    {
        PublisherUrl { value }
    }

    pub fn as_str(&self) -> (r: &str)
        ensures
            r@ == self@,
    {
        self.value.as_str()
    }
}

/// The publisher's support page.
#[derive(Clone, Debug)]
pub struct PublisherSupportUrl {
    value: String,
}

impl View for PublisherSupportUrl {
    type V = Seq<char>;

    closed spec fn view(&self) -> Seq<char> {
        self.value@
    }
}

impl PublisherSupportUrl {
    pub fn new(value: String) -> (r: PublisherSupportUrl)
        ensures
            r@ == value@,
    {
        PublisherSupportUrl { value }
    }

    pub fn as_str(&self) -> (r: &str)
        ensures
            r@ == self@,
    {
        self.value.as_str()
    }
}

/// The package's home page.
#[derive(Clone, Debug)]
pub struct PackageUrl {
    value: String,
}

impl View for PackageUrl {
    type V = Seq<char>;

    closed spec fn view(&self) -> Seq<char> {
        self.value@
    }
}

impl PackageUrl {
    pub fn new(value: String) -> (r: PackageUrl)
        ensures
            r@ == value@,
    {
        PackageUrl { value }
    }

    pub fn as_str(&self) -> (r: &str)
        ensures
            r@ == self@,
    {
        self.value.as_str()
    }
}

/// Where the license text lives.
#[derive(Clone, Debug)]
pub struct LicenseUrl {
    value: String,
}

impl View for LicenseUrl {
    type V = Seq<char>;

    closed spec fn view(&self) -> Seq<char> {
        self.value@
    }
}

impl LicenseUrl {
    pub fn new(value: String) -> (r: LicenseUrl)
        ensures
            r@ == value@,
    {
        LicenseUrl { value }
    }

    pub fn as_str(&self) -> (r: &str)
        ensures
            r@ == self@,
    {
        self.value.as_str()
    }
}

/// Where the copyright statement lives.
#[derive(Clone, Debug)]
pub struct CopyrightUrl {
    value: String,
}

impl View for CopyrightUrl {
    type V = Seq<char>;

    closed spec fn view(&self) -> Seq<char> {
        self.value@
    }
}

impl CopyrightUrl {
    pub fn new(value: String) -> (r: CopyrightUrl)
        ensures
            r@ == value@,
    {
        CopyrightUrl { value }
    }

    pub fn as_str(&self) -> (r: &str)
        ensures
            r@ == self@,
    {
        self.value.as_str()
    }
}

/// Where the release notes live.
#[derive(Clone, Debug)]
pub struct ReleaseNotesUrl {
    value: String,
}

impl View for ReleaseNotesUrl {
    type V = Seq<char>;

    closed spec fn view(&self) -> Seq<char> {
        self.value@
    }
}

impl ReleaseNotesUrl {
    pub fn new(value: String) -> (r: ReleaseNotesUrl)
        ensures
            r@ == value@,
    {
        ReleaseNotesUrl { value }
    }

    pub fn as_str(&self) -> (r: &str)
        ensures
            r@ == self@,
    {
        self.value.as_str()
    }
}

} // verus!
