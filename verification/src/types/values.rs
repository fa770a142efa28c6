//! The length-validated manifest strings and the installer success code.
//!
//! Each type admits exactly the strings whose character count lies in its
//! manifest-schema bounds; the bounds count characters, not bytes.

use vstd::prelude::*;

use crate::text::chars_of;

verus! {

/// Why a manifest string was rejected.
#[derive(Clone, Copy, Debug, PartialEq, Eq, Structural)]
pub enum ValueError {
    TooShort,
    TooLong,
}

/// What validating a string against character bounds yields.
pub open spec fn spec_bounded(s: Seq<char>, min: int, max: int) -> Result<Seq<char>, ValueError> {
    if s.len() < min {
        Err(ValueError::TooShort)
    } else if s.len() > max {
        Err(ValueError::TooLong)
    } else {
        Ok(s)
    }
}

fn check_bounds(input: &str, min: usize, max: usize) -> (r: Result<(), ValueError>)
    ensures
        match spec_bounded(input@, min as int, max as int) {
            Ok(_) => r is Ok,
            Err(e) => r == Err::<(), ValueError>(e),
        },
{
    let cs = chars_of(input);
    if cs.len() < min {
        Err(ValueError::TooShort)
    } else if cs.len() > max {
        Err(ValueError::TooLong)
    } else {
        Ok(())
    }
}

/// A package author: 2 to 256 characters.
#[derive(Clone, Debug)]
pub struct Author {
    value: String,
}

impl View for Author {
    type V = Seq<char>;

    closed spec fn view(&self) -> Seq<char> {
        self.value@
    }
}

impl Author {
    pub fn try_new(input: &str) -> (r: Result<Author, ValueError>)
        ensures
            match spec_bounded(input@, 2, 256) {
                Ok(sv) => r matches Ok(a) && a@ == sv,
                Err(e) => r == Err::<Author, ValueError>(e),
            },
    {
        match check_bounds(input, 2, 256) {
            Ok(_) => Ok(Author { value: input.to_owned() }),
            Err(e) => Err(e),
        }
    }

    pub fn as_str(&self) -> (r: &str)
        ensures
            r@ == self@,
    {
        self.value.as_str()
    }
}

/// A command or alias that runs the package: 1 to 40 characters.
#[derive(Clone, Debug)]
pub struct Command {
    value: String,
}

impl View for Command {
    type V = Seq<char>;

    closed spec fn view(&self) -> Seq<char> {
        self.value@
    }
}

impl Command {
    pub fn try_new(input: &str) -> (r: Result<Command, ValueError>)
        ensures
            match spec_bounded(input@, 1, 40) {
                Ok(sv) => r matches Ok(a) && a@ == sv,
                Err(e) => r == Err::<Command, ValueError>(e),
            },
    {
        match check_bounds(input, 1, 40) {
            Ok(_) => Ok(Command { value: input.to_owned() }),
            Err(e) => Err(e),
        }
    }

    pub fn as_str(&self) -> (r: &str)
        ensures
            r@ == self@,
    {
        self.value.as_str()
    }
}

/// A package description: 3 to 10000 characters.
#[derive(Clone, Debug)]
pub struct Description {
    value: String,
}

impl View for Description {
    type V = Seq<char>;

    closed spec fn view(&self) -> Seq<char> {
        self.value@
    }
}

impl Description {
    pub fn try_new(input: &str) -> (r: Result<Description, ValueError>)
        ensures
            match spec_bounded(input@, 3, 10000) {
                Ok(sv) => r matches Ok(a) && a@ == sv,
                Err(e) => r == Err::<Description, ValueError>(e),
            },
    {
        match check_bounds(input, 3, 10000) {
            Ok(_) => Ok(Description { value: input.to_owned() }),
            Err(e) => Err(e),
        }
    }

    pub fn as_str(&self) -> (r: &str)
        ensures
            r@ == self@,
    {
        self.value.as_str()
    }
}

/// A file extension the package handles: 1 to 512 characters.
#[derive(Clone, Debug)]
pub struct FileExtension {
    value: String,
}

impl View for FileExtension {
    type V = Seq<char>;

    closed spec fn view(&self) -> Seq<char> {
        self.value@
    }
}

impl FileExtension {
    pub fn try_new(input: &str) -> (r: Result<FileExtension, ValueError>)
        ensures
            match spec_bounded(input@, 1, 512) {
                Ok(sv) => r matches Ok(a) && a@ == sv,
                Err(e) => r == Err::<FileExtension, ValueError>(e),
            },
    {
        match check_bounds(input, 1, 512) {
            Ok(_) => Ok(FileExtension { value: input.to_owned() }),
            Err(e) => Err(e),
        }
    }

    pub fn as_str(&self) -> (r: &str)
        ensures
            r@ == self@,
    {
        self.value.as_str()
    }
}

/// A license name: 3 to 512 characters.
#[derive(Clone, Debug)]
pub struct License {
    value: String,
}

impl View for License {
    type V = Seq<char>;

    closed spec fn view(&self) -> Seq<char> {
        self.value@
    }
}

impl License {
    pub fn try_new(input: &str) -> (r: Result<License, ValueError>)
        ensures
            match spec_bounded(input@, 3, 512) {
                Ok(sv) => r matches Ok(a) && a@ == sv,
                Err(e) => r == Err::<License, ValueError>(e),
            },
    {
        match check_bounds(input, 3, 512) {
            Ok(_) => Ok(License { value: input.to_owned() }),
            Err(e) => Err(e),
        }
    }

    pub fn as_str(&self) -> (r: &str)
        ensures
            r@ == self@,
    {
        self.value.as_str()
    }
}

/// A protocol the package handles: 1 to 2048 characters.
#[derive(Clone, Debug)]
pub struct Protocol {
    value: String,
}

impl View for Protocol {
    type V = Seq<char>;

    closed spec fn view(&self) -> Seq<char> {
        self.value@
    }
}

impl Protocol {
    pub fn try_new(input: &str) -> (r: Result<Protocol, ValueError>)
        ensures
            match spec_bounded(input@, 1, 2048) {
                Ok(sv) => r matches Ok(a) && a@ == sv,
                Err(e) => r == Err::<Protocol, ValueError>(e),
            },
    {
        match check_bounds(input, 1, 2048) {
            Ok(_) => Ok(Protocol { value: input.to_owned() }),
            Err(e) => Err(e),
        }
    }

    pub fn as_str(&self) -> (r: &str)
        ensures
            r@ == self@,
    {
        self.value.as_str()
    }
}

/// A search tag: 1 to 40 characters.
#[derive(Clone, Debug)]
pub struct Tag {
    value: String,
}

impl View for Tag {
    type V = Seq<char>;

    closed spec fn view(&self) -> Seq<char> {
        self.value@
    }
}

impl Tag {
    pub fn try_new(input: &str) -> (r: Result<Tag, ValueError>)
        ensures
            match spec_bounded(input@, 1, 40) {
                Ok(sv) => r matches Ok(a) && a@ == sv,
                Err(e) => r == Err::<Tag, ValueError>(e),
            },
    {
        match check_bounds(input, 1, 40) {
            Ok(_) => Ok(Tag { value: input.to_owned() }),
            Err(e) => Err(e),
        }
    }

    pub fn as_str(&self) -> (r: &str)
        ensures
            r@ == self@,
    {
        self.value.as_str()
    }
}

/// A moniker: a single well-known tag for the package, with a tag's
/// bounds.
#[derive(Clone, Debug)]
pub struct Moniker {
    value: Tag,
}

impl View for Moniker {
    type V = Seq<char>;

    closed spec fn view(&self) -> Seq<char> {
        self.value@
    }
}

impl Moniker {
    pub fn try_new(input: &str) -> (r: Result<Moniker, ValueError>)
        ensures
            match spec_bounded(input@, 1, 40) {
                Ok(sv) => r matches Ok(a) && a@ == sv,
                Err(e) => r == Err::<Moniker, ValueError>(e),
            },
    {
        match Tag::try_new(input) {
            Ok(t) => Ok(Moniker { value: t }),
            Err(e) => Err(e),
        }
    }

    pub fn as_str(&self) -> (r: &str)
        ensures
            r@ == self@,
    {
        self.value.as_str()
    }
}

/// A nonzero installer exit code that still means success.
#[derive(Clone, Copy, Debug, PartialEq, Eq, Structural)]
pub struct InstallerSuccessCode {
    code: i64,
}

impl InstallerSuccessCode {
    /// The code itself; never zero.
    pub closed spec fn spec_code(self) -> i64 {
        self.code
    }

    /// Accepts exactly the nonzero codes.
    pub fn try_new(code: i64) -> (r: Option<InstallerSuccessCode>)
        ensures
            code != 0 ==> (r matches Some(c) && c.spec_code() == code),
            code == 0 ==> r is None,
    {
        if code != 0 {
            Some(InstallerSuccessCode { code })
        } else {
            None
        }
    }

    pub fn code(&self) -> (r: i64)
        ensures
            r == self.spec_code(),
    {
        self.code
    }
}

} // verus!
