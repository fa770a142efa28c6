//! The `u8`-valued enums of the header.
//!
//! Every one is decoded by an exhaustive `from_repr` mapping; an
//! unrecognised discriminant is a fatal [`InnoError::InvalidEnum`] carrying
//! the field and the observed byte. The `from_header_flags` constructors
//! are the post-decode back-fill for versions that predate a field's
//! dedicated byte.

use vstd::prelude::*;

use crate::inno::flags::{FlagSet, HeaderFlag};
use crate::inno::reader::{take_u8, EnumField, InnoError};

verus! {

/// Reading one byte at `p` and mapping it through `from_repr`.
pub open spec fn take_enum<T>(
    s: Seq<u8>,
    p: int,
    from_repr: spec_fn(u8) -> Option<T>,
    field: EnumField,
) -> Result<(T, int), InnoError> {
    match take_u8(s, p) {
        Err(e) => Err(e),
        Ok((b, p2)) => match from_repr(b) {
            Some(v) => Ok((v, p2)),
            None => Err(InnoError::InvalidEnum { field, value: b }),
        },
    }
}

/// Disabled / enabled / decided at run time.
#[derive(Clone, Copy, Debug, PartialEq, Eq, Structural)]
pub enum AutoBool {
    Auto,
    No,
    Yes,
}

pub open spec fn spec_auto_bool_from_repr(b: u8) -> Option<AutoBool> {
    if b == 0 {
        Some(AutoBool::Auto)
    } else if b == 1 {
        Some(AutoBool::No)
    } else if b == 2 {
        Some(AutoBool::Yes)
    } else {
        None
    }
}

impl AutoBool {
    pub fn from_repr(b: u8) -> (r: Option<AutoBool>)
        ensures
            r == spec_auto_bool_from_repr(b),
    {
        match b {
            0 => Some(AutoBool::Auto),
            1 => Some(AutoBool::No),
            2 => Some(AutoBool::Yes),
            _ => None,
        }
    }

    /// The back-fill value derived from flag `f`: set means `Yes`, clear
    /// means `No`.
    pub open spec fn spec_from_flag(set: bool) -> AutoBool {
        if set {
            AutoBool::Yes
        } else {
            AutoBool::No
        }
    }

    pub fn from_header_flags(flags: &FlagSet, f: HeaderFlag) -> (r: AutoBool)
        ensures
            r == AutoBool::spec_from_flag(flags.has(f)),
    {
        if flags.contains(f) {
            AutoBool::Yes
        } else {
            AutoBool::No
        }
    }
}

/// Wizard look, also the uninstaller's.
#[derive(Clone, Copy, Debug, PartialEq, Eq, Structural)]
pub enum InnoStyle {
    Classic,
    Modern,
}

pub open spec fn spec_inno_style_from_repr(b: u8) -> Option<InnoStyle> {
    if b == 0 {
        Some(InnoStyle::Classic)
    } else if b == 1 {
        Some(InnoStyle::Modern)
    } else {
        None
    }
}

impl InnoStyle {
    pub fn from_repr(b: u8) -> (r: Option<InnoStyle>)
        ensures
            r == spec_inno_style_from_repr(b),
    {
        match b {
            0 => Some(InnoStyle::Classic),
            1 => Some(InnoStyle::Modern),
            _ => None,
        }
    }
}

#[derive(Clone, Copy, Debug, PartialEq, Eq, Structural)]
pub enum ImageAlphaFormat {
    Ignored,
    Defined,
    Premultiplied,
}

pub open spec fn spec_image_alpha_format_from_repr(b: u8) -> Option<ImageAlphaFormat> {
    if b == 0 {
        Some(ImageAlphaFormat::Ignored)
    } else if b == 1 {
        Some(ImageAlphaFormat::Defined)
    } else if b == 2 {
        Some(ImageAlphaFormat::Premultiplied)
    } else {
        None
    }
}

impl ImageAlphaFormat {
    pub fn from_repr(b: u8) -> (r: Option<ImageAlphaFormat>)
        ensures
            r == spec_image_alpha_format_from_repr(b),
    {
        match b {
            0 => Some(ImageAlphaFormat::Ignored),
            1 => Some(ImageAlphaFormat::Defined),
            2 => Some(ImageAlphaFormat::Premultiplied),
            _ => None,
        }
    }
}

#[derive(Clone, Copy, Debug, PartialEq, Eq, Structural)]
pub enum InstallVerbosity {
    Normal,
    Silent,
    VerySilent,
}

pub open spec fn spec_install_verbosity_from_repr(b: u8) -> Option<InstallVerbosity> {
    if b == 0 {
        Some(InstallVerbosity::Normal)
    } else if b == 1 {
        Some(InstallVerbosity::Silent)
    } else if b == 2 {
        Some(InstallVerbosity::VerySilent)
    } else {
        None
    }
}

impl InstallVerbosity {
    pub fn from_repr(b: u8) -> (r: Option<InstallVerbosity>)
        ensures
            r == spec_install_verbosity_from_repr(b),
    {
        match b {
            0 => Some(InstallVerbosity::Normal),
            1 => Some(InstallVerbosity::Silent),
            2 => Some(InstallVerbosity::VerySilent),
            _ => None,
        }
    }
}

/// How the uninstall log is opened.
#[derive(Clone, Copy, Debug, PartialEq, Eq, Structural)]
pub enum LogMode {
    Append,
    New,
    Overwrite,
}

pub open spec fn spec_log_mode_from_repr(b: u8) -> Option<LogMode> {
    if b == 0 {
        Some(LogMode::Append)
    } else if b == 1 {
        Some(LogMode::New)
    } else if b == 2 {
        Some(LogMode::Overwrite)
    } else {
        None
    }
}

impl LogMode {
    pub fn from_repr(b: u8) -> (r: Option<LogMode>)
        ensures
            r == spec_log_mode_from_repr(b),
    {
        match b {
            0 => Some(LogMode::Append),
            1 => Some(LogMode::New),
            2 => Some(LogMode::Overwrite),
            _ => None,
        }
    }
}

/// How the installer picks its display language.
#[derive(Clone, Copy, Debug, PartialEq, Eq, Structural)]
pub enum LanguageDetection {
    UiLanguage,
    Locale,
    NoDetection,
}

pub open spec fn spec_language_detection_from_repr(b: u8) -> Option<LanguageDetection> {
    if b == 0 {
        Some(LanguageDetection::UiLanguage)
    } else if b == 1 {
        Some(LanguageDetection::Locale)
    } else if b == 2 {
        Some(LanguageDetection::NoDetection)
    } else {
        None
    }
}

impl LanguageDetection {
    pub fn from_repr(b: u8) -> (r: Option<LanguageDetection>)
        ensures
            r == spec_language_detection_from_repr(b),
    {
        match b {
            0 => Some(LanguageDetection::UiLanguage),
            1 => Some(LanguageDetection::Locale),
            2 => Some(LanguageDetection::NoDetection),
            _ => None,
        }
    }

    /// The back-fill value: the locale-detection flag selects `Locale`,
    /// otherwise the UI language is matched.
    pub open spec fn spec_from_flags(flags: FlagSet) -> LanguageDetection {
        if flags.has(HeaderFlag::DetectLanguageUsingLocale) {
            LanguageDetection::Locale
        } else {
            LanguageDetection::UiLanguage
        }
    }

    pub fn from_header_flags(flags: &FlagSet) -> (r: LanguageDetection)
        ensures
            r == LanguageDetection::spec_from_flags(*flags),
    {
        if flags.contains(HeaderFlag::DetectLanguageUsingLocale) {
            LanguageDetection::Locale
        } else {
            LanguageDetection::UiLanguage
        }
    }
}

/// The privileges the installer asks for.
#[derive(Clone, Copy, Debug, PartialEq, Eq, Structural)]
pub enum PrivilegeLevel {
    NoPrivileges,
    PowerUser,
    Admin,
    Lowest,
}

pub open spec fn spec_privilege_level_from_repr(b: u8) -> Option<PrivilegeLevel> {
    if b == 0 {
        Some(PrivilegeLevel::NoPrivileges)
    } else if b == 1 {
        Some(PrivilegeLevel::PowerUser)
    } else if b == 2 {
        Some(PrivilegeLevel::Admin)
    } else if b == 3 {
        Some(PrivilegeLevel::Lowest)
    } else {
        None
    }
}

impl PrivilegeLevel {
    pub fn from_repr(b: u8) -> (r: Option<PrivilegeLevel>)
        ensures
            r == spec_privilege_level_from_repr(b),
    {
        match b {
            0 => Some(PrivilegeLevel::NoPrivileges),
            1 => Some(PrivilegeLevel::PowerUser),
            2 => Some(PrivilegeLevel::Admin),
            3 => Some(PrivilegeLevel::Lowest),
            _ => None,
        }
    }

    /// The back-fill value derived from `AdminPrivilegesRequired`.
    pub open spec fn spec_from_flags(flags: FlagSet) -> PrivilegeLevel {
        if flags.has(HeaderFlag::AdminPrivilegesRequired) {
            PrivilegeLevel::Admin
        } else {
            PrivilegeLevel::NoPrivileges
        }
    }

    pub fn from_header_flags(flags: &FlagSet) -> (r: PrivilegeLevel)
        ensures
            r == PrivilegeLevel::spec_from_flags(*flags),
    {
        if flags.contains(HeaderFlag::AdminPrivilegesRequired) {
            PrivilegeLevel::Admin
        } else {
            PrivilegeLevel::NoPrivileges
        }
    }
}

/// The compression method of the data stream.
#[derive(Clone, Copy, Debug, PartialEq, Eq, Structural)]
pub enum Compression {
    Stored,
    Zlib,
    BZip2,
    Lzma1,
    Lzma2,
    Unknown,
}

pub open spec fn spec_compression_from_repr(b: u8) -> Option<Compression> {
    if b == 0 {
        Some(Compression::Stored)
    } else if b == 1 {
        Some(Compression::Zlib)
    } else if b == 2 {
        Some(Compression::BZip2)
    } else if b == 3 {
        Some(Compression::Lzma1)
    } else if b == 4 {
        Some(Compression::Lzma2)
    } else {
        None
    }
}

impl Compression {
    pub fn from_repr(b: u8) -> (r: Option<Compression>)
        ensures
            r == spec_compression_from_repr(b),
    {
        match b {
            0 => Some(Compression::Stored),
            1 => Some(Compression::Zlib),
            2 => Some(Compression::BZip2),
            3 => Some(Compression::Lzma1),
            4 => Some(Compression::Lzma2),
            _ => None,
        }
    }

    /// The back-fill value derived from `BzipUsed`.
    pub open spec fn spec_from_flags(flags: FlagSet) -> Compression {
        if flags.has(HeaderFlag::BzipUsed) {
            Compression::BZip2
        } else {
            Compression::Zlib
        }
    }

    pub fn from_header_flags(flags: &FlagSet) -> (r: Compression)
        ensures
            r == Compression::spec_from_flags(*flags),
    {
        if flags.contains(HeaderFlag::BzipUsed) {
            Compression::BZip2
        } else {
            Compression::Zlib
        }
    }
}

/// A setup type entry's kind.
#[derive(Clone, Copy, Debug, PartialEq, Eq, Structural)]
pub enum SetupType {
    User,
    DefaultFull,
    DefaultCompact,
    DefaultCustom,
}

pub open spec fn spec_setup_type_from_repr(b: u8) -> Option<SetupType> {
    if b == 0 {
        Some(SetupType::User)
    } else if b == 1 {
        Some(SetupType::DefaultFull)
    } else if b == 2 {
        Some(SetupType::DefaultCompact)
    } else if b == 3 {
        Some(SetupType::DefaultCustom)
    } else {
        None
    }
}

impl SetupType {
    pub fn from_repr(b: u8) -> (r: Option<SetupType>)
        ensures
            r == spec_setup_type_from_repr(b),
    {
        match b {
            0 => Some(SetupType::User),
            1 => Some(SetupType::DefaultFull),
            2 => Some(SetupType::DefaultCompact),
            3 => Some(SetupType::DefaultCustom),
            _ => None,
        }
    }
}

/// Which privilege levels the user may override on the command line or in
/// a dialog. The byte is kept verbatim, unknown bits included.
#[derive(Clone, Copy, Debug, PartialEq, Eq, Structural)]
pub struct PrivilegesRequiredOverrides {
    pub bits: u8,
}

impl PrivilegesRequiredOverrides {
    pub open spec fn spec_empty() -> PrivilegesRequiredOverrides {
        PrivilegesRequiredOverrides { bits: 0 }
    }

    pub fn empty() -> (r: PrivilegesRequiredOverrides)
        ensures
            r == PrivilegesRequiredOverrides::spec_empty(),
    {
        PrivilegesRequiredOverrides { bits: 0 }
    }

    pub fn from_bits_retain(bits: u8) -> (r: PrivilegesRequiredOverrides)
        ensures
            r == (PrivilegesRequiredOverrides { bits }),
    {
        PrivilegesRequiredOverrides { bits }
    }
}

} // verus!
