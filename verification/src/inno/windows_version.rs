//! The Windows version applicability range of an installer.
//!
//! Two nested version records, a minimum and a maximum. Each one holds a
//! Windows 9x version, an NT version and — from 1.3.19 on — an NT service
//! pack; the build numbers likewise exist only from 1.3.19 on.

use vstd::prelude::*;

use crate::inno::reader::{take_u16, take_u8, InnoError, Reader};
use crate::inno::version::InnoVersion;

verus! {

/// One Windows version: `major.minor`, with a build number on versions
/// that store one.
#[derive(Clone, Copy, Debug, PartialEq, Eq, Structural)]
pub struct WindowsVersion {
    pub major: u8,
    pub minor: u8,
    pub build: u16,
}

/// An NT service pack level.
#[derive(Clone, Copy, Debug, PartialEq, Eq, Structural)]
pub struct ServicePack {
    pub major: u8,
    pub minor: u8,
}

/// A full Windows version: the 9x line, the NT line and the NT service
/// pack.
#[derive(Clone, Copy, Debug, PartialEq, Eq, Structural)]
pub struct FullWindowsVersion {
    pub win_version: WindowsVersion,
    pub nt_version: WindowsVersion,
    pub nt_service_pack: ServicePack,
}

/// The minimum and maximum Windows versions an installer applies to.
#[derive(Clone, Copy, Debug, PartialEq, Eq, Structural)]
pub struct WindowsVersionRange {
    pub begin: FullWindowsVersion,
    pub end: FullWindowsVersion,
}

pub open spec fn default_windows_version() -> WindowsVersion {
    WindowsVersion { major: 0, minor: 0, build: 0 }
}

pub open spec fn default_windows_version_range() -> WindowsVersionRange {
    WindowsVersionRange {
        begin: FullWindowsVersion {
            win_version: default_windows_version(),
            nt_version: default_windows_version(),
            nt_service_pack: ServicePack { major: 0, minor: 0 },
        },
        end: FullWindowsVersion {
            win_version: default_windows_version(),
            nt_version: default_windows_version(),
            nt_service_pack: ServicePack { major: 0, minor: 0 },
        },
    }
}

/// One `major.minor` pair with its optional build: the build `u16` comes
/// first and only from 1.3.19 on, then minor, then major.
pub open spec fn take_windows_version(s: Seq<u8>, p: int, version: InnoVersion) -> Result<
    (WindowsVersion, int),
    InnoError,
> {
    let step = if version.spec_at_least(1, 3, 19) {
        take_u16(s, p)
    } else {
        Ok((0u16, p))
    };
    match step {
        Err(e) => Err(e),
        Ok((build, p1)) => match take_u8(s, p1) {
            Err(e) => Err(e),
            Ok((minor, p2)) => match take_u8(s, p2) {
                Err(e) => Err(e),
                Ok((major, p3)) => Ok((WindowsVersion { major, minor, build }, p3)),
            },
        },
    }
}

/// One full version: the 9x pair, the NT pair, and from 1.3.19 on the NT
/// service pack (minor byte first).
pub open spec fn take_full_windows_version(s: Seq<u8>, p: int, version: InnoVersion) -> Result<
    (FullWindowsVersion, int),
    InnoError,
> {
    match take_windows_version(s, p, version) {
        Err(e) => Err(e),
        Ok((win_version, p1)) => match take_windows_version(s, p1, version) {
            Err(e) => Err(e),
            Ok((nt_version, p2)) => if version.spec_at_least(1, 3, 19) {
                match take_u8(s, p2) {
                    Err(e) => Err(e),
                    Ok((sp_minor, p3)) => match take_u8(s, p3) {
                        Err(e) => Err(e),
                        Ok((sp_major, p4)) => Ok((
                            FullWindowsVersion {
                                win_version,
                                nt_version,
                                nt_service_pack: ServicePack { major: sp_major, minor: sp_minor },
                            },
                            p4,
                        )),
                    },
                }
            } else {
                Ok((
                    FullWindowsVersion {
                        win_version,
                        nt_version,
                        nt_service_pack: ServicePack { major: 0, minor: 0 },
                    },
                    p2,
                ))
            },
        },
    }
}

/// The whole range: minimum, then maximum.
pub open spec fn take_windows_version_range(s: Seq<u8>, p: int, version: InnoVersion) -> Result<
    (WindowsVersionRange, int),
    InnoError,
> {
    match take_full_windows_version(s, p, version) {
        Err(e) => Err(e),
        Ok((begin, p1)) => match take_full_windows_version(s, p1, version) {
            Err(e) => Err(e),
            Ok((end, p2)) => Ok((WindowsVersionRange { begin, end }, p2)),
        },
    }
}

fn load_windows_version(r: &mut Reader, version: &InnoVersion) -> (res: Result<
    WindowsVersion,
    InnoError,
>)
    ensures
        final(r).data() == old(r).data(),
        match take_windows_version(old(r).data(), old(r).pos as int, *version) {
            Ok(vp) => res == Ok::<WindowsVersion, InnoError>(vp.0) && final(r).pos == vp.1,
            Err(e) => res == Err::<WindowsVersion, InnoError>(e),
        },
{
    let build = if version.at_least(1, 3, 19) {
        match r.read_u16() {
            Ok(v) => v,
            Err(e) => {
                return Err(e);
            },
        }
    } else {
        0
    };
    let minor = match r.read_u8() {
        Ok(v) => v,
        Err(e) => {
            return Err(e);
        },
    };
    let major = match r.read_u8() {
        Ok(v) => v,
        Err(e) => {
            return Err(e);
        },
    };
    Ok(WindowsVersion { major, minor, build })
}

fn load_full_windows_version(r: &mut Reader, version: &InnoVersion) -> (res: Result<
    FullWindowsVersion,
    InnoError,
>)
    ensures
        final(r).data() == old(r).data(),
        match take_full_windows_version(old(r).data(), old(r).pos as int, *version) {
            Ok(vp) => res == Ok::<FullWindowsVersion, InnoError>(vp.0) && final(r).pos == vp.1,
            Err(e) => res == Err::<FullWindowsVersion, InnoError>(e),
        },
{
    let win_version = match load_windows_version(r, version) {
        Ok(v) => v,
        Err(e) => {
            return Err(e);
        },
    };
    let nt_version = match load_windows_version(r, version) {
        Ok(v) => v,
        Err(e) => {
            return Err(e);
        },
    };
    let nt_service_pack = if version.at_least(1, 3, 19) {
        let sp_minor = match r.read_u8() {
            Ok(v) => v,
            Err(e) => {
                return Err(e);
            },
        };
        let sp_major = match r.read_u8() {
            Ok(v) => v,
            Err(e) => {
                return Err(e);
            },
        };
        ServicePack { major: sp_major, minor: sp_minor }
    } else {
        ServicePack { major: 0, minor: 0 }
    };
    Ok(FullWindowsVersion { win_version, nt_version, nt_service_pack })
}

impl WindowsVersionRange {
    /// Reads the minimum and maximum Windows versions.
    pub fn load(r: &mut Reader, version: &InnoVersion) -> (res: Result<
        WindowsVersionRange,
        InnoError,
    >)
        ensures
            final(r).data() == old(r).data(),
            match take_windows_version_range(old(r).data(), old(r).pos as int, *version) {
                Ok(vp) => res == Ok::<WindowsVersionRange, InnoError>(vp.0) && final(r).pos
                    == vp.1,
                Err(e) => res == Err::<WindowsVersionRange, InnoError>(e),
            },
    {
        let begin = match load_full_windows_version(r, version) {
            Ok(v) => v,
            Err(e) => {
                return Err(e);
            },
        };
        let end = match load_full_windows_version(r, version) {
            Ok(v) => v,
            Err(e) => {
                return Err(e);
            },
        };
        Ok(WindowsVersionRange { begin, end })
    }
}

} // verus!
