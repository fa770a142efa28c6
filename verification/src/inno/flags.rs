//! The header's boolean setup options.
//!
//! Inno Setup stores these as one densely packed bitstream. Which flags are
//! enrolled in the stream — and in which order — depends on the version;
//! [`flag_order`] gives the canonical order and [`flag_gate`] the per-flag
//! version gate. `ShowLanguageDialog` exists only as a queryable flag: no
//! version enrols it, so it is never set by decoding.

use vstd::prelude::*;

use crate::inno::version::KnownVersion;

verus! {

/// Every boolean setup option the header can carry.
#[derive(Clone, Copy, Debug, PartialEq, Eq, Structural)]
pub enum HeaderFlag {
    DisableStartupPrompt,
    Uninstallable,
    CreateAppDir,
    DisableDirPage,
    DisableDirExistsWarning,
    DisableProgramGroupPage,
    AllowNoIcons,
    AlwaysRestart,
    BackSolid,
    AlwaysUsePersonalGroup,
    WindowVisible,
    WindowShowCaption,
    WindowResizable,
    WindowStartMaximised,
    EnabledDirDoesntExistWarning,
    DisableAppendDir,
    Password,
    AllowRootDirectory,
    DisableFinishedPage,
    AdminPrivilegesRequired,
    AlwaysCreateUninstallIcon,
    OverwriteUninstallRegEntries,
    ChangesAssociations,
    CreateUninstallRegKey,
    UsePreviousAppDir,
    BackColorHorizontal,
    UsePreviousGroup,
    UpdateUninstallLogAppName,
    UsePreviousSetupType,
    DisableReadyMemo,
    AlwaysShowComponentsList,
    FlatComponentsList,
    ShowComponentSizes,
    UsePreviousTasks,
    DisableReadyPage,
    AlwaysShowDirOnReadyPage,
    AlwaysShowGroupOnReadyPage,
    BzipUsed,
    AllowUncPath,
    UserInfoPage,
    UsePreviousUserInfo,
    UninstallRestartComputer,
    RestartIfNeededByRun,
    ShowTasksTreeLines,
    DetectLanguageUsingLocale,
    AllowCancelDuringInstall,
    WizardImageStretch,
    AppendDefaultDirName,
    AppendDefaultGroupName,
    EncryptionUsed,
    ChangesEnvironment,
    ShowUndisplayableLanguages,
    SetupLogging,
    SignedUninstaller,
    UsePreviousLanguage,
    DisableWelcomePage,
    CloseApplications,
    RestartApplications,
    AllowNetworkDrive,
    ForceCloseApplications,
    AppNameHasConsts,
    UsePreviousPrivileges,
    WizardResizable,
    UninstallLogging,
    ShowLanguageDialog,
}

/// The bit assigned to each flag inside a [`FlagSet`]; also the flag's
/// position in the canonical enrolment order.
pub open spec fn spec_flag_index(f: HeaderFlag) -> u128 {
    match f {
        HeaderFlag::DisableStartupPrompt => 0,
        HeaderFlag::Uninstallable => 1,
        HeaderFlag::CreateAppDir => 2,
        HeaderFlag::DisableDirPage => 3,
        HeaderFlag::DisableDirExistsWarning => 4,
        HeaderFlag::DisableProgramGroupPage => 5,
        HeaderFlag::AllowNoIcons => 6,
        HeaderFlag::AlwaysRestart => 7,
        HeaderFlag::BackSolid => 8,
        HeaderFlag::AlwaysUsePersonalGroup => 9,
        HeaderFlag::WindowVisible => 10,
        HeaderFlag::WindowShowCaption => 11,
        HeaderFlag::WindowResizable => 12,
        HeaderFlag::WindowStartMaximised => 13,
        HeaderFlag::EnabledDirDoesntExistWarning => 14,
        HeaderFlag::DisableAppendDir => 15,
        HeaderFlag::Password => 16,
        HeaderFlag::AllowRootDirectory => 17,
        HeaderFlag::DisableFinishedPage => 18,
        HeaderFlag::AdminPrivilegesRequired => 19,
        HeaderFlag::AlwaysCreateUninstallIcon => 20,
        HeaderFlag::OverwriteUninstallRegEntries => 21,
        HeaderFlag::ChangesAssociations => 22,
        HeaderFlag::CreateUninstallRegKey => 23,
        HeaderFlag::UsePreviousAppDir => 24,
        HeaderFlag::BackColorHorizontal => 25,
        HeaderFlag::UsePreviousGroup => 26,
        HeaderFlag::UpdateUninstallLogAppName => 27,
        HeaderFlag::UsePreviousSetupType => 28,
        HeaderFlag::DisableReadyMemo => 29,
        HeaderFlag::AlwaysShowComponentsList => 30,
        HeaderFlag::FlatComponentsList => 31,
        HeaderFlag::ShowComponentSizes => 32,
        HeaderFlag::UsePreviousTasks => 33,
        HeaderFlag::DisableReadyPage => 34,
        HeaderFlag::AlwaysShowDirOnReadyPage => 35,
        HeaderFlag::AlwaysShowGroupOnReadyPage => 36,
        HeaderFlag::BzipUsed => 37,
        HeaderFlag::AllowUncPath => 38,
        HeaderFlag::UserInfoPage => 39,
        HeaderFlag::UsePreviousUserInfo => 40,
        HeaderFlag::UninstallRestartComputer => 41,
        HeaderFlag::RestartIfNeededByRun => 42,
        HeaderFlag::ShowTasksTreeLines => 43,
        HeaderFlag::DetectLanguageUsingLocale => 44,
        HeaderFlag::AllowCancelDuringInstall => 45,
        HeaderFlag::WizardImageStretch => 46,
        HeaderFlag::AppendDefaultDirName => 47,
        HeaderFlag::AppendDefaultGroupName => 48,
        HeaderFlag::EncryptionUsed => 49,
        HeaderFlag::ChangesEnvironment => 50,
        HeaderFlag::ShowUndisplayableLanguages => 51,
        HeaderFlag::SetupLogging => 52,
        HeaderFlag::SignedUninstaller => 53,
        HeaderFlag::UsePreviousLanguage => 54,
        HeaderFlag::DisableWelcomePage => 55,
        HeaderFlag::CloseApplications => 56,
        HeaderFlag::RestartApplications => 57,
        HeaderFlag::AllowNetworkDrive => 58,
        HeaderFlag::ForceCloseApplications => 59,
        HeaderFlag::AppNameHasConsts => 60,
        HeaderFlag::UsePreviousPrivileges => 61,
        HeaderFlag::WizardResizable => 62,
        HeaderFlag::UninstallLogging => 63,
        HeaderFlag::ShowLanguageDialog => 64,
    }
}

/// The flag at position `i` of the canonical order (the inverse of
/// [`spec_flag_index`]).
pub open spec fn flag_of(i: int) -> HeaderFlag {
    if i == 0 {
        HeaderFlag::DisableStartupPrompt
    } else if i == 1 {
        HeaderFlag::Uninstallable
    } else if i == 2 {
        HeaderFlag::CreateAppDir
    } else if i == 3 {
        HeaderFlag::DisableDirPage
    } else if i == 4 {
        HeaderFlag::DisableDirExistsWarning
    } else if i == 5 {
        HeaderFlag::DisableProgramGroupPage
    } else if i == 6 {
        HeaderFlag::AllowNoIcons
    } else if i == 7 {
        HeaderFlag::AlwaysRestart
    } else if i == 8 {
        HeaderFlag::BackSolid
    } else if i == 9 {
        HeaderFlag::AlwaysUsePersonalGroup
    } else if i == 10 {
        HeaderFlag::WindowVisible
    } else if i == 11 {
        HeaderFlag::WindowShowCaption
    } else if i == 12 {
        HeaderFlag::WindowResizable
    } else if i == 13 {
        HeaderFlag::WindowStartMaximised
    } else if i == 14 {
        HeaderFlag::EnabledDirDoesntExistWarning
    } else if i == 15 {
        HeaderFlag::DisableAppendDir
    } else if i == 16 {
        HeaderFlag::Password
    } else if i == 17 {
        HeaderFlag::AllowRootDirectory
    } else if i == 18 {
        HeaderFlag::DisableFinishedPage
    } else if i == 19 {
        HeaderFlag::AdminPrivilegesRequired
    } else if i == 20 {
        HeaderFlag::AlwaysCreateUninstallIcon
    } else if i == 21 {
        HeaderFlag::OverwriteUninstallRegEntries
    } else if i == 22 {
        HeaderFlag::ChangesAssociations
    } else if i == 23 {
        HeaderFlag::CreateUninstallRegKey
    } else if i == 24 {
        HeaderFlag::UsePreviousAppDir
    } else if i == 25 {
        HeaderFlag::BackColorHorizontal
    } else if i == 26 {
        HeaderFlag::UsePreviousGroup
    } else if i == 27 {
        HeaderFlag::UpdateUninstallLogAppName
    } else if i == 28 {
        HeaderFlag::UsePreviousSetupType
    } else if i == 29 {
        HeaderFlag::DisableReadyMemo
    } else if i == 30 {
        HeaderFlag::AlwaysShowComponentsList
    } else if i == 31 {
        HeaderFlag::FlatComponentsList
    } else if i == 32 {
        HeaderFlag::ShowComponentSizes
    } else if i == 33 {
        HeaderFlag::UsePreviousTasks
    } else if i == 34 {
        HeaderFlag::DisableReadyPage
    } else if i == 35 {
        HeaderFlag::AlwaysShowDirOnReadyPage
    } else if i == 36 {
        HeaderFlag::AlwaysShowGroupOnReadyPage
    } else if i == 37 {
        HeaderFlag::BzipUsed
    } else if i == 38 {
        HeaderFlag::AllowUncPath
    } else if i == 39 {
        HeaderFlag::UserInfoPage
    } else if i == 40 {
        HeaderFlag::UsePreviousUserInfo
    } else if i == 41 {
        HeaderFlag::UninstallRestartComputer
    } else if i == 42 {
        HeaderFlag::RestartIfNeededByRun
    } else if i == 43 {
        HeaderFlag::ShowTasksTreeLines
    } else if i == 44 {
        HeaderFlag::DetectLanguageUsingLocale
    } else if i == 45 {
        HeaderFlag::AllowCancelDuringInstall
    } else if i == 46 {
        HeaderFlag::WizardImageStretch
    } else if i == 47 {
        HeaderFlag::AppendDefaultDirName
    } else if i == 48 {
        HeaderFlag::AppendDefaultGroupName
    } else if i == 49 {
        HeaderFlag::EncryptionUsed
    } else if i == 50 {
        HeaderFlag::ChangesEnvironment
    } else if i == 51 {
        HeaderFlag::ShowUndisplayableLanguages
    } else if i == 52 {
        HeaderFlag::SetupLogging
    } else if i == 53 {
        HeaderFlag::SignedUninstaller
    } else if i == 54 {
        HeaderFlag::UsePreviousLanguage
    } else if i == 55 {
        HeaderFlag::DisableWelcomePage
    } else if i == 56 {
        HeaderFlag::CloseApplications
    } else if i == 57 {
        HeaderFlag::RestartApplications
    } else if i == 58 {
        HeaderFlag::AllowNetworkDrive
    } else if i == 59 {
        HeaderFlag::ForceCloseApplications
    } else if i == 60 {
        HeaderFlag::AppNameHasConsts
    } else if i == 61 {
        HeaderFlag::UsePreviousPrivileges
    } else if i == 62 {
        HeaderFlag::WizardResizable
    } else if i == 63 {
        HeaderFlag::UninstallLogging
    } else {
        HeaderFlag::ShowLanguageDialog
    }
}

/// The canonical enrolment order: the 64 flags that some version enrols.
pub open spec fn flag_order() -> Seq<HeaderFlag> {
    Seq::new(64, |i: int| flag_of(i))
}

/// Whether `f` is enrolled in the flag bitstream of version `v`.
pub open spec fn flag_gate(f: HeaderFlag, v: KnownVersion) -> bool {
    match f {
        HeaderFlag::DisableStartupPrompt => true,
        HeaderFlag::Uninstallable => v.spec_before(5, 3, 10),
        HeaderFlag::CreateAppDir => true,
        HeaderFlag::DisableDirPage => v.spec_before(5, 3, 3),
        HeaderFlag::DisableDirExistsWarning => v.spec_before(1, 3, 6),
        HeaderFlag::DisableProgramGroupPage => v.spec_before(5, 3, 3),
        HeaderFlag::AllowNoIcons => true,
        HeaderFlag::AlwaysRestart => v.spec_before(3, 0, 0) || v.spec_at_least(3, 0, 3),
        HeaderFlag::BackSolid => v.spec_before(1, 3, 3),
        HeaderFlag::AlwaysUsePersonalGroup => true,
        HeaderFlag::WindowVisible => true,
        HeaderFlag::WindowShowCaption => true,
        HeaderFlag::WindowResizable => true,
        HeaderFlag::WindowStartMaximised => true,
        HeaderFlag::EnabledDirDoesntExistWarning => true,
        HeaderFlag::DisableAppendDir => v.spec_before(4, 1, 2),
        HeaderFlag::Password => true,
        HeaderFlag::AllowRootDirectory => v.spec_at_least(1, 2, 6),
        HeaderFlag::DisableFinishedPage => v.spec_at_least(1, 2, 14),
        HeaderFlag::AdminPrivilegesRequired => v.spec_before(3, 0, 4),
        HeaderFlag::AlwaysCreateUninstallIcon => v.spec_before(3, 0, 0),
        HeaderFlag::OverwriteUninstallRegEntries => v.spec_before(1, 3, 6),
        HeaderFlag::ChangesAssociations => v.spec_before(5, 6, 1),
        HeaderFlag::CreateUninstallRegKey => v.spec_at_least(1, 3, 0) && v.spec_before(5, 3, 8),
        HeaderFlag::UsePreviousAppDir => v.spec_at_least(1, 3, 1),
        HeaderFlag::BackColorHorizontal => v.spec_at_least(1, 3, 3),
        HeaderFlag::UsePreviousGroup => v.spec_at_least(1, 3, 10),
        HeaderFlag::UpdateUninstallLogAppName => v.spec_at_least(1, 3, 20),
        HeaderFlag::UsePreviousSetupType => v.spec_at_least(2, 0, 0) || v.spec_isx_at_least(
            1,
            3,
            10,
        ),
        HeaderFlag::DisableReadyMemo => v.spec_at_least(2, 0, 0),
        HeaderFlag::AlwaysShowComponentsList => v.spec_at_least(2, 0, 0),
        HeaderFlag::FlatComponentsList => v.spec_at_least(2, 0, 0),
        HeaderFlag::ShowComponentSizes => v.spec_at_least(2, 0, 0),
        HeaderFlag::UsePreviousTasks => v.spec_at_least(2, 0, 0),
        HeaderFlag::DisableReadyPage => v.spec_at_least(2, 0, 0),
        HeaderFlag::AlwaysShowDirOnReadyPage => v.spec_at_least(2, 0, 7),
        HeaderFlag::AlwaysShowGroupOnReadyPage => v.spec_at_least(2, 0, 7),
        HeaderFlag::BzipUsed => v.spec_at_least(2, 0, 17) && v.spec_before(4, 1, 5),
        HeaderFlag::AllowUncPath => v.spec_at_least(2, 0, 18),
        HeaderFlag::UserInfoPage => v.spec_at_least(3, 0, 0),
        HeaderFlag::UsePreviousUserInfo => v.spec_at_least(3, 0, 0),
        HeaderFlag::UninstallRestartComputer => v.spec_at_least(3, 0, 1),
        HeaderFlag::RestartIfNeededByRun => v.spec_at_least(3, 0, 3),
        HeaderFlag::ShowTasksTreeLines => v.spec_at_least(4, 0, 0) || v.spec_isx_at_least(3, 0, 3),
        HeaderFlag::DetectLanguageUsingLocale => v.spec_at_least(4, 0, 1) && v.spec_before(
            4,
            0,
            10,
        ),
        HeaderFlag::AllowCancelDuringInstall => v.spec_at_least(4, 0, 9),
        HeaderFlag::WizardImageStretch => v.spec_at_least(4, 1, 3),
        HeaderFlag::AppendDefaultDirName => v.spec_at_least(4, 1, 8),
        HeaderFlag::AppendDefaultGroupName => v.spec_at_least(4, 1, 8),
        HeaderFlag::EncryptionUsed => v.spec_at_least(4, 2, 2),
        HeaderFlag::ChangesEnvironment => v.spec_at_least(5, 0, 4) && v.spec_before(5, 6, 1),
        HeaderFlag::ShowUndisplayableLanguages => v.spec_at_least(5, 1, 7) && !v.is_unicode,
        HeaderFlag::SetupLogging => v.spec_at_least(5, 1, 13),
        HeaderFlag::SignedUninstaller => v.spec_at_least(5, 2, 1),
        HeaderFlag::UsePreviousLanguage => v.spec_at_least(5, 3, 8),
        HeaderFlag::DisableWelcomePage => v.spec_at_least(5, 3, 9),
        HeaderFlag::CloseApplications => v.spec_at_least(5, 5, 0),
        HeaderFlag::RestartApplications => v.spec_at_least(5, 5, 0),
        HeaderFlag::AllowNetworkDrive => v.spec_at_least(5, 5, 0),
        HeaderFlag::ForceCloseApplications => v.spec_at_least(5, 5, 7),
        HeaderFlag::AppNameHasConsts => v.spec_at_least(6, 0, 0),
        HeaderFlag::UsePreviousPrivileges => v.spec_at_least(6, 0, 0),
        HeaderFlag::WizardResizable => v.spec_at_least(6, 0, 0),
        HeaderFlag::UninstallLogging => v.spec_at_least(6, 3, 0),
        HeaderFlag::ShowLanguageDialog => false,
    }
}

/// The flags of the first `i` positions of the canonical order that
/// version `v` enrols, in order.
pub open spec fn enrolled_prefix(v: KnownVersion, i: int) -> Seq<HeaderFlag>
    decreases i,
{
    if i <= 0 {
        Seq::empty()
    } else {
        enrolled_prefix(v, i - 1) + (if flag_gate(flag_of(i - 1), v) {
            seq![flag_of(i - 1)]
        } else {
            Seq::empty()
        })
    }
}

/// The flags that version `v` enrols, in enrolment order.
pub open spec fn enrolled_flags(v: KnownVersion) -> Seq<HeaderFlag> {
    enrolled_prefix(v, 64)
}

/// At most one flag joins per position of the canonical order.
pub proof fn lemma_enrolled_prefix_len(v: KnownVersion, i: int)
    requires
        0 <= i,
    ensures
        enrolled_prefix(v, i).len() <= i,
    decreases i,
{
    if i > 0 {
        lemma_enrolled_prefix_len(v, i - 1);
    }
}

impl HeaderFlag {
    /// The flag at position `i` of the canonical order.
    pub fn of_index(i: usize) -> (f: HeaderFlag)
        requires
            i < 64,
        ensures
            f == flag_of(i as int),
    {
        match i {
            0 => HeaderFlag::DisableStartupPrompt,
            1 => HeaderFlag::Uninstallable,
            2 => HeaderFlag::CreateAppDir,
            3 => HeaderFlag::DisableDirPage,
            4 => HeaderFlag::DisableDirExistsWarning,
            5 => HeaderFlag::DisableProgramGroupPage,
            6 => HeaderFlag::AllowNoIcons,
            7 => HeaderFlag::AlwaysRestart,
            8 => HeaderFlag::BackSolid,
            9 => HeaderFlag::AlwaysUsePersonalGroup,
            10 => HeaderFlag::WindowVisible,
            11 => HeaderFlag::WindowShowCaption,
            12 => HeaderFlag::WindowResizable,
            13 => HeaderFlag::WindowStartMaximised,
            14 => HeaderFlag::EnabledDirDoesntExistWarning,
            15 => HeaderFlag::DisableAppendDir,
            16 => HeaderFlag::Password,
            17 => HeaderFlag::AllowRootDirectory,
            18 => HeaderFlag::DisableFinishedPage,
            19 => HeaderFlag::AdminPrivilegesRequired,
            20 => HeaderFlag::AlwaysCreateUninstallIcon,
            21 => HeaderFlag::OverwriteUninstallRegEntries,
            22 => HeaderFlag::ChangesAssociations,
            23 => HeaderFlag::CreateUninstallRegKey,
            24 => HeaderFlag::UsePreviousAppDir,
            25 => HeaderFlag::BackColorHorizontal,
            26 => HeaderFlag::UsePreviousGroup,
            27 => HeaderFlag::UpdateUninstallLogAppName,
            28 => HeaderFlag::UsePreviousSetupType,
            29 => HeaderFlag::DisableReadyMemo,
            30 => HeaderFlag::AlwaysShowComponentsList,
            31 => HeaderFlag::FlatComponentsList,
            32 => HeaderFlag::ShowComponentSizes,
            33 => HeaderFlag::UsePreviousTasks,
            34 => HeaderFlag::DisableReadyPage,
            35 => HeaderFlag::AlwaysShowDirOnReadyPage,
            36 => HeaderFlag::AlwaysShowGroupOnReadyPage,
            37 => HeaderFlag::BzipUsed,
            38 => HeaderFlag::AllowUncPath,
            39 => HeaderFlag::UserInfoPage,
            40 => HeaderFlag::UsePreviousUserInfo,
            41 => HeaderFlag::UninstallRestartComputer,
            42 => HeaderFlag::RestartIfNeededByRun,
            43 => HeaderFlag::ShowTasksTreeLines,
            44 => HeaderFlag::DetectLanguageUsingLocale,
            45 => HeaderFlag::AllowCancelDuringInstall,
            46 => HeaderFlag::WizardImageStretch,
            47 => HeaderFlag::AppendDefaultDirName,
            48 => HeaderFlag::AppendDefaultGroupName,
            49 => HeaderFlag::EncryptionUsed,
            50 => HeaderFlag::ChangesEnvironment,
            51 => HeaderFlag::ShowUndisplayableLanguages,
            52 => HeaderFlag::SetupLogging,
            53 => HeaderFlag::SignedUninstaller,
            54 => HeaderFlag::UsePreviousLanguage,
            55 => HeaderFlag::DisableWelcomePage,
            56 => HeaderFlag::CloseApplications,
            57 => HeaderFlag::RestartApplications,
            58 => HeaderFlag::AllowNetworkDrive,
            59 => HeaderFlag::ForceCloseApplications,
            60 => HeaderFlag::AppNameHasConsts,
            61 => HeaderFlag::UsePreviousPrivileges,
            62 => HeaderFlag::WizardResizable,
            _ => HeaderFlag::UninstallLogging,
        }
    }

    pub fn index(&self) -> (i: u32)
        ensures
            i as u128 == spec_flag_index(*self),
            i <= 64,
    {
        match self {
            HeaderFlag::DisableStartupPrompt => 0,
            HeaderFlag::Uninstallable => 1,
            HeaderFlag::CreateAppDir => 2,
            HeaderFlag::DisableDirPage => 3,
            HeaderFlag::DisableDirExistsWarning => 4,
            HeaderFlag::DisableProgramGroupPage => 5,
            HeaderFlag::AllowNoIcons => 6,
            HeaderFlag::AlwaysRestart => 7,
            HeaderFlag::BackSolid => 8,
            HeaderFlag::AlwaysUsePersonalGroup => 9,
            HeaderFlag::WindowVisible => 10,
            HeaderFlag::WindowShowCaption => 11,
            HeaderFlag::WindowResizable => 12,
            HeaderFlag::WindowStartMaximised => 13,
            HeaderFlag::EnabledDirDoesntExistWarning => 14,
            HeaderFlag::DisableAppendDir => 15,
            HeaderFlag::Password => 16,
            HeaderFlag::AllowRootDirectory => 17,
            HeaderFlag::DisableFinishedPage => 18,
            HeaderFlag::AdminPrivilegesRequired => 19,
            HeaderFlag::AlwaysCreateUninstallIcon => 20,
            HeaderFlag::OverwriteUninstallRegEntries => 21,
            HeaderFlag::ChangesAssociations => 22,
            HeaderFlag::CreateUninstallRegKey => 23,
            HeaderFlag::UsePreviousAppDir => 24,
            HeaderFlag::BackColorHorizontal => 25,
            HeaderFlag::UsePreviousGroup => 26,
            HeaderFlag::UpdateUninstallLogAppName => 27,
            HeaderFlag::UsePreviousSetupType => 28,
            HeaderFlag::DisableReadyMemo => 29,
            HeaderFlag::AlwaysShowComponentsList => 30,
            HeaderFlag::FlatComponentsList => 31,
            HeaderFlag::ShowComponentSizes => 32,
            HeaderFlag::UsePreviousTasks => 33,
            HeaderFlag::DisableReadyPage => 34,
            HeaderFlag::AlwaysShowDirOnReadyPage => 35,
            HeaderFlag::AlwaysShowGroupOnReadyPage => 36,
            HeaderFlag::BzipUsed => 37,
            HeaderFlag::AllowUncPath => 38,
            HeaderFlag::UserInfoPage => 39,
            HeaderFlag::UsePreviousUserInfo => 40,
            HeaderFlag::UninstallRestartComputer => 41,
            HeaderFlag::RestartIfNeededByRun => 42,
            HeaderFlag::ShowTasksTreeLines => 43,
            HeaderFlag::DetectLanguageUsingLocale => 44,
            HeaderFlag::AllowCancelDuringInstall => 45,
            HeaderFlag::WizardImageStretch => 46,
            HeaderFlag::AppendDefaultDirName => 47,
            HeaderFlag::AppendDefaultGroupName => 48,
            HeaderFlag::EncryptionUsed => 49,
            HeaderFlag::ChangesEnvironment => 50,
            HeaderFlag::ShowUndisplayableLanguages => 51,
            HeaderFlag::SetupLogging => 52,
            HeaderFlag::SignedUninstaller => 53,
            HeaderFlag::UsePreviousLanguage => 54,
            HeaderFlag::DisableWelcomePage => 55,
            HeaderFlag::CloseApplications => 56,
            HeaderFlag::RestartApplications => 57,
            HeaderFlag::AllowNetworkDrive => 58,
            HeaderFlag::ForceCloseApplications => 59,
            HeaderFlag::AppNameHasConsts => 60,
            HeaderFlag::UsePreviousPrivileges => 61,
            HeaderFlag::WizardResizable => 62,
            HeaderFlag::UninstallLogging => 63,
            HeaderFlag::ShowLanguageDialog => 64,
        }
    }

    /// Whether version `v` enrols this flag in the bitstream.
    pub fn enrolled_in(&self, v: &KnownVersion) -> (r: bool)
        ensures
            r == flag_gate(*self, *v),
    {
        match self {
            HeaderFlag::DisableStartupPrompt => true,
            HeaderFlag::Uninstallable => v.before(5, 3, 10),
            HeaderFlag::CreateAppDir => true,
            HeaderFlag::DisableDirPage => v.before(5, 3, 3),
            HeaderFlag::DisableDirExistsWarning => v.before(1, 3, 6),
            HeaderFlag::DisableProgramGroupPage => v.before(5, 3, 3),
            HeaderFlag::AllowNoIcons => true,
            HeaderFlag::AlwaysRestart => v.before(3, 0, 0) || v.at_least(3, 0, 3),
            HeaderFlag::BackSolid => v.before(1, 3, 3),
            HeaderFlag::AlwaysUsePersonalGroup => true,
            HeaderFlag::WindowVisible => true,
            HeaderFlag::WindowShowCaption => true,
            HeaderFlag::WindowResizable => true,
            HeaderFlag::WindowStartMaximised => true,
            HeaderFlag::EnabledDirDoesntExistWarning => true,
            HeaderFlag::DisableAppendDir => v.before(4, 1, 2),
            HeaderFlag::Password => true,
            HeaderFlag::AllowRootDirectory => v.at_least(1, 2, 6),
            HeaderFlag::DisableFinishedPage => v.at_least(1, 2, 14),
            HeaderFlag::AdminPrivilegesRequired => v.before(3, 0, 4),
            HeaderFlag::AlwaysCreateUninstallIcon => v.before(3, 0, 0),
            HeaderFlag::OverwriteUninstallRegEntries => v.before(1, 3, 6),
            HeaderFlag::ChangesAssociations => v.before(5, 6, 1),
            HeaderFlag::CreateUninstallRegKey => v.at_least(1, 3, 0) && v.before(5, 3, 8),
            HeaderFlag::UsePreviousAppDir => v.at_least(1, 3, 1),
            HeaderFlag::BackColorHorizontal => v.at_least(1, 3, 3),
            HeaderFlag::UsePreviousGroup => v.at_least(1, 3, 10),
            HeaderFlag::UpdateUninstallLogAppName => v.at_least(1, 3, 20),
            HeaderFlag::UsePreviousSetupType => v.at_least(2, 0, 0) || v.isx_at_least(1, 3, 10),
            HeaderFlag::DisableReadyMemo => v.at_least(2, 0, 0),
            HeaderFlag::AlwaysShowComponentsList => v.at_least(2, 0, 0),
            HeaderFlag::FlatComponentsList => v.at_least(2, 0, 0),
            HeaderFlag::ShowComponentSizes => v.at_least(2, 0, 0),
            HeaderFlag::UsePreviousTasks => v.at_least(2, 0, 0),
            HeaderFlag::DisableReadyPage => v.at_least(2, 0, 0),
            HeaderFlag::AlwaysShowDirOnReadyPage => v.at_least(2, 0, 7),
            HeaderFlag::AlwaysShowGroupOnReadyPage => v.at_least(2, 0, 7),
            HeaderFlag::BzipUsed => v.at_least(2, 0, 17) && v.before(4, 1, 5),
            HeaderFlag::AllowUncPath => v.at_least(2, 0, 18),
            HeaderFlag::UserInfoPage => v.at_least(3, 0, 0),
            HeaderFlag::UsePreviousUserInfo => v.at_least(3, 0, 0),
            HeaderFlag::UninstallRestartComputer => v.at_least(3, 0, 1),
            HeaderFlag::RestartIfNeededByRun => v.at_least(3, 0, 3),
            HeaderFlag::ShowTasksTreeLines => v.at_least(4, 0, 0) || v.isx_at_least(3, 0, 3),
            HeaderFlag::DetectLanguageUsingLocale => v.at_least(4, 0, 1) && v.before(4, 0, 10),
            HeaderFlag::AllowCancelDuringInstall => v.at_least(4, 0, 9),
            HeaderFlag::WizardImageStretch => v.at_least(4, 1, 3),
            HeaderFlag::AppendDefaultDirName => v.at_least(4, 1, 8),
            HeaderFlag::AppendDefaultGroupName => v.at_least(4, 1, 8),
            HeaderFlag::EncryptionUsed => v.at_least(4, 2, 2),
            HeaderFlag::ChangesEnvironment => v.at_least(5, 0, 4) && v.before(5, 6, 1),
            HeaderFlag::ShowUndisplayableLanguages => v.at_least(5, 1, 7) && !v.is_unicode,
            HeaderFlag::SetupLogging => v.at_least(5, 1, 13),
            HeaderFlag::SignedUninstaller => v.at_least(5, 2, 1),
            HeaderFlag::UsePreviousLanguage => v.at_least(5, 3, 8),
            HeaderFlag::DisableWelcomePage => v.at_least(5, 3, 9),
            HeaderFlag::CloseApplications => v.at_least(5, 5, 0),
            HeaderFlag::RestartApplications => v.at_least(5, 5, 0),
            HeaderFlag::AllowNetworkDrive => v.at_least(5, 5, 0),
            HeaderFlag::ForceCloseApplications => v.at_least(5, 5, 7),
            HeaderFlag::AppNameHasConsts => v.at_least(6, 0, 0),
            HeaderFlag::UsePreviousPrivileges => v.at_least(6, 0, 0),
            HeaderFlag::WizardResizable => v.at_least(6, 0, 0),
            HeaderFlag::UninstallLogging => v.at_least(6, 3, 0),
            HeaderFlag::ShowLanguageDialog => false,
        }
    }
}

/// The mask of the bit assigned to `f`.
pub open spec fn flag_mask(f: HeaderFlag) -> u128 {
    1u128 << spec_flag_index(f)
}

/// A set of [`HeaderFlag`]s, stored as one bit per flag.
#[derive(Clone, Copy, Debug, PartialEq, Eq, Structural)]
pub struct FlagSet {
    pub bits: u128,
}

impl FlagSet {
    pub open spec fn spec_empty() -> FlagSet {
        FlagSet { bits: 0 }
    }

    pub open spec fn has(self, f: HeaderFlag) -> bool {
        self.bits & flag_mask(f) != 0
    }

    pub open spec fn spec_insert(self, f: HeaderFlag) -> FlagSet {
        FlagSet { bits: self.bits | flag_mask(f) }
    }

    /// The union of two flag sets.
    pub open spec fn spec_union(self, other: FlagSet) -> FlagSet {
        FlagSet { bits: self.bits | other.bits }
    }

    pub fn empty() -> (r: FlagSet)
        ensures
            r == FlagSet::spec_empty(),
    {
        FlagSet { bits: 0 }
    }

    pub fn insert(&mut self, f: HeaderFlag)
        ensures
            *final(self) == old(self).spec_insert(f),
    {
        let i = f.index();
        assert(1u128 << (i as u128) == flag_mask(f));
        self.bits = self.bits | (1u128 << (i as u128));
    }

    pub fn contains(&self, f: HeaderFlag) -> (r: bool)
        ensures
            r == self.has(f),
    {
        let i = f.index();
        assert(1u128 << (i as u128) == flag_mask(f));
        (self.bits & (1u128 << (i as u128))) != 0
    }

    pub fn union(&self, other: &FlagSet) -> (r: FlagSet)
        ensures
            r == self.spec_union(*other),
    {
        FlagSet { bits: self.bits | other.bits }
    }
}

/// Distinct flags sit on distinct bits.
pub proof fn lemma_flag_index_injective(f: HeaderFlag, g: HeaderFlag)
    requires
        spec_flag_index(f) == spec_flag_index(g),
    ensures
        f == g,
{
    assert(flag_of(spec_flag_index(f) as int) == f);
    assert(flag_of(spec_flag_index(g) as int) == g);
}

/// Inserting `f` sets exactly the membership of `f`.
pub proof fn lemma_insert_has(s: FlagSet, f: HeaderFlag, g: HeaderFlag)
    ensures
        s.spec_insert(f).has(g) == (s.has(g) || f == g),
{
    let i = spec_flag_index(f);
    let j = spec_flag_index(g);
    let b = s.bits;
    assert(i <= 64 && j <= 64);
    assert(((b | (1u128 << i)) & (1u128 << j) != 0) == ((b & (1u128 << j) != 0) || i == j))
        by (bit_vector)
        requires
            i < 128 && j < 128,
    ;
    if i == j {
        lemma_flag_index_injective(f, g);
    }
}

/// The union holds a flag exactly when one of its parts does.
pub proof fn lemma_union_has(a: FlagSet, b: FlagSet, g: HeaderFlag)
    ensures
        a.spec_union(b).has(g) == (a.has(g) || b.has(g)),
{
    let j = spec_flag_index(g);
    let x = a.bits;
    let y = b.bits;
    assert(((x | y) & (1u128 << j) != 0) == ((x & (1u128 << j) != 0) || (y & (1u128 << j) != 0)))
        by (bit_vector);
}

/// The empty set holds no flag.
pub proof fn lemma_empty_has(f: HeaderFlag)
    ensures
        !FlagSet::spec_empty().has(f),
{
    let j = spec_flag_index(f);
    assert(0u128 & (1u128 << j) == 0) by (bit_vector);
}

} // verus!
