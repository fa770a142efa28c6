//! The header decoder: a fixed schedule of version-gated steps.
//!
//! [`Header::load`] walks the schedule once, forward only. Every step
//! either reads a primitive or a string field, or is skipped for the
//! version at hand; a skipped field keeps its default. The whole schedule
//! has a functional specification, [`load_spec`], built from small
//! step combinators over the header's spec-level mirror [`HeaderView`];
//! `Header::load` is proved to return exactly what `load_spec` says, so
//! decoding is a pure, deterministic function of the bytes and the
//! version.

use vstd::prelude::*;

use crate::inno::architecture::{parse_arch_expression, ArchSet, StoredArchitecture};
use crate::inno::encoding::{
    encoded_string, opt_view, sized_encoded_string, take_sized_string, take_string, utf8_lossy,
    utf8_lossy_of, Codepage,
};
use crate::inno::enums::{
    spec_auto_bool_from_repr, spec_compression_from_repr, spec_image_alpha_format_from_repr,
    spec_inno_style_from_repr, spec_install_verbosity_from_repr,
    spec_language_detection_from_repr, spec_log_mode_from_repr, spec_privilege_level_from_repr,
    take_enum, AutoBool, Compression, ImageAlphaFormat, InnoStyle, InstallVerbosity,
    LanguageDetection, LogMode, PrivilegeLevel, PrivilegesRequiredOverrides,
};
use crate::inno::flag_reader::{take_flag_bits, FlagReader};
use crate::inno::flags::{enrolled_flags, enrolled_prefix, FlagSet, HeaderFlag};
use crate::inno::reader::{take_bytes, take_u32, take_u64, take_u8, EnumField, InnoError, Reader};
use crate::inno::version::KnownVersion;
use vstd::string::StringExecFns;
use crate::inno::windows_version::{
    default_windows_version_range, take_windows_version_range, WindowsVersionRange,
};

verus! {

/// The decoded setup header.
///
/// String fields are `None` when the stream stored a zero length; numeric
/// fields that a version does not carry keep their default.
#[derive(Debug, Clone)]
pub struct Header {
    pub flags: FlagSet,
    pub app_name: Option<String>,
    pub app_versioned_name: Option<String>,
    pub app_id: Option<String>,
    pub app_copyright: Option<String>,
    pub app_publisher: Option<String>,
    pub app_publisher_url: Option<String>,
    pub app_support_phone: Option<String>,
    pub app_support_url: Option<String>,
    pub app_updates_url: Option<String>,
    pub app_version: Option<String>,
    pub default_dir_name: Option<String>,
    pub default_group_name: Option<String>,
    pub uninstall_icon_name: Option<String>,
    pub base_filename: Option<String>,
    pub uninstall_files_dir: Option<String>,
    pub uninstall_name: Option<String>,
    pub uninstall_icon: Option<String>,
    pub app_mutex: Option<String>,
    pub default_user_name: Option<String>,
    pub default_user_organisation: Option<String>,
    pub default_serial: Option<String>,
    pub app_readme_file: Option<String>,
    pub app_contact: Option<String>,
    pub app_comments: Option<String>,
    pub app_modify_path: Option<String>,
    pub create_uninstall_registry_key: Option<String>,
    pub uninstallable: Option<String>,
    pub close_applications_filter: Option<String>,
    pub setup_mutex: Option<String>,
    pub changes_environment: Option<String>,
    pub changes_associations: Option<String>,
    pub architectures_allowed: ArchSet,
    pub architectures_disallowed: ArchSet,
    pub architectures_install_in_64_bit_mode: ArchSet,
    pub license_text: Option<String>,
    pub info_before: Option<String>,
    pub info_after: Option<String>,
    pub uninstaller_signature: Option<String>,
    pub compiled_code: Option<String>,
    pub lead_bytes: Vec<u8>,
    pub language_count: u32,
    pub message_count: u32,
    pub permission_count: u32,
    pub type_count: u32,
    pub component_count: u32,
    pub task_count: u32,
    pub directory_count: u32,
    pub file_count: u32,
    pub data_entry_count: u32,
    pub icon_count: u32,
    pub ini_entry_count: u32,
    pub registry_entry_count: u32,
    pub delete_entry_count: u32,
    pub uninstall_delete_entry_count: u32,
    pub run_entry_count: u32,
    pub uninstall_run_entry_count: u32,
    pub windows_version_range: WindowsVersionRange,
    pub back_color: u32,
    pub back_color2: u32,
    pub image_back_color: u32,
    pub small_image_back_color: u32,
    pub wizard_style: InnoStyle,
    pub wizard_resize_percent_x: u32,
    pub wizard_resize_percent_y: u32,
    pub image_alpha_format: ImageAlphaFormat,
    pub password_salt: Option<String>,
    pub extra_disk_space_required: u64,
    pub slices_per_disk: u32,
    pub install_verbosity: InstallVerbosity,
    pub uninstall_log_mode: LogMode,
    pub uninstall_style: InnoStyle,
    pub dir_exists_warning: AutoBool,
    pub privileges_required: PrivilegeLevel,
    pub privileges_required_overrides_allowed: PrivilegesRequiredOverrides,
    pub show_language_dialog: AutoBool,
    pub language_detection: LanguageDetection,
    pub compression: Compression,
    pub signed_uninstaller_original_size: u32,
    pub signed_uninstaller_header_checksum: u32,
    pub disable_dir_page: AutoBool,
    pub disable_program_group_page: AutoBool,
    pub uninstall_display_size: u64,
}

/// The mathematical value of a [`Header`]: strings become character
/// sequences, the lead-bytes table a byte sequence; all other fields are
/// plain values already.
pub ghost struct HeaderView {
    pub flags: FlagSet,
    pub app_name: Option<Seq<char>>,
    pub app_versioned_name: Option<Seq<char>>,
    pub app_id: Option<Seq<char>>,
    pub app_copyright: Option<Seq<char>>,
    pub app_publisher: Option<Seq<char>>,
    pub app_publisher_url: Option<Seq<char>>,
    pub app_support_phone: Option<Seq<char>>,
    pub app_support_url: Option<Seq<char>>,
    pub app_updates_url: Option<Seq<char>>,
    pub app_version: Option<Seq<char>>,
    pub default_dir_name: Option<Seq<char>>,
    pub default_group_name: Option<Seq<char>>,
    pub uninstall_icon_name: Option<Seq<char>>,
    pub base_filename: Option<Seq<char>>,
    pub uninstall_files_dir: Option<Seq<char>>,
    pub uninstall_name: Option<Seq<char>>,
    pub uninstall_icon: Option<Seq<char>>,
    pub app_mutex: Option<Seq<char>>,
    pub default_user_name: Option<Seq<char>>,
    pub default_user_organisation: Option<Seq<char>>,
    pub default_serial: Option<Seq<char>>,
    pub app_readme_file: Option<Seq<char>>,
    pub app_contact: Option<Seq<char>>,
    pub app_comments: Option<Seq<char>>,
    pub app_modify_path: Option<Seq<char>>,
    pub create_uninstall_registry_key: Option<Seq<char>>,
    pub uninstallable: Option<Seq<char>>,
    pub close_applications_filter: Option<Seq<char>>,
    pub setup_mutex: Option<Seq<char>>,
    pub changes_environment: Option<Seq<char>>,
    pub changes_associations: Option<Seq<char>>,
    pub architectures_allowed: ArchSet,
    pub architectures_disallowed: ArchSet,
    pub architectures_install_in_64_bit_mode: ArchSet,
    pub license_text: Option<Seq<char>>,
    pub info_before: Option<Seq<char>>,
    pub info_after: Option<Seq<char>>,
    pub uninstaller_signature: Option<Seq<char>>,
    pub compiled_code: Option<Seq<char>>,
    pub lead_bytes: Seq<u8>,
    pub language_count: u32,
    pub message_count: u32,
    pub permission_count: u32,
    pub type_count: u32,
    pub component_count: u32,
    pub task_count: u32,
    pub directory_count: u32,
    pub file_count: u32,
    pub data_entry_count: u32,
    pub icon_count: u32,
    pub ini_entry_count: u32,
    pub registry_entry_count: u32,
    pub delete_entry_count: u32,
    pub uninstall_delete_entry_count: u32,
    pub run_entry_count: u32,
    pub uninstall_run_entry_count: u32,
    pub windows_version_range: WindowsVersionRange,
    pub back_color: u32,
    pub back_color2: u32,
    pub image_back_color: u32,
    pub small_image_back_color: u32,
    pub wizard_style: InnoStyle,
    pub wizard_resize_percent_x: u32,
    pub wizard_resize_percent_y: u32,
    pub image_alpha_format: ImageAlphaFormat,
    pub password_salt: Option<Seq<char>>,
    pub extra_disk_space_required: u64,
    pub slices_per_disk: u32,
    pub install_verbosity: InstallVerbosity,
    pub uninstall_log_mode: LogMode,
    pub uninstall_style: InnoStyle,
    pub dir_exists_warning: AutoBool,
    pub privileges_required: PrivilegeLevel,
    pub privileges_required_overrides_allowed: PrivilegesRequiredOverrides,
    pub show_language_dialog: AutoBool,
    pub language_detection: LanguageDetection,
    pub compression: Compression,
    pub signed_uninstaller_original_size: u32,
    pub signed_uninstaller_header_checksum: u32,
    pub disable_dir_page: AutoBool,
    pub disable_program_group_page: AutoBool,
    pub uninstall_display_size: u64,
}

impl View for Header {
    type V = HeaderView;

    open spec fn view(&self) -> HeaderView {
        HeaderView {
            flags: self.flags,
            app_name: opt_view(self.app_name),
            app_versioned_name: opt_view(self.app_versioned_name),
            app_id: opt_view(self.app_id),
            app_copyright: opt_view(self.app_copyright),
            app_publisher: opt_view(self.app_publisher),
            app_publisher_url: opt_view(self.app_publisher_url),
            app_support_phone: opt_view(self.app_support_phone),
            app_support_url: opt_view(self.app_support_url),
            app_updates_url: opt_view(self.app_updates_url),
            app_version: opt_view(self.app_version),
            default_dir_name: opt_view(self.default_dir_name),
            default_group_name: opt_view(self.default_group_name),
            uninstall_icon_name: opt_view(self.uninstall_icon_name),
            base_filename: opt_view(self.base_filename),
            uninstall_files_dir: opt_view(self.uninstall_files_dir),
            uninstall_name: opt_view(self.uninstall_name),
            uninstall_icon: opt_view(self.uninstall_icon),
            app_mutex: opt_view(self.app_mutex),
            default_user_name: opt_view(self.default_user_name),
            default_user_organisation: opt_view(self.default_user_organisation),
            default_serial: opt_view(self.default_serial),
            app_readme_file: opt_view(self.app_readme_file),
            app_contact: opt_view(self.app_contact),
            app_comments: opt_view(self.app_comments),
            app_modify_path: opt_view(self.app_modify_path),
            create_uninstall_registry_key: opt_view(self.create_uninstall_registry_key),
            uninstallable: opt_view(self.uninstallable),
            close_applications_filter: opt_view(self.close_applications_filter),
            setup_mutex: opt_view(self.setup_mutex),
            changes_environment: opt_view(self.changes_environment),
            changes_associations: opt_view(self.changes_associations),
            architectures_allowed: self.architectures_allowed,
            architectures_disallowed: self.architectures_disallowed,
            architectures_install_in_64_bit_mode: self.architectures_install_in_64_bit_mode,
            license_text: opt_view(self.license_text),
            info_before: opt_view(self.info_before),
            info_after: opt_view(self.info_after),
            uninstaller_signature: opt_view(self.uninstaller_signature),
            compiled_code: opt_view(self.compiled_code),
            lead_bytes: self.lead_bytes@,
            language_count: self.language_count,
            message_count: self.message_count,
            permission_count: self.permission_count,
            type_count: self.type_count,
            component_count: self.component_count,
            task_count: self.task_count,
            directory_count: self.directory_count,
            file_count: self.file_count,
            data_entry_count: self.data_entry_count,
            icon_count: self.icon_count,
            ini_entry_count: self.ini_entry_count,
            registry_entry_count: self.registry_entry_count,
            delete_entry_count: self.delete_entry_count,
            uninstall_delete_entry_count: self.uninstall_delete_entry_count,
            run_entry_count: self.run_entry_count,
            uninstall_run_entry_count: self.uninstall_run_entry_count,
            windows_version_range: self.windows_version_range,
            back_color: self.back_color,
            back_color2: self.back_color2,
            image_back_color: self.image_back_color,
            small_image_back_color: self.small_image_back_color,
            wizard_style: self.wizard_style,
            wizard_resize_percent_x: self.wizard_resize_percent_x,
            wizard_resize_percent_y: self.wizard_resize_percent_y,
            image_alpha_format: self.image_alpha_format,
            password_salt: opt_view(self.password_salt),
            extra_disk_space_required: self.extra_disk_space_required,
            slices_per_disk: self.slices_per_disk,
            install_verbosity: self.install_verbosity,
            uninstall_log_mode: self.uninstall_log_mode,
            uninstall_style: self.uninstall_style,
            dir_exists_warning: self.dir_exists_warning,
            privileges_required: self.privileges_required,
            privileges_required_overrides_allowed: self.privileges_required_overrides_allowed,
            show_language_dialog: self.show_language_dialog,
            language_detection: self.language_detection,
            compression: self.compression,
            signed_uninstaller_original_size: self.signed_uninstaller_original_size,
            signed_uninstaller_header_checksum: self.signed_uninstaller_header_checksum,
            disable_dir_page: self.disable_dir_page,
            disable_program_group_page: self.disable_program_group_page,
            uninstall_display_size: self.uninstall_display_size,
        }
    }
}

/// The header before any field has been decoded.
pub open spec fn default_header_view() -> HeaderView {
    HeaderView {
        flags: FlagSet::spec_empty(),
        app_name: None,
        app_versioned_name: None,
        app_id: None,
        app_copyright: None,
        app_publisher: None,
        app_publisher_url: None,
        app_support_phone: None,
        app_support_url: None,
        app_updates_url: None,
        app_version: None,
        default_dir_name: None,
        default_group_name: None,
        uninstall_icon_name: None,
        base_filename: None,
        uninstall_files_dir: None,
        uninstall_name: None,
        uninstall_icon: None,
        app_mutex: None,
        default_user_name: None,
        default_user_organisation: None,
        default_serial: None,
        app_readme_file: None,
        app_contact: None,
        app_comments: None,
        app_modify_path: None,
        create_uninstall_registry_key: None,
        uninstallable: None,
        close_applications_filter: None,
        setup_mutex: None,
        changes_environment: None,
        changes_associations: None,
        architectures_allowed: ArchSet::spec_empty(),
        architectures_disallowed: ArchSet::spec_empty(),
        architectures_install_in_64_bit_mode: ArchSet::spec_empty(),
        license_text: None,
        info_before: None,
        info_after: None,
        uninstaller_signature: None,
        compiled_code: None,
        lead_bytes: Seq::empty(),
        language_count: 0,
        message_count: 0,
        permission_count: 0,
        type_count: 0,
        component_count: 0,
        task_count: 0,
        directory_count: 0,
        file_count: 0,
        data_entry_count: 0,
        icon_count: 0,
        ini_entry_count: 0,
        registry_entry_count: 0,
        delete_entry_count: 0,
        uninstall_delete_entry_count: 0,
        run_entry_count: 0,
        uninstall_run_entry_count: 0,
        windows_version_range: default_windows_version_range(),
        back_color: 0,
        back_color2: 0,
        image_back_color: 0,
        small_image_back_color: 0,
        wizard_style: InnoStyle::Classic,
        wizard_resize_percent_x: 0,
        wizard_resize_percent_y: 0,
        image_alpha_format: ImageAlphaFormat::Ignored,
        password_salt: None,
        extra_disk_space_required: 0,
        slices_per_disk: 0,
        install_verbosity: InstallVerbosity::Normal,
        uninstall_log_mode: LogMode::Append,
        uninstall_style: InnoStyle::Classic,
        dir_exists_warning: AutoBool::Auto,
        privileges_required: PrivilegeLevel::NoPrivileges,
        privileges_required_overrides_allowed: PrivilegesRequiredOverrides::spec_empty(),
        show_language_dialog: AutoBool::Auto,
        language_detection: LanguageDetection::UiLanguage,
        compression: Compression::Unknown,
        signed_uninstaller_original_size: 0,
        signed_uninstaller_header_checksum: 0,
        disable_dir_page: AutoBool::Auto,
        disable_program_group_page: AutoBool::Auto,
        uninstall_display_size: 0,
    }
}

/// One partially decoded header with the position after its last field.
pub type HState = Result<(HeaderView, int), InnoError>;

/// A gated string step: reads a length-prefixed string when `gate` holds,
/// otherwise stores "not present".
pub open spec fn take_string_if(s: Seq<u8>, p: int, gate: bool, cp: Codepage) -> Result<
    (Option<Seq<char>>, int),
    InnoError,
> {
    if gate {
        take_string(s, p, cp)
    } else {
        Ok((None, p))
    }
}

pub open spec fn st_str(
    st: HState,
    s: Seq<u8>,
    gate: bool,
    cp: Codepage,
    set: spec_fn(HeaderView, Option<Seq<char>>) -> HeaderView,
) -> HState {
    match st {
        Err(e) => Err(e),
        Ok((h, p)) => match take_string_if(s, p, gate, cp) {
            Err(e) => Err(e),
            Ok((v, p2)) => Ok((set(h, v), p2)),
        },
    }
}

/// A gated `u32` step: reads when `gate` holds, otherwise yields `dflt`.
pub open spec fn take_u32_or(s: Seq<u8>, p: int, gate: bool, dflt: u32) -> Result<
    (u32, int),
    InnoError,
> {
    if gate {
        take_u32(s, p)
    } else {
        Ok((dflt, p))
    }
}

/// A gated enum step: reads and maps a byte when `gate` holds, otherwise
/// yields `dflt`.
pub open spec fn take_enum_if<T>(
    s: Seq<u8>,
    p: int,
    gate: bool,
    dflt: T,
    from_repr: spec_fn(u8) -> Option<T>,
    field: EnumField,
) -> Result<(T, int), InnoError> {
    if gate {
        take_enum(s, p, from_repr, field)
    } else {
        Ok((dflt, p))
    }
}

pub open spec fn st_u32(
    st: HState,
    s: Seq<u8>,
    gate: bool,
    dflt: u32,
    set: spec_fn(HeaderView, u32) -> HeaderView,
) -> HState {
    match st {
        Err(e) => Err(e),
        Ok((h, p)) => match take_u32_or(s, p, gate, dflt) {
            Err(e) => Err(e),
            Ok((v, p2)) => Ok((set(h, v), p2)),
        },
    }
}

pub open spec fn st_skip(st: HState, s: Seq<u8>, gate: bool, n: int) -> HState {
    match st {
        Err(e) => Err(e),
        Ok((h, p)) => if gate {
            match take_bytes(s, p, n) {
                Err(e) => Err(e),
                Ok((b, p2)) => Ok((h, p2)),
            }
        } else {
            Ok((h, p))
        },
    }
}

pub open spec fn st_enum<T>(
    st: HState,
    s: Seq<u8>,
    gate: bool,
    dflt: T,
    from_repr: spec_fn(u8) -> Option<T>,
    field: EnumField,
    set: spec_fn(HeaderView, T) -> HeaderView,
) -> HState {
    match st {
        Err(e) => Err(e),
        Ok((h, p)) => match take_enum_if(s, p, gate, dflt, from_repr, field) {
            Err(e) => Err(e),
            Ok((v, p2)) => Ok((set(h, v), p2)),
        },
    }
}

// ---------------------------------------------------------------------
// The schedule, block by block.
// ---------------------------------------------------------------------

/// Prologue and the first identity strings, through `app_version`.
#[verifier::opaque]
pub open spec fn spec_identity_a(s: Seq<u8>, p: int, v: KnownVersion, h: HeaderView) -> HState {
    let st = st_skip(Ok((h, p)), s, v.spec_before(1, 3, 0), 4);
    let st = st_str(st, s, true, Codepage::Utf16Le, |h: HeaderView, x: Option<Seq<char>>|
        HeaderView { app_name: x, ..h });
    let st = st_str(st, s, true, Codepage::Utf16Le, |h: HeaderView, x: Option<Seq<char>>|
        HeaderView { app_versioned_name: x, ..h });
    let st = st_str(st, s, v.spec_at_least(1, 3, 0), Codepage::Utf16Le, |h: HeaderView, x: Option<
        Seq<char>,
    >| HeaderView { app_id: x, ..h });
    let st = st_str(st, s, true, Codepage::Utf16Le, |h: HeaderView, x: Option<Seq<char>>|
        HeaderView { app_copyright: x, ..h });
    let st = st_str(st, s, v.spec_at_least(1, 3, 0), Codepage::Utf16Le, |h: HeaderView, x: Option<
        Seq<char>,
    >| HeaderView { app_publisher: x, ..h });
    let st = st_str(st, s, v.spec_at_least(1, 3, 0), Codepage::Utf16Le, |h: HeaderView, x: Option<
        Seq<char>,
    >| HeaderView { app_publisher_url: x, ..h });
    let st = st_str(st, s, v.spec_at_least(5, 1, 13), Codepage::Utf16Le, |h: HeaderView, x:
        Option<Seq<char>>| HeaderView { app_support_phone: x, ..h });
    let st = st_str(st, s, v.spec_at_least(1, 3, 0), Codepage::Utf16Le, |h: HeaderView, x: Option<
        Seq<char>,
    >| HeaderView { app_support_url: x, ..h });
    let st = st_str(st, s, v.spec_at_least(1, 3, 0), Codepage::Utf16Le, |h: HeaderView, x: Option<
        Seq<char>,
    >| HeaderView { app_updates_url: x, ..h });
    let st = st_str(st, s, v.spec_at_least(1, 3, 0), Codepage::Utf16Le, |h: HeaderView, x: Option<
        Seq<char>,
    >| HeaderView { app_version: x, ..h });
    st
}

/// Directory names, the legacy text block, and the uninstall strings.
pub open spec fn spec_identity_b(s: Seq<u8>, v: KnownVersion, st: HState) -> HState {
    match st {
        Err(e) => Err(e),
        Ok(hp) => spec_identity_b_core(s, v, hp.0, hp.1),
    }
}

#[verifier::opaque]
pub open spec fn spec_identity_b_core(s: Seq<u8>, v: KnownVersion, h: HeaderView, p: int) -> HState {
    let st: HState = Ok((h, p));
    let st = st_str(st, s, true, Codepage::Utf16Le, |h: HeaderView, x: Option<Seq<char>>|
        HeaderView { default_dir_name: x, ..h });
    let st = st_str(st, s, true, Codepage::Utf16Le, |h: HeaderView, x: Option<Seq<char>>|
        HeaderView { default_group_name: x, ..h });
    let st = st_str(st, s, v.spec_before(3, 0, 0), Codepage::Windows1252, |h: HeaderView, x:
        Option<Seq<char>>| HeaderView { uninstall_icon_name: x, ..h });
    let st = st_str(st, s, true, Codepage::Utf16Le, |h: HeaderView, x: Option<Seq<char>>|
        HeaderView { base_filename: x, ..h });
    let legacy_text = v.spec_at_least(1, 3, 0) && v.spec_before(5, 2, 5);
    let st = st_str(st, s, legacy_text, Codepage::Windows1252, |h: HeaderView, x: Option<
        Seq<char>,
    >| HeaderView { license_text: x, ..h });
    let st = st_str(st, s, legacy_text, Codepage::Windows1252, |h: HeaderView, x: Option<
        Seq<char>,
    >| HeaderView { info_before: x, ..h });
    let st = st_str(st, s, legacy_text, Codepage::Windows1252, |h: HeaderView, x: Option<
        Seq<char>,
    >| HeaderView { info_after: x, ..h });
    let st = st_str(st, s, v.spec_at_least(1, 3, 3), Codepage::Utf16Le, |h: HeaderView, x: Option<
        Seq<char>,
    >| HeaderView { uninstall_files_dir: x, ..h });
    let st = st_str(st, s, v.spec_at_least(1, 3, 6), Codepage::Utf16Le, |h: HeaderView, x: Option<
        Seq<char>,
    >| HeaderView { uninstall_name: x, ..h });
    let st = st_str(st, s, v.spec_at_least(1, 3, 6), Codepage::Utf16Le, |h: HeaderView, x: Option<
        Seq<char>,
    >| HeaderView { uninstall_icon: x, ..h });
    let st = st_str(st, s, v.spec_at_least(1, 3, 14), Codepage::Utf16Le, |h: HeaderView, x:
        Option<Seq<char>>| HeaderView { app_mutex: x, ..h });
    st
}

/// User defaults, compiled code, and the late identity strings.
pub open spec fn spec_identity_c(s: Seq<u8>, v: KnownVersion, st: HState) -> HState {
    match st {
        Err(e) => Err(e),
        Ok(hp) => spec_identity_c_core(s, v, hp.0, hp.1),
    }
}

#[verifier::opaque]
pub open spec fn spec_identity_c_core(s: Seq<u8>, v: KnownVersion, h: HeaderView, p: int) -> HState {
    let st: HState = Ok((h, p));
    let st = st_str(st, s, v.spec_at_least(3, 0, 0), Codepage::Utf16Le, |h: HeaderView, x: Option<
        Seq<char>,
    >| HeaderView { default_user_name: x, ..h });
    let st = st_str(st, s, v.spec_at_least(3, 0, 0), Codepage::Utf16Le, |h: HeaderView, x: Option<
        Seq<char>,
    >| HeaderView { default_user_organisation: x, ..h });
    let st = st_str(st, s, v.spec_at_least(4, 0, 0), Codepage::Utf16Le, |h: HeaderView, x: Option<
        Seq<char>,
    >| HeaderView { default_serial: x, ..h });
    let early_code = (v.spec_at_least(4, 0, 0) && v.spec_before(5, 2, 5)) || v.spec_isx_at_least(
        1,
        3,
        24,
    );
    let st = st_str(st, s, early_code, Codepage::Utf16Le, |h: HeaderView, x: Option<Seq<char>>|
        HeaderView { compiled_code: x, ..h });
    let st = st_str(st, s, v.spec_at_least(4, 2, 4), Codepage::Utf16Le, |h: HeaderView, x: Option<
        Seq<char>,
    >| HeaderView { app_readme_file: x, ..h });
    let st = st_str(st, s, v.spec_at_least(4, 2, 4), Codepage::Utf16Le, |h: HeaderView, x: Option<
        Seq<char>,
    >| HeaderView { app_contact: x, ..h });
    let st = st_str(st, s, v.spec_at_least(4, 2, 4), Codepage::Utf16Le, |h: HeaderView, x: Option<
        Seq<char>,
    >| HeaderView { app_comments: x, ..h });
    let st = st_str(st, s, v.spec_at_least(4, 2, 4), Codepage::Utf16Le, |h: HeaderView, x: Option<
        Seq<char>,
    >| HeaderView { app_modify_path: x, ..h });
    st
}

/// The newest identity strings, from 5.3.8 on.
pub open spec fn spec_identity_d(s: Seq<u8>, v: KnownVersion, st: HState) -> HState {
    match st {
        Err(e) => Err(e),
        Ok(hp) => spec_identity_d_core(s, v, hp.0, hp.1),
    }
}

#[verifier::opaque]
pub open spec fn spec_identity_d_core(s: Seq<u8>, v: KnownVersion, h: HeaderView, p: int) -> HState {
    let st: HState = Ok((h, p));
    let st = st_str(st, s, v.spec_at_least(5, 3, 8), Codepage::Utf16Le, |h: HeaderView, x: Option<
        Seq<char>,
    >| HeaderView { create_uninstall_registry_key: x, ..h });
    let st = st_str(st, s, v.spec_at_least(5, 3, 10), Codepage::Utf16Le, |h: HeaderView, x:
        Option<Seq<char>>| HeaderView { uninstallable: x, ..h });
    let st = st_str(st, s, v.spec_at_least(5, 5, 0), Codepage::Utf16Le, |h: HeaderView, x: Option<
        Seq<char>,
    >| HeaderView { close_applications_filter: x, ..h });
    let st = st_str(st, s, v.spec_at_least(5, 5, 6), Codepage::Utf16Le, |h: HeaderView, x: Option<
        Seq<char>,
    >| HeaderView { setup_mutex: x, ..h });
    let st = st_str(st, s, v.spec_at_least(5, 6, 1), Codepage::Utf16Le, |h: HeaderView, x: Option<
        Seq<char>,
    >| HeaderView { changes_environment: x, ..h });
    let st = st_str(st, s, v.spec_at_least(5, 6, 1), Codepage::Utf16Le, |h: HeaderView, x: Option<
        Seq<char>,
    >| HeaderView { changes_associations: x, ..h });
    st
}

/// The modern architecture expressions: an absent allowed expression
/// defaults to `{x86compatible}` allowed and nothing disallowed; an absent
/// 64-bit-mode expression defaults to `{x86compatible}` too.
pub open spec fn spec_architecture(s: Seq<u8>, v: KnownVersion, st: HState) -> HState {
    match st {
        Err(e) => Err(e),
        Ok(hp) => spec_architecture_core(s, v, hp.0, hp.1),
    }
}

#[verifier::opaque]
pub open spec fn spec_architecture_core(s: Seq<u8>, v: KnownVersion, h: HeaderView, p: int) -> HState {
    let st: HState = Ok((h, p));
    match st {
        Err(e) => Err(e),
        Ok((h, p)) => if v.spec_at_least(6, 3, 0) {
            match take_string(s, p, Codepage::Utf16Le) {
                Err(e) => Err(e),
                Ok((expr1, p1)) => {
                    let parsed1 = match expr1 {
                        None => Ok(
                            (
                                ArchSet::spec_empty().spec_insert(
                                    crate::inno::architecture::Arch::X86Compatible,
                                ),
                                ArchSet::spec_empty(),
                            ),
                        ),
                        Some(text) => parse_arch_expression(text),
                    };
                    match parsed1 {
                        Err(e) => Err(e),
                        Ok((allowed, disallowed)) => match take_string(s, p1, Codepage::Utf16Le) {
                            Err(e) => Err(e),
                            Ok((expr2, p2)) => {
                                let parsed2 = match expr2 {
                                    None => Ok(
                                        (
                                            ArchSet::spec_empty().spec_insert(
                                                crate::inno::architecture::Arch::X86Compatible,
                                            ),
                                            ArchSet::spec_empty(),
                                        ),
                                    ),
                                    Some(text) => parse_arch_expression(text),
                                };
                                match parsed2 {
                                    Err(e) => Err(e),
                                    Ok((in64, d2)) => Ok(
                                        (
                                            HeaderView {
                                                architectures_allowed: allowed,
                                                architectures_disallowed: disallowed,
                                                architectures_install_in_64_bit_mode: in64,
                                                ..h
                                            },
                                            p2,
                                        ),
                                    ),
                                }
                            },
                        },
                    }
                },
            }
        } else {
            Ok((h, p))
        },
    }
}

/// The modern text block, the uninstaller signature, and the modern
/// compiled-code position.
pub open spec fn spec_modern_text(s: Seq<u8>, v: KnownVersion, st: HState) -> HState {
    match st {
        Err(e) => Err(e),
        Ok(hp) => spec_modern_text_core(s, v, hp.0, hp.1),
    }
}

#[verifier::opaque]
pub open spec fn spec_modern_text_core(s: Seq<u8>, v: KnownVersion, h: HeaderView, p: int) -> HState {
    let st: HState = Ok((h, p));
    let modern = v.spec_at_least(5, 2, 5);
    let st = st_str(st, s, modern, Codepage::Windows1252, |h: HeaderView, x: Option<Seq<char>>|
        HeaderView { license_text: if modern { x } else { h.license_text }, ..h });
    let st = st_str(st, s, modern, Codepage::Windows1252, |h: HeaderView, x: Option<Seq<char>>|
        HeaderView { info_before: if modern { x } else { h.info_before }, ..h });
    let st = st_str(st, s, modern, Codepage::Windows1252, |h: HeaderView, x: Option<Seq<char>>|
        HeaderView { info_after: if modern { x } else { h.info_after }, ..h });
    let sig = v.spec_at_least(5, 2, 1) && v.spec_before(5, 3, 10);
    let st = st_str(st, s, sig, Codepage::Utf16Le, |h: HeaderView, x: Option<Seq<char>>|
        HeaderView { uninstaller_signature: x, ..h });
    let st = st_str(st, s, modern, Codepage::Utf16Le, |h: HeaderView, x: Option<Seq<char>>|
        HeaderView { compiled_code: if modern { x } else { h.compiled_code }, ..h });
    st
}

/// The lead-bytes table of non-Unicode builds: 32 raw bytes, a 256-bit
/// set kept verbatim.
pub open spec fn spec_lead_bytes(s: Seq<u8>, v: KnownVersion, st: HState) -> HState {
    match st {
        Err(e) => Err(e),
        Ok(hp) => spec_lead_bytes_core(s, v, hp.0, hp.1),
    }
}

#[verifier::opaque]
pub open spec fn spec_lead_bytes_core(s: Seq<u8>, v: KnownVersion, h: HeaderView, p: int) -> HState {
    let st: HState = Ok((h, p));
    match st {
        Err(e) => Err(e),
        Ok((h, p)) => if v.spec_at_least(2, 0, 6) && !v.is_unicode {
            match take_bytes(s, p, 32) {
                Err(e) => Err(e),
                Ok((b, p2)) => Ok((HeaderView { lead_bytes: b, ..h }, p2)),
            }
        } else {
            Ok((h, p))
        },
    }
}

/// The entry-table counts.
pub open spec fn spec_counts(s: Seq<u8>, v: KnownVersion, st: HState) -> HState {
    match st {
        Err(e) => Err(e),
        Ok(hp) => spec_counts_core(s, v, hp.0, hp.1),
    }
}

#[verifier::opaque]
pub open spec fn spec_counts_core(s: Seq<u8>, v: KnownVersion, h: HeaderView, p: int) -> HState {
    let st: HState = Ok((h, p));
    let st = st_u32(st, s, v.spec_at_least(4, 0, 0), if v.spec_at_least(2, 0, 1) {
        1u32
    } else {
        0u32
    }, |h: HeaderView, x: u32| HeaderView { language_count: x, ..h });
    let st = st_u32(st, s, v.spec_at_least(4, 2, 1), 0, |h: HeaderView, x: u32| HeaderView {
        message_count: x,
        ..h
    });
    let st = st_u32(st, s, v.spec_at_least(4, 1, 0), 0, |h: HeaderView, x: u32| HeaderView {
        permission_count: x,
        ..h
    });
    let early = v.spec_at_least(2, 0, 0) || v.is_isx;
    let st = st_u32(st, s, early, 0, |h: HeaderView, x: u32| HeaderView { type_count: x, ..h });
    let st = st_u32(st, s, early, 0, |h: HeaderView, x: u32| HeaderView {
        component_count: x,
        ..h
    });
    let tasks = v.spec_at_least(2, 0, 0) || v.spec_isx_at_least(1, 3, 17);
    let st = st_u32(st, s, tasks, 0, |h: HeaderView, x: u32| HeaderView { task_count: x, ..h });
    let st = st_u32(st, s, true, 0, |h: HeaderView, x: u32| HeaderView {
        directory_count: x,
        ..h
    });
    let st = st_u32(st, s, true, 0, |h: HeaderView, x: u32| HeaderView { file_count: x, ..h });
    let st = st_u32(st, s, true, 0, |h: HeaderView, x: u32| HeaderView {
        data_entry_count: x,
        ..h
    });
    let st = st_u32(st, s, true, 0, |h: HeaderView, x: u32| HeaderView { icon_count: x, ..h });
    let st = st_u32(st, s, true, 0, |h: HeaderView, x: u32| HeaderView {
        ini_entry_count: x,
        ..h
    });
    let st = st_u32(st, s, true, 0, |h: HeaderView, x: u32| HeaderView {
        registry_entry_count: x,
        ..h
    });
    let st = st_u32(st, s, true, 0, |h: HeaderView, x: u32| HeaderView {
        delete_entry_count: x,
        ..h
    });
    let st = st_u32(st, s, true, 0, |h: HeaderView, x: u32| HeaderView {
        uninstall_delete_entry_count: x,
        ..h
    });
    let st = st_u32(st, s, true, 0, |h: HeaderView, x: u32| HeaderView {
        run_entry_count: x,
        ..h
    });
    let st = st_u32(st, s, true, 0, |h: HeaderView, x: u32| HeaderView {
        uninstall_run_entry_count: x,
        ..h
    });
    st
}

/// The three legacy text sizes, read only before 1.3.0 and used again at
/// the very end of the schedule.
pub open spec fn spec_legacy_sizes(s: Seq<u8>, v: KnownVersion, st: HState) -> Result<
    ((HeaderView, (u32, u32, u32)), int),
    InnoError,
> {
    match st {
        Err(e) => Err(e),
        Ok(hp) => spec_legacy_sizes_core(s, v, hp.0, hp.1),
    }
}

#[verifier::opaque]
pub open spec fn spec_legacy_sizes_core(s: Seq<u8>, v: KnownVersion, h: HeaderView, p: int)
    -> Result<((HeaderView, (u32, u32, u32)), int), InnoError> {
    let st: HState = Ok((h, p));
    match st {
        Err(e) => Err(e),
        Ok((h, p)) => if v.spec_before(1, 3, 0) {
            match take_u32(s, p) {
                Err(e) => Err(e),
                Ok((license_size, p1)) => match take_u32(s, p1) {
                    Err(e) => Err(e),
                    Ok((info_before_size, p2)) => match take_u32(s, p2) {
                        Err(e) => Err(e),
                        Ok((info_after_size, p3)) => Ok(
                            ((h, (license_size, info_before_size, info_after_size)), p3),
                        ),
                    },
                },
            }
        } else {
            Ok(((h, (0u32, 0u32, 0u32)), p))
        },
    }
}

/// The Windows version range and the color fields.
pub open spec fn spec_winver_colors(s: Seq<u8>, v: KnownVersion, st: HState) -> HState {
    match st {
        Err(e) => Err(e),
        Ok(hp) => spec_winver_colors_core(s, v, hp.0, hp.1),
    }
}

#[verifier::opaque]
pub open spec fn spec_winver_colors_core(s: Seq<u8>, v: KnownVersion, h: HeaderView, p: int) -> HState {
    let st: HState = Ok((h, p));
    let st = match st {
        Err(e) => Err(e),
        Ok((h, p)) => match take_windows_version_range(s, p, v.version) {
            Err(e) => Err(e),
            Ok((range, p2)) => Ok((HeaderView { windows_version_range: range, ..h }, p2)),
        },
    };
    let st = st_u32(st, s, true, 0, |h: HeaderView, x: u32| HeaderView { back_color: x, ..h });
    let st = st_u32(st, s, v.spec_at_least(1, 3, 3), 0, |h: HeaderView, x: u32| HeaderView {
        back_color2: x,
        ..h
    });
    let st = st_u32(st, s, v.spec_before(5, 5, 7), 0, |h: HeaderView, x: u32| HeaderView {
        image_back_color: x,
        ..h
    });
    let small = (v.spec_at_least(2, 0, 0) && v.spec_before(5, 0, 4)) || v.is_isx;
    let st = st_u32(st, s, small, 0, |h: HeaderView, x: u32| HeaderView {
        small_image_back_color: x,
        ..h
    });
    st
}

/// The wizard style and metrics, the image alpha format, and the stored
/// header checksum, which is skipped, never verified: CRC-32, then MD5,
/// then SHA-1 over the version history.
pub open spec fn spec_wizard_checksum(s: Seq<u8>, v: KnownVersion, st: HState) -> HState {
    match st {
        Err(e) => Err(e),
        Ok(hp) => spec_wizard_checksum_core(s, v, hp.0, hp.1),
    }
}

#[verifier::opaque]
pub open spec fn spec_wizard_checksum_core(s: Seq<u8>, v: KnownVersion, h: HeaderView, p: int) -> HState {
    let st: HState = Ok((h, p));
    let wizard = v.spec_at_least(6, 0, 0);
    let st = st_enum(st, s, wizard, InnoStyle::Classic, |b: u8| spec_inno_style_from_repr(b),
        EnumField::WizardStyle, |h: HeaderView, x: InnoStyle| HeaderView {
        wizard_style: x,
        ..h
    });
    let st = st_u32(st, s, wizard, 0, |h: HeaderView, x: u32| HeaderView {
        wizard_resize_percent_x: x,
        ..h
    });
    let st = st_u32(st, s, wizard, 0, |h: HeaderView, x: u32| HeaderView {
        wizard_resize_percent_y: x,
        ..h
    });
    let st = st_enum(st, s, v.spec_at_least(5, 5, 7), ImageAlphaFormat::Ignored, |b: u8|
        spec_image_alpha_format_from_repr(b), EnumField::ImageAlphaFormat, |h: HeaderView, x:
        ImageAlphaFormat| HeaderView { image_alpha_format: x, ..h });
    let st = st_skip(st, s, v.spec_before(4, 2, 0), 4);
    let st = st_skip(st, s, v.spec_at_least(4, 2, 0) && v.spec_before(5, 3, 9), 16);
    let st = st_skip(st, s, v.spec_at_least(5, 3, 9), 20);
    st
}

/// The expected password-salt value: the literal `PasswordCheckHash`
/// followed by the lossily decoded salt bytes.
pub open spec fn password_salt_text(salt: Seq<u8>) -> Seq<char> {
    "PasswordCheckHash"@ + utf8_lossy_of(salt)
}

/// The password salt, stored from 4.2.2 on.
pub open spec fn spec_salt(s: Seq<u8>, v: KnownVersion, st: HState) -> HState {
    match st {
        Err(e) => Err(e),
        Ok(hp) => spec_salt_core(s, v, hp.0, hp.1),
    }
}

#[verifier::opaque]
pub open spec fn spec_salt_core(s: Seq<u8>, v: KnownVersion, h: HeaderView, p: int) -> HState {
    let st: HState = Ok((h, p));
    match st {
        Err(e) => Err(e),
        Ok((h, p)) => if v.spec_at_least(4, 2, 2) {
            match take_bytes(s, p, 8) {
                Err(e) => Err(e),
                Ok((b, p2)) => Ok((HeaderView { password_salt: Some(password_salt_text(b)), ..h },
                    p2)),
            }
        } else {
            Ok((h, p))
        },
    }
}

/// Disk-space demands.
pub open spec fn spec_disk(s: Seq<u8>, v: KnownVersion, st: HState) -> HState {
    match st {
        Err(e) => Err(e),
        Ok(hp) => spec_disk_core(s, v, hp.0, hp.1),
    }
}

#[verifier::opaque]
pub open spec fn spec_disk_core(s: Seq<u8>, v: KnownVersion, h: HeaderView, p: int) -> HState {
    let st: HState = Ok((h, p));
    let modern_disk = v.spec_at_least(4, 0, 0);
    // Before 4.0.0 the extra disk space is a `u32`, promoted on read.
    let st = match st {
        Err(e) => Err(e),
        Ok((h, p)) => if modern_disk {
            match take_u64(s, p) {
                Err(e) => Err(e),
                Ok((x, p2)) => Ok((HeaderView { extra_disk_space_required: x, ..h }, p2)),
            }
        } else {
            match take_u32(s, p) {
                Err(e) => Err(e),
                Ok((x, p2)) => Ok((HeaderView { extra_disk_space_required: x as u64, ..h }, p2)),
            }
        },
    };
    let st = st_u32(st, s, modern_disk, 1, |h: HeaderView, x: u32| HeaderView {
        slices_per_disk: x,
        ..h
    });
    st
}

/// The installer behaviour enums.
pub open spec fn spec_modes(s: Seq<u8>, v: KnownVersion, st: HState) -> HState {
    match st {
        Err(e) => Err(e),
        Ok(hp) => spec_modes_core(s, v, hp.0, hp.1),
    }
}

#[verifier::opaque]
pub open spec fn spec_modes_core(s: Seq<u8>, v: KnownVersion, h: HeaderView, p: int) -> HState {
    let st: HState = Ok((h, p));
    let verbosity = (v.spec_at_least(2, 0, 0) && v.spec_before(5, 0, 0)) || v.spec_isx_at_least(
        1,
        3,
        4,
    );
    let st = st_enum(st, s, verbosity, InstallVerbosity::Normal, |b: u8|
        spec_install_verbosity_from_repr(b), EnumField::InstallVerbosity, |h: HeaderView, x:
        InstallVerbosity| HeaderView { install_verbosity: x, ..h });
    let st = st_enum(st, s, v.spec_at_least(1, 3, 0), LogMode::Append, |b: u8|
        spec_log_mode_from_repr(b), EnumField::UninstallLogMode, |h: HeaderView, x: LogMode|
        HeaderView { uninstall_log_mode: x, ..h });
    // The uninstall style is forced to Modern from 5.0.0 on and read as a
    // byte on the versions that stored one.
    let style_read = v.spec_before(5, 0, 0) && (v.spec_at_least(2, 0, 0) || v.spec_isx_at_least(
        1,
        3,
        13,
    ));
    let forced_modern = v.spec_at_least(5, 0, 0);
    let st = st_enum(st, s, style_read, if forced_modern {
        InnoStyle::Modern
    } else {
        InnoStyle::Classic
    }, |b: u8| spec_inno_style_from_repr(b), EnumField::UninstallStyle, |h: HeaderView, x:
        InnoStyle| HeaderView { uninstall_style: x, ..h });
    let st = st_enum(st, s, v.spec_at_least(1, 3, 6), AutoBool::Auto, |b: u8|
        spec_auto_bool_from_repr(b), EnumField::DirExistsWarning, |h: HeaderView, x: AutoBool|
        HeaderView { dir_exists_warning: x, ..h });
    // An ISX-only code line offset, discarded.
    let code_line = v.is_isx && v.spec_at_least(2, 0, 10) && v.spec_before(3, 0, 0);
    let st = st_skip(st, s, code_line, 4);
    st
}

/// The early restart policy: a tolerant `AutoBool` that maps to the two
/// restart flags and ignores unknown discriminants.
pub open spec fn spec_restart_policy(s: Seq<u8>, v: KnownVersion, st: HState) -> HState {
    match st {
        Err(e) => Err(e),
        Ok(hp) => spec_restart_policy_core(s, v, hp.0, hp.1),
    }
}

#[verifier::opaque]
pub open spec fn spec_restart_policy_core(s: Seq<u8>, v: KnownVersion, h: HeaderView, p: int) -> HState {
    let st: HState = Ok((h, p));
    match st {
        Err(e) => Err(e),
        Ok((h, p)) => if v.spec_at_least(3, 0, 0) && v.spec_before(3, 0, 3) {
            match take_u8(s, p) {
                Err(e) => Err(e),
                Ok((b, p2)) => {
                    let flags = if spec_auto_bool_from_repr(b) == Some(AutoBool::Yes) {
                        h.flags.spec_insert(HeaderFlag::AlwaysRestart)
                    } else if spec_auto_bool_from_repr(b) == Some(AutoBool::Auto) {
                        h.flags.spec_insert(HeaderFlag::RestartIfNeededByRun)
                    } else {
                        h.flags
                    };
                    Ok((HeaderView { flags, ..h }, p2))
                },
            }
        } else {
            Ok((h, p))
        },
    }
}

/// The privilege level and the override permissions byte.
pub open spec fn spec_privileges_and_language(s: Seq<u8>, v: KnownVersion, st: HState) -> HState {
    match st {
        Err(e) => Err(e),
        Ok(hp) => spec_privileges_and_language_core(s, v, hp.0, hp.1),
    }
}

#[verifier::opaque]
pub open spec fn spec_privileges_and_language_core(s: Seq<u8>, v: KnownVersion, h: HeaderView, p: int) -> HState {
    let st: HState = Ok((h, p));
    let priv_read = v.spec_at_least(3, 0, 4) || v.spec_isx_at_least(3, 0, 3);
    let st = st_enum(st, s, priv_read, PrivilegeLevel::NoPrivileges, |b: u8|
        spec_privilege_level_from_repr(b), EnumField::PrivilegesRequired, |h: HeaderView, x:
        PrivilegeLevel| HeaderView { privileges_required: x, ..h });
    let st = match st {
        Err(e) => Err(e),
        Ok((h, p)) => if v.spec_at_least(5, 7, 0) {
            match take_u8(s, p) {
                Err(e) => Err(e),
                Ok((b, p2)) => Ok((HeaderView {
                    privileges_required_overrides_allowed: PrivilegesRequiredOverrides {
                        bits: b,
                    },
                    ..h
                }, p2)),
            }
        } else {
            Ok((h, p))
        },
    };
    st
}

/// The language dialog, language detection and compression enums.
pub open spec fn spec_language_and_compression(s: Seq<u8>, v: KnownVersion, st: HState) -> HState {
    match st {
        Err(e) => Err(e),
        Ok(hp) => spec_language_and_compression_core(s, v, hp.0, hp.1),
    }
}

#[verifier::opaque]
pub open spec fn spec_language_and_compression_core(s: Seq<u8>, v: KnownVersion, h: HeaderView, p: int) -> HState {
    let st: HState = Ok((h, p));
    let lang = v.spec_at_least(4, 0, 10);
    let st = st_enum(st, s, lang, AutoBool::Auto, |b: u8| spec_auto_bool_from_repr(b),
        EnumField::ShowLanguageDialog, |h: HeaderView, x: AutoBool| HeaderView {
        show_language_dialog: x,
        ..h
    });
    let st = st_enum(st, s, lang, LanguageDetection::UiLanguage, |b: u8|
        spec_language_detection_from_repr(b), EnumField::LanguageDetection, |h: HeaderView, x:
        LanguageDetection| HeaderView { language_detection: x, ..h });
    let st = st_enum(st, s, v.spec_at_least(5, 3, 9), Compression::Unknown, |b: u8|
        spec_compression_from_repr(b), EnumField::Compression, |h: HeaderView, x: Compression|
        HeaderView { compression: x, ..h });
    st
}

/// The legacy architecture bitfields.
pub open spec fn spec_legacy_arch_and_tail(s: Seq<u8>, v: KnownVersion, st: HState) -> HState {
    match st {
        Err(e) => Err(e),
        Ok(hp) => spec_legacy_arch_and_tail_core(s, v, hp.0, hp.1),
    }
}

#[verifier::opaque]
pub open spec fn spec_legacy_arch_and_tail_core(s: Seq<u8>, v: KnownVersion, h: HeaderView, p: int) -> HState {
    let st: HState = Ok((h, p));
    let st = match st {
        Err(e) => Err(e),
        Ok((h, p)) => if v.spec_at_least(5, 1, 0) && v.spec_before(6, 3, 0) {
            match take_u8(s, p) {
                Err(e) => Err(e),
                Ok((b1, p1)) => match take_u8(s, p1) {
                    Err(e) => Err(e),
                    Ok((b2, p2)) => Ok((HeaderView {
                        architectures_allowed: (StoredArchitecture {
                            bits: b1,
                        }).spec_to_identifiers(),
                        architectures_install_in_64_bit_mode: (StoredArchitecture {
                            bits: b2,
                        }).spec_to_identifiers(),
                        ..h
                    }, p2)),
                },
            }
        } else if v.spec_before(5, 1, 0) {
            Ok((HeaderView {
                architectures_allowed: (StoredArchitecture { bits: 0x1f }).spec_to_identifiers(),
                architectures_install_in_64_bit_mode: (StoredArchitecture {
                    bits: 0x1f,
                }).spec_to_identifiers(),
                ..h
            }, p))
        } else {
            Ok((h, p))
        },
    };
    st
}

/// The signed-uninstaller extras.
pub open spec fn spec_signed_uninstaller(s: Seq<u8>, v: KnownVersion, st: HState) -> HState {
    match st {
        Err(e) => Err(e),
        Ok(hp) => spec_signed_uninstaller_core(s, v, hp.0, hp.1),
    }
}

#[verifier::opaque]
pub open spec fn spec_signed_uninstaller_core(s: Seq<u8>, v: KnownVersion, h: HeaderView, p: int) -> HState {
    let st: HState = Ok((h, p));
    let signed = v.spec_at_least(5, 2, 1) && v.spec_before(5, 3, 10);
    let st = st_u32(st, s, signed, 0, |h: HeaderView, x: u32| HeaderView {
        signed_uninstaller_original_size: x,
        ..h
    });
    let st = st_u32(st, s, signed, 0, |h: HeaderView, x: u32| HeaderView {
        signed_uninstaller_header_checksum: x,
        ..h
    });
    st
}

/// The page disables and the uninstall display size.
pub open spec fn spec_disables_and_display(s: Seq<u8>, v: KnownVersion, st: HState) -> HState {
    match st {
        Err(e) => Err(e),
        Ok(hp) => spec_disables_and_display_core(s, v, hp.0, hp.1),
    }
}

#[verifier::opaque]
pub open spec fn spec_disables_and_display_core(s: Seq<u8>, v: KnownVersion, h: HeaderView, p: int) -> HState {
    let st: HState = Ok((h, p));
    let disables = v.spec_at_least(5, 3, 3);
    let st = st_enum(st, s, disables, AutoBool::Auto, |b: u8| spec_auto_bool_from_repr(b),
        EnumField::DisableDirPage, |h: HeaderView, x: AutoBool| HeaderView {
        disable_dir_page: x,
        ..h
    });
    let st = st_enum(st, s, disables, AutoBool::Auto, |b: u8| spec_auto_bool_from_repr(b),
        EnumField::DisableProgramGroupPage, |h: HeaderView, x: AutoBool| HeaderView {
        disable_program_group_page: x,
        ..h
    });
    // The uninstall display size: a u64 from 5.5.0, a promoted u32 from
    // 5.3.6, absent before.
    let st = match st {
        Err(e) => Err(e),
        Ok((h, p)) => if v.spec_at_least(5, 5, 0) {
            match take_u64(s, p) {
                Err(e) => Err(e),
                Ok((x, p2)) => Ok((HeaderView { uninstall_display_size: x, ..h }, p2)),
            }
        } else if v.spec_at_least(5, 3, 6) {
            match take_u32(s, p) {
                Err(e) => Err(e),
                Ok((x, p2)) => Ok((HeaderView { uninstall_display_size: x as u64, ..h }, p2)),
            }
        } else {
            Ok((h, p))
        },
    };
    st
}

/// The flags that are on by default in versions that do not store them.
pub open spec fn spec_default_flags(v: KnownVersion) -> FlagSet {
    let f0 = FlagSet::spec_empty();
    let f1 = if v.spec_before(4, 0, 9) {
        f0.spec_insert(HeaderFlag::AllowCancelDuringInstall)
    } else {
        f0
    };
    if v.spec_before(5, 5, 0) {
        f1.spec_insert(HeaderFlag::AllowNetworkDrive)
    } else {
        f1
    }
}

/// The flag bitstream: the version's enrolled flags, the stream bytes,
/// and the default-on flags, joined into the header's flag set.
pub open spec fn spec_flag_block(s: Seq<u8>, v: KnownVersion, st: HState) -> HState {
    match st {
        Err(e) => Err(e),
        Ok(hp) => spec_flag_block_core(s, v, hp.0, hp.1),
    }
}

#[verifier::opaque]
pub open spec fn spec_flag_block_core(s: Seq<u8>, v: KnownVersion, h: HeaderView, p: int) -> HState {
    let st: HState = Ok((h, p));
    match st {
        Err(e) => Err(e),
        Ok((h, p)) => match take_flag_bits(s, p, enrolled_flags(v)) {
            Err(e) => Err(e),
            Ok((bits, p2)) => Ok((HeaderView {
                flags: h.flags.spec_union(bits.spec_union(spec_default_flags(v))),
                ..h
            }, p2)),
        },
    }
}

/// The post-decode back-fill: versions that predate a field's dedicated
/// byte derive it from the flag set, in one pass after raw decoding.
#[verifier::opaque]
pub open spec fn spec_backfill(v: KnownVersion, h: HeaderView) -> HeaderView {
    let h = if v.spec_before(3, 0, 4) {
        HeaderView { privileges_required: PrivilegeLevel::spec_from_flags(h.flags), ..h }
    } else {
        h
    };
    let h = if v.spec_before(4, 0, 10) {
        HeaderView {
            show_language_dialog: AutoBool::spec_from_flag(
                h.flags.has(HeaderFlag::ShowLanguageDialog),
            ),
            language_detection: LanguageDetection::spec_from_flags(h.flags),
            ..h
        }
    } else {
        h
    };
    let h = if v.spec_before(4, 1, 5) {
        HeaderView { compression: Compression::spec_from_flags(h.flags), ..h }
    } else {
        h
    };
    if v.spec_before(5, 3, 3) {
        HeaderView {
            disable_dir_page: AutoBool::spec_from_flag(h.flags.has(HeaderFlag::DisableDirPage)),
            disable_program_group_page: AutoBool::spec_from_flag(
                h.flags.has(HeaderFlag::DisableProgramGroupPage),
            ),
            ..h
        }
    } else {
        h
    }
}

/// The legacy sized text block at the very end of pre-1.3.0 headers.
pub open spec fn spec_legacy_text(
    s: Seq<u8>,
    v: KnownVersion,
    sizes: (u32, u32, u32),
    st: HState,
) -> HState {
    match st {
        Err(e) => Err(e),
        Ok(hp) => spec_legacy_text_core(s, v, sizes, hp.0, hp.1),
    }
}

#[verifier::opaque]
pub open spec fn spec_legacy_text_core(
    s: Seq<u8>,
    v: KnownVersion,
    sizes: (u32, u32, u32),
    h: HeaderView,
    p: int,
) -> HState {
    let st: HState = Ok((h, p));
    match st {
        Err(e) => Err(e),
        Ok((h, p)) => if v.spec_before(1, 3, 0) {
            match take_sized_string(s, p, sizes.0, Codepage::Windows1252) {
                Err(e) => Err(e),
                Ok((license, p1)) => match take_sized_string(s, p1, sizes.1,
                    Codepage::Windows1252) {
                    Err(e) => Err(e),
                    Ok((before, p2)) => match take_sized_string(s, p2, sizes.2,
                        Codepage::Windows1252) {
                        Err(e) => Err(e),
                        Ok((after, p3)) => Ok((HeaderView {
                            license_text: license,
                            info_before: before,
                            info_after: after,
                            ..h
                        }, p3)),
                    },
                },
            }
        } else {
            Ok((h, p))
        },
    }
}

/// The whole schedule with the legacy sizes threaded through: what
/// decoding a header at position `p` of `s` under version `v` yields, and
/// where it leaves the position.
pub open spec fn load_spec(s: Seq<u8>, p: int, v: KnownVersion) -> HState {
    let st = spec_identity_a(s, p, v, default_header_view());
    let st = spec_identity_b(s, v, st);
    let st = spec_identity_c(s, v, st);
    let st = spec_identity_d(s, v, st);
    let st = spec_architecture(s, v, st);
    let st = spec_modern_text(s, v, st);
    let st = spec_lead_bytes(s, v, st);
    let st = spec_counts(s, v, st);
    match spec_legacy_sizes(s, v, st) {
        Err(e) => Err(e),
        Ok(((h, sizes), p1)) => {
            let st: HState = Ok((h, p1));
            let st = spec_winver_colors(s, v, st);
            let st = spec_wizard_checksum(s, v, st);
            let st = spec_salt(s, v, st);
            let st = spec_disk(s, v, st);
            let st = spec_modes(s, v, st);
            let st = spec_restart_policy(s, v, st);
            let st = spec_privileges_and_language(s, v, st);
            let st = spec_language_and_compression(s, v, st);
            let st = spec_legacy_arch_and_tail(s, v, st);
            let st = spec_signed_uninstaller(s, v, st);
            let st = spec_disables_and_display(s, v, st);
            let st = spec_flag_block(s, v, st);
            let st = match st {
                Err(e) => Err(e),
                Ok((h2, p2)) => Ok((spec_backfill(v, h2), p2)),
            };
            spec_legacy_text(s, v, sizes, st)
        },
    }
}

// ---------------------------------------------------------------------
// Gated read helpers.
// ---------------------------------------------------------------------

fn read_string_if(r: &mut Reader, gate: bool, cp: Codepage) -> (res: Result<
    Option<String>,
    InnoError,
>)
    ensures
        final(r).data() == old(r).data(),
        match take_string_if(old(r).data(), old(r).pos as int, gate, cp) {
            Ok(vp) => res matches Ok(o) && opt_view(o) == vp.0 && final(r).pos == vp.1,
            Err(e) => res == Err::<Option<String>, InnoError>(e),
        },
{
    if gate {
        encoded_string(r, cp)
    } else {
        Ok(None)
    }
}

fn read_u32_or(r: &mut Reader, gate: bool, dflt: u32) -> (res: Result<u32, InnoError>)
    ensures
        final(r).data() == old(r).data(),
        match take_u32_or(old(r).data(), old(r).pos as int, gate, dflt) {
            Ok(vp) => res == Ok::<u32, InnoError>(vp.0) && final(r).pos == vp.1,
            Err(e) => res == Err::<u32, InnoError>(e),
        },
{
    if gate {
        r.read_u32()
    } else {
        Ok(dflt)
    }
}

fn read_auto_bool_if(r: &mut Reader, gate: bool, dflt: AutoBool, field: EnumField) -> (res:
    Result<AutoBool, InnoError>)
    ensures
        final(r).data() == old(r).data(),
        match take_enum_if(old(r).data(), old(r).pos as int, gate, dflt, |b: u8|
            spec_auto_bool_from_repr(b), field) {
            Ok(vp) => res == Ok::<AutoBool, InnoError>(vp.0) && final(r).pos == vp.1,
            Err(e) => res == Err::<AutoBool, InnoError>(e),
        },
{
    if gate {
        let b = match r.read_u8() {
            Ok(v) => v,
            Err(e) => {
                return Err(e);
            },
        };
        match AutoBool::from_repr(b) {
            Some(v) => Ok(v),
            None => Err(InnoError::InvalidEnum { field, value: b }),
        }
    } else {
        Ok(dflt)
    }
}

fn read_style_if(r: &mut Reader, gate: bool, dflt: InnoStyle, field: EnumField) -> (res: Result<
    InnoStyle,
    InnoError,
>)
    ensures
        final(r).data() == old(r).data(),
        match take_enum_if(old(r).data(), old(r).pos as int, gate, dflt, |b: u8|
            spec_inno_style_from_repr(b), field) {
            Ok(vp) => res == Ok::<InnoStyle, InnoError>(vp.0) && final(r).pos == vp.1,
            Err(e) => res == Err::<InnoStyle, InnoError>(e),
        },
{
    if gate {
        let b = match r.read_u8() {
            Ok(v) => v,
            Err(e) => {
                return Err(e);
            },
        };
        match InnoStyle::from_repr(b) {
            Some(v) => Ok(v),
            None => Err(InnoError::InvalidEnum { field, value: b }),
        }
    } else {
        Ok(dflt)
    }
}

fn read_alpha_format_if(r: &mut Reader, gate: bool, dflt: ImageAlphaFormat, field: EnumField) -> (
    res: Result<ImageAlphaFormat, InnoError>)
    ensures
        final(r).data() == old(r).data(),
        match take_enum_if(old(r).data(), old(r).pos as int, gate, dflt, |b: u8|
            spec_image_alpha_format_from_repr(b), field) {
            Ok(vp) => res == Ok::<ImageAlphaFormat, InnoError>(vp.0) && final(r).pos == vp.1,
            Err(e) => res == Err::<ImageAlphaFormat, InnoError>(e),
        },
{
    if gate {
        let b = match r.read_u8() {
            Ok(v) => v,
            Err(e) => {
                return Err(e);
            },
        };
        match ImageAlphaFormat::from_repr(b) {
            Some(v) => Ok(v),
            None => Err(InnoError::InvalidEnum { field, value: b }),
        }
    } else {
        Ok(dflt)
    }
}

fn read_verbosity_if(r: &mut Reader, gate: bool, dflt: InstallVerbosity, field: EnumField) -> (
    res: Result<InstallVerbosity, InnoError>)
    ensures
        final(r).data() == old(r).data(),
        match take_enum_if(old(r).data(), old(r).pos as int, gate, dflt, |b: u8|
            spec_install_verbosity_from_repr(b), field) {
            Ok(vp) => res == Ok::<InstallVerbosity, InnoError>(vp.0) && final(r).pos == vp.1,
            Err(e) => res == Err::<InstallVerbosity, InnoError>(e),
        },
{
    if gate {
        let b = match r.read_u8() {
            Ok(v) => v,
            Err(e) => {
                return Err(e);
            },
        };
        match InstallVerbosity::from_repr(b) {
            Some(v) => Ok(v),
            None => Err(InnoError::InvalidEnum { field, value: b }),
        }
    } else {
        Ok(dflt)
    }
}

fn read_log_mode_if(r: &mut Reader, gate: bool, dflt: LogMode, field: EnumField) -> (res: Result<
    LogMode,
    InnoError,
>)
    ensures
        final(r).data() == old(r).data(),
        match take_enum_if(old(r).data(), old(r).pos as int, gate, dflt, |b: u8|
            spec_log_mode_from_repr(b), field) {
            Ok(vp) => res == Ok::<LogMode, InnoError>(vp.0) && final(r).pos == vp.1,
            Err(e) => res == Err::<LogMode, InnoError>(e),
        },
{
    if gate {
        let b = match r.read_u8() {
            Ok(v) => v,
            Err(e) => {
                return Err(e);
            },
        };
        match LogMode::from_repr(b) {
            Some(v) => Ok(v),
            None => Err(InnoError::InvalidEnum { field, value: b }),
        }
    } else {
        Ok(dflt)
    }
}

fn read_language_detection_if(r: &mut Reader, gate: bool, dflt: LanguageDetection, field:
    EnumField) -> (res: Result<LanguageDetection, InnoError>)
    ensures
        final(r).data() == old(r).data(),
        match take_enum_if(old(r).data(), old(r).pos as int, gate, dflt, |b: u8|
            spec_language_detection_from_repr(b), field) {
            Ok(vp) => res == Ok::<LanguageDetection, InnoError>(vp.0) && final(r).pos == vp.1,
            Err(e) => res == Err::<LanguageDetection, InnoError>(e),
        },
{
    if gate {
        let b = match r.read_u8() {
            Ok(v) => v,
            Err(e) => {
                return Err(e);
            },
        };
        match LanguageDetection::from_repr(b) {
            Some(v) => Ok(v),
            None => Err(InnoError::InvalidEnum { field, value: b }),
        }
    } else {
        Ok(dflt)
    }
}

fn read_privilege_level_if(r: &mut Reader, gate: bool, dflt: PrivilegeLevel, field: EnumField) -> (
    res: Result<PrivilegeLevel, InnoError>)
    ensures
        final(r).data() == old(r).data(),
        match take_enum_if(old(r).data(), old(r).pos as int, gate, dflt, |b: u8|
            spec_privilege_level_from_repr(b), field) {
            Ok(vp) => res == Ok::<PrivilegeLevel, InnoError>(vp.0) && final(r).pos == vp.1,
            Err(e) => res == Err::<PrivilegeLevel, InnoError>(e),
        },
{
    if gate {
        let b = match r.read_u8() {
            Ok(v) => v,
            Err(e) => {
                return Err(e);
            },
        };
        match PrivilegeLevel::from_repr(b) {
            Some(v) => Ok(v),
            None => Err(InnoError::InvalidEnum { field, value: b }),
        }
    } else {
        Ok(dflt)
    }
}

fn read_compression_if(r: &mut Reader, gate: bool, dflt: Compression, field: EnumField) -> (res:
    Result<Compression, InnoError>)
    ensures
        final(r).data() == old(r).data(),
        match take_enum_if(old(r).data(), old(r).pos as int, gate, dflt, |b: u8|
            spec_compression_from_repr(b), field) {
            Ok(vp) => res == Ok::<Compression, InnoError>(vp.0) && final(r).pos == vp.1,
            Err(e) => res == Err::<Compression, InnoError>(e),
        },
{
    if gate {
        let b = match r.read_u8() {
            Ok(v) => v,
            Err(e) => {
                return Err(e);
            },
        };
        match Compression::from_repr(b) {
            Some(v) => Ok(v),
            None => Err(InnoError::InvalidEnum { field, value: b }),
        }
    } else {
        Ok(dflt)
    }
}

/// Reads the eight salt bytes and builds the stored salt string: the
/// ASCII literal `PasswordCheckHash` followed by the lossily decoded
/// bytes.
pub fn password_salt(r: &mut Reader) -> (res: Result<String, InnoError>)
    ensures
        final(r).data() == old(r).data(),
        match take_bytes(old(r).data(), old(r).pos as int, 8) {
            Ok(vp) => res matches Ok(s) && s@ == password_salt_text(vp.0) && final(r).pos == vp.1,
            Err(e) => res == Err::<String, InnoError>(e),
        },
{
    let bytes = match r.read_bytes(8) {
        Ok(v) => v,
        Err(e) => {
            return Err(e);
        },
    };
    let mut salt = String::from_str("PasswordCheckHash");
    let decoded = utf8_lossy(bytes.as_slice());
    salt.append(decoded.as_str());
    Ok(salt)
}

// ---------------------------------------------------------------------
// The schedule's exec blocks.
// ---------------------------------------------------------------------

#[verifier::rlimit(100)]
fn load_identity_a(r: &mut Reader, v: &KnownVersion, h: Header) -> (res: Result<
    Header,
    InnoError,
>)
    ensures
        final(r).data() == old(r).data(),
        match spec_identity_a(old(r).data(), old(r).pos as int, *v, h@) {
            Ok(vp) => res matches Ok(h2) && h2@ == vp.0 && final(r).pos == vp.1,
            Err(e) => res == Err::<Header, InnoError>(e),
        },
{
    proof {
        reveal(spec_identity_a);
    }
    let mut h = h;
    if v.before(1, 3, 0) {
        // The uncompressed size of the setup header, discarded.
        match r.skip(4) {
            Ok(_) => (),
            Err(e) => {
                return Err(e);
            },
        }
    }
    h.app_name = match read_string_if(r, true, Codepage::Utf16Le) {
        Ok(x) => x,
        Err(e) => {
            return Err(e);
        },
    };
    h.app_versioned_name = match read_string_if(r, true, Codepage::Utf16Le) {
        Ok(x) => x,
        Err(e) => {
            return Err(e);
        },
    };
    h.app_id = match read_string_if(r, v.at_least(1, 3, 0), Codepage::Utf16Le) {
        Ok(x) => x,
        Err(e) => {
            return Err(e);
        },
    };
    h.app_copyright = match read_string_if(r, true, Codepage::Utf16Le) {
        Ok(x) => x,
        Err(e) => {
            return Err(e);
        },
    };
    h.app_publisher = match read_string_if(r, v.at_least(1, 3, 0), Codepage::Utf16Le) {
        Ok(x) => x,
        Err(e) => {
            return Err(e);
        },
    };
    h.app_publisher_url = match read_string_if(r, v.at_least(1, 3, 0), Codepage::Utf16Le) {
        Ok(x) => x,
        Err(e) => {
            return Err(e);
        },
    };
    h.app_support_phone = match read_string_if(r, v.at_least(5, 1, 13), Codepage::Utf16Le) {
        Ok(x) => x,
        Err(e) => {
            return Err(e);
        },
    };
    h.app_support_url = match read_string_if(r, v.at_least(1, 3, 0), Codepage::Utf16Le) {
        Ok(x) => x,
        Err(e) => {
            return Err(e);
        },
    };
    h.app_updates_url = match read_string_if(r, v.at_least(1, 3, 0), Codepage::Utf16Le) {
        Ok(x) => x,
        Err(e) => {
            return Err(e);
        },
    };
    h.app_version = match read_string_if(r, v.at_least(1, 3, 0), Codepage::Utf16Le) {
        Ok(x) => x,
        Err(e) => {
            return Err(e);
        },
    };
    Ok(h)
}

#[verifier::rlimit(100)]
fn load_identity_b(r: &mut Reader, v: &KnownVersion, h: Header) -> (res: Result<
    Header,
    InnoError,
>)
    ensures
        final(r).data() == old(r).data(),
        match spec_identity_b(old(r).data(), *v, Ok((h@, old(r).pos as int))) {
            Ok(vp) => res matches Ok(h2) && h2@ == vp.0 && final(r).pos == vp.1,
            Err(e) => res == Err::<Header, InnoError>(e),
        },
{
    proof {
        reveal(spec_identity_b_core);
    }
    let mut h = h;
    h.default_dir_name = match read_string_if(r, true, Codepage::Utf16Le) {
        Ok(x) => x,
        Err(e) => {
            return Err(e);
        },
    };
    h.default_group_name = match read_string_if(r, true, Codepage::Utf16Le) {
        Ok(x) => x,
        Err(e) => {
            return Err(e);
        },
    };
    h.uninstall_icon_name = match read_string_if(r, v.before(3, 0, 0), Codepage::Windows1252) {
        Ok(x) => x,
        Err(e) => {
            return Err(e);
        },
    };
    h.base_filename = match read_string_if(r, true, Codepage::Utf16Le) {
        Ok(x) => x,
        Err(e) => {
            return Err(e);
        },
    };
    let legacy_text = v.at_least(1, 3, 0) && v.before(5, 2, 5);
    h.license_text = match read_string_if(r, legacy_text, Codepage::Windows1252) {
        Ok(x) => x,
        Err(e) => {
            return Err(e);
        },
    };
    h.info_before = match read_string_if(r, legacy_text, Codepage::Windows1252) {
        Ok(x) => x,
        Err(e) => {
            return Err(e);
        },
    };
    h.info_after = match read_string_if(r, legacy_text, Codepage::Windows1252) {
        Ok(x) => x,
        Err(e) => {
            return Err(e);
        },
    };
    h.uninstall_files_dir = match read_string_if(r, v.at_least(1, 3, 3), Codepage::Utf16Le) {
        Ok(x) => x,
        Err(e) => {
            return Err(e);
        },
    };
    h.uninstall_name = match read_string_if(r, v.at_least(1, 3, 6), Codepage::Utf16Le) {
        Ok(x) => x,
        Err(e) => {
            return Err(e);
        },
    };
    h.uninstall_icon = match read_string_if(r, v.at_least(1, 3, 6), Codepage::Utf16Le) {
        Ok(x) => x,
        Err(e) => {
            return Err(e);
        },
    };
    h.app_mutex = match read_string_if(r, v.at_least(1, 3, 14), Codepage::Utf16Le) {
        Ok(x) => x,
        Err(e) => {
            return Err(e);
        },
    };
    Ok(h)
}

#[verifier::rlimit(100)]
fn load_identity_c(r: &mut Reader, v: &KnownVersion, h: Header) -> (res: Result<
    Header,
    InnoError,
>)
    ensures
        final(r).data() == old(r).data(),
        match spec_identity_c(old(r).data(), *v, Ok((h@, old(r).pos as int))) {
            Ok(vp) => res matches Ok(h2) && h2@ == vp.0 && final(r).pos == vp.1,
            Err(e) => res == Err::<Header, InnoError>(e),
        },
{
    proof {
        reveal(spec_identity_c_core);
    }
    let mut h = h;
    h.default_user_name = match read_string_if(r, v.at_least(3, 0, 0), Codepage::Utf16Le) {
        Ok(x) => x,
        Err(e) => {
            return Err(e);
        },
    };
    h.default_user_organisation = match read_string_if(r, v.at_least(3, 0, 0),
        Codepage::Utf16Le) {
        Ok(x) => x,
        Err(e) => {
            return Err(e);
        },
    };
    h.default_serial = match read_string_if(r, v.at_least(4, 0, 0), Codepage::Utf16Le) {
        Ok(x) => x,
        Err(e) => {
            return Err(e);
        },
    };
    let early_code = (v.at_least(4, 0, 0) && v.before(5, 2, 5)) || v.isx_at_least(1, 3, 24);
    h.compiled_code = match read_string_if(r, early_code, Codepage::Utf16Le) {
        Ok(x) => x,
        Err(e) => {
            return Err(e);
        },
    };
    h.app_readme_file = match read_string_if(r, v.at_least(4, 2, 4), Codepage::Utf16Le) {
        Ok(x) => x,
        Err(e) => {
            return Err(e);
        },
    };
    h.app_contact = match read_string_if(r, v.at_least(4, 2, 4), Codepage::Utf16Le) {
        Ok(x) => x,
        Err(e) => {
            return Err(e);
        },
    };
    h.app_comments = match read_string_if(r, v.at_least(4, 2, 4), Codepage::Utf16Le) {
        Ok(x) => x,
        Err(e) => {
            return Err(e);
        },
    };
    h.app_modify_path = match read_string_if(r, v.at_least(4, 2, 4), Codepage::Utf16Le) {
        Ok(x) => x,
        Err(e) => {
            return Err(e);
        },
    };
    Ok(h)
}

#[verifier::rlimit(100)]
fn load_identity_d(r: &mut Reader, v: &KnownVersion, h: Header) -> (res: Result<
    Header,
    InnoError,
>)
    ensures
        final(r).data() == old(r).data(),
        match spec_identity_d(old(r).data(), *v, Ok((h@, old(r).pos as int))) {
            Ok(vp) => res matches Ok(h2) && h2@ == vp.0 && final(r).pos == vp.1,
            Err(e) => res == Err::<Header, InnoError>(e),
        },
{
    proof {
        reveal(spec_identity_d_core);
    }
    let mut h = h;
    h.create_uninstall_registry_key = match read_string_if(r, v.at_least(5, 3, 8),
        Codepage::Utf16Le) {
        Ok(x) => x,
        Err(e) => {
            return Err(e);
        },
    };
    h.uninstallable = match read_string_if(r, v.at_least(5, 3, 10), Codepage::Utf16Le) {
        Ok(x) => x,
        Err(e) => {
            return Err(e);
        },
    };
    h.close_applications_filter = match read_string_if(r, v.at_least(5, 5, 0),
        Codepage::Utf16Le) {
        Ok(x) => x,
        Err(e) => {
            return Err(e);
        },
    };
    h.setup_mutex = match read_string_if(r, v.at_least(5, 5, 6), Codepage::Utf16Le) {
        Ok(x) => x,
        Err(e) => {
            return Err(e);
        },
    };
    h.changes_environment = match read_string_if(r, v.at_least(5, 6, 1), Codepage::Utf16Le) {
        Ok(x) => x,
        Err(e) => {
            return Err(e);
        },
    };
    h.changes_associations = match read_string_if(r, v.at_least(5, 6, 1), Codepage::Utf16Le) {
        Ok(x) => x,
        Err(e) => {
            return Err(e);
        },
    };
    Ok(h)
}

fn load_architecture(r: &mut Reader, v: &KnownVersion, h: Header) -> (res: Result<
    Header,
    InnoError,
>)
    ensures
        final(r).data() == old(r).data(),
        match spec_architecture(old(r).data(), *v, Ok((h@, old(r).pos as int))) {
            Ok(vp) => res matches Ok(h2) && h2@ == vp.0 && final(r).pos == vp.1,
            Err(e) => res == Err::<Header, InnoError>(e),
        },
{
    proof {
        reveal(spec_architecture_core);
    }
    let mut h = h;
    if v.at_least(6, 3, 0) {
        let expr1 = match encoded_string(r, Codepage::Utf16Le) {
            Ok(x) => x,
            Err(e) => {
                return Err(e);
            },
        };
        let (allowed, disallowed) = match expr1 {
            None => {
                let mut a = ArchSet::empty();
                a.insert(crate::inno::architecture::Arch::X86Compatible);
                (a, ArchSet::empty())
            },
            Some(text) => {
                let chars = crate::text::chars_of(text.as_str());
                match crate::inno::architecture::from_expression_chars(&chars) {
                    Ok(pair) => pair,
                    Err(e) => {
                        return Err(e);
                    },
                }
            },
        };
        let expr2 = match encoded_string(r, Codepage::Utf16Le) {
            Ok(x) => x,
            Err(e) => {
                return Err(e);
            },
        };
        let in64 = match expr2 {
            None => {
                let mut a = ArchSet::empty();
                a.insert(crate::inno::architecture::Arch::X86Compatible);
                a
            },
            Some(text) => {
                let chars = crate::text::chars_of(text.as_str());
                match crate::inno::architecture::from_expression_chars(&chars) {
                    Ok(pair) => pair.0,
                    Err(e) => {
                        return Err(e);
                    },
                }
            },
        };
        h.architectures_allowed = allowed;
        h.architectures_disallowed = disallowed;
        h.architectures_install_in_64_bit_mode = in64;
    }
    Ok(h)
}

#[verifier::rlimit(100)]
fn load_modern_text(r: &mut Reader, v: &KnownVersion, h: Header) -> (res: Result<
    Header,
    InnoError,
>)
    ensures
        final(r).data() == old(r).data(),
        match spec_modern_text(old(r).data(), *v, Ok((h@, old(r).pos as int))) {
            Ok(vp) => res matches Ok(h2) && h2@ == vp.0 && final(r).pos == vp.1,
            Err(e) => res == Err::<Header, InnoError>(e),
        },
{
    proof {
        reveal(spec_modern_text_core);
    }
    let mut h = h;
    let modern = v.at_least(5, 2, 5);
    if modern {
        h.license_text = match read_string_if(r, true, Codepage::Windows1252) {
            Ok(x) => x,
            Err(e) => {
                return Err(e);
            },
        };
        h.info_before = match read_string_if(r, true, Codepage::Windows1252) {
            Ok(x) => x,
            Err(e) => {
                return Err(e);
            },
        };
        h.info_after = match read_string_if(r, true, Codepage::Windows1252) {
            Ok(x) => x,
            Err(e) => {
                return Err(e);
            },
        };
    }
    let sig = v.at_least(5, 2, 1) && v.before(5, 3, 10);
    h.uninstaller_signature = match read_string_if(r, sig, Codepage::Utf16Le) {
        Ok(x) => x,
        Err(e) => {
            return Err(e);
        },
    };
    if modern {
        h.compiled_code = match read_string_if(r, true, Codepage::Utf16Le) {
            Ok(x) => x,
            Err(e) => {
                return Err(e);
            },
        };
    }
    Ok(h)
}

fn load_lead_bytes(r: &mut Reader, v: &KnownVersion, h: Header) -> (res: Result<
    Header,
    InnoError,
>)
    ensures
        final(r).data() == old(r).data(),
        match spec_lead_bytes(old(r).data(), *v, Ok((h@, old(r).pos as int))) {
            Ok(vp) => res matches Ok(h2) && h2@ == vp.0 && final(r).pos == vp.1,
            Err(e) => res == Err::<Header, InnoError>(e),
        },
{
    proof {
        reveal(spec_lead_bytes_core);
    }
    let mut h = h;
    if v.at_least(2, 0, 6) && !v.is_unicode {
        h.lead_bytes = match r.read_bytes(32) {
            Ok(b) => b,
            Err(e) => {
                return Err(e);
            },
        };
    }
    Ok(h)
}

#[verifier::rlimit(100)]
fn load_counts(r: &mut Reader, v: &KnownVersion, h: Header) -> (res: Result<Header, InnoError>)
    ensures
        final(r).data() == old(r).data(),
        match spec_counts(old(r).data(), *v, Ok((h@, old(r).pos as int))) {
            Ok(vp) => res matches Ok(h2) && h2@ == vp.0 && final(r).pos == vp.1,
            Err(e) => res == Err::<Header, InnoError>(e),
        },
{
    proof {
        reveal(spec_counts_core);
    }
    let mut h = h;
    let lang_dflt: u32 = if v.at_least(2, 0, 1) {
        1
    } else {
        0
    };
    h.language_count = match read_u32_or(r, v.at_least(4, 0, 0), lang_dflt) {
        Ok(x) => x,
        Err(e) => {
            return Err(e);
        },
    };
    h.message_count = match read_u32_or(r, v.at_least(4, 2, 1), 0) {
        Ok(x) => x,
        Err(e) => {
            return Err(e);
        },
    };
    h.permission_count = match read_u32_or(r, v.at_least(4, 1, 0), 0) {
        Ok(x) => x,
        Err(e) => {
            return Err(e);
        },
    };
    let early = v.at_least(2, 0, 0) || v.is_isx;
    h.type_count = match read_u32_or(r, early, 0) {
        Ok(x) => x,
        Err(e) => {
            return Err(e);
        },
    };
    h.component_count = match read_u32_or(r, early, 0) {
        Ok(x) => x,
        Err(e) => {
            return Err(e);
        },
    };
    let tasks = v.at_least(2, 0, 0) || v.isx_at_least(1, 3, 17);
    h.task_count = match read_u32_or(r, tasks, 0) {
        Ok(x) => x,
        Err(e) => {
            return Err(e);
        },
    };
    h.directory_count = match read_u32_or(r, true, 0) {
        Ok(x) => x,
        Err(e) => {
            return Err(e);
        },
    };
    h.file_count = match read_u32_or(r, true, 0) {
        Ok(x) => x,
        Err(e) => {
            return Err(e);
        },
    };
    h.data_entry_count = match read_u32_or(r, true, 0) {
        Ok(x) => x,
        Err(e) => {
            return Err(e);
        },
    };
    h.icon_count = match read_u32_or(r, true, 0) {
        Ok(x) => x,
        Err(e) => {
            return Err(e);
        },
    };
    h.ini_entry_count = match read_u32_or(r, true, 0) {
        Ok(x) => x,
        Err(e) => {
            return Err(e);
        },
    };
    h.registry_entry_count = match read_u32_or(r, true, 0) {
        Ok(x) => x,
        Err(e) => {
            return Err(e);
        },
    };
    h.delete_entry_count = match read_u32_or(r, true, 0) {
        Ok(x) => x,
        Err(e) => {
            return Err(e);
        },
    };
    h.uninstall_delete_entry_count = match read_u32_or(r, true, 0) {
        Ok(x) => x,
        Err(e) => {
            return Err(e);
        },
    };
    h.run_entry_count = match read_u32_or(r, true, 0) {
        Ok(x) => x,
        Err(e) => {
            return Err(e);
        },
    };
    h.uninstall_run_entry_count = match read_u32_or(r, true, 0) {
        Ok(x) => x,
        Err(e) => {
            return Err(e);
        },
    };
    Ok(h)
}

#[verifier::rlimit(100)]
fn load_winver_colors(r: &mut Reader, v: &KnownVersion, h: Header) -> (res: Result<
    Header,
    InnoError,
>)
    ensures
        final(r).data() == old(r).data(),
        match spec_winver_colors(old(r).data(), *v, Ok((h@, old(r).pos as int))) {
            Ok(vp) => res matches Ok(h2) && h2@ == vp.0 && final(r).pos == vp.1,
            Err(e) => res == Err::<Header, InnoError>(e),
        },
{
    proof {
        reveal(spec_winver_colors_core);
    }
    let mut h = h;
    h.windows_version_range = match WindowsVersionRange::load(r, &v.version) {
        Ok(x) => x,
        Err(e) => {
            return Err(e);
        },
    };
    h.back_color = match read_u32_or(r, true, 0) {
        Ok(x) => x,
        Err(e) => {
            return Err(e);
        },
    };
    h.back_color2 = match read_u32_or(r, v.at_least(1, 3, 3), 0) {
        Ok(x) => x,
        Err(e) => {
            return Err(e);
        },
    };
    h.image_back_color = match read_u32_or(r, v.before(5, 5, 7), 0) {
        Ok(x) => x,
        Err(e) => {
            return Err(e);
        },
    };
    let small = (v.at_least(2, 0, 0) && v.before(5, 0, 4)) || v.is_isx;
    h.small_image_back_color = match read_u32_or(r, small, 0) {
        Ok(x) => x,
        Err(e) => {
            return Err(e);
        },
    };
    Ok(h)
}

#[verifier::rlimit(100)]
fn load_wizard_checksum(r: &mut Reader, v: &KnownVersion, h: Header) -> (res: Result<
    Header,
    InnoError,
>)
    ensures
        final(r).data() == old(r).data(),
        match spec_wizard_checksum(old(r).data(), *v, Ok((h@, old(r).pos as int))) {
            Ok(vp) => res matches Ok(h2) && h2@ == vp.0 && final(r).pos == vp.1,
            Err(e) => res == Err::<Header, InnoError>(e),
        },
{
    proof {
        reveal(spec_wizard_checksum_core);
    }
    let mut h = h;
    let wizard = v.at_least(6, 0, 0);
    h.wizard_style = match read_style_if(r, wizard, InnoStyle::Classic, EnumField::WizardStyle) {
        Ok(x) => x,
        Err(e) => {
            return Err(e);
        },
    };
    h.wizard_resize_percent_x = match read_u32_or(r, wizard, 0) {
        Ok(x) => x,
        Err(e) => {
            return Err(e);
        },
    };
    h.wizard_resize_percent_y = match read_u32_or(r, wizard, 0) {
        Ok(x) => x,
        Err(e) => {
            return Err(e);
        },
    };
    h.image_alpha_format = match read_alpha_format_if(r, v.at_least(5, 5, 7),
        ImageAlphaFormat::Ignored, EnumField::ImageAlphaFormat) {
        Ok(x) => x,
        Err(e) => {
            return Err(e);
        },
    };
    if v.before(4, 2, 0) {
        match r.skip(4) {
            Ok(_) => (),
            Err(e) => {
                return Err(e);
            },
        }
    }
    if v.at_least(4, 2, 0) && v.before(5, 3, 9) {
        match r.skip(16) {
            Ok(_) => (),
            Err(e) => {
                return Err(e);
            },
        }
    }
    if v.at_least(5, 3, 9) {
        match r.skip(20) {
            Ok(_) => (),
            Err(e) => {
                return Err(e);
            },
        }
    }
    Ok(h)
}

fn load_salt(r: &mut Reader, v: &KnownVersion, h: Header) -> (res: Result<Header, InnoError>)
    ensures
        final(r).data() == old(r).data(),
        match spec_salt(old(r).data(), *v, Ok((h@, old(r).pos as int))) {
            Ok(vp) => res matches Ok(h2) && h2@ == vp.0 && final(r).pos == vp.1,
            Err(e) => res == Err::<Header, InnoError>(e),
        },
{
    proof {
        reveal(spec_salt_core);
    }
    let mut h = h;
    if v.at_least(4, 2, 2) {
        h.password_salt = match password_salt(r) {
            Ok(x) => Some(x),
            Err(e) => {
                return Err(e);
            },
        };
    }
    Ok(h)
}

#[verifier::rlimit(100)]
fn load_disk(r: &mut Reader, v: &KnownVersion, h: Header) -> (res: Result<Header, InnoError>)
    ensures
        final(r).data() == old(r).data(),
        match spec_disk(old(r).data(), *v, Ok((h@, old(r).pos as int))) {
            Ok(vp) => res matches Ok(h2) && h2@ == vp.0 && final(r).pos == vp.1,
            Err(e) => res == Err::<Header, InnoError>(e),
        },
{
    proof {
        reveal(spec_disk_core);
    }
    let mut h = h;
    let modern_disk = v.at_least(4, 0, 0);
    if modern_disk {
        h.extra_disk_space_required = match r.read_u64() {
            Ok(x) => x,
            Err(e) => {
                return Err(e);
            },
        };
    } else {
        h.extra_disk_space_required = match r.read_u32() {
            Ok(x) => x as u64,
            Err(e) => {
                return Err(e);
            },
        };
    }
    h.slices_per_disk = match read_u32_or(r, modern_disk, 1) {
        Ok(x) => x,
        Err(e) => {
            return Err(e);
        },
    };
    Ok(h)
}

#[verifier::rlimit(100)]
fn load_modes(r: &mut Reader, v: &KnownVersion, h: Header) -> (res: Result<Header, InnoError>)
    ensures
        final(r).data() == old(r).data(),
        match spec_modes(old(r).data(), *v, Ok((h@, old(r).pos as int))) {
            Ok(vp) => res matches Ok(h2) && h2@ == vp.0 && final(r).pos == vp.1,
            Err(e) => res == Err::<Header, InnoError>(e),
        },
{
    proof {
        reveal(spec_modes_core);
    }
    let mut h = h;
    let verbosity = (v.at_least(2, 0, 0) && v.before(5, 0, 0)) || v.isx_at_least(1, 3, 4);
    h.install_verbosity = match read_verbosity_if(r, verbosity, InstallVerbosity::Normal,
        EnumField::InstallVerbosity) {
        Ok(x) => x,
        Err(e) => {
            return Err(e);
        },
    };
    h.uninstall_log_mode = match read_log_mode_if(r, v.at_least(1, 3, 0), LogMode::Append,
        EnumField::UninstallLogMode) {
        Ok(x) => x,
        Err(e) => {
            return Err(e);
        },
    };
    let style_read = v.before(5, 0, 0) && (v.at_least(2, 0, 0) || v.isx_at_least(1, 3, 13));
    let style_dflt = if v.at_least(5, 0, 0) {
        InnoStyle::Modern
    } else {
        InnoStyle::Classic
    };
    h.uninstall_style = match read_style_if(r, style_read, style_dflt,
        EnumField::UninstallStyle) {
        Ok(x) => x,
        Err(e) => {
            return Err(e);
        },
    };
    h.dir_exists_warning = match read_auto_bool_if(r, v.at_least(1, 3, 6), AutoBool::Auto,
        EnumField::DirExistsWarning) {
        Ok(x) => x,
        Err(e) => {
            return Err(e);
        },
    };
    let code_line = v.is_isx && v.at_least(2, 0, 10) && v.before(3, 0, 0);
    if code_line {
        // An ISX-only code line offset, discarded.
        match r.skip(4) {
            Ok(_) => (),
            Err(e) => {
                return Err(e);
            },
        }
    }
    Ok(h)
}

fn load_restart_policy(r: &mut Reader, v: &KnownVersion, h: Header) -> (res: Result<
    Header,
    InnoError,
>)
    ensures
        final(r).data() == old(r).data(),
        match spec_restart_policy(old(r).data(), *v, Ok((h@, old(r).pos as int))) {
            Ok(vp) => res matches Ok(h2) && h2@ == vp.0 && final(r).pos == vp.1,
            Err(e) => res == Err::<Header, InnoError>(e),
        },
{
    proof {
        reveal(spec_restart_policy_core);
    }
    let mut h = h;
    if v.at_least(3, 0, 0) && v.before(3, 0, 3) {
        let b = match r.read_u8() {
            Ok(x) => x,
            Err(e) => {
                return Err(e);
            },
        };
        match AutoBool::from_repr(b) {
            Some(AutoBool::Yes) => {
                h.flags.insert(HeaderFlag::AlwaysRestart);
            },
            Some(AutoBool::Auto) => {
                h.flags.insert(HeaderFlag::RestartIfNeededByRun);
            },
            _ => (),
        }
    }
    Ok(h)
}

#[verifier::rlimit(100)]
fn load_privileges_and_language(r: &mut Reader, v: &KnownVersion, h: Header) -> (res: Result<
    Header,
    InnoError,
>)
    ensures
        final(r).data() == old(r).data(),
        match spec_privileges_and_language(old(r).data(), *v, Ok((h@, old(r).pos as int))) {
            Ok(vp) => res matches Ok(h2) && h2@ == vp.0 && final(r).pos == vp.1,
            Err(e) => res == Err::<Header, InnoError>(e),
        },
{
    proof {
        reveal(spec_privileges_and_language_core);
    }
    let mut h = h;
    let priv_read = v.at_least(3, 0, 4) || v.isx_at_least(3, 0, 3);
    h.privileges_required = match read_privilege_level_if(r, priv_read,
        PrivilegeLevel::NoPrivileges, EnumField::PrivilegesRequired) {
        Ok(x) => x,
        Err(e) => {
            return Err(e);
        },
    };
    if v.at_least(5, 7, 0) {
        let b = match r.read_u8() {
            Ok(x) => x,
            Err(e) => {
                return Err(e);
            },
        };
        h.privileges_required_overrides_allowed = PrivilegesRequiredOverrides::from_bits_retain(
            b,
        );
    }
    Ok(h)
}

#[verifier::rlimit(100)]
fn load_language_and_compression(r: &mut Reader, v: &KnownVersion, h: Header) -> (res: Result<
    Header,
    InnoError,
>)
    ensures
        final(r).data() == old(r).data(),
        match spec_language_and_compression(old(r).data(), *v, Ok((h@, old(r).pos as int))) {
            Ok(vp) => res matches Ok(h2) && h2@ == vp.0 && final(r).pos == vp.1,
            Err(e) => res == Err::<Header, InnoError>(e),
        },
{
    proof {
        reveal(spec_language_and_compression_core);
    }
    let mut h = h;
    let lang = v.at_least(4, 0, 10);
    h.show_language_dialog = match read_auto_bool_if(r, lang, AutoBool::Auto,
        EnumField::ShowLanguageDialog) {
        Ok(x) => x,
        Err(e) => {
            return Err(e);
        },
    };
    h.language_detection = match read_language_detection_if(r, lang,
        LanguageDetection::UiLanguage, EnumField::LanguageDetection) {
        Ok(x) => x,
        Err(e) => {
            return Err(e);
        },
    };
    h.compression = match read_compression_if(r, v.at_least(5, 3, 9), Compression::Unknown,
        EnumField::Compression) {
        Ok(x) => x,
        Err(e) => {
            return Err(e);
        },
    };
    Ok(h)
}

#[verifier::rlimit(100)]
fn load_legacy_arch_and_tail(r: &mut Reader, v: &KnownVersion, h: Header) -> (res: Result<
    Header,
    InnoError,
>)
    ensures
        final(r).data() == old(r).data(),
        match spec_legacy_arch_and_tail(old(r).data(), *v, Ok((h@, old(r).pos as int))) {
            Ok(vp) => res matches Ok(h2) && h2@ == vp.0 && final(r).pos == vp.1,
            Err(e) => res == Err::<Header, InnoError>(e),
        },
{
    proof {
        reveal(spec_legacy_arch_and_tail_core);
    }
    let mut h = h;
    if v.at_least(5, 1, 0) && v.before(6, 3, 0) {
        let b1 = match r.read_u8() {
            Ok(x) => x,
            Err(e) => {
                return Err(e);
            },
        };
        let b2 = match r.read_u8() {
            Ok(x) => x,
            Err(e) => {
                return Err(e);
            },
        };
        h.architectures_allowed = StoredArchitecture::from_bits_retain(b1).to_identifiers();
        h.architectures_install_in_64_bit_mode = StoredArchitecture::from_bits_retain(
            b2,
        ).to_identifiers();
    } else if v.before(5, 1, 0) {
        h.architectures_allowed = StoredArchitecture::all().to_identifiers();
        h.architectures_install_in_64_bit_mode = StoredArchitecture::all().to_identifiers();
    }
    Ok(h)
}

#[verifier::rlimit(100)]
fn load_signed_uninstaller(r: &mut Reader, v: &KnownVersion, h: Header) -> (res: Result<
    Header,
    InnoError,
>)
    ensures
        final(r).data() == old(r).data(),
        match spec_signed_uninstaller(old(r).data(), *v, Ok((h@, old(r).pos as int))) {
            Ok(vp) => res matches Ok(h2) && h2@ == vp.0 && final(r).pos == vp.1,
            Err(e) => res == Err::<Header, InnoError>(e),
        },
{
    proof {
        reveal(spec_signed_uninstaller_core);
    }
    let mut h = h;
    let signed = v.at_least(5, 2, 1) && v.before(5, 3, 10);
    h.signed_uninstaller_original_size = match read_u32_or(r, signed, 0) {
        Ok(x) => x,
        Err(e) => {
            return Err(e);
        },
    };
    h.signed_uninstaller_header_checksum = match read_u32_or(r, signed, 0) {
        Ok(x) => x,
        Err(e) => {
            return Err(e);
        },
    };
    Ok(h)
}

#[verifier::rlimit(100)]
fn load_disables_and_display(r: &mut Reader, v: &KnownVersion, h: Header) -> (res: Result<
    Header,
    InnoError,
>)
    ensures
        final(r).data() == old(r).data(),
        match spec_disables_and_display(old(r).data(), *v, Ok((h@, old(r).pos as int))) {
            Ok(vp) => res matches Ok(h2) && h2@ == vp.0 && final(r).pos == vp.1,
            Err(e) => res == Err::<Header, InnoError>(e),
        },
{
    proof {
        reveal(spec_disables_and_display_core);
    }
    let mut h = h;
    let disables = v.at_least(5, 3, 3);
    h.disable_dir_page = match read_auto_bool_if(r, disables, AutoBool::Auto,
        EnumField::DisableDirPage) {
        Ok(x) => x,
        Err(e) => {
            return Err(e);
        },
    };
    h.disable_program_group_page = match read_auto_bool_if(r, disables, AutoBool::Auto,
        EnumField::DisableProgramGroupPage) {
        Ok(x) => x,
        Err(e) => {
            return Err(e);
        },
    };
    if v.at_least(5, 5, 0) {
        h.uninstall_display_size = match r.read_u64() {
            Ok(x) => x,
            Err(e) => {
                return Err(e);
            },
        };
    } else if v.at_least(5, 3, 6) {
        h.uninstall_display_size = match r.read_u32() {
            Ok(x) => x as u64,
            Err(e) => {
                return Err(e);
            },
        };
    }
    Ok(h)
}

fn load_legacy_sizes(r: &mut Reader, v: &KnownVersion, h: Header) -> (res: Result<
    (Header, (u32, u32, u32)),
    InnoError,
>)
    ensures
        final(r).data() == old(r).data(),
        match spec_legacy_sizes(old(r).data(), *v, Ok((h@, old(r).pos as int))) {
            Ok(vp) => res matches Ok(pair) && pair.0@ == vp.0.0 && pair.1 == vp.0.1
                && final(r).pos == vp.1,
            Err(e) => res == Err::<(Header, (u32, u32, u32)), InnoError>(e),
        },
{
    proof {
        reveal(spec_legacy_sizes_core);
    }
    let legacy = v.before(1, 3, 0);
    let license_size = match read_u32_or(r, legacy, 0) {
        Ok(x) => x,
        Err(e) => {
            return Err(e);
        },
    };
    let info_before_size = match read_u32_or(r, legacy, 0) {
        Ok(x) => x,
        Err(e) => {
            return Err(e);
        },
    };
    let info_after_size = match read_u32_or(r, legacy, 0) {
        Ok(x) => x,
        Err(e) => {
            return Err(e);
        },
    };
    Ok((h, (license_size, info_before_size, info_after_size)))
}

fn load_flag_block(r: &mut Reader, v: &KnownVersion, h: Header) -> (res: Result<
    Header,
    InnoError,
>)
    ensures
        final(r).data() == old(r).data(),
        match spec_flag_block(old(r).data(), *v, Ok((h@, old(r).pos as int))) {
            Ok(vp) => res matches Ok(h2) && h2@ == vp.0 && final(r).pos == vp.1,
            Err(e) => res == Err::<Header, InnoError>(e),
        },
{
    proof {
        reveal(spec_flag_block_core);
    }
    let mut h = h;
    let stream_flags = match Header::read_flags(r, v) {
        Ok(x) => x,
        Err(e) => {
            return Err(e);
        },
    };
    h.flags = h.flags.union(&stream_flags);
    Ok(h)
}

/// Applies the post-decode back-fill to a rawly decoded header.
fn apply_backfill(v: &KnownVersion, h: Header) -> (h2: Header)
    ensures
        h2@ == spec_backfill(*v, h@),
{
    proof {
        reveal(spec_backfill);
    }
    let mut h = h;
    if v.before(3, 0, 4) {
        h.privileges_required = PrivilegeLevel::from_header_flags(&h.flags);
    }
    if v.before(4, 0, 10) {
        h.show_language_dialog = AutoBool::from_header_flags(&h.flags,
            HeaderFlag::ShowLanguageDialog);
        h.language_detection = LanguageDetection::from_header_flags(&h.flags);
    }
    if v.before(4, 1, 5) {
        h.compression = Compression::from_header_flags(&h.flags);
    }
    if v.before(5, 3, 3) {
        h.disable_dir_page = AutoBool::from_header_flags(&h.flags, HeaderFlag::DisableDirPage);
        h.disable_program_group_page = AutoBool::from_header_flags(&h.flags,
            HeaderFlag::DisableProgramGroupPage);
    }
    h
}

fn load_legacy_text(r: &mut Reader, v: &KnownVersion, sizes: (u32, u32, u32), h: Header) -> (res:
    Result<Header, InnoError>)
    ensures
        final(r).data() == old(r).data(),
        match spec_legacy_text(old(r).data(), *v, sizes, Ok((h@, old(r).pos as int))) {
            Ok(vp) => res matches Ok(h2) && h2@ == vp.0 && final(r).pos == vp.1,
            Err(e) => res == Err::<Header, InnoError>(e),
        },
{
    proof {
        reveal(spec_legacy_text_core);
    }
    let mut h = h;
    if v.before(1, 3, 0) {
        h.license_text = match sized_encoded_string(r, sizes.0, Codepage::Windows1252) {
            Ok(x) => x,
            Err(e) => {
                return Err(e);
            },
        };
        h.info_before = match sized_encoded_string(r, sizes.1, Codepage::Windows1252) {
            Ok(x) => x,
            Err(e) => {
                return Err(e);
            },
        };
        h.info_after = match sized_encoded_string(r, sizes.2, Codepage::Windows1252) {
            Ok(x) => x,
            Err(e) => {
                return Err(e);
            },
        };
    }
    Ok(h)
}

impl Header {
    /// Reads the flag bitstream for `v` and joins in the flags that are
    /// on by default in versions that do not store them.
    pub fn read_flags(r: &mut Reader, v: &KnownVersion) -> (res: Result<FlagSet, InnoError>)
        ensures
            final(r).data() == old(r).data(),
            match take_flag_bits(old(r).data(), old(r).pos as int, enrolled_flags(*v)) {
                Ok(vp) => res matches Ok(f) && f == vp.0.spec_union(spec_default_flags(*v))
                    && final(r).pos == vp.1,
                Err(e) => res == Err::<FlagSet, InnoError>(e),
            },
    {
        let mut fr = FlagReader::new();
        let mut i: usize = 0;
        while i < 64
            invariant
                fr.enrolled@ == enrolled_prefix(*v, i as int),
                i <= 64,
            decreases 64 - i,
        {
            let f = HeaderFlag::of_index(i);
            if f.enrolled_in(v) {
                fr.add(f);
                proof {
                    assert(fr.enrolled@ =~= enrolled_prefix(*v, i as int) + seq![
                        crate::inno::flags::flag_of(i as int),
                    ]);
                }
            } else {
                proof {
                    assert(fr.enrolled@ =~= enrolled_prefix(*v, i as int)
                        + Seq::<HeaderFlag>::empty());
                }
            }
            i = i + 1;
        }
        proof {
            crate::inno::flags::lemma_enrolled_prefix_len(*v, 64);
        }
        let bits = match fr.finalize(r) {
            Ok(x) => x,
            Err(e) => {
                return Err(e);
            },
        };
        let mut dflt = FlagSet::empty();
        if v.before(4, 0, 9) {
            dflt.insert(HeaderFlag::AllowCancelDuringInstall);
        }
        if v.before(5, 5, 0) {
            dflt.insert(HeaderFlag::AllowNetworkDrive);
        }
        Ok(bits.union(&dflt))
    }

    /// Decodes one setup header from `r` under version `v`.
    ///
    /// The result is exactly [`load_spec`] of the reader's bytes and
    /// position: success, every field of the header and the final
    /// position are all pinned by the schedule, and on failure the error
    /// is the one the schedule prescribes.
    #[verifier::rlimit(100)]
    pub fn load(r: &mut Reader, v: &KnownVersion) -> (res: Result<Header, InnoError>)
        ensures
            final(r).data() == old(r).data(),
            match load_spec(old(r).data(), old(r).pos as int, *v) {
                Ok(vp) => res matches Ok(h) && h@ == vp.0 && final(r).pos == vp.1,
                Err(e) => res == Err::<Header, InnoError>(e),
            },
    {
        let h = Header::default();
        let h = match load_identity_a(r, v, h) {
            Ok(x) => x,
            Err(e) => {
                return Err(e);
            },
        };
        let h = match load_identity_b(r, v, h) {
            Ok(x) => x,
            Err(e) => {
                return Err(e);
            },
        };
        let h = match load_identity_c(r, v, h) {
            Ok(x) => x,
            Err(e) => {
                return Err(e);
            },
        };
        let h = match load_identity_d(r, v, h) {
            Ok(x) => x,
            Err(e) => {
                return Err(e);
            },
        };
        let h = match load_architecture(r, v, h) {
            Ok(x) => x,
            Err(e) => {
                return Err(e);
            },
        };
        let h = match load_modern_text(r, v, h) {
            Ok(x) => x,
            Err(e) => {
                return Err(e);
            },
        };
        let h = match load_lead_bytes(r, v, h) {
            Ok(x) => x,
            Err(e) => {
                return Err(e);
            },
        };
        let h = match load_counts(r, v, h) {
            Ok(x) => x,
            Err(e) => {
                return Err(e);
            },
        };
        let (h, sizes) = match load_legacy_sizes(r, v, h) {
            Ok(x) => x,
            Err(e) => {
                return Err(e);
            },
        };
        let h = match load_winver_colors(r, v, h) {
            Ok(x) => x,
            Err(e) => {
                return Err(e);
            },
        };
        let h = match load_wizard_checksum(r, v, h) {
            Ok(x) => x,
            Err(e) => {
                return Err(e);
            },
        };
        let h = match load_salt(r, v, h) {
            Ok(x) => x,
            Err(e) => {
                return Err(e);
            },
        };
        let h = match load_disk(r, v, h) {
            Ok(x) => x,
            Err(e) => {
                return Err(e);
            },
        };
        let h = match load_modes(r, v, h) {
            Ok(x) => x,
            Err(e) => {
                return Err(e);
            },
        };
        let h = match load_restart_policy(r, v, h) {
            Ok(x) => x,
            Err(e) => {
                return Err(e);
            },
        };
        let h = match load_privileges_and_language(r, v, h) {
            Ok(x) => x,
            Err(e) => {
                return Err(e);
            },
        };
        let h = match load_language_and_compression(r, v, h) {
            Ok(x) => x,
            Err(e) => {
                return Err(e);
            },
        };
        let h = match load_legacy_arch_and_tail(r, v, h) {
            Ok(x) => x,
            Err(e) => {
                return Err(e);
            },
        };
        let h = match load_signed_uninstaller(r, v, h) {
            Ok(x) => x,
            Err(e) => {
                return Err(e);
            },
        };
        let h = match load_disables_and_display(r, v, h) {
            Ok(x) => x,
            Err(e) => {
                return Err(e);
            },
        };
        let h = match load_flag_block(r, v, h) {
            Ok(x) => x,
            Err(e) => {
                return Err(e);
            },
        };
        let h = apply_backfill(v, h);
        let h = match load_legacy_text(r, v, sizes, h) {
            Ok(x) => x,
            Err(e) => {
                return Err(e);
            },
        };
        Ok(h)
    }
}

impl Default for Header {
    /// The header before any field has been decoded.
    fn default() -> (r: Header)
        ensures
            r@ == default_header_view(),
    {
        Header {
            flags: FlagSet::empty(),
            app_name: None,
            app_versioned_name: None,
            app_id: None,
            app_copyright: None,
            app_publisher: None,
            app_publisher_url: None,
            app_support_phone: None,
            app_support_url: None,
            app_updates_url: None,
            app_version: None,
            default_dir_name: None,
            default_group_name: None,
            uninstall_icon_name: None,
            base_filename: None,
            uninstall_files_dir: None,
            uninstall_name: None,
            uninstall_icon: None,
            app_mutex: None,
            default_user_name: None,
            default_user_organisation: None,
            default_serial: None,
            app_readme_file: None,
            app_contact: None,
            app_comments: None,
            app_modify_path: None,
            create_uninstall_registry_key: None,
            uninstallable: None,
            close_applications_filter: None,
            setup_mutex: None,
            changes_environment: None,
            changes_associations: None,
            architectures_allowed: ArchSet::empty(),
            architectures_disallowed: ArchSet::empty(),
            architectures_install_in_64_bit_mode: ArchSet::empty(),
            license_text: None,
            info_before: None,
            info_after: None,
            uninstaller_signature: None,
            compiled_code: None,
            lead_bytes: Vec::new(),
            language_count: 0,
            message_count: 0,
            permission_count: 0,
            type_count: 0,
            component_count: 0,
            task_count: 0,
            directory_count: 0,
            file_count: 0,
            data_entry_count: 0,
            icon_count: 0,
            ini_entry_count: 0,
            registry_entry_count: 0,
            delete_entry_count: 0,
            uninstall_delete_entry_count: 0,
            run_entry_count: 0,
            uninstall_run_entry_count: 0,
            windows_version_range: crate::inno::windows_version::WindowsVersionRange {
                begin: crate::inno::windows_version::FullWindowsVersion {
                    win_version: crate::inno::windows_version::WindowsVersion {
                        major: 0,
                        minor: 0,
                        build: 0,
                    },
                    nt_version: crate::inno::windows_version::WindowsVersion {
                        major: 0,
                        minor: 0,
                        build: 0,
                    },
                    nt_service_pack: crate::inno::windows_version::ServicePack {
                        major: 0,
                        minor: 0,
                    },
                },
                end: crate::inno::windows_version::FullWindowsVersion {
                    win_version: crate::inno::windows_version::WindowsVersion {
                        major: 0,
                        minor: 0,
                        build: 0,
                    },
                    nt_version: crate::inno::windows_version::WindowsVersion {
                        major: 0,
                        minor: 0,
                        build: 0,
                    },
                    nt_service_pack: crate::inno::windows_version::ServicePack {
                        major: 0,
                        minor: 0,
                    },
                },
            },
            back_color: 0,
            back_color2: 0,
            image_back_color: 0,
            small_image_back_color: 0,
            wizard_style: InnoStyle::Classic,
            wizard_resize_percent_x: 0,
            wizard_resize_percent_y: 0,
            image_alpha_format: ImageAlphaFormat::Ignored,
            password_salt: None,
            extra_disk_space_required: 0,
            slices_per_disk: 0,
            install_verbosity: InstallVerbosity::Normal,
            uninstall_log_mode: LogMode::Append,
            uninstall_style: InnoStyle::Classic,
            dir_exists_warning: AutoBool::Auto,
            privileges_required: PrivilegeLevel::NoPrivileges,
            privileges_required_overrides_allowed: PrivilegesRequiredOverrides::empty(),
            show_language_dialog: AutoBool::Auto,
            language_detection: LanguageDetection::UiLanguage,
            compression: Compression::Unknown,
            signed_uninstaller_original_size: 0,
            signed_uninstaller_header_checksum: 0,
            disable_dir_page: AutoBool::Auto,
            disable_program_group_page: AutoBool::Auto,
            uninstall_display_size: 0,
        }
    }
}

} // verus!
