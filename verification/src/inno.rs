//! The Inno Setup header decoder: version model, primitive readers, the
//! flag bitstream, and the version-gated header schedule.

pub mod version;
pub mod reader;
pub mod encoding;
pub mod flags;
pub mod flag_reader;
pub mod enums;
pub mod architecture;
pub mod windows_version;
pub mod header;
