//! Decoder for the binary `SETUP.HDR` structure embedded in Inno Setup
//! installers, together with the validated value types that a winget-style
//! manifest tool builds from the decoded data.
//!
//! The decoder is a single-pass, forward-only reader over a byte slice.
//! Which fields are present, how wide they are and how they are encoded all
//! depend on the Inno Setup version triple, the ISX fork marker and the
//! Unicode/ANSI axis carried by [`inno::version::KnownVersion`].

pub mod inno;
pub mod text;
pub mod types;
