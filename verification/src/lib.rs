//! A small code generator for null-terminated, C-compatible string constants.
//!
//! Given a symbol name and a text literal, the encoder produces a
//! [`artifact::DeclarationArtifact`]: a fully specified declaration of an
//! immutable, exported, unmangled fixed-length array of signed 8-bit
//! elements, holding every character of the text narrowed to one byte and a
//! trailing zero terminator. A thin front end validates that exactly two
//! literal inputs were supplied and reports precise errors otherwise.

pub mod artifact;
pub mod encoder;
pub mod input;
