//! A pretty directory listing: icons resolved by file name, extension or
//! directory name, with human-readable sizes, local times and octal
//! permission words, laid out in aligned columns.

pub mod entry;
pub mod icons;
pub mod listing;
pub mod numfmt;
pub mod size;
pub mod style;
