//! Verified core of a small home media library: file classification,
//! localized messages, thumbnail decisions and HTML page rendering.

pub mod browser;
pub mod filetype;
pub mod lang;
pub mod pages;
pub mod records;
pub mod text;
pub mod thumb;
