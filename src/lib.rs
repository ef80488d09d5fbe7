//! A fixed registry of colour schemes for a file-serving web interface: each
//! scheme has a URL slug, a light/dark classification and a complete palette.

pub mod palette;
pub mod scheme;

pub use palette::{Theme, ThemeField};
pub use scheme::{ColorScheme, InvalidSchemeSelector};
