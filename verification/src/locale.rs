//! Locale support: language selection, text bundles, and resolution.

pub mod en_us;
pub mod format;
pub mod resolve;
pub mod types;
pub mod zh_cn;
