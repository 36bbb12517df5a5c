//! Theme and configuration core for an Ant-Design-style component library.
//!
//! The crate models design tokens, theme algorithms, CSS-variable
//! generation, provider configuration merging, and locale text resolution.

pub mod component_token;
pub mod config;
pub mod generator;
pub mod locale;
pub mod merge;
pub mod provider;
pub mod styles;
pub mod theme;

use vstd::prelude::*;

verus! {

/// Current version of the library.
pub const VERSION: &'static str = "0.0.1";

} // verus!
