//! Values of the npm registry strategy.

use vstd::prelude::*;

verus! {

/// Choose by region (npmmirror inside mainland China, the official registry elsewhere).
pub const AUTO: &'static str = "auto";

/// Always the official npmjs.org registry.
pub const OFFICIAL: &'static str = "official";

/// Always the npmmirror registry.
pub const NPM_MIRROR: &'static str = "npmmirror";

/// A registry URL given by the user (an internal Verdaccio included).
pub const CUSTOM: &'static str = "custom";

/// The governance registry: its URL comes from `npmRegistry` of
/// `desktop-config.json`, and `auto` applies while it is not set.
pub const GOVERNANCE: &'static str = "governance";

} // verus!
