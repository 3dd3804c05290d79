//! Values of the GitHub relay strategy.

use vstd::prelude::*;

verus! {

/// Choose by region (ghfast.top inside mainland China, direct elsewhere).
pub const AUTO: &'static str = "auto";

/// Reach GitHub directly.
pub const NONE: &'static str = "none";

/// Relay through ghfast.top.
pub const GHFAST: &'static str = "ghfast";

/// Relay through the generic ghproxy relay.
pub const GHPROXY: &'static str = "ghproxy";

/// A relay prefix given by the user (an internal git mirror included).
pub const CUSTOM: &'static str = "custom";

} // verus!
