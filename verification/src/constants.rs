//! Built-in defaults of the desktop shell.

use vstd::prelude::*;

verus! {

/// Service port of a release build.
pub const DSH_PORT: u16 = 3080;

/// Service port of a debug build, kept apart from a running release build.
pub const DSH_DEV_PORT: u16 = 3081;

/// The ghfast.top relay prefix for GitHub downloads.
pub const DSH_MIRROR_PREFIX: &'static str = "https://ghfast.top/";

/// Store file of a release build.
pub const STORE_DAT_FILE: &'static str = "store.dat";

/// Store file of a debug build, kept apart from the release one.
pub const STORE_DAT_DEV_FILE: &'static str = "store.dev.dat";

/// Key under which the settings record is kept in the store.
pub const STORE_SETTING_KEY: &'static str = "setting";

} // verus!
