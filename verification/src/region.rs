//! Where the machine is taken to be, which decides the default mirrors.

use vstd::prelude::*;

verus! {

/// The region that decides the `auto` strategies: mirrors inside mainland
/// China for `Domestic`, the official sources for `Overseas`.
#[derive(Clone, Copy, Debug, PartialEq, Eq, Structural)]
pub enum Region {
    Domestic,
    Overseas,
}

} // verus!
