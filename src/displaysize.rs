//! Display sizes
use vstd::prelude::*;

verus! {

/// Display size enumeration
#[derive(Debug, Clone, Copy, PartialEq, Eq, Structural)]
pub enum DisplaySize {
    /// 128 by 64 pixels
    Display128x64,
    /// 128 by 32 pixels
    Display128x32,
    /// 64 by 128 pixels
    Display64x128,
    /// 128 by 128 pixels
    Display128x128,
}

} // verus!
