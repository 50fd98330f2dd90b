//! The fallback for platforms without window support.

use vstd::prelude::*;
use vstd::string::StringExecFns;
use super::PlatformOps;

verus! {

/// The platform without window support: no window list, never focused,
/// never under the cursor.
pub struct UnsupportedPlatform;

/// The error text of the window list on this platform.
pub open spec fn spec_unsupported_listing() -> Seq<char> {
    "Window enumeration is not supported on this platform"@
}

impl PlatformOps for UnsupportedPlatform {
    fn get_windows() -> (r: Result<Vec<String>, String>)
        ensures
            r matches Err(e) && e@ == spec_unsupported_listing(),
    {
        Err(String::from_str("Window enumeration is not supported on this platform"))
    }

    fn is_window_focused(_target_title: &str) -> (r: bool)
        ensures
            !r,
    {
        false
    }

    fn is_cursor_in_window(_target_title: &str) -> (r: bool)
        ensures
            !r,
    {
        false
    }
}

} // verus!
