//! Fixed heights for the classic screen layout.
//!
//! The actual splitting of a terminal area into regions belongs to the
//! rendering layer; the engine only owns the configured heights.

use vstd::prelude::*;

verus! {

/// The fixed region heights of the classic screen: header, help bar and
/// selected-interface details.
#[derive(Debug, Clone, Copy, PartialEq, Eq)]
pub struct AppLayout {
    pub header_height: u16,
    pub help_height: u16,
    pub details_height: u16,
}

impl Default for AppLayout {
    /// The stock layout: a three-row header, a three-row help bar and a
    /// six-row details region.
    fn default() -> (result: Self)
        ensures
            result.header_height == 3,
            result.help_height == 3,
            result.details_height == 6,
    {
        AppLayout { header_height: 3, help_height: 3, details_height: 6 }
    }
}

} // verus!
