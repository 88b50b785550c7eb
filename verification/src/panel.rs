//! What the windows show: the texts of the primary panel and of the
//! secondary windows, and the sizes that windows open with.

use crate::decimal::{decimal_digits, decimal_string};
use vstd::prelude::*;

verus! {

/// The heading that every secondary window shows.
pub const EXTRA_WINDOW_HEADING: &'static str = "Extra Window";

/// The text beside the slider that sets the number of secondary windows.
pub const SLIDER_LABEL: &'static str = "Number of windows";

/// The width that a window opens with, in logical units.
pub const INITIAL_WIDTH: u32 = 400;

/// The height that a window opens with, in logical units.
pub const INITIAL_HEIGHT: u32 = 300;

/// The smallest width that a window can be given, in logical units.
pub const MIN_WIDTH: u32 = 300;

/// The smallest height that a window can be given, in logical units.
pub const MIN_HEIGHT: u32 = 220;

/// The heading of the primary panel for a published rate: the rate in
/// decimal, a space, and `fps`.
pub open spec fn fps_heading_text(rate: nat) -> Seq<char> {
    decimal_digits(rate) + seq![' ', 'f', 'p', 's']
}

/// The heading of the primary panel for the rate that the sampler published.
pub fn fps_heading(rate: usize) -> (heading: String)
    ensures
        heading@ == fps_heading_text(rate as nat),
{
    let mut heading = decimal_string(rate);
    heading.append(" fps");
    proof {
        reveal_strlit(" fps");
        assert(heading@ =~= fps_heading_text(rate as nat));
    }
    heading
}

} // verus!
