//! Names of the bundled icons that the library hands to the interface.
use vstd::prelude::*;

verus! {

pub const CLIPBOARD: &'static str = "clipboard";

pub const IMAGE_ADJUST_BRIGHTNESS: &'static str = "image-adjust-brightness";

pub const STAR_FILLED_ROUNDED: &'static str = "star-filled-rounded";

pub const WORK_WEEK: &'static str = "work-week";

pub const CHECK_ROUND_OUTLINE: &'static str = "check-round-outline";

pub const SIZE_VERTICALLY: &'static str = "size-vertically";

} // verus!
