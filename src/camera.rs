//! Image dimensions derived from the camera's configuration.
use vstd::prelude::*;

verus! {

/// The height of the image in pixels, given the truncated quotient of the
/// image width by the aspect ratio: an image always has at least one row.
pub fn image_height(scaled_width: i32) -> (r: i32)
    ensures
        r == if scaled_width < 1 { 1 } else { scaled_width },
        r >= 1,
{
    if scaled_width < 1 {
        1
    } else {
        scaled_width
    }
}

} // verus!
