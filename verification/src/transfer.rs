//! The buffer transfer: from a shape the engine reported and the samples
//! copied out of its buffer to an image that owns them.
//!
//! Reading the engine's buffer and releasing it is the driver's part. What
//! is decided here is how many samples the driver is to copy, and what image
//! they make.

use crate::image::{new_image, Image, ImageView};
use vstd::prelude::*;

verus! {

/// The number of samples in a buffer of the given shape: the product of the
/// three, where none is negative and the product is a length a buffer can
/// have.
pub open spec fn sample_count(width: i32, height: i32, depth: i32) -> Option<usize> {
    if 0 <= width && 0 <= height && 0 <= depth && width * height * depth <= usize::MAX {
        Some((width * height * depth) as usize)
    } else {
        None
    }
}

/// The image made of `data` in the shape that the engine reported.
pub open spec fn image_of<T>(width: i32, height: i32, depth: i32, data: Seq<T>) -> ImageView<T> {
    ImageView { width: width as nat, height: height as nat, depth: depth as nat, data }
}

/// Computes [`sample_count`].
pub fn count_samples(width: i32, height: i32, depth: i32) -> (count: Option<usize>)
    ensures
        count == sample_count(width, height, depth),
{
    if width < 0 || height < 0 || depth < 0 {
        return None;
    }
    if width == 0 || height == 0 || depth == 0 {
        assert(width * height * depth == 0) by (nonlinear_arith)
            requires
                width == 0 || height == 0 || depth == 0,
        ;
        return Some(0);
    }
    let w: usize = width as usize;
    let h: usize = height as usize;
    let d: usize = depth as usize;
    match w.checked_mul(h) {
        None => {
            assert(width * height * depth > usize::MAX) by (nonlinear_arith)
                requires
                    width * height > usize::MAX,
                    depth >= 1,
            ;
            None
        },
        Some(area) => area.checked_mul(d),
    }
}

/// Makes the image out of the samples copied from a buffer that the engine
/// returned for `width`, `height` and `depth`.
pub fn load_internal<T>(data: Vec<T>, width: i32, height: i32, depth: i32) -> (image: Image<T>)
    requires
        sample_count(width, height, depth) matches Some(count) && count == data@.len(),
    ensures
        image.well_formed(),
        image@ == image_of(width, height, depth, data@),
{
    new_image(width as usize, height as usize, depth as usize, data)
}

} // verus!
