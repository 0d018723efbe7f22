//! The dense two-dimensional pixel store, kept in an `imgref` image.
//!
//! Only images whose rows follow one another without padding are ever built
//! here, so the store's buffer read front to back is the image read row by row.

use imgref::Img;
use kolor::Vec3;
use vstd::prelude::*;

verus! {

/// `imgref::Img`, a buffer with a width, a height and a row stride.
#[verifier::external_type_specification]
#[verifier::external_body]
#[verifier::reject_recursive_types(Container)]
pub struct ExImg<Container>(Img<Container>);

/// The contents of the store's buffer, front to back.
pub uninterp spec fn raster_pixels(raster: Img<Vec<Vec3>>) -> Seq<Vec3>;

/// The number of pixels in a row, as `Img::width` reports it.
pub uninterp spec fn raster_width(raster: Img<Vec<Vec3>>) -> usize;

/// The number of rows, as `Img::height` reports it.
pub uninterp spec fn raster_height(raster: Img<Vec<Vec3>>) -> usize;

/// `Img::new` panics when the width is zero or when a dimension exceeds
/// `u32::MAX`; otherwise it stores the buffer untouched, with the row stride
/// equal to the width, and records both dimensions.
#[verifier::external_body]
pub(crate) fn raster_new(buf: Vec<Vec3>, width: usize, height: usize) -> (raster: Img<Vec<Vec3>>)
    requires
        0 < width <= u32::MAX,
        height <= u32::MAX,
    ensures
        raster_pixels(raster) == buf@,
        raster_width(raster) == width,
        raster_height(raster) == height,
{
    Img::new(buf, width, height)
}

/// `Img::width` returns the recorded width.
#[verifier::external_body]
pub(crate) fn width_of(raster: &Img<Vec<Vec3>>) -> (width: usize)
    ensures
        width == raster_width(*raster),
{
    raster.width()
}

/// `Img::height` returns the recorded height.
#[verifier::external_body]
pub(crate) fn height_of(raster: &Img<Vec<Vec3>>) -> (height: usize)
    ensures
        height == raster_height(*raster),
{
    raster.height()
}

/// `Img::buf` lends the buffer as it is stored.
#[verifier::external_body]
pub(crate) fn buf_of(raster: &Img<Vec<Vec3>>) -> (buf: &Vec<Vec3>)
    ensures
        buf@ == raster_pixels(*raster),
{
    raster.buf()
}

/// `Img::buf_mut` lends the buffer for writing; storing one pixel through it
/// changes that slot and neither the other slots nor the dimensions.
#[verifier::external_body]
pub(crate) fn put(raster: &mut Img<Vec<Vec3>>, index: usize, pixel: Vec3)
    requires
        index < raster_pixels(*old(raster)).len(),
    ensures
        raster_pixels(*final(raster)) == raster_pixels(*old(raster)).update(index as int, pixel),
        raster_width(*final(raster)) == raster_width(*old(raster)),
        raster_height(*final(raster)) == raster_height(*old(raster)),
    no_unwind
{
    raster.buf_mut()[index] = pixel;
}

} // verus!
