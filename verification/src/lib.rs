//! A photographic color-grading engine: pixel buffers tagged with the color
//! space they are in, conversions between spaces, and ordered pipelines of
//! per-pixel stages.

pub mod color;
pub mod pipeline;
pub mod raster;
pub mod stages;

use crate::color::{convert_pixels, converted_pixel, converted_pixels, is_working_space, maps_each, working_space};
use crate::raster::{buf_of, height_of, put, raster_height, raster_new, raster_pixels, raster_width, width_of};
use imgref::Img;
use kolor::{ColorSpace, Vec3};
use vstd::prelude::*;

verus! {

/// What an image is, to a contract: its dimensions, its pixels row by row, and
/// the space those pixels are expressed in.
pub struct ImageView {
    pub width: nat,
    pub height: nat,
    pub pixels: Seq<Vec3>,
    pub space: ColorSpace,
}

impl ImageView {
    /// A view is dense: it has at least one column and exactly one pixel for
    /// every position.
    pub open spec fn wf(self) -> bool {
        &&& 0 < self.width <= u32::MAX
        &&& self.height <= u32::MAX
        &&& self.pixels.len() == self.width * self.height
    }

    /// Whether two views agree in everything but the pixel values.
    pub open spec fn same_shape(self, other: ImageView) -> bool {
        &&& self.width == other.width
        &&& self.height == other.height
        &&& self.space == other.space
        &&& self.pixels.len() == other.pixels.len()
    }
}

/// A pixel buffer together with the color space its values are expressed in.
///
/// The two change together or not at all: the only way to retag an image is to
/// convert its pixels.
pub struct ProcessingImage {
    pixels: Img<Vec<Vec3>>,
    space: ColorSpace,
}

impl View for ProcessingImage {
    type V = ImageView;

    closed spec fn view(&self) -> ImageView {
        ImageView {
            width: raster_width(self.pixels) as nat,
            height: raster_height(self.pixels) as nat,
            pixels: raster_pixels(self.pixels),
            space: self.space,
        }
    }
}

impl ProcessingImage {
    #[verifier::type_invariant]
    spec fn dense(&self) -> bool {
        self@.wf()
    }

    /// Builds an image from normalized pixels given row by row in the space
    /// `source`. The pixels are converted into the working space at once, so
    /// that every image starts its life there.
    pub fn from_pixels(pixels: Vec<Vec3>, width: usize, height: usize, source: ColorSpace) -> (image:
        Self)
        requires
            0 < width <= u32::MAX,
            height <= u32::MAX,
            pixels@.len() == width * height,
        ensures
            image@.wf(),
            image@.width == width,
            image@.height == height,
            is_working_space(image@.space),
            image@.pixels == converted_pixels(source, image@.space, pixels@),
    {
        let target = working_space();
        let converted = convert_pixels(&pixels, source, target);
        ProcessingImage { pixels: raster_new(converted, width, height), space: target }
    }

    /// The number of pixels in a row.
    pub fn width(&self) -> (width: usize)
        ensures
            width == self@.width,
            self@.wf(),
    {
        proof {
            use_type_invariant(self);
        }
        width_of(&self.pixels)
    }

    /// The number of rows.
    pub fn height(&self) -> (height: usize)
        ensures
            height == self@.height,
            self@.wf(),
    {
        proof {
            use_type_invariant(self);
        }
        height_of(&self.pixels)
    }

    /// The space the pixels are expressed in.
    pub fn space(&self) -> (space: ColorSpace)
        ensures
            space == self@.space,
    {
        self.space
    }

    /// The pixels, row by row.
    pub fn pixels(&self) -> (pixels: &Vec<Vec3>)
        ensures
            pixels@ == self@.pixels,
            self@.wf(),
    {
        proof {
            use_type_invariant(self);
        }
        buf_of(&self.pixels)
    }

    /// The pixel in column `x` of row `y`.
    pub fn pixel(&self, x: usize, y: usize) -> (pixel: Vec3)
        requires
            x < self@.width,
            y < self@.height,
        ensures
            self@.wf(),
            pixel == self@.pixels[y * self@.width + x],
    {
        proof {
            use_type_invariant(self);
        }
        let width = width_of(&self.pixels);
        assert(0 <= y * width && y * width + x < width * raster_height(self.pixels)) by (nonlinear_arith)
            requires
                x < width,
                y < raster_height(self.pixels),
        ;
        let buf = buf_of(&self.pixels);
        let count = buf.len();
        assert(y * width + x < count);
        buf[y * width + x]
    }

    /// Returns this image in the space `to`, leaving the receiver as it was.
    pub fn convert(&self, to: ColorSpace) -> (converted: Self)
        ensures
            converted@.wf(),
            converted@.width == self@.width,
            converted@.height == self@.height,
            converted@.space == to,
            converted@.pixels == converted_pixels(self@.space, to, self@.pixels),
            to == self@.space ==> converted@ == self@,
    {
        proof {
            use_type_invariant(self);
        }
        let pixels = convert_pixels(buf_of(&self.pixels), self.space, to);
        ProcessingImage {
            pixels: raster_new(pixels, width_of(&self.pixels), height_of(&self.pixels)),
            space: to,
        }
    }

    /// Hands every pixel to `f` exactly once and stores what `f` returns in
    /// its place. No pixel's result depends on any other pixel, so the order
    /// in which pixels are visited cannot be observed.
    pub fn iter<F: Fn(Vec3) -> Vec3>(&mut self, f: F)
        requires
            forall|i: int|
                0 <= i < old(self)@.pixels.len() ==> f.requires((#[trigger] old(self)@.pixels[i],)),
        ensures
            final(self)@.wf(),
            final(self)@.same_shape(old(self)@),
            maps_each(|p: Vec3, q: Vec3| f.ensures((p,), q), old(self)@.pixels, final(self)@.pixels),
    {
        proof {
            use_type_invariant(&*self);
        }
        let count = buf_of(&self.pixels).len();
        let mut k: usize = 0;
        while k < count
            invariant
                k <= count,
                count == old(self)@.pixels.len(),
                self@.wf(),
                self@.same_shape(old(self)@),
                forall|i: int|
                    0 <= i < count ==> f.requires((#[trigger] old(self)@.pixels[i],)),
                forall|i: int|
                    0 <= i < k ==> f.ensures((old(self)@.pixels[i],), #[trigger] self@.pixels[i]),
                forall|i: int| k <= i < count ==> self@.pixels[i] == old(self)@.pixels[i],
            decreases count - k,
        {
            let pixel = buf_of(&self.pixels)[k];
            let replaced = f(pixel);
            put(&mut self.pixels, k, replaced);
            k = k + 1;
        }
    }

    /// Does what [`ProcessingImage::iter`] does, but shows `f` every pixel as it is in the
    /// space `space`: the image is converted there, `f` is applied, and the
    /// result is converted back, so that the image leaves in the space it came in.
    pub fn iter_in<F: Fn(Vec3) -> Vec3>(&mut self, space: ColorSpace, f: F)
        requires
            forall|i: int|
                0 <= i < old(self)@.pixels.len() ==> f.requires(
                    (#[trigger] converted_pixel(old(self)@.space, space, old(self)@.pixels[i]),),
                ),
        ensures
            final(self)@.wf(),
            final(self)@.same_shape(old(self)@),
            maps_each(
                |p: Vec3, q: Vec3|
                    exists|r: Vec3|
                        f.ensures((converted_pixel(old(self)@.space, space, p),), r) && q
                            == converted_pixel(space, old(self)@.space, r),
                old(self)@.pixels,
                final(self)@.pixels,
            ),
    {
        let home = self.space;
        let mut away = self.convert(space);
        let ghost entered = away@.pixels;
        away.iter(f);
        let ghost left = away@.pixels;
        *self = away.convert(home);
        proof {
            assert forall|i: int| 0 <= i < old(self)@.pixels.len() implies exists|r: Vec3|
                f.ensures((converted_pixel(old(self)@.space, space, old(self)@.pixels[i]),), r)
                    && #[trigger] self@.pixels[i] == converted_pixel(space, old(self)@.space, r) by {
                assert(entered[i] == converted_pixel(old(self)@.space, space, old(self)@.pixels[i]));
                assert(f.ensures((entered[i],), left[i]));
                assert(self@.pixels[i] == converted_pixel(space, home, left[i]));
            }
        }
    }
}

} // verus!

