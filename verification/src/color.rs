//! Conversion of pixel buffers between color spaces.
//!
//! Colors are `kolor` vectors and are treated here as abstract values: nothing
//! in this crate looks inside one. What is proved is the shape of a conversion:
//! which of the three paths is taken, that every pixel is converted on its own,
//! and that the buffer keeps its length and order.

use kolor::details::conversion::{ColorConversion, LinearColorConversion};
use kolor::{ColorSpace, Vec3};
use vstd::prelude::*;

verus! {

/// `kolor::Vec3`, a color's three channels. Its contents are never looked at.
#[verifier::external_type_specification]
#[verifier::external_body]
pub struct ExVec3(Vec3);

/// `kolor::ColorSpace`, the identity of a space: primaries, white point and
/// transfer function.
#[verifier::external_type_specification]
#[verifier::external_body]
pub struct ExColorSpace(ColorSpace);

/// `kolor`'s conversion between two linear spaces: a matrix and the two spaces.
#[verifier::external_type_specification]
#[verifier::external_body]
pub struct ExLinearColorConversion(LinearColorConversion);

/// `kolor`'s conversion between any two spaces: decode, change basis, encode.
#[verifier::external_type_specification]
#[verifier::external_body]
pub struct ExColorConversion(ColorConversion);

/// Whether a space carries no transfer function, as `ColorSpace::is_linear` reports it.
pub uninterp spec fn is_linear_space(space: ColorSpace) -> bool;

/// The space a matrix conversion reads, as `LinearColorConversion::input_space` reports it.
pub uninterp spec fn linear_source(conversion: LinearColorConversion) -> ColorSpace;

/// The space a matrix conversion writes, as `LinearColorConversion::output_space` reports it.
pub uninterp spec fn linear_target(conversion: LinearColorConversion) -> ColorSpace;

/// What `LinearColorConversion::convert` yields for one color, for the
/// conversion built between the two spaces: the product of the matrix that
/// belongs to the pair and the color.
pub uninterp spec fn linear_converted(from: ColorSpace, to: ColorSpace, color: Vec3) -> Vec3;

/// The space a general conversion reads, as `ColorConversion::src_space` reports it.
pub uninterp spec fn conversion_source(conversion: ColorConversion) -> ColorSpace;

/// The space a general conversion writes, as `ColorConversion::dst_space` reports it.
pub uninterp spec fn conversion_target(conversion: ColorConversion) -> ColorSpace;

/// What `ColorConversion::convert` yields for one color, for the conversion
/// built between the two spaces. `kolor` computes it from these three values
/// alone, without any state; that equal values give equal results is taken on
/// trust from its arithmetic.
pub uninterp spec fn transfer_converted(from: ColorSpace, to: ColorSpace, color: Vec3) -> Vec3;

/// Whether a space is the fixed linear space in which stage arithmetic is
/// calibrated, that is, whether it equals `kolor::spaces::ACES_CG`.
pub uninterp spec fn is_working_space(space: ColorSpace) -> bool;

/// `ColorSpace::is_linear` compares the space's transfer function with `NONE`;
/// the outcome depends on the space alone.
pub assume_specification[ ColorSpace::is_linear ](space: &ColorSpace) -> (linear: bool)
    ensures
        linear == is_linear_space(*space),
;

/// `LinearColorConversion::new` panics unless both spaces are linear.
/// Otherwise it looks up or derives the matrix between them and records both spaces.
pub assume_specification[ LinearColorConversion::new ](
    src: ColorSpace,
    dst: ColorSpace,
) -> (conversion: LinearColorConversion)
    requires
        is_linear_space(src),
        is_linear_space(dst),
    ensures
        linear_source(conversion) == src,
        linear_target(conversion) == dst,
;

/// `LinearColorConversion::convert` multiplies the color by the conversion's
/// matrix, which `new` fixed from the two spaces.
pub assume_specification[ LinearColorConversion::convert ](
    conversion: &LinearColorConversion,
    color: Vec3,
) -> (converted: Vec3)
    ensures
        converted == linear_converted(
            linear_source(*conversion),
            linear_target(*conversion),
            color,
        ),
;

/// `ColorConversion::new` accepts every pair of spaces: it picks the decoding
/// of the source, the matrix between the linear bases, and the encoding of the
/// target, and records both spaces.
pub assume_specification[ ColorConversion::new ](src: ColorSpace, dst: ColorSpace) -> (conversion:
    ColorConversion)
    ensures
        conversion_source(conversion) == src,
        conversion_target(conversion) == dst,
;

/// `ColorConversion::convert` applies the three steps that `new` picked to one
/// color; it reads nothing but the conversion and that color.
pub assume_specification[ ColorConversion::convert ](
    conversion: &ColorConversion,
    color: Vec3,
) -> (converted: Vec3)
    ensures
        converted == transfer_converted(
            conversion_source(*conversion),
            conversion_target(*conversion),
            color,
        ),
;

/// The derived `==` of `ColorSpace` compares primaries, white point and
/// transfer function, which are all a space consists of.
#[verifier::external_body]
pub(crate) fn same_space(a: ColorSpace, b: ColorSpace) -> (same: bool)
    ensures
        same == (a == b),
{
    a == b
}

/// `kolor::spaces::ACES_CG` is the constant for the working space.
#[verifier::external_body]
pub(crate) fn working_space() -> (space: ColorSpace)
    ensures
        is_working_space(space),
{
    kolor::spaces::ACES_CG
}

/// One color taken from `from` to `to`.
///
/// A space converts to itself by leaving the color untouched. Two linear
/// spaces are joined by a single matrix. Every other pair goes through the
/// general conversion, which decodes, changes basis and encodes.
pub open spec fn converted_pixel(from: ColorSpace, to: ColorSpace, color: Vec3) -> Vec3 {
    if from == to {
        color
    } else if is_linear_space(from) && is_linear_space(to) {
        linear_converted(from, to, color)
    } else {
        transfer_converted(from, to, color)
    }
}

/// A buffer taken from `from` to `to`: every pixel converted on its own, in place.
pub open spec fn converted_pixels(from: ColorSpace, to: ColorSpace, pixels: Seq<Vec3>) -> Seq<Vec3> {
    Seq::new(pixels.len(), |i: int| converted_pixel(from, to, pixels[i]))
}

/// Whether `after` arises from `before` by relating each pixel to the pixel in
/// the same position, and to no other.
pub open spec fn maps_each(
    relation: spec_fn(Vec3, Vec3) -> bool,
    before: Seq<Vec3>,
    after: Seq<Vec3>,
) -> bool {
    &&& before.len() == after.len()
    &&& forall|i: int| 0 <= i < before.len() ==> relation(before[i], #[trigger] after[i])
}

/// A buffer may be cut anywhere and its parts handed to different workers:
/// the whole is mapped pixel by pixel exactly when each part is, so one worker
/// and many produce the same results.
pub proof fn lemma_maps_each_splits(
    relation: spec_fn(Vec3, Vec3) -> bool,
    head: Seq<Vec3>,
    tail: Seq<Vec3>,
    head_after: Seq<Vec3>,
    tail_after: Seq<Vec3>,
)
    requires
        head.len() == head_after.len(),
    ensures
        maps_each(relation, head + tail, head_after + tail_after) <==> maps_each(
            relation,
            head,
            head_after,
        ) && maps_each(relation, tail, tail_after),
{
    let before = head + tail;
    let after = head_after + tail_after;
    if maps_each(relation, before, after) {
        assert forall|i: int| 0 <= i < head.len() implies relation(
            head[i],
            #[trigger] head_after[i],
        ) by {
            assert(before[i] == head[i] && after[i] == head_after[i]);
        }
        assert forall|i: int| 0 <= i < tail.len() implies relation(
            tail[i],
            #[trigger] tail_after[i],
        ) by {
            let j = head.len() + i;
            assert(before[j] == tail[i] && after[j] == tail_after[i]);
        }
    }
    if maps_each(relation, head, head_after) && maps_each(relation, tail, tail_after) {
        assert forall|i: int| 0 <= i < before.len() implies relation(
            before[i],
            #[trigger] after[i],
        ) by {
            if i < head.len() {
                assert(before[i] == head[i] && after[i] == head_after[i]);
            } else {
                let j = i - head.len();
                assert(before[i] == tail[j] && after[i] == tail_after[j]);
            }
        }
    }
}

/// Converting a buffer is converting its parts: a conversion may be run on
/// any partition of the buffer and the results joined in order.
pub proof fn lemma_conversion_splits(
    from: ColorSpace,
    to: ColorSpace,
    head: Seq<Vec3>,
    tail: Seq<Vec3>,
)
    ensures
        converted_pixels(from, to, head + tail) == converted_pixels(from, to, head)
            + converted_pixels(from, to, tail),
{
    assert(converted_pixels(from, to, head + tail) =~= converted_pixels(from, to, head)
        + converted_pixels(from, to, tail));
}

/// Converting from a space to itself changes no pixel.
pub proof fn lemma_conversion_to_self(space: ColorSpace, pixels: Seq<Vec3>)
    ensures
        converted_pixels(space, space, pixels) == pixels,
{
    assert(converted_pixels(space, space, pixels) =~= pixels);
}

/// Applies `f` to every pixel and collects the results in order.
pub(crate) fn map_pixels<F: Fn(Vec3) -> Vec3>(pixels: &Vec<Vec3>, f: F) -> (mapped: Vec<Vec3>)
    requires
        forall|i: int| 0 <= i < pixels@.len() ==> f.requires((#[trigger] pixels@[i],)),
    ensures
        maps_each(|p: Vec3, q: Vec3| f.ensures((p,), q), pixels@, mapped@),
{
    let mut mapped: Vec<Vec3> = Vec::with_capacity(pixels.len());
    let mut k: usize = 0;
    while k < pixels.len()
        invariant
            k <= pixels@.len(),
            mapped@.len() == k,
            forall|i: int| 0 <= i < pixels@.len() ==> f.requires((#[trigger] pixels@[i],)),
            forall|i: int| 0 <= i < k ==> f.ensures((pixels@[i],), #[trigger] mapped@[i]),
        decreases pixels@.len() - k,
    {
        let q = f(pixels[k]);
        mapped.push(q);
        k = k + 1;
    }
    mapped
}

/// Converts a buffer of colors from one space to another.
///
/// The result is a fresh buffer of the same length. Converting a space to
/// itself copies the input; nothing is clamped on any path.
pub fn convert_pixels(pixels: &Vec<Vec3>, from: ColorSpace, to: ColorSpace) -> (converted: Vec<Vec3>)
    ensures
        converted@ == converted_pixels(from, to, pixels@),
        converted@.len() == pixels@.len(),
        from == to ==> converted@ == pixels@,
{
    if same_space(from, to) {
        let copy = map_pixels(pixels, |p: Vec3| -> (q: Vec3)
            ensures
                q == p,
            { p });
        assert(copy@ =~= pixels@);
        assert(copy@ =~= converted_pixels(from, to, pixels@));
        copy
    } else if from.is_linear() && to.is_linear() {
        let converter = LinearColorConversion::new(from, to);
        let converted = map_pixels(pixels, |p: Vec3| -> (q: Vec3)
            ensures
                q == linear_converted(from, to, p),
            { converter.convert(p) });
        assert(converted@ =~= converted_pixels(from, to, pixels@));
        converted
    } else {
        let converter = ColorConversion::new(from, to);
        let converted = map_pixels(pixels, |p: Vec3| -> (q: Vec3)
            ensures
                q == transfer_converted(from, to, p),
            { converter.convert(p) });
        assert(converted@ =~= converted_pixels(from, to, pixels@));
        converted
    }
}

} // verus!
