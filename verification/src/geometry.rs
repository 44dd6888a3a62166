use vstd::prelude::*;

verus! {

/// A pixel-space sub-rectangle of a tileset image: top-left offset plus size,
/// in the image's own top-left-origin, y-down storage order.
#[derive(Clone, Copy, Debug, PartialEq, Eq, Structural)]
pub struct PixelRect {
    pub offset_x: u32,
    pub offset_y: u32,
    pub width: u32,
    pub height: u32,
}

/// A normalized texture-coordinate rectangle, kept as exact fractions.
///
/// Each boundary is the value `numerator / denominator`, where the denominator
/// is the image dimension on that axis, so every coordinate lies in `[0, 1]`.
/// The vertical axis runs bottom-to-top: `bottom_num / den_y` is the lower
/// edge measured from the bottom of the image, which is the inverse of the
/// top-left-origin order in which the image itself is stored.
#[derive(Clone, Copy, Debug, PartialEq, Eq, Structural)]
pub struct TexRect {
    pub left_num: u32,
    pub right_num: u32,
    pub bottom_num: u32,
    pub top_num: u32,
    pub den_x: u32,
    pub den_y: u32,
}

/// The rectangle lies wholly inside an image of the given pixel dimensions.
pub open spec fn rect_in_image(r: PixelRect, image_width: u32, image_height: u32) -> bool {
    &&& r.offset_x + r.width <= image_width
    &&& r.offset_y + r.height <= image_height
}

/// The fractions are ordered and no boundary exceeds its denominator, so each
/// of the four coordinates lies in `[0, 1]`.
pub open spec fn tex_rect_well_formed(t: TexRect) -> bool {
    &&& t.left_num <= t.right_num <= t.den_x
    &&& t.bottom_num <= t.top_num <= t.den_y
}

/// The normalized rectangle that covers the same region as `r` does within an
/// image of `image_width` by `image_height` pixels: each pixel boundary is
/// divided by the image dimension on its axis, and the vertical boundaries are
/// re-measured from the bottom of the image.
pub open spec fn spec_tex_rect(r: PixelRect, image_width: u32, image_height: u32) -> TexRect {
    TexRect {
        left_num: r.offset_x,
        right_num: (r.offset_x + r.width) as u32,
        bottom_num: (image_height - (r.offset_y + r.height)) as u32,
        top_num: (image_height - r.offset_y) as u32,
        den_x: image_width,
        den_y: image_height,
    }
}

/// The pixel rectangle recovered from a normalized rectangle by multiplying
/// each boundary by its denominator (which maps `num / den` back to `num`)
/// and re-measuring the vertical boundaries from the top of the image.
pub open spec fn spec_pixel_rect(t: TexRect) -> PixelRect {
    PixelRect {
        offset_x: t.left_num,
        offset_y: (t.den_y - t.top_num) as u32,
        width: (t.right_num - t.left_num) as u32,
        height: (t.top_num - t.bottom_num) as u32,
    }
}

/// Normalized texture coordinates of a pixel rectangle within an image.
pub fn tex_rect(r: &PixelRect, image_width: u32, image_height: u32) -> (t: TexRect)
    requires
        rect_in_image(*r, image_width, image_height),
    ensures
        t == spec_tex_rect(*r, image_width, image_height),
        tex_rect_well_formed(t),
{
    TexRect {
        left_num: r.offset_x,
        right_num: r.offset_x + r.width,
        bottom_num: image_height - (r.offset_y + r.height),
        top_num: image_height - r.offset_y,
        den_x: image_width,
        den_y: image_height,
    }
}

/// Pixel rectangle recovered from normalized texture coordinates.
pub fn pixel_rect(t: &TexRect) -> (r: PixelRect)
    requires
        tex_rect_well_formed(*t),
    ensures
        r == spec_pixel_rect(*t),
{
    PixelRect {
        offset_x: t.left_num,
        offset_y: t.den_y - t.top_num,
        width: t.right_num - t.left_num,
        height: t.top_num - t.bottom_num,
    }
}

/// For any rectangle inside the image, the normalized texture-coordinate
/// rectangle, scaled back up by the image dimensions, reproduces the pixel
/// rectangle exactly: the two geometry representations are equivalent.
pub proof fn lemma_rect_round_trip(r: PixelRect, image_width: u32, image_height: u32)
    requires
        rect_in_image(r, image_width, image_height),
    ensures
        tex_rect_well_formed(spec_tex_rect(r, image_width, image_height)),
        spec_pixel_rect(spec_tex_rect(r, image_width, image_height)) == r,
{
}

} // verus!
