//! Rasterisation: from a parsed drawing to a bitmap, in two steps with the
//! painting between them. This module decides how large the bitmap is,
//! refuses a drawing that has none and hands out an empty buffer of that
//! extent; the program around this library paints the drawing on the buffer
//! with the `resvg` crate; this module takes the buffer back, checks it and
//! keeps the bitmap's extent and its bytes in step. The buffer is the
//! `tiny-skia` crate's.

use vstd::prelude::*;
use crate::fixed::Vec2;
use crate::single::{is_positive_finite, micros, micros_from_bits, pixels, pixels_from_bits};
use crate::svg::{size_bits, tree_extent, ParseFault};

verus! {

/// A buffer of pixels, four bytes each.
#[verifier::external_type_specification]
#[verifier::external_body]
pub struct ExPixmap(resvg::tiny_skia::Pixmap);

/// An image as the user interface takes it.
#[verifier::external_type_specification]
#[verifier::external_body]
pub struct ExColorImage(eframe::egui::ColorImage);

/// The bytes that a pixel buffer holds, row by row.
pub uninterp spec fn pixmap_bytes(pixmap: resvg::tiny_skia::Pixmap) -> Seq<u8>;

/// Width and height that a pixel buffer was made with.
pub uninterp spec fn pixmap_extent(pixmap: resvg::tiny_skia::Pixmap) -> (u32, u32);

/// The image that the user interface makes of `width * height` pixels given
/// as bytes of red, green, blue and alpha.
pub uninterp spec fn unmultiplied_image(
    width: int,
    height: int,
    rgba: Seq<u8>,
) -> eframe::egui::ColorImage;

/// Longest side, in pixels, of a bitmap that can be painted on: the painter
/// reckons with five times each side as a signed 32-bit number.
pub const MAX_SIDE: u32 = 429_496_729;

/// `tiny_skia::Pixmap::new`: a buffer of `width * height` pixels, all
/// bytes zero. There is none for a side of zero, nor for a width whose
/// rows would be longer than a signed 32-bit number. The caller keeps the
/// number of bytes within what a vector can hold.
#[verifier::external_body]
fn new_pixmap(width: u32, height: u32) -> (r: Option<resvg::tiny_skia::Pixmap>)
    requires
        4 * width * height <= isize::MAX,
    ensures
        (r is Some) == (1 <= width && width <= 0x1fff_ffff && 1 <= height),
        r is Some ==> pixmap_extent(r->Some_0) == (width, height),
        r is Some ==> pixmap_bytes(r->Some_0).len() == 4 * width * height,
        r is Some ==> forall|i: int|
            0 <= i < 4 * width * height ==> #[trigger] pixmap_bytes(r->Some_0)[i] == 0,
{
    resvg::tiny_skia::Pixmap::new(width, height)
}

/// `tiny_skia::Pixmap::width`: the width that the buffer was made with.
#[verifier::external_body]
fn pixmap_width(pixmap: &resvg::tiny_skia::Pixmap) -> (r: u32)
    ensures
        r == pixmap_extent(*pixmap).0,
{
    pixmap.width()
}

/// `tiny_skia::Pixmap::height`: the height that the buffer was made with.
#[verifier::external_body]
fn pixmap_height(pixmap: &resvg::tiny_skia::Pixmap) -> (r: u32)
    ensures
        r == pixmap_extent(*pixmap).1,
{
    pixmap.height()
}

/// `tiny_skia::Pixmap::take`: the bytes of the buffer.
#[verifier::external_body]
fn take_bytes(pixmap: resvg::tiny_skia::Pixmap) -> (r: Vec<u8>)
    ensures
        r@ == pixmap_bytes(pixmap),
{
    pixmap.take()
}

/// `egui::ColorImage::from_rgba_unmultiplied`. It takes four bytes for each
/// pixel, no more and no fewer.
#[verifier::external_body]
fn color_image(width: usize, height: usize, rgba: &[u8]) -> (r: eframe::egui::ColorImage)
    requires
        width * height * 4 == rgba@.len(),
    ensures
        r == unmultiplied_image(width as int, height as int, rgba@),
{
    eframe::egui::ColorImage::from_rgba_unmultiplied([width, height], rgba)
}

/// What a [`Raster`] holds, as mathematics.
pub struct RasterModel {
    pub width: int,
    pub height: int,
    /// Four bytes for each pixel, row by row.
    pub rgba: Seq<u8>,
}

/// Whether a bitmap of this extent can be made and painted on: no side is
/// zero or longer than [`MAX_SIDE`], and a vector can hold the bytes.
pub open spec fn paintable(width: int, height: int) -> bool {
    &&& 1 <= width <= MAX_SIDE
    &&& 1 <= height <= MAX_SIDE
    &&& 4 * width * height <= isize::MAX
}

impl RasterModel {
    /// The invariant of a bitmap: an extent that can be painted on, and four
    /// bytes for each pixel.
    pub open spec fn wf(self) -> bool {
        &&& paintable(self.width, self.height)
        &&& self.rgba.len() == 4 * self.width * self.height
    }
}

/// A bitmap: the pixels of a drawing at one resolution.
#[derive(Debug, PartialEq, Eq)]
pub struct Raster {
    width: u32,
    height: u32,
    rgba: Vec<u8>,
}

impl View for Raster {
    type V = RasterModel;

    closed spec fn view(&self) -> RasterModel {
        RasterModel { width: self.width as int, height: self.height as int, rgba: self.rgba@ }
    }
}

/// The bytes of a bitmap whose sides are not longer than [`MAX_SIDE`] can
/// be counted in 64 bits.
proof fn lemma_bytes_fit(width: int, height: int)
    requires
        0 <= width <= MAX_SIDE,
        0 <= height <= MAX_SIDE,
    ensures
        0 <= width * height <= 184_467_440_221_699_441,
        width * height * 4 == 4 * width * height,
        4 * (width * height) == 4 * width * height,
{
    assert(0 <= width * height <= 184_467_440_221_699_441) by (nonlinear_arith)
        requires
            0 <= width <= 429_496_729,
            0 <= height <= 429_496_729,
    ;
    assert(width * height * 4 == 4 * width * height) by (nonlinear_arith);
    assert(4 * (width * height) == 4 * width * height) by (nonlinear_arith);
}

/// The number of bytes of a bitmap whose sides are not longer than
/// [`MAX_SIDE`].
fn byte_count(width: u32, height: u32) -> (r: u64)
    requires
        width <= MAX_SIDE,
        height <= MAX_SIDE,
    ensures
        r == 4 * width * height,
{
    proof {
        lemma_bytes_fit(width as int, height as int);
    }
    4 * ((width as u64) * (height as u64))
}

/// Whether `width` and `height` make an extent that can be painted on.
fn is_paintable(width: u32, height: u32) -> (r: bool)
    ensures
        r == paintable(width as int, height as int),
{
    if width < 1 || width > MAX_SIDE || height < 1 || height > MAX_SIDE {
        false
    } else {
        byte_count(width, height) <= isize::MAX as u64
    }
}

impl Raster {
    #[verifier::type_invariant]
    spec fn inv(self) -> bool {
        self@.wf()
    }

    /// The bitmap of the given extent over the given bytes, if the extent
    /// can be painted on and there are four bytes for each pixel.
    pub fn new(width: u32, height: u32, rgba: Vec<u8>) -> (r: Option<Raster>)
        ensures
            r is Some <==> paintable(width as int, height as int) && rgba@.len() == 4 * width
                * height,
            r matches Some(raster) ==> raster@ == (RasterModel {
                width: width as int,
                height: height as int,
                rgba: rgba@,
            }) && raster@.wf(),
    {
        if !is_paintable(width, height) {
            return None;
        }
        if rgba.len() as u64 != byte_count(width, height) {
            return None;
        }
        Some(Raster { width, height, rgba })
    }

    /// The width in pixels. As every bitmap is well formed, this also
    /// tells a caller so.
    pub fn width(&self) -> (r: u32)
        ensures
            r == self@.width,
            1 <= r <= MAX_SIDE,
            self@.wf(),
    {
        proof {
            use_type_invariant(self);
        }
        self.width
    }

    pub fn height(&self) -> (r: u32)
        ensures
            r == self@.height,
            1 <= r <= MAX_SIDE,
    {
        proof {
            use_type_invariant(self);
        }
        self.height
    }

    /// The bytes of the pixels, four for each, row by row.
    pub fn rgba(&self) -> (r: &Vec<u8>)
        ensures
            r@ == self@.rgba,
            r@.len() == 4 * self@.width * self@.height,
    {
        proof {
            use_type_invariant(self);
        }
        &self.rgba
    }

    /// The bitmap as the user interface takes it.
    pub fn to_color_image(&self) -> (r: eframe::egui::ColorImage)
        ensures
            r == unmultiplied_image(self@.width, self@.height, self@.rgba),
    {
        proof {
            use_type_invariant(self);
        }
        proof {
            lemma_bytes_fit(self.width as int, self.height as int);
        }
        color_image(self.width as usize, self.height as usize, self.rgba.as_slice())
    }
}

/// A drawing made ready for the screen: its natural extent, in millionths,
/// and its bitmap.
#[derive(Debug, PartialEq, Eq)]
pub struct Document {
    pub size: Vec2,
    pub raster: Raster,
}

/// Whether `document` is what a drawing of the given width and height,
/// enlarged `zoom` times, is made ready as: the extent read in millionths,
/// and a bitmap of as many whole pixels as the enlarged extent holds.
pub open spec fn depicts(document: Document, width_bits: u32, height_bits: u32, zoom: int) -> bool {
    &&& document.size.x == micros(width_bits)
    &&& document.size.y == micros(height_bits)
    &&& document.raster@.width == pixels(width_bits, zoom)
    &&& document.raster@.height == pixels(height_bits, zoom)
    &&& document.raster@.wf()
}

/// An empty buffer for a drawing, with what it was made for: the bit
/// patterns of the drawing's width and height and how many times it is
/// enlarged. The drawing is to be painted on `pixmap`, enlarged `zoom`
/// times.
pub struct Canvas {
    pub pixmap: resvg::tiny_skia::Pixmap,
    pub width_bits: u32,
    pub height_bits: u32,
    pub zoom: u16,
}

/// Whether `pixmap` is a buffer for a drawing of the given width and
/// height, enlarged `zoom` times: the enlarged extent, in whole pixels, can
/// be painted on, and the buffer has that extent and four bytes for each
/// pixel.
pub open spec fn fits(
    pixmap: resvg::tiny_skia::Pixmap,
    width_bits: u32,
    height_bits: u32,
    zoom: int,
) -> bool {
    &&& paintable(pixels(width_bits, zoom), pixels(height_bits, zoom))
    &&& pixmap_extent(pixmap).0 == pixels(width_bits, zoom)
    &&& pixmap_extent(pixmap).1 == pixels(height_bits, zoom)
    &&& pixmap_bytes(pixmap).len() == 4 * pixels(width_bits, zoom) * pixels(height_bits, zoom)
}

/// The empty buffer for a drawing whose width and height have the given bit
/// patterns, enlarged `zoom` times. There is one if and only if the
/// enlarged extent, in whole pixels, can be painted on; all its bytes are
/// zero.
pub fn blank(width_bits: u32, height_bits: u32, zoom: u16) -> (r: Result<Canvas, ParseFault>)
    ensures
        r is Ok <==> paintable(pixels(width_bits, zoom as int), pixels(height_bits, zoom as int)),
        r matches Ok(canvas) ==> {
            &&& canvas.width_bits == width_bits
            &&& canvas.height_bits == height_bits
            &&& canvas.zoom == zoom
            &&& fits(canvas.pixmap, width_bits, height_bits, zoom as int)
            &&& forall|i: int|
                0 <= i < pixmap_bytes(canvas.pixmap).len() ==> #[trigger] pixmap_bytes(
                    canvas.pixmap,
                )[i] == 0
        },
        r matches Err(fault) ==> fault == ParseFault::Unrenderable,
{
    let width: u32 = pixels_from_bits(width_bits, zoom);
    let height: u32 = pixels_from_bits(height_bits, zoom);
    if !is_paintable(width, height) {
        return Err(ParseFault::Unrenderable);
    }
    match new_pixmap(width, height) {
        None => Err(ParseFault::Unrenderable),
        Some(pixmap) => Ok(Canvas { pixmap, width_bits, height_bits, zoom }),
    }
}

/// The empty buffer for `tree`, enlarged `zoom` times: the one that
/// [`blank`] gives for the drawing's extent. There is one if and only if
/// that extent, enlarged and in whole pixels, can be painted on.
pub fn canvas_for(tree: &usvg::Tree, zoom: u16) -> (r: Result<Canvas, ParseFault>)
    ensures
        r is Ok <==> paintable(
            pixels(tree_extent(*tree).0, zoom as int),
            pixels(tree_extent(*tree).1, zoom as int),
        ),
        r matches Ok(canvas) ==> {
            &&& canvas.width_bits == tree_extent(*tree).0
            &&& canvas.height_bits == tree_extent(*tree).1
            &&& canvas.zoom == zoom
            &&& is_positive_finite(canvas.width_bits)
            &&& is_positive_finite(canvas.height_bits)
            &&& fits(canvas.pixmap, canvas.width_bits, canvas.height_bits, zoom as int)
            &&& forall|i: int|
                0 <= i < pixmap_bytes(canvas.pixmap).len() ==> #[trigger] pixmap_bytes(
                    canvas.pixmap,
                )[i] == 0
        },
        r matches Err(fault) ==> fault == ParseFault::Unrenderable,
{
    let (width_bits, height_bits) = size_bits(tree);
    blank(width_bits, height_bits, zoom)
}

/// Takes back a buffer that was painted on. There is a drawing ready for
/// the screen if and only if the buffer still fits what it was made for,
/// and its bitmap then holds the buffer's bytes.
pub fn develop(canvas: Canvas) -> (r: Result<Document, ParseFault>)
    ensures
        r is Ok <==> fits(canvas.pixmap, canvas.width_bits, canvas.height_bits, canvas.zoom as int),
        r matches Ok(document) ==> {
            &&& depicts(document, canvas.width_bits, canvas.height_bits, canvas.zoom as int)
            &&& document.raster@.rgba == pixmap_bytes(canvas.pixmap)
        },
        r matches Err(fault) ==> fault == ParseFault::Unrenderable,
{
    let width: u32 = pixels_from_bits(canvas.width_bits, canvas.zoom);
    let height: u32 = pixels_from_bits(canvas.height_bits, canvas.zoom);
    if pixmap_width(&canvas.pixmap) != width || pixmap_height(&canvas.pixmap) != height {
        return Err(ParseFault::Unrenderable);
    }
    let size = Vec2 {
        x: micros_from_bits(canvas.width_bits),
        y: micros_from_bits(canvas.height_bits),
    };
    let rgba = take_bytes(canvas.pixmap);
    match Raster::new(width, height, rgba) {
        Some(raster) => Ok(Document { size, raster }),
        None => Err(ParseFault::Unrenderable),
    }
}

} // verus!
