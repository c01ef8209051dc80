//! The pan and zoom state of the canvas.

use vstd::prelude::*;
use vstd::string::*;
use crate::fixed::{clip, saturate, Rect, Vec2, UNIT};

verus! {

/// Smallest zoom factor: one tenth.
pub const MIN_SCALE: i64 = 100_000;

/// Largest zoom factor: eight.
pub const MAX_SCALE: i64 = 8_000_000;

/// Largest extent of a drawing that the view keeps. A larger one is cut to
/// this, so that the extent at the largest zoom still fits 64 bits.
pub const MAX_EXTENT: i64 = 1_000_000_000_000_000_000;

/// Width of the panel at the side of the canvas that centring leaves free.
pub const SIDE_PANEL_WIDTH: i64 = 290_000_000;

/// Zoom change per unit of scroll: seven thousandths.
pub const ZOOM_SPEED: i64 = 7_000;

/// `requested` brought into the range of zoom factors.
pub open spec fn clamp_scale(requested: int) -> int {
    if requested < MIN_SCALE {
        MIN_SCALE as int
    } else if requested > MAX_SCALE {
        MAX_SCALE as int
    } else {
        requested
    }
}

/// `extent` brought into the range of extents that a drawing may have.
pub open spec fn clamp_extent(extent: int) -> int {
    if extent < 0 {
        0
    } else if extent > MAX_EXTENT {
        MAX_EXTENT as int
    } else {
        extent
    }
}

/// The extent on screen of `extent` at zoom factor `scale`, rounded down.
pub open spec fn scaled(extent: int, scale: int) -> int {
    extent * scale / (UNIT as int)
}

/// The zoom factor `scale * (1 + delta * speed)`, rounded down once at the
/// end and not yet brought into range.
pub open spec fn zoom_target(scale: int, delta: int, speed: int) -> int {
    scale * (UNIT * UNIT + delta * speed) / (UNIT * UNIT)
}

/// The coordinate at which an image of the given extent starts when it is
/// centred on `center` together with `reserved` space beside it.
pub open spec fn centered(center: int, extent: int, reserved: int) -> int {
    clip(center - (extent + reserved) / 2)
}

/// What a [`ViewState`] holds, as mathematics.
pub struct ViewModel {
    /// Zoom factor.
    pub scale: int,
    /// Displacement of the image from the canvas origin.
    pub offset: Vec2,
    /// Natural extent of the drawing.
    pub original_size: Vec2,
    /// Extent of the image on screen.
    pub display_size: Vec2,
}

impl ViewModel {
    /// The invariant of the view: the zoom factor is in range, the drawing's
    /// extent is in range, and the extent on screen is the drawing's extent
    /// times the zoom factor.
    pub open spec fn wf(self) -> bool {
        &&& MIN_SCALE <= self.scale <= MAX_SCALE
        &&& 0 <= self.original_size.x <= MAX_EXTENT
        &&& 0 <= self.original_size.y <= MAX_EXTENT
        &&& self.display_size.x == scaled(self.original_size.x as int, self.scale)
        &&& self.display_size.y == scaled(self.original_size.y as int, self.scale)
    }

    /// The view before any drawing is loaded: zoom factor one, nothing else.
    pub open spec fn initial() -> ViewModel {
        ViewModel {
            scale: UNIT as int,
            offset: Vec2 { x: 0, y: 0 },
            original_size: Vec2 { x: 0, y: 0 },
            display_size: Vec2 { x: 0, y: 0 },
        }
    }

    /// The view after the zoom factor `requested` was asked for.
    pub open spec fn with_scale(self, requested: int) -> ViewModel {
        let scale = clamp_scale(requested);
        ViewModel {
            scale,
            display_size: Vec2 {
                x: scaled(self.original_size.x as int, scale) as i64,
                y: scaled(self.original_size.y as int, scale) as i64,
            },
            ..self
        }
    }

    /// The view after scrolling by `delta` at `speed`.
    pub open spec fn scrolled(self, delta: int, speed: int) -> ViewModel {
        self.with_scale(zoom_target(self.scale, delta, speed))
    }

    /// The view after the image was dragged by `delta`.
    pub open spec fn dragged(self, delta: Vec2) -> ViewModel {
        ViewModel { offset: self.offset.plus(delta), ..self }
    }

    /// The view after a drawing of extent `size` took the place of the one
    /// before.
    pub open spec fn with_document(self, size: Vec2) -> ViewModel {
        let original_size = Vec2 {
            x: clamp_extent(size.x as int) as i64,
            y: clamp_extent(size.y as int) as i64,
        };
        ViewModel {
            original_size,
            display_size: Vec2 {
                x: scaled(original_size.x as int, self.scale) as i64,
                y: scaled(original_size.y as int, self.scale) as i64,
            },
            ..self
        }
    }

    /// The displacement that centres the image in a canvas whose centre is
    /// `center`, with the side panel's width left free.
    pub open spec fn centering_offset(self, center: Vec2) -> Vec2 {
        Vec2 {
            x: centered(center.x as int, self.display_size.x as int, SIDE_PANEL_WIDTH as int) as i64,
            y: centered(center.y as int, self.display_size.y as int, 0) as i64,
        }
    }

    /// The view after the image was laid out in a canvas whose centre is
    /// `center`: centred if its displacement was zero, unchanged if not.
    pub open spec fn laid_out(self, center: Vec2) -> ViewModel {
        if self.offset.is_zero() {
            ViewModel { offset: self.centering_offset(center), ..self }
        } else {
            self
        }
    }

    /// Where the image goes in a canvas whose top-left corner is `origin`.
    pub open spec fn placement(self, origin: Vec2) -> Rect {
        Rect { min: origin.plus(self.offset), size: self.display_size }
    }

    /// The zoom factor in hundredths, rounded to the nearest, a half up.
    pub open spec fn hundredths(self) -> int {
        (self.scale + 5_000) / 10_000
    }

    /// The line that tells the user the zoom factor, with two decimals.
    pub open spec fn scale_label(self) -> Seq<char> {
        let h = self.hundredths();
        "Scale: "@ + seq![digit(h / 100), '.', digit(h / 10 % 10), digit(h % 10), 'x']
    }
}

/// The character for a decimal digit.
pub open spec fn digit(d: int) -> char {
    if d == 0 {
        '0'
    } else if d == 1 {
        '1'
    } else if d == 2 {
        '2'
    } else if d == 3 {
        '3'
    } else if d == 4 {
        '4'
    } else if d == 5 {
        '5'
    } else if d == 6 {
        '6'
    } else if d == 7 {
        '7'
    } else if d == 8 {
        '8'
    } else {
        '9'
    }
}

/// The text of one decimal digit.
fn digit_text(d: i64) -> (r: &'static str)
    requires
        0 <= d <= 9,
    ensures
        r@ == seq![digit(d as int)],
{
    proof {
        reveal_strlit("0");
        reveal_strlit("1");
        reveal_strlit("2");
        reveal_strlit("3");
        reveal_strlit("4");
        reveal_strlit("5");
        reveal_strlit("6");
        reveal_strlit("7");
        reveal_strlit("8");
        reveal_strlit("9");
    }
    let r = if d == 0 {
        "0"
    } else if d == 1 {
        "1"
    } else if d == 2 {
        "2"
    } else if d == 3 {
        "3"
    } else if d == 4 {
        "4"
    } else if d == 5 {
        "5"
    } else if d == 6 {
        "6"
    } else if d == 7 {
        "7"
    } else if d == 8 {
        "8"
    } else {
        "9"
    };
    assert(r@ =~= seq![digit(d as int)]);
    r
}

/// Zoom factor, displacement and extents of the image shown in the canvas.
#[derive(Clone, Copy, Debug, PartialEq, Eq)]
pub struct ViewState {
    scale: i64,
    offset: Vec2,
    original_size: Vec2,
    display_size: Vec2,
}

impl View for ViewState {
    type V = ViewModel;

    closed spec fn view(&self) -> ViewModel {
        ViewModel {
            scale: self.scale as int,
            offset: self.offset,
            original_size: self.original_size,
            display_size: self.display_size,
        }
    }
}

/// `extent * scale / UNIT` for an extent and a zoom factor in range.
fn scale_extent(extent: i64, scale: i64) -> (r: i64)
    requires
        0 <= extent <= MAX_EXTENT,
        MIN_SCALE <= scale <= MAX_SCALE,
    ensures
        r == scaled(extent as int, scale as int),
        0 <= r <= 8_000_000_000_000_000_000,
{
    proof {
        lemma_scaled_in_range(extent as int, scale as int);
    }
    let product: u128 = (extent as u128) * (scale as u128);
    let unit: u128 = UNIT as u128;
    assert(unit == 1_000_000);
    let quotient: u128 = product / unit;
    quotient as i64
}

/// An extent in range, at a zoom factor in range, is not negative and fits
/// 64 bits with room to spare.
proof fn lemma_scaled_in_range(extent: int, scale: int)
    requires
        0 <= extent <= MAX_EXTENT,
        MIN_SCALE <= scale <= MAX_SCALE,
    ensures
        0 <= extent * scale <= 8_000_000_000_000_000_000_000_000,
        0 <= scaled(extent, scale) <= 8_000_000_000_000_000_000,
{
    assert(0 <= extent * scale <= 8_000_000_000_000_000_000_000_000) by (nonlinear_arith)
        requires
            0 <= extent <= 1_000_000_000_000_000_000,
            0 <= scale <= 8_000_000,
    ;
}

/// Whatever zoom factor is asked for, the one that results lies between
/// [`MIN_SCALE`] and [`MAX_SCALE`], and asking for it once more changes
/// nothing.
pub proof fn lemma_set_scale_idempotent(v: ViewModel, requested: int)
    ensures
        MIN_SCALE <= v.with_scale(requested).scale <= MAX_SCALE,
        v.with_scale(requested).with_scale(v.with_scale(requested).scale) == v.with_scale(
            requested,
        ),
{
}

/// After a zoom factor was asked for, the extent on screen is the drawing's
/// extent times the zoom factor that resulted, and the view is well formed.
pub proof fn lemma_set_scale_display_size(v: ViewModel, requested: int)
    requires
        v.wf(),
    ensures
        v.with_scale(requested).wf(),
        v.with_scale(requested).display_size.x == scaled(
            v.original_size.x as int,
            v.with_scale(requested).scale,
        ),
        v.with_scale(requested).display_size.y == scaled(
            v.original_size.y as int,
            v.with_scale(requested).scale,
        ),
{
    let scale = clamp_scale(requested);
    lemma_scaled_in_range(v.original_size.x as int, scale);
    lemma_scaled_in_range(v.original_size.y as int, scale);
}

/// A change of the zoom factor, asked for directly or by scrolling, leaves
/// the displacement of the image alone.
pub proof fn lemma_scale_keeps_offset(v: ViewModel, requested: int, delta: int, speed: int)
    ensures
        v.with_scale(requested).offset == v.offset,
        v.scrolled(delta, speed).offset == v.offset,
{
}

/// Laying out an image whose displacement is not zero changes nothing.
pub proof fn lemma_displaced_image_stays(v: ViewModel, center: Vec2)
    requires
        !v.offset.is_zero(),
    ensures
        v.laid_out(center) == v,
{
}

/// An image whose displacement is zero is centred by the first layout, and
/// if that leaves it with a displacement other than zero, no change of the
/// zoom factor and no later layout moves it again.
pub proof fn lemma_centering_once(
    v: ViewModel,
    first_center: Vec2,
    requested: int,
    later_center: Vec2,
)
    requires
        v.offset.is_zero(),
        !v.centering_offset(first_center).is_zero(),
    ensures
        v.laid_out(first_center).offset == v.centering_offset(first_center),
        v.laid_out(first_center).laid_out(later_center) == v.laid_out(first_center),
        v.laid_out(first_center).with_scale(requested).laid_out(later_center).offset
            == v.centering_offset(first_center),
{
}

/// `extent` cut to the range from zero to [`MAX_EXTENT`].
fn cut_extent(extent: i64) -> (r: i64)
    ensures
        r == clamp_extent(extent as int),
{
    if extent < 0 {
        0
    } else if extent > MAX_EXTENT {
        MAX_EXTENT
    } else {
        extent
    }
}

/// Where an image of extent `extent` starts when it is centred on `center`
/// together with `reserved` space beside it.
fn center_along(center: i64, extent: i64, reserved: i64) -> (r: i64)
    requires
        0 <= extent <= 8_000_000_000_000_000_000,
        0 <= reserved <= SIDE_PANEL_WIDTH,
    ensures
        r == centered(center as int, extent as int, reserved as int),
{
    let half: i64 = (extent + reserved) / 2;
    saturate(center as i128 - half as i128)
}

/// The zoom factor that scrolling by `delta` at `speed` asks for, cut to a
/// range wide enough that bringing it into the range of zoom factors gives
/// the same as for the exact value.
fn zoom(scale: i64, delta: i64, speed: i64) -> (r: i64)
    requires
        MIN_SCALE <= scale <= MAX_SCALE,
    ensures
        clamp_scale(r as int) == clamp_scale(zoom_target(scale as int, delta as int, speed as int)),
{
    assert(-0x4000_0000_0000_0000_0000_0000_0000_0000 <= delta * speed
        <= 0x4000_0000_0000_0000_0000_0000_0000_0000) by (nonlinear_arith)
        requires
            -0x8000_0000_0000_0000 <= delta <= 0x8000_0000_0000_0000,
            -0x8000_0000_0000_0000 <= speed <= 0x8000_0000_0000_0000,
    ;
    assert(UNIT == 1_000_000);
    let whole: i128 = 1_000_000_000_000;
    let factor: i128 = whole + (delta as i128) * (speed as i128);
    let ghost exact = zoom_target(scale as int, delta as int, speed as int);
    assert(exact == scale * factor / (whole as int));
    if factor <= 0 {
        assert(scale * factor <= 0) by (nonlinear_arith)
            requires
                scale >= 0,
                factor <= 0,
        ;
        0
    } else if factor >= 81 * whole {
        assert(scale * factor >= 100_000 * 81_000_000_000_000) by (nonlinear_arith)
            requires
                scale >= 100_000,
                factor >= 81_000_000_000_000,
        ;
        MAX_SCALE
    } else {
        assert(0 <= scale * factor <= 8_000_000 * 81_000_000_000_000) by (nonlinear_arith)
            requires
                0 <= scale <= 8_000_000,
                0 <= factor <= 81_000_000_000_000,
        ;
        let product: u128 = (scale as u128) * (factor as u128);
        let quotient: u128 = product / (whole as u128);
        quotient as i64
    }
}

impl ViewState {
    #[verifier::type_invariant]
    spec fn inv(self) -> bool {
        self@.wf()
    }

    /// A view at zoom factor one with no drawing and no displacement.
    pub fn new() -> (r: ViewState)
        ensures
            r@ == ViewModel::initial(),
            r@.wf(),
    {
        ViewState {
            scale: UNIT,
            offset: Vec2::zero(),
            original_size: Vec2::zero(),
            display_size: Vec2::zero(),
        }
    }

    /// The zoom factor. As every view is well formed, this also tells a
    /// caller so.
    pub fn scale(&self) -> (r: i64)
        ensures
            r == self@.scale,
            MIN_SCALE <= r <= MAX_SCALE,
            self@.wf(),
    {
        proof {
            use_type_invariant(self);
        }
        self.scale
    }

    pub fn offset(&self) -> (r: Vec2)
        ensures
            r == self@.offset,
    {
        self.offset
    }

    pub fn original_size(&self) -> (r: Vec2)
        ensures
            r == self@.original_size,
    {
        self.original_size
    }

    pub fn display_size(&self) -> (r: Vec2)
        ensures
            r == self@.display_size,
    {
        self.display_size
    }

    /// Replaces the zoom factor by `requested` brought into range, and the
    /// extent on screen with it.
    pub fn set_scale(&mut self, requested: i64)
        ensures
            final(self)@ == old(self)@.with_scale(requested as int),
            final(self)@.scale == clamp_scale(requested as int),
            final(self)@.offset == old(self)@.offset,
            final(self)@.original_size == old(self)@.original_size,
            final(self)@.wf(),
    {
        proof {
            use_type_invariant(&*self);
        }
        let scale: i64 = if requested < MIN_SCALE {
            MIN_SCALE
        } else if requested > MAX_SCALE {
            MAX_SCALE
        } else {
            requested
        };
        let display_size = Vec2 {
            x: scale_extent(self.original_size.x, scale),
            y: scale_extent(self.original_size.y, scale),
        };
        *self = ViewState { scale, display_size, ..*self };
    }

    /// Zooms by the factor `1 + delta * speed`: scrolling by `delta` at
    /// `speed`, both in millionths.
    pub fn apply_scroll(&mut self, delta: i64, speed: i64)
        ensures
            final(self)@ == old(self)@.scrolled(delta as int, speed as int),
            final(self)@.wf(),
    {
        proof {
            use_type_invariant(&*self);
        }
        let target: i64 = zoom(self.scale, delta, speed);
        self.set_scale(target);
    }

    /// Moves the image by `delta`. Nothing keeps it inside the canvas.
    pub fn apply_drag(&mut self, delta: Vec2)
        ensures
            final(self)@ == old(self)@.dragged(delta),
            final(self)@.wf(),
    {
        proof {
            use_type_invariant(&*self);
        }
        *self = ViewState { offset: self.offset.translated(delta), ..*self };
    }

    /// Takes `size` as the extent of the drawing, each component cut to the
    /// range from zero to [`MAX_EXTENT`]. Zoom and displacement stay.
    pub fn set_original_size(&mut self, size: Vec2)
        ensures
            final(self)@ == old(self)@.with_document(size),
            final(self)@.wf(),
    {
        proof {
            use_type_invariant(&*self);
        }
        let original_size = Vec2 { x: cut_extent(size.x), y: cut_extent(size.y) };
        let display_size = Vec2 {
            x: scale_extent(original_size.x, self.scale),
            y: scale_extent(original_size.y, self.scale),
        };
        *self = ViewState { original_size, display_size, ..*self };
    }

    /// Lays the image out in a canvas whose centre is `center`. An image
    /// whose displacement is zero is centred, with the side panel's width
    /// left free; any other displacement stays as it is.
    pub fn lay_out(&mut self, center: Vec2)
        ensures
            final(self)@ == old(self)@.laid_out(center),
            final(self)@.wf(),
    {
        proof {
            use_type_invariant(&*self);
        }
        if self.offset.x == 0 && self.offset.y == 0 {
            proof {
                lemma_scaled_in_range(self.original_size.x as int, self.scale as int);
                lemma_scaled_in_range(self.original_size.y as int, self.scale as int);
            }
            let offset = Vec2 {
                x: center_along(center.x, self.display_size.x, SIDE_PANEL_WIDTH),
                y: center_along(center.y, self.display_size.y, 0),
            };
            *self = ViewState { offset, ..*self };
        }
    }

    /// The line that tells the user the zoom factor: `Scale: `, the factor
    /// with two decimals, and an `x`.
    pub fn scale_label(&self) -> (r: String)
        ensures
            r@ == self@.scale_label(),
    {
        proof {
            use_type_invariant(self);
            reveal_strlit(".");
            reveal_strlit("x");
        }
        let h: i64 = (self.scale + 5_000) / 10_000;
        let mut label = String::from_str("Scale: ");
        label.append(digit_text(h / 100));
        label.append(".");
        label.append(digit_text(h / 10 % 10));
        label.append(digit_text(h % 10));
        label.append("x");
        assert(label@ =~= self@.scale_label());
        label
    }

    /// The rectangle that the image takes in a canvas whose top-left corner
    /// is `canvas_origin`.
    pub fn placement_rect(&self, canvas_origin: Vec2) -> (r: Rect)
        ensures
            r == self@.placement(canvas_origin),
    {
        Rect { min: canvas_origin.translated(self.offset), size: self.display_size }
    }
}

} // verus!
