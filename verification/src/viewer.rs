//! The viewer's state: the bytes of the drawing, its bitmap, and the view
//! onto it; and what loading, a frame and the pointer do to that state.

use vstd::prelude::*;
use vstd::string::*;
use crate::fixed::{Rect, Vec2};
use crate::raster::{Document, Raster, RasterModel};
use crate::svg::ParseFault;
use crate::viewport::{ViewModel, ViewState, ZOOM_SPEED};

verus! {

/// How many times a drawing is enlarged when its bitmap is made.
pub const RASTER_RESOLUTION: u16 = 8;

/// Why no drawing is shown.
#[derive(Debug, PartialEq, Eq)]
pub enum LoadError {
    /// The file could not be read.
    Read,
    /// What was read is not a drawing that can be shown.
    Parse(ParseFault),
}

impl LoadError {
    /// The line to show to the user.
    pub open spec fn text(self) -> Seq<char> {
        match self {
            LoadError::Read => "Failed to read SVG file"@,
            LoadError::Parse(fault) => "Failed to load SVG: "@ + fault.text(),
        }
    }

    /// The line to show to the user.
    pub fn message(&self) -> (r: String)
        ensures
            r@ == self.text(),
    {
        match self {
            LoadError::Read => String::from_str("Failed to read SVG file"),
            LoadError::Parse(fault) => {
                let detail = fault.message();
                String::from_str("Failed to load SVG: ").concat(detail.as_str())
            },
        }
    }
}

/// What the pointer did over the canvas during one frame.
#[derive(Clone, Copy, Debug, PartialEq, Eq)]
pub struct PointerInput {
    /// Whether the pointer is over the canvas.
    pub canvas_hovered: bool,
    /// Whether the pointer is over the image.
    pub image_hovered: bool,
    /// How far the wheel was turned, in millionths.
    pub scroll: i64,
    /// How far the canvas was dragged, if it was.
    pub canvas_drag: Option<Vec2>,
    /// How far the image was dragged, if it was.
    pub image_drag: Option<Vec2>,
}

/// What a [`CamApp`] holds, as mathematics.
pub struct AppModel {
    pub view: ViewModel,
    pub raster_resolution: int,
    pub raster: Option<RasterModel>,
    pub svg_data: Seq<u8>,
}

impl AppModel {
    /// The state that the viewer starts in.
    pub open spec fn initial() -> AppModel {
        AppModel {
            view: ViewModel::initial(),
            raster_resolution: RASTER_RESOLUTION as int,
            raster: None,
            svg_data: Seq::empty(),
        }
    }

    /// The state with a drawing of extent `size` shown as the bitmap
    /// `raster`. Zoom and displacement stay.
    pub open spec fn showing(self, size: Vec2, raster: RasterModel) -> AppModel {
        AppModel { view: self.view.with_document(size), raster: Some(raster), ..self }
    }

    /// The state with nothing shown. Zoom and displacement stay.
    pub open spec fn cleared(self) -> AppModel {
        AppModel { view: self.view.with_document(Vec2 { x: 0, y: 0 }), raster: None, ..self }
    }

    /// The state after a frame was laid out: nothing changes while nothing
    /// is shown; an image is centred if its displacement was zero.
    pub open spec fn laid_out(self, canvas_center: Vec2) -> AppModel {
        if self.raster is Some {
            AppModel { view: self.view.laid_out(canvas_center), ..self }
        } else {
            self
        }
    }

    /// The view after the pointer's doings of one frame: first the wheel,
    /// if the pointer is over the canvas or over the image and the wheel
    /// was turned, then the drag of the canvas, then the drag of the image.
    pub open spec fn pointed_view(view: ViewModel, input: PointerInput) -> ViewModel {
        let zoomed = if (input.canvas_hovered || input.image_hovered) && input.scroll != 0 {
            view.scrolled(input.scroll as int, ZOOM_SPEED as int)
        } else {
            view
        };
        let dragged = match input.canvas_drag {
            Some(delta) => zoomed.dragged(delta),
            None => zoomed,
        };
        match input.image_drag {
            Some(delta) => dragged.dragged(delta),
            None => dragged,
        }
    }

    /// The state after the pointer's doings of one frame. Nothing changes
    /// while nothing is shown.
    pub open spec fn pointed(self, input: PointerInput) -> AppModel {
        if self.raster is Some {
            AppModel { view: Self::pointed_view(self.view, input), ..self }
        } else {
            self
        }
    }
}

/// The viewer's state.
#[derive(Debug)]
pub struct CamApp {
    view: ViewState,
    raster_resolution: u16,
    raster: Option<Raster>,
    svg_data: Vec<u8>,
}

impl View for CamApp {
    type V = AppModel;

    closed spec fn view(&self) -> AppModel {
        AppModel {
            view: self.view@,
            raster_resolution: self.raster_resolution as int,
            raster: match self.raster {
                Some(raster) => Some(raster@),
                None => None,
            },
            svg_data: self.svg_data@,
        }
    }
}

impl Default for CamApp {
    fn default() -> (r: CamApp)
        ensures
            r@ == AppModel::initial(),
    {
        CamApp::new()
    }
}

impl CamApp {
    /// The state that the viewer starts in: zoom factor one, no drawing.
    pub fn new() -> (r: CamApp)
        ensures
            r@ == AppModel::initial(),
    {
        CamApp {
            view: ViewState::new(),
            raster_resolution: RASTER_RESOLUTION,
            raster: None,
            svg_data: Vec::new(),
        }
    }

    pub fn view_state(&self) -> (r: &ViewState)
        ensures
            r@ == self@.view,
            r@.wf(),
    {
        let r = &self.view;
        r.scale();
        r
    }

    /// The bitmap that is shown, if any.
    pub fn raster(&self) -> (r: Option<&Raster>)
        ensures
            r is Some <==> self@.raster is Some,
            r matches Some(raster) ==> Some(raster@) == self@.raster && raster@.wf(),
    {
        match &self.raster {
            Some(raster) => {
                raster.width();
                Some(raster)
            },
            None => None,
        }
    }

    /// The bytes of the drawing as they were read.
    pub fn svg_data(&self) -> (r: &Vec<u8>)
        ensures
            r@ == self@.svg_data,
    {
        &self.svg_data
    }

    pub fn raster_resolution(&self) -> (r: u16)
        ensures
            r == self@.raster_resolution,
    {
        self.raster_resolution
    }

    /// Replaces the zoom factor by `scale` brought into range.
    pub fn set_scale(&mut self, scale: i64)
        ensures
            final(self)@ == (AppModel { view: old(self)@.view.with_scale(scale as int), ..old(self)@ }),
            final(self)@.view.wf(),
    {
        self.view.set_scale(scale);
    }

    /// Lays out one frame in a canvas with the given centre and top-left
    /// corner, and says where the image goes, if one is shown.
    pub fn lay_out(&mut self, canvas_center: Vec2, canvas_origin: Vec2) -> (r: Option<Rect>)
        ensures
            final(self)@ == old(self)@.laid_out(canvas_center),
            r == match old(self)@.raster {
                Some(_) => Some(final(self)@.view.placement(canvas_origin)),
                None => None,
            },
    {
        if self.raster.is_some() {
            self.view.lay_out(canvas_center);
            Some(self.view.placement_rect(canvas_origin))
        } else {
            None
        }
    }

    /// Takes in what the pointer did during one frame.
    pub fn pointer(&mut self, input: PointerInput)
        ensures
            final(self)@ == old(self)@.pointed(input),
    {
        if self.raster.is_some() {
            if (input.canvas_hovered || input.image_hovered) && input.scroll != 0 {
                self.view.apply_scroll(input.scroll, ZOOM_SPEED);
            }
            match input.canvas_drag {
                Some(delta) => self.view.apply_drag(delta),
                None => {},
            }
            match input.image_drag {
                Some(delta) => self.view.apply_drag(delta),
                None => {},
            }
        }
    }

    /// Whether the viewer holds bytes of a drawing. Where it holds none
    /// there is nothing to parse and nothing to paint.
    pub fn has_svg_data(&self) -> (r: bool)
        ensures
            r == (self@.svg_data.len() > 0),
    {
        self.svg_data.len() > 0
    }

    /// Takes in what reading a file gave. A file that could not be read, and
    /// one that holds nothing, leave the viewer with no bytes and nothing
    /// shown. Bytes that were read take the place of those before; what is
    /// shown stays until [`CamApp::load_svg_texture`] is told what became of
    /// them.
    pub fn load_svg_data(&mut self, read: Option<Vec<u8>>) -> (r: Result<(), LoadError>)
        ensures
            match read {
                Some(bytes) => if bytes@.len() > 0 {
                    r is Ok && final(self)@ == (AppModel { svg_data: bytes@, ..old(self)@ })
                } else {
                    r == Err::<(), LoadError>(LoadError::Parse(ParseFault::Empty)) && final(self)@
                        == (AppModel { svg_data: Seq::empty(), ..old(self)@.cleared() })
                },
                None => r == Err::<(), LoadError>(LoadError::Read) && final(self)@ == (AppModel {
                    svg_data: Seq::empty(),
                    ..old(self)@.cleared()
                }),
            },
    {
        match read {
            None => {
                self.clear();
                Err(LoadError::Read)
            },
            Some(bytes) => {
                if bytes.len() == 0 {
                    self.clear();
                    Err(LoadError::Parse(ParseFault::Empty))
                } else {
                    self.svg_data = bytes;
                    Ok(())
                }
            },
        }
    }

    /// Leaves the viewer with no bytes and nothing shown.
    fn clear(&mut self)
        ensures
            final(self)@ == (AppModel { svg_data: Seq::empty(), ..old(self)@.cleared() }),
    {
        self.svg_data = Vec::new();
        self.view.set_original_size(Vec2::zero());
        self.raster = None;
    }

    /// Takes in what became of the bytes that the viewer holds: shows the
    /// drawing that was made ready, or shows nothing and says why the bytes
    /// are no drawing that can be shown. A viewer that holds no bytes has
    /// nothing to load: nothing changes, whatever `outcome` is.
    pub fn load_svg_texture(&mut self, outcome: Result<Document, ParseFault>) -> (r: Result<
        (),
        LoadError,
    >)
        ensures
            old(self)@.svg_data.len() == 0 ==> r is Ok && final(self)@ == old(self)@,
            old(self)@.svg_data.len() > 0 ==> match outcome {
                Ok(document) => r is Ok && final(self)@ == old(self)@.showing(
                    document.size,
                    document.raster@,
                ),
                Err(fault) => r == Err::<(), LoadError>(LoadError::Parse(fault)) && final(self)@
                    == old(self)@.cleared(),
            },
    {
        if !self.has_svg_data() {
            return Ok(());
        }
        match outcome {
            Ok(document) => {
                self.view.set_original_size(document.size);
                self.raster = Some(document.raster);
                Ok(())
            },
            Err(fault) => {
                self.view.set_original_size(Vec2::zero());
                self.raster = None;
                Err(LoadError::Parse(fault))
            },
        }
    }

    /// Takes in what became of the bytes that the viewer holds, as
    /// [`CamApp::load_svg_texture`] does, and gives the line to show to the
    /// user if they are no drawing that can be shown.
    pub fn update_texture(&mut self, outcome: Result<Document, ParseFault>) -> (r: Option<String>)
        ensures
            old(self)@.svg_data.len() == 0 ==> r is None && final(self)@ == old(self)@,
            old(self)@.svg_data.len() > 0 ==> match outcome {
                Ok(document) => r is None && final(self)@ == old(self)@.showing(
                    document.size,
                    document.raster@,
                ),
                Err(fault) => r is Some && r->Some_0@ == LoadError::Parse(fault).text()
                    && final(self)@ == old(self)@.cleared(),
            },
    {
        match self.load_svg_texture(outcome) {
            Ok(_) => None,
            Err(error) => Some(error.message()),
        }
    }
}

} // verus!
