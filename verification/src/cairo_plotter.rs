//! A page made ready for a canvas: its size, its scale and the operations
//! that draw it.

use vstd::prelude::*;
use vstd::string::*;
use crate::bounds::{
    near, page_bounds, page_outline, text_extents_wf, Bounds, Extent, PAGE_LIMIT,
};
use crate::color::{hex_color, rgba_color};
use crate::draw::{draw_page, page_ops, DrawOp};
use crate::error::{Error, ErrorView};
use crate::items::{
    all_drawable, all_measurable, item_views, PlotItem, PlotItemView, Text, TextView,
};
use crate::transform::pt;
use crate::units::{ONE, Point};

verus! {

/// Width of a sheet of A4 paper, lying.
pub const A4_WIDTH: i64 = 2_970_000;

/// Height of a sheet of A4 paper, lying.
pub const A4_HEIGHT: i64 = 2_100_000;

/// The free space around a page that is fitted to its content.
pub const MARGIN: i64 = 25_400;

/// Units of a text layout in one unit of font size.
pub const LAYOUT_SCALE: i64 = 1_024;

/// The formats a page can be asked for.
#[derive(Clone, Copy, Debug, PartialEq, Eq, Structural)]
pub enum ImageType {
    Svg,
    Png,
    Pdf,
}

/// The format that `name` stands for.
pub open spec fn image_type_of(name: Seq<char>) -> Option<ImageType> {
    if name == "pdf"@ {
        Some(ImageType::Pdf)
    } else if name == "png"@ {
        Some(ImageType::Png)
    } else if name == "svg"@ {
        Some(ImageType::Svg)
    } else {
        None
    }
}

/// Whether `s` ends with `suffix`.
pub open spec fn ends_with(s: Seq<char>, suffix: Seq<char>) -> bool {
    s.len() >= suffix.len() && s.subrange(s.len() - suffix.len(), s.len() as int) == suffix
}

/// The format of the file `filename`, by its ending: a vector image for
/// `.svg`, a raster image for `.png`, a document for anything else.
pub open spec fn image_type_of_file(filename: Seq<char>) -> ImageType {
    if ends_with(filename, ".svg"@) {
        ImageType::Svg
    } else if ends_with(filename, ".png"@) {
        ImageType::Png
    } else {
        ImageType::Pdf
    }
}

/// Whether `s` ends with `suffix`.
fn has_ending(s: &str, suffix: &str) -> (res: bool)
    ensures
        res == ends_with(s@, suffix@),
{
    let n = s.unicode_len();
    let m = suffix.unicode_len();
    if n < m {
        return false;
    }
    let tail = s.substring_char(n - m, n);
    String::from_str(tail) == String::from_str(suffix)
}

impl ImageType {
    /// The format named `name`: one of `pdf`, `png` and `svg`. Any other
    /// name is an [`Error::UnknownImageType`] with that name.
    pub fn from_name(name: &str) -> (res: Result<ImageType, Error>)
        ensures
            match image_type_of(name@) {
                Some(t) => res == Ok::<ImageType, Error>(t),
                None => res is Err && res->Err_0@ == ErrorView::UnknownImageType(name@),
            },
    {
        let wanted = String::from_str(name);
        if wanted == String::from_str("pdf") {
            Ok(ImageType::Pdf)
        } else if wanted == String::from_str("png") {
            Ok(ImageType::Png)
        } else if wanted == String::from_str("svg") {
            Ok(ImageType::Svg)
        } else {
            Err(Error::UnknownImageType(wanted))
        }
    }

    /// The format named `name`, and a vector image where no name is given.
    pub fn from_option(name: Option<&str>) -> (res: Result<ImageType, Error>)
        ensures
            match name {
                None => res == Ok::<ImageType, Error>(ImageType::Svg),
                Some(n) => match image_type_of(n@) {
                    Some(t) => res == Ok::<ImageType, Error>(t),
                    None => res is Err && res->Err_0@ == ErrorView::UnknownImageType(n@),
                },
            },
    {
        match name {
            Some(n) => ImageType::from_name(n),
            None => Ok(ImageType::Svg),
        }
    }

    /// The format of the file `filename`, by its ending.
    pub fn from_filename(filename: &str) -> (res: ImageType)
        ensures
            res == image_type_of_file(filename@),
    {
        if has_ending(filename, ".svg") {
            ImageType::Svg
        } else if has_ending(filename, ".png") {
            ImageType::Png
        } else {
            ImageType::Pdf
        }
    }
}

/// How many device units make how many tenths of a drawing unit.
#[derive(Clone, Copy, Debug, PartialEq, Eq, Structural)]
pub struct Ratio {
    pub device: i32,
    pub tenths: i32,
}

/// The canvas that is written out, on paper or fitted to its content, has
/// 96 device units in 25.4 drawing units.
pub open spec fn output_ratio() -> Ratio {
    Ratio { device: 96, tenths: 254 }
}

/// The canvas that texts are measured on, which is never scaled and never
/// written out, has 72 device units in 25.4 drawing units.
pub open spec fn measure_ratio() -> Ratio {
    Ratio { device: 72, tenths: 254 }
}

/// A length of `counts` in whole device units: `counts` times the ratio,
/// what is left of a device unit dropped; lengths that are not positive are
/// zero device units, and a length beyond the greatest number of device
/// units is that number.
pub open spec fn device_units(counts: int, ratio: Ratio) -> int {
    if counts <= 0 || ratio.device <= 0 || ratio.tenths <= 0 {
        0
    } else if (counts * (10 * ratio.device)) / (ratio.tenths * ONE) > i32::MAX {
        i32::MAX as int
    } else {
        (counts * (10 * ratio.device)) / (ratio.tenths * ONE)
    }
}

/// A length of `counts` in whole device units.
pub fn device_size(counts: i64, ratio: Ratio) -> (units: i32)
    ensures
        units == device_units(counts as int, ratio),
{
    if counts <= 0 || ratio.device <= 0 || ratio.tenths <= 0 {
        return 0;
    }
    assert(0 < counts * (10 * ratio.device) <= 0x7fff_ffff_ffff_ffff * (10 * 0x7fff_ffff))
        by (nonlinear_arith)
        requires
            0 < counts <= 0x7fff_ffff_ffff_ffff,
            0 < ratio.device <= 0x7fff_ffff,
    ;
    let num: i128 = (counts as i128) * (10 * (ratio.device as i128));
    let den: i128 = (ratio.tenths as i128) * (ONE as i128);
    let q: i128 = num / den;
    assert(0 <= q) by (nonlinear_arith)
        requires
            q == num / den,
            0 < num,
            0 < den,
    ;
    if q > i32::MAX as i128 {
        i32::MAX
    } else {
        q as i32
    }
}

/// The greatest scale factor, in counts, that a canvas size is worked out
/// for.
pub const SCALE_LIMIT: i64 = 0x100_0000_0000;

/// The greatest side of a page that a canvas size is worked out for: no
/// page fitted to primitives that can be measured is larger.
pub const SIDE_LIMIT: i64 = 0x800_0000_0000;

/// A length of `counts` on the canvas, in counts of device units, at the
/// ratio `ratio` and the scale factor `scale`, which counts [`ONE`]-ths: the
/// length times the ratio times the scale factor, what is left of a count
/// dropped. A length, ratio or scale factor that is not positive gives
/// zero, and a length beyond the 64-bit numbers the greatest of them.
pub open spec fn canvas_counts(counts: int, ratio: Ratio, scale: int) -> int {
    if counts <= 0 || ratio.device <= 0 || ratio.tenths <= 0 || scale <= 0 {
        0
    } else if (counts * (10 * ratio.device) * scale) / (ratio.tenths * ONE) > i64::MAX {
        i64::MAX as int
    } else {
        (counts * (10 * ratio.device) * scale) / (ratio.tenths * ONE)
    }
}

/// A length of `counts` on the canvas, in counts of device units.
pub fn canvas_length(counts: i64, ratio: Ratio, scale: i64) -> (length: i64)
    requires
        counts <= SIDE_LIMIT,
        scale <= SCALE_LIMIT,
    ensures
        length == canvas_counts(counts as int, ratio, scale as int),
{
    if counts <= 0 || ratio.device <= 0 || ratio.tenths <= 0 || scale <= 0 {
        return 0;
    }
    assert(0 < counts * (10 * ratio.device) <= 0x800_0000_0000 * (10 * 0x7fff_ffff)) by (nonlinear_arith)
        requires
            0 < counts <= 0x800_0000_0000,
            0 < ratio.device <= 0x7fff_ffff,
    ;
    let base: i128 = (counts as i128) * (10 * (ratio.device as i128));
    assert(0 < base * scale <= (0x800_0000_0000 * (10 * 0x7fff_ffff)) * 0x100_0000_0000)
        by (nonlinear_arith)
        requires
            0 < base <= 0x800_0000_0000 * (10 * 0x7fff_ffff),
            0 < scale <= 0x100_0000_0000,
    ;
    let num: i128 = base * (scale as i128);
    let den: i128 = (ratio.tenths as i128) * (ONE as i128);
    let q: i128 = num / den;
    assert(0 <= q) by (nonlinear_arith)
        requires
            q == num / den,
            0 < num,
            0 < den,
    ;
    if q > i64::MAX as i128 {
        i64::MAX
    } else {
        q as i64
    }
}

/// A page made ready for a canvas.
#[derive(Debug, PartialEq, Eq)]
pub struct Page {
    /// Width of the page, in counts.
    pub width: i64,
    /// Height of the page, in counts.
    pub height: i64,
    /// Device units of the canvas by drawing unit.
    pub ratio: Ratio,
    /// Whether the scale factor the caller asks for applies on top of the
    /// ratio.
    pub scaled: bool,
    /// The point of the page that comes to stand in the corner of the
    /// canvas.
    pub origin: Point,
    /// What draws the page.
    pub ops: Vec<DrawOp>,
}

/// The mathematical content of a [`Page`].
pub struct PageLayout {
    pub width: i64,
    pub height: i64,
    pub ratio: Ratio,
    pub scaled: bool,
    pub origin: Point,
    pub ops: Seq<DrawOp>,
}

impl View for Page {
    type V = PageLayout;

    open spec fn view(&self) -> PageLayout {
        PageLayout {
            width: self.width,
            height: self.height,
            ratio: self.ratio,
            scaled: self.scaled,
            origin: self.origin,
            ops: self.ops@,
        }
    }
}

impl PageLayout {
    /// The size of the canvas for a caller who asks for the scale factor
    /// `scale`, in counts of device units, width first: the size of the page
    /// at its ratio, and scaled where the scale factor applies to the page.
    pub open spec fn canvas_size(self, scale: int) -> (int, int) {
        let factor = if self.scaled {
            scale
        } else {
            ONE as int
        };
        (
            canvas_counts(self.width as int, self.ratio, factor),
            canvas_counts(self.height as int, self.ratio, factor),
        )
    }
}

impl Page {
    /// The size of the canvas for a caller who asks for the scale factor
    /// `scale`, which counts [`ONE`]-ths.
    pub fn canvas_size(&self, scale: i64) -> (size: (i64, i64))
        requires
            self.width <= SIDE_LIMIT,
            self.height <= SIDE_LIMIT,
            scale <= SCALE_LIMIT,
        ensures
            size.0 == self@.canvas_size(scale as int).0,
            size.1 == self@.canvas_size(scale as int).1,
    {
        let factor: i64 = if self.scaled {
            scale
        } else {
            ONE
        };
        (canvas_length(self.width, self.ratio, factor), canvas_length(self.height, self.ratio, factor))
    }
}

/// The rectangle `b` with the margin added on every side.
pub open spec fn with_margin(b: Bounds) -> Bounds {
    Bounds { min: pt(b.min.x - MARGIN, b.min.y - MARGIN), max: pt(b.max.x + MARGIN, b.max.y + MARGIN) }
}

/// A page of the fixed size `paper`: it is drawn from its corner at the
/// output ratio, and the scale factor does not apply.
pub open spec fn fixed_page(paper: (i64, i64), ops: Seq<DrawOp>) -> PageLayout {
    PageLayout {
        width: paper.0,
        height: paper.1,
        ratio: output_ratio(),
        scaled: false,
        origin: pt(0, 0),
        ops,
    }
}

/// A page fitted to its content: as large as the bounds of its primitives
/// and a margin on every side, drawn from the corner of that rectangle at
/// the output ratio times the scale factor.
pub open spec fn fitted_page(bounds: Bounds, ops: Seq<DrawOp>) -> PageLayout {
    let frame = with_margin(bounds);
    PageLayout {
        width: (frame.max.x - frame.min.x) as i64,
        height: (frame.max.y - frame.min.y) as i64,
        ratio: output_ratio(),
        scaled: true,
        origin: frame.min,
        ops,
    }
}

/// What plotting a page gives. A document is refused as an unknown image
/// type named `pdf`. With a border the page has the size of the paper,
/// without it is fitted to the bounds of its primitives, which are taken
/// with the text sizes `text_sizes`; the page is drawn with the text sizes
/// `layout_sizes`.
pub open spec fn plotted(
    items: Seq<PlotItemView>,
    paper: (i64, i64),
    border: bool,
    image_type: ImageType,
    text_sizes: Seq<Extent>,
    layout_sizes: Seq<Extent>,
) -> Result<PageLayout, ErrorView> {
    if image_type == ImageType::Pdf {
        Err(ErrorView::UnknownImageType("pdf"@))
    } else if border {
        Ok(fixed_page(paper, page_ops(items, layout_sizes)))
    } else {
        Ok(fitted_page(page_bounds(items, text_sizes), page_ops(items, layout_sizes)))
    }
}

/// What the text layout of a canvas is asked to shape.
#[derive(Debug, PartialEq, Eq)]
pub struct TextRun {
    /// The font family.
    pub face: String,
    /// The colour, as `#RRGGBBAA`.
    pub foreground: String,
    /// The font size in units of the layout.
    pub size: i32,
    /// The text itself.
    pub text: String,
}

/// The mathematical content of a [`TextRun`].
pub struct TextRunView {
    pub face: Seq<char>,
    pub foreground: Seq<char>,
    pub size: i32,
    pub text: Seq<char>,
}

impl View for TextRun {
    type V = TextRunView;

    open spec fn view(&self) -> TextRunView {
        TextRunView { face: self.face@, foreground: self.foreground@, size: self.size, text: self.text@ }
    }
}

/// A font size in units of the layout: the size times the scale of the
/// layout, what is left of a unit dropped, kept within the 32-bit numbers.
pub open spec fn layout_size(fontsize: int) -> int {
    let exact = if fontsize >= 0 {
        (fontsize * LAYOUT_SCALE) / (ONE as int)
    } else {
        -((-fontsize * LAYOUT_SCALE) / (ONE as int))
    };
    if exact > i32::MAX {
        i32::MAX as int
    } else if exact < i32::MIN {
        i32::MIN as int
    } else {
        exact
    }
}

/// The styled run of a text: its font, its colour in hexadecimal form, its
/// size in units of the layout and its content.
pub open spec fn text_run_of(t: TextView) -> TextRunView {
    TextRunView {
        face: t.font,
        foreground: hex_color(t.color),
        size: layout_size(t.fontsize as int) as i32,
        text: t.text,
    }
}

/// The styled run of `text`.
pub fn text_run(text: &Text) -> (run: TextRun)
    ensures
        run@ == text_run_of(text@),
{
    let wide: i128 = (text.fontsize as i128) * (LAYOUT_SCALE as i128);
    let exact: i128 = wide / (ONE as i128);
    let size: i32 = if exact > i32::MAX as i128 {
        i32::MAX
    } else if exact < i32::MIN as i128 {
        i32::MIN
    } else {
        exact as i32
    };
    TextRun {
        face: text.font.clone(),
        foreground: rgba_color(text.color),
        size,
        text: text.text.clone(),
    }
}

/// Makes the primitives of one page ready for a canvas.
pub struct CairoPlotter<'a> {
    items: &'a Vec<PlotItem>,
    paper_size: (i64, i64),
}

impl<'a> CairoPlotter<'a> {
    /// The paper is the one paper that is known.
    #[verifier::type_invariant]
    spec fn paper_is_known(self) -> bool {
        self.paper_size == (A4_WIDTH, A4_HEIGHT)
    }

    /// A plotter for `items` on A4 paper.
    pub fn new(items: &'a Vec<PlotItem>) -> (plotter: CairoPlotter<'a>)
        ensures
            plotter.items() == item_views(items@),
            plotter.paper_size() == (A4_WIDTH, A4_HEIGHT),
    {
        CairoPlotter { items, paper_size: (A4_WIDTH, A4_HEIGHT) }
    }

    /// The size in device units of the canvas that texts are measured on:
    /// a sheet of A4 paper at the measuring ratio.
    pub fn measure_surface(&self) -> (size: (i32, i32))
        ensures
            size.0 == device_units(A4_WIDTH as int, measure_ratio()),
            size.1 == device_units(A4_HEIGHT as int, measure_ratio()),
            size == (841i32, 595i32),
    {
        let ratio = Ratio { device: 72, tenths: 254 };
        assert(device_units(A4_WIDTH as int, ratio) == 841 && device_units(A4_HEIGHT as int, ratio) == 595)
            by {
            assert(A4_WIDTH * (10 * 72) == 2_138_400_000 && A4_HEIGHT * (10 * 72) == 1_512_000_000);
            assert(254 * ONE == 2_540_000);
        }
        (device_size(A4_WIDTH, ratio), device_size(A4_HEIGHT, ratio))
    }
}

/// What makes the primitives of a page ready for a canvas.
pub trait Plotter {
    /// The primitives of the page.
    spec fn items(&self) -> Seq<PlotItemView>;

    /// The size of the paper, in counts, width first.
    spec fn paper_size(&self) -> (i64, i64);

    /// Chooses the paper: `A4` is known, any other name changes nothing.
    fn paper(&mut self, paper: &str)
        ensures
            final(self).items() == old(self).items(),
            final(self).paper_size() == if paper@ == "A4"@ {
                (A4_WIDTH, A4_HEIGHT)
            } else {
                old(self).paper_size()
            },
    ;

    /// The size of the paper, in counts, width first.
    fn get_paper(&self) -> (size: (i64, i64))
        ensures
            size == self.paper_size(),
    ;

    /// The smallest rectangle that covers all primitives of the page, with
    /// `text_sizes[i]` the measured size of the text at position `i`.
    fn bounds(&self, text_sizes: &Vec<Extent>) -> (b: Bounds)
        requires
            0 < self.items().len() <= PAGE_LIMIT,
            text_sizes@.len() == self.items().len(),
            all_measurable(self.items()),
            text_extents_wf(self.items(), text_sizes@),
        ensures
            b == page_bounds(self.items(), text_sizes@),
            near(b.min),
            near(b.max),
    ;

    /// What draws the page, with `layout_sizes[i]` the size of the shaped
    /// text at position `i`.
    fn draw(&self, layout_sizes: &Vec<Extent>) -> (ops: Vec<DrawOp>)
        requires
            layout_sizes@.len() == self.items().len(),
            all_drawable(self.items()),
            text_extents_wf(self.items(), layout_sizes@),
        ensures
            ops@ == page_ops(self.items(), layout_sizes@),
    ;

    /// The page ready for a canvas of the format `image_type`: on paper
    /// where `border` is set, fitted to its content where it is not.
    fn plot(
        &self,
        border: bool,
        image_type: &ImageType,
        text_sizes: &Vec<Extent>,
        layout_sizes: &Vec<Extent>,
    ) -> (res: Result<Page, Error>)
        requires
            *image_type != ImageType::Pdf ==> {
                &&& all_drawable(self.items())
                &&& layout_sizes@.len() == self.items().len()
                &&& text_extents_wf(self.items(), layout_sizes@)
            },
            !border && *image_type != ImageType::Pdf ==> {
                &&& 0 < self.items().len() <= PAGE_LIMIT
                &&& all_measurable(self.items())
                &&& text_sizes@.len() == self.items().len()
                &&& text_extents_wf(self.items(), text_sizes@)
            },
        ensures
            match res {
                Ok(page) => Ok::<PageLayout, ErrorView>(page@),
                Err(e) => Err(e@),
            } == plotted(self.items(), self.paper_size(), border, *image_type, text_sizes@, layout_sizes@),
            res matches Ok(page) ==> 0 <= page.width <= SIDE_LIMIT && 0 <= page.height <= SIDE_LIMIT,
    ;
}

impl<'a> Plotter for CairoPlotter<'a> {
    closed spec fn items(&self) -> Seq<PlotItemView> {
        item_views(self.items@)
    }

    closed spec fn paper_size(&self) -> (i64, i64) {
        self.paper_size
    }

    fn paper(&mut self, paper: &str) {
        if String::from_str(paper) == String::from_str("A4") {
            self.paper_size = (A4_WIDTH, A4_HEIGHT);
        }
    }

    fn get_paper(&self) -> (size: (i64, i64)) {
        self.paper_size
    }

    fn bounds(&self, text_sizes: &Vec<Extent>) -> (b: Bounds) {
        page_outline(self.items, text_sizes)
    }

    fn draw(&self, layout_sizes: &Vec<Extent>) -> (ops: Vec<DrawOp>) {
        draw_page(self.items, layout_sizes)
    }

    fn plot(
        &self,
        border: bool,
        image_type: &ImageType,
        text_sizes: &Vec<Extent>,
        layout_sizes: &Vec<Extent>,
    ) -> (res: Result<Page, Error>) {
        proof {
            use_type_invariant(self);
        }
        match image_type {
            ImageType::Pdf => Err(Error::UnknownImageType(String::from_str("pdf"))),
            _ => {
                if border {
                    Ok(
                        Page {
                            width: self.paper_size.0,
                            height: self.paper_size.1,
                            ratio: Ratio { device: 96, tenths: 254 },
                            scaled: false,
                            origin: Point { x: 0, y: 0 },
                            ops: self.draw(layout_sizes),
                        },
                    )
                } else {
                    let b = self.bounds(text_sizes);
                    let min = Point { x: b.min.x - MARGIN, y: b.min.y - MARGIN };
                    let max = Point { x: b.max.x + MARGIN, y: b.max.y + MARGIN };
                    Ok(
                        Page {
                            width: max.x - min.x,
                            height: max.y - min.y,
                            ratio: Ratio { device: 96, tenths: 254 },
                            scaled: true,
                            origin: min,
                            ops: self.draw(layout_sizes),
                        },
                    )
                }
            },
        }
    }
}

} // verus!
