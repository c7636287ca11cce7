//! Rendering a page of a document: what is decided before the canvas
//! measures the texts.

use vstd::prelude::*;
use vstd::string::*;
use crate::cairo_plotter::{image_type_of, text_run, text_run_of, ImageType, TextRun, TextRunView};
use crate::document::{LibrarySymbol, Netlist, SchemaElement, TitleBlock};
use crate::error::{Error, ErrorView};
use crate::items::{item_views, PlotItem, PlotItemView};
use crate::schema::{plot_page, PageView};
use crate::theme::{theme_named, Theme};
use crate::units::item_range;

verus! {

/// One page of a document.
#[derive(Debug, PartialEq, Eq)]
pub struct SchemaPage {
    pub elements: Vec<SchemaElement>,
    pub title_block: Option<TitleBlock>,
    /// Size of the paper, in counts, width first.
    pub paper_size: (i64, i64),
}

/// A document: its pages and the library its symbols are looked up in.
#[derive(Debug, PartialEq, Eq)]
pub struct Schema {
    pub pages: Vec<SchemaPage>,
    pub libraries: Vec<LibrarySymbol>,
}

impl Schema {
    /// The number of pages.
    pub fn pages(&self) -> (n: usize)
        ensures
            n == self.pages@.len(),
    {
        self.pages.len()
    }
}

/// A page whose primitives are made and whose format is known.
#[derive(Debug, PartialEq, Eq)]
pub struct Prepared {
    pub image_type: ImageType,
    pub items: Vec<PlotItem>,
}

/// What preparing a page gives: the format `image_type` names, a vector
/// image where it names none, and the primitives of the page in the theme
/// `theme` names. An unknown format is reported first, then an unknown
/// theme, both before anything is made of the page.
pub open spec fn prepared(
    schema: Schema,
    page: int,
    border: bool,
    theme: Seq<char>,
    netlist: Option<Netlist>,
    image_type: Option<Seq<char>>,
) -> Result<(ImageType, Seq<PlotItemView>), ErrorView> {
    let format = match image_type {
        None => Ok(ImageType::Svg),
        Some(name) => match image_type_of(name) {
            Some(t) => Ok(t),
            None => Err(ErrorView::UnknownImageType(name)),
        },
    };
    match format {
        Err(e) => Err(e),
        Ok(t) => match theme_named(theme) {
            Err(e) => Err(e),
            Ok(presets) => match (PageView {
                elements: schema.pages@[page].elements@,
                libraries: schema.libraries@,
                title_block: schema.pages@[page].title_block,
                paper_size: schema.pages@[page].paper_size,
                theme: presets,
                netlist,
            }).page_items(border) {
                Err(e) => Err(e),
                Ok(items) => Ok((t, items)),
            },
        },
    }
}

/// Names of formats, seen as mathematical values.
pub open spec fn name_view(name: Option<&str>) -> Option<Seq<char>> {
    match name {
        Some(n) => Some(n@),
        None => None,
    }
}

/// Makes the primitives of page `page` of `schema` and settles the format
/// of its image.
pub fn prepare_page(
    schema: &Schema,
    page: usize,
    border: bool,
    theme: &str,
    netlist: &Option<Netlist>,
    image_type: Option<&str>,
) -> (res: Result<Prepared, Error>)
    requires
        page < schema.pages@.len(),
        border ==> item_range(schema.pages@[page as int].paper_size.0 as int) && item_range(
            schema.pages@[page as int].paper_size.1 as int,
        ),
    ensures
        match res {
            Ok(p) => Ok::<(ImageType, Seq<PlotItemView>), ErrorView>((p.image_type, item_views(p.items@))),
            Err(e) => Err(e@),
        } == prepared(*schema, page as int, border, theme@, *netlist, name_view(image_type)),
{
    let format = match ImageType::from_option(image_type) {
        Ok(t) => t,
        Err(e) => {
            return Err(e);
        },
    };
    let theme = match Theme::by_name(theme) {
        Ok(theme) => theme,
        Err(e) => {
            return Err(e);
        },
    };
    let sheet = &schema.pages[page];
    match plot_page(
        &sheet.elements,
        &schema.libraries,
        &sheet.title_block,
        sheet.paper_size,
        &theme,
        border,
        netlist,
    ) {
        Ok(items) => Ok(Prepared { image_type: format, items }),
        Err(e) => Err(e),
    }
}

/// The styled run of a primitive that is a text.
pub open spec fn item_run(item: PlotItemView) -> Option<TextRunView> {
    match item {
        PlotItemView::Text(_, t) => Some(text_run_of(t)),
        _ => None,
    }
}

/// Styled runs of text, seen as mathematical values.
pub open spec fn run_view(run: Option<TextRun>) -> Option<TextRunView> {
    match run {
        Some(r) => Some(r@),
        None => None,
    }
}

/// For each of `items` that is a text, at its position, the styled run the
/// canvas has to shape and measure; `None` for other primitives.
pub fn text_runs(items: &Vec<PlotItem>) -> (runs: Vec<Option<TextRun>>)
    ensures
        runs@.len() == items@.len(),
        forall|i: int| 0 <= i < runs@.len() ==> run_view(#[trigger] runs@[i]) == item_run(items@[i]@),
{
    let mut runs: Vec<Option<TextRun>> = Vec::new();
    let mut i: usize = 0;
    while i < items.len()
        invariant
            i <= items@.len(),
            runs@.len() == i,
            forall|k: int| 0 <= k < i ==> run_view(#[trigger] runs@[k]) == item_run(items@[k]@),
        decreases items@.len() - i,
    {
        let run = match &items[i] {
            PlotItem::Text(_, text) => Some(text_run(text)),
            _ => None,
        };
        runs.push(run);
        i += 1;
    }
    runs
}

} // verus!
