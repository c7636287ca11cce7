//! From the elements of a page to its drawable primitives.

use vstd::prelude::*;
use crate::border::{border_items, draw_border};
use crate::document::{LibrarySymbol, Netlist, Pin, SchemaElement, Symbol, TitleBlock};
use crate::elements::{
    bus_entry_items, global_label_items, hierarchical_label_items, junction_items, no_connect_items,
    path_items, plot_bus_entry, plot_global_label, plot_hierarchical_label, plot_junction,
    plot_no_connect, plot_path, plot_sheet, plot_styled_text, plot_wire, sheet_items,
    styled_text_items, wire_items,
};
use crate::error::{Error, ErrorView};
use crate::items::{item_views, PlotItem, PlotItemView};
use crate::parts::{extend, no_items, result_view, then, Items};
use crate::symbol::{plot_symbol, symbol_items};
use crate::theme::{Theme, ThemeView};
use crate::transform::{pin_position_of, pin_slots_of, Rotation};
use crate::units::item_range;

verus! {

/// What one element of a page draws; `None` for a symbol that is not shown
/// on the page, which draws nothing.
pub open spec fn element_items(
    element: SchemaElement,
    libraries: Seq<LibrarySymbol>,
    theme: ThemeView,
    netlist: Option<Netlist>,
) -> Option<Items> {
    match element {
        SchemaElement::Sheet(sheet) => Some(sheet_items(sheet, theme)),
        SchemaElement::Wire(wire) => Some(wire_items(wire, theme)),
        SchemaElement::Polyline(path) => Some(path_items(path, theme)),
        SchemaElement::Bus(path) => Some(path_items(path, theme)),
        SchemaElement::BusEntry(entry) => Some(bus_entry_items(entry, theme)),
        SchemaElement::Text(text) => Some(styled_text_items(text, "text"@, theme)),
        SchemaElement::NoConnect(at) => Some(no_connect_items(at, theme)),
        SchemaElement::Junction(at) => Some(junction_items(at, theme)),
        SchemaElement::Label(label) => Some(styled_text_items(label, "label"@, theme)),
        SchemaElement::GlobalLabel(label) => Some(global_label_items(label, theme)),
        SchemaElement::HierarchicalLabel(label) => Some(hierarchical_label_items(label, theme)),
        SchemaElement::Symbol(symbol) => if symbol.on_schema {
            Some(symbol_items(symbol, libraries, theme, netlist))
        } else {
            None
        },
    }
}

/// What executable code produced for an element, seen as mathematical
/// values.
pub open spec fn step_view(res: Option<Result<Vec<PlotItem>, Error>>) -> Option<Items> {
    match res {
        Some(r) => Some(result_view(r)),
        None => None,
    }
}

/// The primitives of one element of a page.
pub fn plot_element(
    element: &SchemaElement,
    libraries: &Vec<LibrarySymbol>,
    theme: &Theme,
    netlist: &Option<Netlist>,
) -> (res: Option<Result<Vec<PlotItem>, Error>>)
    ensures
        step_view(res) == element_items(*element, libraries@, theme@, *netlist),
{
    match element {
        SchemaElement::Sheet(sheet) => Some(plot_sheet(sheet, theme)),
        SchemaElement::Wire(wire) => Some(plot_wire(wire, theme)),
        SchemaElement::Polyline(path) => Some(plot_path(path, theme)),
        SchemaElement::Bus(path) => Some(plot_path(path, theme)),
        SchemaElement::BusEntry(entry) => Some(plot_bus_entry(entry, theme)),
        SchemaElement::Text(text) => Some(plot_styled_text(text, "text", theme)),
        SchemaElement::NoConnect(at) => Some(plot_no_connect(*at, theme)),
        SchemaElement::Junction(at) => Some(plot_junction(*at, theme)),
        SchemaElement::Label(label) => Some(plot_styled_text(label, "label", theme)),
        SchemaElement::GlobalLabel(label) => Some(plot_global_label(label, theme)),
        SchemaElement::HierarchicalLabel(label) => Some(plot_hierarchical_label(label, theme)),
        SchemaElement::Symbol(symbol) => {
            if symbol.on_schema {
                Some(plot_symbol(symbol, libraries, theme, netlist))
            } else {
                None
            }
        },
    }
}

/// Everything a page is rendered from.
pub struct PageView {
    pub elements: Seq<SchemaElement>,
    pub libraries: Seq<LibrarySymbol>,
    pub title_block: Option<TitleBlock>,
    pub paper_size: (i64, i64),
    pub theme: ThemeView,
    pub netlist: Option<Netlist>,
}

impl PageView {
    /// What element `i` draws, if it draws at all.
    #[verifier::opaque]
    pub open spec fn element(self, i: int) -> Option<Items> {
        element_items(self.elements[i], self.libraries, self.theme, self.netlist)
    }

    /// The primitives of element `i`: none for an element that does not
    /// draw.
    pub open spec fn element_part(self, i: int) -> Items {
        match self.element(i) {
            Some(items) => items,
            None => Ok(Seq::empty()),
        }
    }

    /// The primitives of the elements `from .. to`, in order; the error of
    /// the first that failed.
    pub open spec fn range_items(self, from: int, to: int) -> Items
        decreases to - from,
    {
        if to <= from {
            Ok(Seq::empty())
        } else {
            then(self.range_items(from, to - 1), self.element_part(to - 1))
        }
    }

    /// The border of the page.
    #[verifier::opaque]
    pub open spec fn border(self) -> Items {
        border_items(self.title_block, self.paper_size, self.theme)
    }

    /// What is still to come from a builder that stands before element
    /// `position`, with the border still to come or not.
    pub open spec fn pending_items(self, border: bool, position: int) -> Items {
        then(
            if border {
                self.border()
            } else {
                Ok(Seq::empty())
            },
            self.range_items(position, self.elements.len() as int),
        )
    }

    /// The primitives of the whole page: the border first where one is
    /// asked for, then what the elements draw, in the order of the elements.
    pub open spec fn page_items(self, border: bool) -> Items {
        self.pending_items(border, 0)
    }

    /// The first element at or after `from` that draws; the number of
    /// elements where none does.
    pub open spec fn next_visible(self, from: int) -> int
        decreases self.elements.len() - from,
    {
        if from >= self.elements.len() {
            self.elements.len() as int
        } else if self.element(from) is Some {
            from
        } else {
            self.next_visible(from + 1)
        }
    }

    /// No element between `from` and the next visible one draws.
    pub proof fn lemma_next_visible(self, from: int)
        requires
            0 <= from <= self.elements.len(),
        ensures
            from <= self.next_visible(from) <= self.elements.len(),
            forall|k: int| from <= k < self.next_visible(from) ==> #[trigger] self.element(k) is None,
            self.next_visible(from) < self.elements.len() ==> self.element(self.next_visible(from)) is Some,
        decreases self.elements.len() - from,
    {
        if from < self.elements.len() && self.element(from) is None {
            self.lemma_next_visible(from + 1);
        }
    }

    /// Elements that do not draw add nothing to a range.
    pub proof fn lemma_range_hidden(self, from: int, a: int, b: int)
        requires
            from <= a <= b,
            forall|k: int| a <= k < b ==> #[trigger] self.element(k) is None,
        ensures
            self.range_items(from, b) == self.range_items(from, a),
        decreases b - a,
    {
        if a < b {
            self.lemma_range_hidden(from, a, b - 1);
            assert(self.element(b - 1) is None);
            match self.range_items(from, b - 1) {
                Ok(items) => {
                    assert(items + Seq::<PlotItemView>::empty() =~= items);
                },
                Err(_) => {},
            }
        }
    }

    /// Once an element has failed, further elements change nothing.
    pub proof fn lemma_range_error(self, from: int, j: int, to: int)
        requires
            from <= j <= to,
            self.range_items(from, j) is Err,
        ensures
            self.range_items(from, to) == self.range_items(from, j),
        decreases to - j,
    {
        if j < to {
            self.lemma_range_error(from, j, to - 1);
        }
    }
}

/// Produces the primitives of a page element by element, in the order of
/// the elements: first the border, where one is asked for.
pub struct SchemaPlot<'a> {
    elements: &'a Vec<SchemaElement>,
    position: usize,
    theme: &'a Theme,
    border: bool,
    libraries: &'a Vec<LibrarySymbol>,
    title_block: &'a Option<TitleBlock>,
    paper_size: (i64, i64),
    netlist: &'a Option<Netlist>,
}

impl<'a> SchemaPlot<'a> {
    /// The builder stands within its page, and a border that is still to
    /// come fits the numbers.
    #[verifier::type_invariant]
    spec fn wf(self) -> bool {
        &&& self.position <= self.elements@.len()
        &&& self.border ==> item_range(self.paper_size.0 as int) && item_range(self.paper_size.1 as int)
    }

    /// What the page is rendered from.
    pub closed spec fn page(self) -> PageView {
        PageView {
            elements: self.elements@,
            libraries: self.libraries@,
            title_block: *self.title_block,
            paper_size: self.paper_size,
            theme: self.theme@,
            netlist: *self.netlist,
        }
    }

    /// Whether the border is still to come.
    pub closed spec fn border_pending(self) -> bool {
        self.border
    }

    /// The number of elements the builder has passed.
    pub closed spec fn position(self) -> int {
        self.position as int
    }

    /// A builder that stands before the first element of the page.
    pub fn new(
        elements: &'a Vec<SchemaElement>,
        libraries: &'a Vec<LibrarySymbol>,
        title_block: &'a Option<TitleBlock>,
        paper_size: (i64, i64),
        theme: &'a Theme,
        border: bool,
        netlist: &'a Option<Netlist>,
    ) -> (plot: SchemaPlot<'a>)
        requires
            border ==> item_range(paper_size.0 as int) && item_range(paper_size.1 as int),
        ensures
            plot.page() == (PageView {
                elements: elements@,
                libraries: libraries@,
                title_block: *title_block,
                paper_size,
                theme: theme@,
                netlist: *netlist,
            }),
            plot.border_pending() == border,
            plot.position() == 0,
    {
        SchemaPlot { elements, position: 0, theme, border, libraries, title_block, paper_size, netlist }
    }

    /// The next primitives of the page. With the border still to come, the
    /// border. Else what the next element that draws anything draws; `None`
    /// when no such element is left. After an error the builder is at its
    /// end.
    pub fn next(&mut self) -> (res: Option<Result<Vec<PlotItem>, Error>>)
        ensures
            final(self).page() == old(self).page(),
            !final(self).border_pending(),
            0 <= old(self).position() <= old(self).page().elements.len(),
            old(self).border_pending() ==> {
                &&& step_view(res) == Some(old(self).page().border())
                &&& final(self).position() == if old(self).page().border() is Err {
                    old(self).page().elements.len() as int
                } else {
                    old(self).position()
                }
            },
            !old(self).border_pending() ==> {
                let page = old(self).page();
                let j = page.next_visible(old(self).position());
                if j < page.elements.len() {
                    &&& step_view(res) == page.element(j)
                    &&& final(self).position() == if page.element_part(j) is Err {
                        page.elements.len() as int
                    } else {
                        j + 1
                    }
                } else {
                    &&& res is None
                    &&& final(self).position() == page.elements.len()
                }
            },
    {
        proof {
            use_type_invariant(&*self);
        }
        if self.border {
            self.border = false;
            let res = draw_border(self.title_block, self.paper_size, self.theme);
            assert(result_view(res) == old(self).page().border()) by {
                reveal(PageView::border);
            }
            if res.is_err() {
                self.position = self.elements.len();
            }
            return Some(res);
        }
        let ghost page = self.page();
        let ghost start = self.position as int;
        let elements = self.elements;
        let mut position: usize = self.position;
        proof {
            page.lemma_next_visible(start);
        }
        while position < elements.len()
            invariant
                start <= position <= elements@.len(),
                elements == self.elements,
                self.page() == page,
                page == old(self).page(),
                start == old(self).position(),
                !self.border,
                !old(self).border_pending(),
                elements@ == page.elements,
                self.libraries@ == page.libraries,
                self.theme@ == page.theme,
                *self.netlist == page.netlist,
                page.next_visible(start) == page.next_visible(position as int),
            decreases elements@.len() - position,
        {
            let res = plot_element(&elements[position], self.libraries, self.theme, self.netlist);
            assert(step_view(res) == page.element(position as int)) by {
                reveal(PageView::element);
            }
            match res {
                Some(Ok(items)) => {
                    self.position = position + 1;
                    return Some(Ok(items));
                },
                Some(Err(e)) => {
                    self.position = elements.len();
                    return Some(Err(e));
                },
                None => {},
            }
            position += 1;
        }
        self.position = position;
        None
    }

    /// All primitives that are still to come, in order, or the first error.
    /// The builder is at its end afterwards.
    pub fn drain(&mut self) -> (res: Result<Vec<PlotItem>, Error>)
        ensures
            result_view(res) == old(self).page().pending_items(
                old(self).border_pending(),
                old(self).position(),
            ),
            final(self).page() == old(self).page(),
            !final(self).border_pending(),
            final(self).position() == old(self).page().elements.len(),
    {
        let ghost page = self.page();
        let ghost start = self.position();
        let ghost border = if self.border_pending() {
            page.border()
        } else {
            Ok::<Seq<PlotItemView>, ErrorView>(Seq::empty())
        };
        let ghost n = page.elements.len() as int;
        let mut items: Vec<PlotItem> = no_items();
        proof {
            use_type_invariant(&*self);
        }
        if self.border {
            match self.next() {
                Some(Ok(more)) => extend(&mut items, more),
                Some(Err(e)) => {
                    return Err(e);
                },
                None => {},
            }
        }
        assert(then(border, page.range_items(start, start)) == Ok::<Seq<PlotItemView>, ErrorView>(
            item_views(items@),
        )) by {
            assert(item_views(items@) + Seq::<PlotItemView>::empty() =~= item_views(items@));
        }
        loop
            invariant_except_break
                start <= self.position() <= n,
                then(border, page.range_items(start, self.position())) == Ok::<
                    Seq<PlotItemView>,
                    ErrorView,
                >(item_views(items@)),
            invariant
                self.page() == page,
                page == old(self).page(),
                start == old(self).position(),
                border == if old(self).border_pending() {
                    page.border()
                } else {
                    Ok::<Seq<PlotItemView>, ErrorView>(Seq::empty())
                },
                n == page.elements.len(),
                !self.border_pending(),
                border is Ok,
            ensures
                self.position() == n,
                then(border, page.range_items(start, n)) == Ok::<Seq<PlotItemView>, ErrorView>(
                    item_views(items@),
                ),
            decreases n - self.position(),
        {
            let ghost p = self.position();
            proof {
                page.lemma_next_visible(p);
                page.lemma_range_hidden(start, p, page.next_visible(p));
            }
            match self.next() {
                None => {
                    break;
                },
                Some(Err(e)) => {
                    proof {
                        page.lemma_range_error(start, page.next_visible(p) + 1, n);
                    }
                    return Err(e);
                },
                Some(Ok(more)) => {
                    let ghost j = page.next_visible(p);
                    assert(self.position() == j + 1);
                    assert(page.element_part(j) == Ok::<Seq<PlotItemView>, ErrorView>(item_views(more@)));
                    extend(&mut items, more);
                    assert(then(border, page.range_items(start, j + 1)) == Ok::<
                        Seq<PlotItemView>,
                        ErrorView,
                    >(item_views(items@))) by {
                        let b = border->Ok_0;
                        let r = page.range_items(start, j)->Ok_0;
                        assert(b + (r + item_views(more@)) =~= (b + r) + item_views(more@));
                    }
                },
            }
        }
        Ok(items)
    }
}

/// All primitives of a page, in order: the border first where one is asked
/// for, then what each element draws. The first error ends the page.
pub fn plot_page(
    elements: &Vec<SchemaElement>,
    libraries: &Vec<LibrarySymbol>,
    title_block: &Option<TitleBlock>,
    paper_size: (i64, i64),
    theme: &Theme,
    border: bool,
    netlist: &Option<Netlist>,
) -> (res: Result<Vec<PlotItem>, Error>)
    requires
        border ==> item_range(paper_size.0 as int) && item_range(paper_size.1 as int),
    ensures
        result_view(res) == (PageView {
            elements: elements@,
            libraries: libraries@,
            title_block: *title_block,
            paper_size,
            theme: theme@,
            netlist: *netlist,
        }).page_items(border),
{
    let mut plot = SchemaPlot::new(elements, libraries, title_block, paper_size, theme, border, netlist);
    plot.drain()
}

/// The slots of `pin` on `symbol`: a one in the slot of the direction the
/// pin faces on the page, zeros in the other three. A pin angle or, with a
/// sound pin angle, a symbol rotation that is no multiple of 90 degrees is
/// reported as [`Error::Geometry`].
pub fn pin_position(symbol: &Symbol, pin: &Pin) -> (res: Result<Vec<usize>, Error>)
    ensures
        match pin_position_of(symbol.angle as int, symbol.mirror, pin.angle as int) {
            Ok(slots) => res is Ok && res->Ok_0@ == slots,
            Err(angle) => res is Err && res->Err_0 == Error::Geometry(angle as i32),
        },
{
    let pin_rotation = match Rotation::from_degrees(pin.angle) {
        Ok(r) => r,
        Err(e) => {
            return Err(e);
        },
    };
    let symbol_rotation = match Rotation::from_degrees(symbol.angle) {
        Ok(r) => r,
        Err(e) => {
            return Err(e);
        },
    };
    Ok(pin_slots_of(symbol_rotation, symbol.mirror, pin_rotation))
}

} // verus!
