//! What the builder makes can be measured and drawn.

use vstd::prelude::*;
use crate::border::lemma_border_items_wf;
use crate::document::{
    lemma_library_index, library_index, points, DocPoint, Graph, LibrarySymbol, Netlist, Pin,
    Property, SchemaElement, Symbol,
};
use crate::items::all_wf;
use crate::parts::{collect, stroke_for, then, Items};
use crate::rows::ROW_LIMIT;
use crate::schema::{element_items, PageView};
use crate::symbol::{
    along, facing, graph_items, graph_part, missing_symbol_item, net_offset, number_offset,
    pin_items, pin_line, pin_name_items, pin_net_items, pin_number_items, pin_part, pin_run, placed,
    property_items, property_part, symbol_body_items, symbol_items, unit_items, unit_part,
    MISSING_SYMBOL_SIZE,
};
use crate::theme::{StrokeView, ThemeView};
use crate::transform::{pt, rotation_of, Placement, Rotation};
use crate::units::ITEM_LIMIT;

verus! {

/// Whether a shape of a library symbol has the points that drawing reads.
pub open spec fn graph_drawable(graph: Graph) -> bool {
    match graph {
        Graph::Polyline { pts, .. } => 1 <= pts@.len() <= ROW_LIMIT,
        _ => true,
    }
}

/// Whether every shape of a library symbol has the points that drawing
/// reads.
pub open spec fn library_drawable(lib: LibrarySymbol) -> bool {
    forall|u: int, g: int|
        0 <= u < lib.symbols@.len() && 0 <= g < lib.symbols@[u].graph@.len() ==> graph_drawable(
            #[trigger] lib.symbols@[u].graph@[g],
        )
}

/// Whether an element has the points that drawing reads: a wire, a bus and
/// a graphic line two at least, and no more than fit one array.
pub open spec fn element_drawable(element: SchemaElement) -> bool {
    match element {
        SchemaElement::Wire(wire) => 2 <= wire.pts@.len() <= ROW_LIMIT,
        SchemaElement::Polyline(path) => 2 <= path.pts@.len() <= ROW_LIMIT,
        SchemaElement::Bus(path) => 2 <= path.pts@.len() <= ROW_LIMIT,
        _ => true,
    }
}

/// Whether the primitives that were made, if any were, are all well formed.
pub open spec fn made_wf(items: Items) -> bool {
    items matches Ok(made) ==> all_wf(made)
}

/// Well-formed parts, one after the other, are well formed.
proof fn lemma_then_wf(first: Items, second: Items)
    requires
        made_wf(first),
        made_wf(second),
    ensures
        made_wf(then(first, second)),
{
}

/// Parts that are well formed each are well formed together.
proof fn lemma_collect_wf(n: int, part: spec_fn(int) -> Items)
    requires
        forall|k: int| 0 <= k < n ==> made_wf(#[trigger] part(k)),
    ensures
        made_wf(collect(n, part)),
    decreases n,
{
    if n > 0 {
        lemma_collect_wf(n - 1, part);
        lemma_then_wf(collect(n - 1, part), part(n - 1));
    }
}

/// Document points are within the range of a primitive.
proof fn lemma_points_in_range(pts: Seq<DocPoint>)
    ensures
        points(pts).len() == pts.len(),
        forall|i: int| 0 <= i < pts.len() ==> (#[trigger] points(pts)[i]).in_item_range(),
{
    assert forall|i: int| 0 <= i < pts.len() implies (#[trigger] points(pts)[i]).in_item_range() by {
        assert(points(pts)[i] == pts[i].point());
    }
}

/// Placed document points are within the range of a primitive.
proof fn lemma_placed_in_range(placement: Placement, pts: Seq<DocPoint>)
    requires
        exists|at: DocPoint| placement.origin == at.point(),
    ensures
        forall|i: int| 0 <= i < pts.len() ==> (#[trigger] placed(placement, pts)[i]).in_item_range(),
        placed(placement, pts).len() == pts.len(),
{
    assert forall|i: int| 0 <= i < pts.len() implies (#[trigger] placed(placement, pts)[i]).in_item_range() by {
        assert(placed(placement, pts)[i] == placement.transformed(pts[i].point()));
    }
}

/// A point a few document lengths from the origin, placed, is well
/// within the range of a primitive.
proof fn lemma_placed_point_in_range(placement: Placement, x: int, y: int)
    requires
        exists|at: DocPoint| placement.origin == at.point(),
        -0x10_0000_0000 <= x <= 0x10_0000_0000,
        -0x10_0000_0000 <= y <= 0x10_0000_0000,
    ensures
        -0x20_0000_0000 <= placement.transformed(pt(x, y)).x <= 0x20_0000_0000,
        -0x20_0000_0000 <= placement.transformed(pt(x, y)).y <= 0x20_0000_0000,
{
}

/// The leader line of a pin is well formed.
proof fn lemma_pin_line_wf(placement: Placement, pin: Pin, r: Rotation, s: StrokeView)
    requires
        exists|at: DocPoint| placement.origin == at.point(),
    ensures
        pin_line(placement, pin, r, s).wf(),
{
    let run = along(r, pin.length as int);
    lemma_placed_point_in_range(placement, pin.at.x as int, pin.at.y as int);
    lemma_placed_point_in_range(placement, pin.at.x + run.0, pin.at.y + run.1);
    assert(pin.at.point() == pt(pin.at.x as int, pin.at.y as int));
}

/// The number of a pin is well formed.
proof fn lemma_pin_number_items_wf(placement: Placement, lib: LibrarySymbol, pin: Pin, r: Rotation, theme: ThemeView)
    requires
        exists|at: DocPoint| placement.origin == at.point(),
    ensures
        made_wf(pin_number_items(placement, lib, pin, r, theme)),
{
    lemma_placed_point_in_range(placement, pin.at.x as int, pin.at.y as int);
    assert(pin.at.point() == pt(pin.at.x as int, pin.at.y as int));
    let off = number_offset(facing(placement, r), pin_run(pin, r));
    assert(-0x1_0000_0000 <= off.0 <= 0x1_0000_0000 && -0x1_0000_0000 <= off.1 <= 0x1_0000_0000);
    if let Ok(items) = pin_number_items(placement, lib, pin, r, theme) {
        if items.len() > 0 {
            assert(items[0].wf());
        }
    }
}

/// The name of a pin is well formed.
proof fn lemma_pin_name_items_wf(placement: Placement, lib: LibrarySymbol, pin: Pin, r: Rotation, theme: ThemeView)
    requires
        exists|at: DocPoint| placement.origin == at.point(),
    ensures
        made_wf(pin_name_items(placement, lib, pin, r, theme)),
{
    let run = along(r, pin.length + lib.pin_names_offset * 8);
    lemma_placed_point_in_range(placement, pin.at.x + run.0, pin.at.y + run.1);
    if let Ok(items) = pin_name_items(placement, lib, pin, r, theme) {
        if items.len() > 0 {
            assert(items[0].wf());
        }
    }
}

/// The net name of a pin is well formed.
proof fn lemma_pin_net_items_wf(
    placement: Placement,
    lib: LibrarySymbol,
    pin: Pin,
    r: Rotation,
    theme: ThemeView,
    netlist: Option<Netlist>,
)
    requires
        exists|at: DocPoint| placement.origin == at.point(),
    ensures
        made_wf(pin_net_items(placement, lib, pin, r, theme, netlist)),
{
    lemma_placed_point_in_range(placement, pin.at.x as int, pin.at.y as int);
    assert(pin.at.point() == pt(pin.at.x as int, pin.at.y as int));
    let off = net_offset(facing(placement, r), pin_run(pin, r));
    assert(-0x1_0000_0000 <= off.0 <= 0x1_0000_0000 && -0x1_0000_0000 <= off.1 <= 0x1_0000_0000);
    if let Ok(items) = pin_net_items(placement, lib, pin, r, theme, netlist) {
        if items.len() > 0 {
            assert(items[0].wf());
        }
    }
}

/// What a pin draws is well formed.
proof fn lemma_pin_items_wf(
    placement: Placement,
    lib: LibrarySymbol,
    pin: Pin,
    theme: ThemeView,
    netlist: Option<Netlist>,
)
    requires
        exists|at: DocPoint| placement.origin == at.point(),
    ensures
        made_wf(pin_items(placement, lib, pin, theme, netlist)),
{
    match (stroke_for(theme, "pin"@), rotation_of(pin.angle as int)) {
        (Ok(s), Some(r)) => {
            let line: Items = Ok(seq![pin_line(placement, pin, r, s)]);
            let number = pin_number_items(placement, lib, pin, r, theme);
            let name = pin_name_items(placement, lib, pin, r, theme);
            let net = pin_net_items(placement, lib, pin, r, theme, netlist);
            lemma_pin_line_wf(placement, pin, r, s);
            lemma_pin_number_items_wf(placement, lib, pin, r, theme);
            lemma_pin_name_items_wf(placement, lib, pin, r, theme);
            lemma_pin_net_items_wf(placement, lib, pin, r, theme, netlist);
            lemma_then_wf(line, number);
            lemma_then_wf(then(line, number), name);
            lemma_then_wf(then(then(line, number), name), net);
        },
        _ => {},
    }
}

/// What a shape with the points that drawing reads draws is well formed.
proof fn lemma_graph_items_wf(placement: Placement, graph: Graph, theme: ThemeView)
    requires
        exists|at: DocPoint| placement.origin == at.point(),
        graph_drawable(graph),
    ensures
        made_wf(graph_items(placement, graph, theme)),
{
    match graph {
        Graph::Polyline { pts, stroke, fill_type } => {
            lemma_placed_in_range(placement, pts@);
        },
        _ => {},
    }
}

/// What a unit of a drawable library symbol draws is well formed.
proof fn lemma_unit_items_wf(
    symbol: Symbol,
    placement: Placement,
    lib: LibrarySymbol,
    u: int,
    theme: ThemeView,
    netlist: Option<Netlist>,
)
    requires
        exists|at: DocPoint| placement.origin == at.point(),
        library_drawable(lib),
        0 <= u < lib.symbols@.len(),
    ensures
        made_wf(unit_items(symbol, placement, lib, lib.symbols@[u], theme, netlist)),
{
    let unit = lib.symbols@[u];
    let graphs = graph_part(placement, unit, theme);
    let pins = pin_part(placement, lib, unit, theme, netlist);
    assert forall|k: int| 0 <= k < unit.graph@.len() implies made_wf(#[trigger] graphs(k)) by {
        assert(graph_drawable(lib.symbols@[u].graph@[k]));
        lemma_graph_items_wf(placement, unit.graph@[k], theme);
    }
    assert forall|k: int| 0 <= k < unit.pin@.len() implies made_wf(#[trigger] pins(k)) by {
        lemma_pin_items_wf(placement, lib, unit.pin@[k], theme, netlist);
    }
    lemma_collect_wf(unit.graph@.len() as int, graphs);
    lemma_collect_wf(unit.pin@.len() as int, pins);
    lemma_then_wf(collect(unit.graph@.len() as int, graphs), collect(unit.pin@.len() as int, pins));
}

/// What a property of a symbol draws is well formed.
proof fn lemma_property_items_wf(symbol: Symbol, property: Property, theme: ThemeView)
    ensures
        made_wf(property_items(symbol, property, theme)),
{
    if let Ok(items) = property_items(symbol, property, theme) {
        if items.len() > 0 {
            assert(items[0].wf());
        }
    }
}

/// What a symbol draws besides its properties, from a drawable library, is
/// well formed.
proof fn lemma_symbol_body_items_wf(
    symbol: Symbol,
    libraries: Seq<LibrarySymbol>,
    theme: ThemeView,
    netlist: Option<Netlist>,
)
    requires
        forall|i: int| 0 <= i < libraries.len() ==> library_drawable(#[trigger] libraries[i]),
    ensures
        made_wf(symbol_body_items(symbol, libraries, theme, netlist)),
{
    match rotation_of(symbol.angle as int) {
        Some(rotation) => {
            let placement = Placement { origin: symbol.at.point(), rotation, mirror: symbol.mirror };
            assert(placement.origin == symbol.at.point());
            match library_index(libraries, symbol.lib_id@) {
                Some(i) => {
                    lemma_library_index(libraries, symbol.lib_id@);
                    let lib = libraries[i];
                    let units = unit_part(symbol, placement, lib, theme, netlist);
                    assert forall|k: int| 0 <= k < lib.symbols@.len() implies made_wf(#[trigger] units(k)) by {
                        lemma_unit_items_wf(symbol, placement, lib, k, theme, netlist);
                    }
                    lemma_collect_wf(lib.symbols@.len() as int, units);
                },
                None => {
                    lemma_placed_point_in_range(placement, 0, 0);
                    lemma_placed_point_in_range(
                        placement,
                        MISSING_SYMBOL_SIZE as int,
                        MISSING_SYMBOL_SIZE as int,
                    );
                    assert(missing_symbol_item(placement).wf());
                },
            }
        },
        None => {},
    }
}

/// What a symbol draws from a drawable library is well formed.
proof fn lemma_symbol_items_wf(
    symbol: Symbol,
    libraries: Seq<LibrarySymbol>,
    theme: ThemeView,
    netlist: Option<Netlist>,
)
    requires
        forall|i: int| 0 <= i < libraries.len() ==> library_drawable(#[trigger] libraries[i]),
    ensures
        made_wf(symbol_items(symbol, libraries, theme, netlist)),
{
    let properties = property_part(symbol, theme);
    assert forall|k: int| 0 <= k < symbol.property@.len() implies made_wf(#[trigger] properties(k)) by {
        lemma_property_items_wf(symbol, symbol.property@[k], theme);
    }
    lemma_collect_wf(symbol.property@.len() as int, properties);
    lemma_symbol_body_items_wf(symbol, libraries, theme, netlist);
    lemma_then_wf(
        collect(symbol.property@.len() as int, properties),
        symbol_body_items(symbol, libraries, theme, netlist),
    );
}

/// What an element with the points that drawing reads draws is well
/// formed: it can be measured and drawn.
pub proof fn lemma_element_items_wf(
    element: SchemaElement,
    libraries: Seq<LibrarySymbol>,
    theme: ThemeView,
    netlist: Option<Netlist>,
)
    requires
        element_drawable(element),
        forall|i: int| 0 <= i < libraries.len() ==> library_drawable(#[trigger] libraries[i]),
    ensures
        element_items(element, libraries, theme, netlist) matches Some(items) ==> made_wf(items),
{
    match element {
        SchemaElement::Symbol(symbol) => {
            lemma_symbol_items_wf(symbol, libraries, theme, netlist);
        },
        SchemaElement::Wire(wire) => {
            lemma_points_in_range(wire.pts@);
        },
        SchemaElement::Polyline(path) => {
            lemma_points_in_range(path.pts@);
        },
        SchemaElement::Bus(path) => {
            lemma_points_in_range(path.pts@);
        },
        _ => {},
    }
}

impl PageView {
    /// Every element and every library symbol has the points that drawing
    /// reads.
    pub open spec fn drawable(self) -> bool {
        &&& forall|i: int| 0 <= i < self.elements.len() ==> element_drawable(#[trigger] self.elements[i])
        &&& forall|i: int| 0 <= i < self.libraries.len() ==> library_drawable(#[trigger] self.libraries[i])
    }

    /// The paper has a size, and one small enough for a border.
    pub open spec fn paper_fits(self) -> bool {
        &&& 0 <= self.paper_size.0 <= ITEM_LIMIT
        &&& 0 <= self.paper_size.1 <= ITEM_LIMIT
    }

    /// What the first `n` elements of a drawable page draw is well formed.
    proof fn lemma_range_items_wf(self, n: int)
        requires
            self.drawable(),
            0 <= n <= self.elements.len(),
        ensures
            made_wf(self.range_items(0, n)),
        decreases n,
    {
        if n > 0 {
            self.lemma_range_items_wf(n - 1);
            lemma_element_items_wf(self.elements[n - 1], self.libraries, self.theme, self.netlist);
            reveal(PageView::element);
            lemma_then_wf(self.range_items(0, n - 1), self.element_part(n - 1));
        }
    }

    /// The primitives of a page whose elements have the points that drawing
    /// reads are well formed: the page can be measured and drawn.
    pub proof fn lemma_page_items_wf(self, border: bool)
        requires
            self.drawable(),
            border ==> self.paper_fits(),
        ensures
            made_wf(self.page_items(border)),
    {
        self.lemma_range_items_wf(self.elements.len() as int);
        if border {
            reveal(PageView::border);
            lemma_border_items_wf(self.title_block, self.paper_size, self.theme);
        }
        lemma_then_wf(
            if border {
                self.border()
            } else {
                Ok(Seq::empty())
            },
            self.range_items(0, self.elements.len() as int),
        );
    }
}

} // verus!
