//! Where the pins of a page stand, and that a page asks its netlist there
//! only.

use vstd::prelude::*;
use crate::document::{
    get_library, lemma_library_index, library_index, net_name, points, LibrarySymbol, Netlist, Pin,
    SchemaElement, Symbol, SymbolUnit,
};
use crate::parts::collect;
use crate::schema::{element_items, PageView};
use crate::symbol::{pin_part, unit_part};
use crate::theme::ThemeView;
use crate::transform::{rotation_of, Placement, Rotation};
use crate::units::Point;

verus! {

/// The page positions of the pins of a unit, where the unit is drawn.
pub open spec fn unit_pin_points(symbol: Symbol, placement: Placement, unit: SymbolUnit) -> Seq<Point> {
    if unit.unit == 0 || unit.unit == symbol.unit {
        unit.pin@.map_values(|pin: Pin| placement.transformed(pin.at.point()))
    } else {
        Seq::empty()
    }
}

/// The page positions of the pins of the first `n` units of `lib`.
pub open spec fn library_pin_points(symbol: Symbol, placement: Placement, lib: LibrarySymbol, n: int) -> Seq<
    Point,
>
    decreases n,
{
    if n <= 0 {
        Seq::empty()
    } else {
        library_pin_points(symbol, placement, lib, n - 1) + unit_pin_points(
            symbol,
            placement,
            lib.symbols@[n - 1],
        )
    }
}

/// The page positions of the pins of an element: those of the drawn units
/// of a symbol that is shown, stands at a whole number of quarter turns and
/// is found in the library; none for anything else.
pub open spec fn element_pin_points(element: SchemaElement, libraries: Seq<LibrarySymbol>) -> Seq<Point> {
    match element {
        SchemaElement::Symbol(symbol) => match (
            rotation_of(symbol.angle as int),
            library_index(libraries, symbol.lib_id@),
        ) {
            (Some(rotation), Some(i)) => if symbol.on_schema {
                library_pin_points(
                    symbol,
                    Placement { origin: symbol.at.point(), rotation, mirror: symbol.mirror },
                    libraries[i],
                    libraries[i].symbols@.len() as int,
                )
            } else {
                Seq::empty()
            },
            _ => Seq::empty(),
        },
        _ => Seq::empty(),
    }
}

/// The page positions of the pins of the first `n` elements: the points at
/// which a page asks its netlist for names.
pub open spec fn page_pin_points(elements: Seq<SchemaElement>, libraries: Seq<LibrarySymbol>, n: int) -> Seq<
    Point,
>
    decreases n,
{
    if n <= 0 {
        Seq::empty()
    } else {
        page_pin_points(elements, libraries, n - 1) + element_pin_points(elements[n - 1], libraries)
    }
}

/// Appends the page positions of the pins of a unit.
fn push_unit_pin_points(points: &mut Vec<Point>, symbol: &Symbol, placement: &Placement, unit: &SymbolUnit)
    requires
        placement.origin.in_item_range(),
    ensures
        final(points)@ == old(points)@ + unit_pin_points(*symbol, *placement, *unit),
{
    if unit.unit == 0 || unit.unit == symbol.unit {
        let mut i: usize = 0;
        assert(points@ =~= old(points)@ + unit.pin@.take(0).map_values(
            |pin: Pin| placement.transformed(pin.at.point()),
        ));
        while i < unit.pin.len()
            invariant
                i <= unit.pin@.len(),
                placement.origin.in_item_range(),
                points@ == old(points)@ + unit.pin@.take(i as int).map_values(
                    |pin: Pin| placement.transformed(pin.at.point()),
                ),
            decreases unit.pin@.len() - i,
        {
            points.push(placement.transform(unit.pin[i].at.to_point()));
            assert(unit.pin@.take(i + 1) =~= unit.pin@.take(i as int).push(unit.pin@[i as int]));
            assert(points@ =~= old(points)@ + unit.pin@.take(i + 1).map_values(
                |pin: Pin| placement.transformed(pin.at.point()),
            ));
            i += 1;
        }
        assert(unit.pin@.take(i as int) =~= unit.pin@);
    } else {
        assert(points@ =~= old(points)@ + Seq::<Point>::empty());
    }
}

/// Appends the page positions of the pins of an element.
fn push_element_pin_points(points: &mut Vec<Point>, element: &SchemaElement, libraries: &Vec<LibrarySymbol>)
    ensures
        final(points)@ == old(points)@ + element_pin_points(*element, libraries@),
{
    assert(points@ =~= old(points)@ + Seq::<Point>::empty());
    match element {
        SchemaElement::Symbol(symbol) => {
            let rotation = match Rotation::from_degrees(symbol.angle) {
                Ok(r) => r,
                Err(_) => {
                    return ;
                },
            };
            let lib = match get_library(libraries, &symbol.lib_id) {
                Some(lib) => lib,
                None => {
                    return ;
                },
            };
            if !symbol.on_schema {
                return ;
            }
            let placement = Placement { origin: symbol.at.to_point(), rotation, mirror: symbol.mirror };
            let mut i: usize = 0;
            while i < lib.symbols.len()
                invariant
                    i <= lib.symbols@.len(),
                    placement.origin.in_item_range(),
                    points@ == old(points)@ + library_pin_points(*symbol, placement, *lib, i as int),
                decreases lib.symbols@.len() - i,
            {
                push_unit_pin_points(points, symbol, &placement, &lib.symbols[i]);
                assert(points@ =~= old(points)@ + library_pin_points(*symbol, placement, *lib, i + 1));
                i += 1;
            }
        },
        _ => {},
    }
}

/// The points at which the page asks its netlist for names: the page
/// positions of the pins of its symbols, in the order of the page.
pub fn pin_points(elements: &Vec<SchemaElement>, libraries: &Vec<LibrarySymbol>) -> (points: Vec<Point>)
    ensures
        points@ == page_pin_points(elements@, libraries@, elements@.len() as int),
{
    let mut points: Vec<Point> = Vec::new();
    let mut i: usize = 0;
    while i < elements.len()
        invariant
            i <= elements@.len(),
            points@ == page_pin_points(elements@, libraries@, i as int),
        decreases elements@.len() - i,
    {
        push_element_pin_points(&mut points, &elements[i], libraries);
        i += 1;
    }
    points
}

/// Whether two netlists name the same net at each of `pts`.
pub open spec fn same_names(a: Netlist, b: Netlist, pts: Seq<Point>) -> bool {
    forall|k: int| 0 <= k < pts.len() ==> net_name(a.nodes@, #[trigger] pts[k]) == net_name(b.nodes@, pts[k])
}

/// Netlists that agree on a run of points agree on its parts.
proof fn lemma_same_names_split(a: Netlist, b: Netlist, first: Seq<Point>, second: Seq<Point>)
    requires
        same_names(a, b, first + second),
    ensures
        same_names(a, b, first),
        same_names(a, b, second),
{
    let all = first + second;
    assert forall|k: int| 0 <= k < first.len() implies net_name(a.nodes@, #[trigger] first[k]) == net_name(
        b.nodes@,
        first[k],
    ) by {
        assert(all[k] == first[k]);
    }
    assert forall|k: int| 0 <= k < second.len() implies net_name(a.nodes@, #[trigger] second[k])
        == net_name(b.nodes@, second[k]) by {
        assert(all[first.len() + k] == second[k]);
    }
}

/// The pins of a unit read the netlist at their own positions.
proof fn lemma_pins_read_netlist_at_pins(
    placement: Placement,
    lib: LibrarySymbol,
    unit: SymbolUnit,
    theme: ThemeView,
    a: Netlist,
    b: Netlist,
    n: int,
)
    requires
        0 <= n <= unit.pin@.len(),
        same_names(a, b, unit.pin@.map_values(|pin: Pin| placement.transformed(pin.at.point()))),
    ensures
        collect(n, pin_part(placement, lib, unit, theme, Some(a))) == collect(
            n,
            pin_part(placement, lib, unit, theme, Some(b)),
        ),
    decreases n,
{
    if n > 0 {
        lemma_pins_read_netlist_at_pins(placement, lib, unit, theme, a, b, n - 1);
        let pts = unit.pin@.map_values(|pin: Pin| placement.transformed(pin.at.point()));
        assert(pts[n - 1] == placement.transformed(unit.pin@[n - 1].at.point()));
    }
}

/// The units of a library symbol read the netlist at their pins.
proof fn lemma_units_read_netlist_at_pins(
    symbol: Symbol,
    placement: Placement,
    lib: LibrarySymbol,
    theme: ThemeView,
    a: Netlist,
    b: Netlist,
    n: int,
)
    requires
        0 <= n <= lib.symbols@.len(),
        same_names(a, b, library_pin_points(symbol, placement, lib, n)),
    ensures
        collect(n, unit_part(symbol, placement, lib, theme, Some(a))) == collect(
            n,
            unit_part(symbol, placement, lib, theme, Some(b)),
        ),
    decreases n,
{
    if n > 0 {
        let unit = lib.symbols@[n - 1];
        lemma_same_names_split(
            a,
            b,
            library_pin_points(symbol, placement, lib, n - 1),
            unit_pin_points(symbol, placement, unit),
        );
        lemma_units_read_netlist_at_pins(symbol, placement, lib, theme, a, b, n - 1);
        if unit.unit == 0 || unit.unit == symbol.unit {
            lemma_pins_read_netlist_at_pins(placement, lib, unit, theme, a, b, unit.pin@.len() as int);
        }
    }
}

/// An element reads the netlist at its pins.
proof fn lemma_element_reads_netlist_at_pins(
    element: SchemaElement,
    libraries: Seq<LibrarySymbol>,
    theme: ThemeView,
    a: Netlist,
    b: Netlist,
)
    requires
        same_names(a, b, element_pin_points(element, libraries)),
    ensures
        element_items(element, libraries, theme, Some(a)) == element_items(
            element,
            libraries,
            theme,
            Some(b),
        ),
{
    match element {
        SchemaElement::Symbol(symbol) => {
            match (rotation_of(symbol.angle as int), library_index(libraries, symbol.lib_id@)) {
                (Some(rotation), Some(i)) => {
                    if symbol.on_schema {
                        let placement = Placement {
                            origin: symbol.at.point(),
                            rotation,
                            mirror: symbol.mirror,
                        };
                        lemma_library_index(libraries, symbol.lib_id@);
                        lemma_units_read_netlist_at_pins(
                            symbol,
                            placement,
                            libraries[i],
                            theme,
                            a,
                            b,
                            libraries[i].symbols@.len() as int,
                        );
                    }
                },
                _ => {},
            }
        },
        _ => {},
    }
}

impl PageView {
    /// The same page with another netlist.
    pub open spec fn with_netlist(self, netlist: Netlist) -> PageView {
        PageView { netlist: Some(netlist), ..self }
    }

    /// The points at which the page asks its netlist for names.
    pub open spec fn pin_points(self) -> Seq<Point> {
        page_pin_points(self.elements, self.libraries, self.elements.len() as int)
    }

    /// The first `n` elements read the netlist at their pins.
    proof fn lemma_range_reads_netlist_at_pins(self, other: Netlist, n: int)
        requires
            self.netlist is Some,
            0 <= n <= self.elements.len(),
            same_names(self.netlist->0, other, page_pin_points(self.elements, self.libraries, n)),
        ensures
            self.range_items(0, n) == self.with_netlist(other).range_items(0, n),
        decreases n,
    {
        if n > 0 {
            lemma_same_names_split(
                self.netlist->0,
                other,
                page_pin_points(self.elements, self.libraries, n - 1),
                element_pin_points(self.elements[n - 1], self.libraries),
            );
            self.lemma_range_reads_netlist_at_pins(other, n - 1);
            lemma_element_reads_netlist_at_pins(
                self.elements[n - 1],
                self.libraries,
                self.theme,
                self.netlist->0,
                other,
            );
            reveal(PageView::element);
        }
    }

    /// A page reads its netlist at the positions of its pins only: with
    /// another netlist that names the same nets there, the primitives are
    /// the same.
    pub proof fn lemma_netlist_is_read_at_pins(self, other: Netlist, border: bool)
        requires
            self.netlist is Some,
            same_names(self.netlist->0, other, self.pin_points()),
        ensures
            self.page_items(border) == self.with_netlist(other).page_items(border),
    {
        self.lemma_range_reads_netlist_at_pins(other, self.elements.len() as int);
        reveal(PageView::border);
    }
}

} // verus!
