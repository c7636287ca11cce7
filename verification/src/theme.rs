//! Named style presets and the merging of per-element overrides onto them.

use vstd::prelude::*;
use vstd::string::*;
use crate::color::Color;
use crate::error::{Error, ErrorView};
use crate::items::Align;

verus! {

/// A line style.
#[derive(Debug, PartialEq, Eq)]
pub struct Stroke {
    pub width: i64,
    pub linetype: String,
    pub color: Color,
}

/// The mathematical content of a [`Stroke`].
pub struct StrokeView {
    pub width: i64,
    pub linetype: Seq<char>,
    pub color: Color,
}

impl View for Stroke {
    type V = StrokeView;

    open spec fn view(&self) -> StrokeView {
        StrokeView { width: self.width, linetype: self.linetype@, color: self.color }
    }
}

impl Clone for Stroke {
    fn clone(&self) -> (res: Stroke)
        ensures
            res == *self,
    {
        Stroke { width: self.width, linetype: self.linetype.clone(), color: self.color }
    }
}

/// A text presentation style.
#[derive(Debug, PartialEq, Eq)]
pub struct Effects {
    pub font: String,
    pub color: Color,
    pub font_size: i64,
    pub justify: Align,
    pub hide: bool,
}

/// The mathematical content of an [`Effects`].
pub struct EffectsView {
    pub font: Seq<char>,
    pub color: Color,
    pub font_size: i64,
    pub justify: Align,
    pub hide: bool,
}

impl View for Effects {
    type V = EffectsView;

    open spec fn view(&self) -> EffectsView {
        EffectsView {
            font: self.font@,
            color: self.color,
            font_size: self.font_size,
            justify: self.justify,
            hide: self.hide,
        }
    }
}

impl Clone for Effects {
    fn clone(&self) -> (res: Effects)
        ensures
            res == *self,
    {
        Effects {
            font: self.font.clone(),
            color: self.color,
            font_size: self.font_size,
            justify: self.justify,
            hide: self.hide,
        }
    }
}

/// What an element says about its own line style; a field that is `None` was
/// not set by the element.
#[derive(Debug, PartialEq, Eq)]
pub struct StrokeStyle {
    pub width: Option<i64>,
    pub linetype: Option<String>,
    pub color: Option<Color>,
}

/// The mathematical content of a [`StrokeStyle`].
pub struct StrokeStyleView {
    pub width: Option<i64>,
    pub linetype: Option<Seq<char>>,
    pub color: Option<Color>,
}

impl View for StrokeStyle {
    type V = StrokeStyleView;

    open spec fn view(&self) -> StrokeStyleView {
        StrokeStyleView {
            width: self.width,
            linetype: match self.linetype {
                Some(l) => Some(l@),
                None => None,
            },
            color: self.color,
        }
    }
}

/// What an element says about its own text style; a field that is `None` was
/// not set by the element.
#[derive(Debug, PartialEq, Eq)]
pub struct EffectsStyle {
    pub font: Option<String>,
    pub color: Option<Color>,
    pub font_size: Option<i64>,
    pub justify: Option<Align>,
    pub hide: Option<bool>,
}

/// The mathematical content of an [`EffectsStyle`].
pub struct EffectsStyleView {
    pub font: Option<Seq<char>>,
    pub color: Option<Color>,
    pub font_size: Option<i64>,
    pub justify: Option<Align>,
    pub hide: Option<bool>,
}

impl View for EffectsStyle {
    type V = EffectsStyleView;

    open spec fn view(&self) -> EffectsStyleView {
        EffectsStyleView {
            font: match self.font {
                Some(f) => Some(f@),
                None => None,
            },
            color: self.color,
            font_size: self.font_size,
            justify: self.justify,
            hide: self.hide,
        }
    }
}

/// Whether every channel of the colour is zero: the colour of an element
/// that sets none.
pub open spec fn colour_unset(color: Color) -> bool {
    color.r == 0 && color.g == 0 && color.b == 0 && color.a == 0
}

/// What an element with these values says about its line style. A value
/// counts as not set where it is the one that documents leave in the place
/// of none: a width of zero, a line type that is empty or `default`, a
/// colour with every channel zero.
pub open spec fn stroke_style_of(width: i64, linetype: Seq<char>, color: Color) -> StrokeStyleView {
    StrokeStyleView {
        width: if width == 0 {
            None
        } else {
            Some(width)
        },
        linetype: if linetype == Seq::<char>::empty() || linetype == "default"@ {
            None
        } else {
            Some(linetype)
        },
        color: if colour_unset(color) {
            None
        } else {
            Some(color)
        },
    }
}

/// What an element with these values says about its text style. A value
/// counts as not set where it is the one that documents leave in the place
/// of none: an empty font, a colour with every channel zero, a size of
/// zero, an alignment without a word. An element can hide its text; it
/// cannot show what the theme hides.
pub open spec fn effects_style_of(
    font: Seq<char>,
    color: Color,
    font_size: i64,
    justify: Align,
    hide: bool,
) -> EffectsStyleView {
    EffectsStyleView {
        font: if font == Seq::<char>::empty() {
            None
        } else {
            Some(font)
        },
        color: if colour_unset(color) {
            None
        } else {
            Some(color)
        },
        font_size: if font_size == 0 {
            None
        } else {
            Some(font_size)
        },
        justify: if justify == (Align {
            left: false,
            right: false,
            top: false,
            bottom: false,
            center: false,
        }) {
            None
        } else {
            Some(justify)
        },
        hide: if hide {
            Some(true)
        } else {
            None
        },
    }
}

/// Whether every channel of the colour is zero.
fn is_unset(color: Color) -> (unset: bool)
    ensures
        unset == colour_unset(color),
{
    color.r == 0 && color.g == 0 && color.b == 0 && color.a == 0
}

impl StrokeStyle {
    /// The override of an element whose document gives these values, with
    /// zero, empty and `default` in the place of what is not set.
    pub fn from_parts(width: i64, linetype: String, color: Color) -> (style: StrokeStyle)
        ensures
            style@ == stroke_style_of(width, linetype@, color),
    {
        let plain = linetype == String::new() || linetype == String::from_str("default");
        StrokeStyle {
            width: if width == 0 {
                None
            } else {
                Some(width)
            },
            linetype: if plain {
                None
            } else {
                Some(linetype)
            },
            color: if is_unset(color) {
                None
            } else {
                Some(color)
            },
        }
    }
}

impl EffectsStyle {
    /// The override of an element whose document gives these values, with
    /// zero and empty in the place of what is not set.
    pub fn from_parts(font: String, color: Color, font_size: i64, justify: Align, hide: bool) -> (style:
        EffectsStyle)
        ensures
            style@ == effects_style_of(font@, color, font_size, justify, hide),
    {
        let no_font = font == String::new();
        let no_word = !justify.left && !justify.right && !justify.top && !justify.bottom && !justify.center;
        EffectsStyle {
            font: if no_font {
                None
            } else {
                Some(font)
            },
            color: if is_unset(color) {
                None
            } else {
                Some(color)
            },
            font_size: if font_size == 0 {
                None
            } else {
                Some(font_size)
            },
            justify: if no_word {
                None
            } else {
                Some(justify)
            },
            hide: if hide {
                Some(true)
            } else {
                None
            },
        }
    }
}

/// The view of an optional line-style override.
pub open spec fn stroke_style_view(style: Option<StrokeStyle>) -> Option<StrokeStyleView> {
    match style {
        Some(s) => Some(s@),
        None => None,
    }
}

/// The view of an optional text-style override.
pub open spec fn effects_style_view(style: Option<EffectsStyle>) -> Option<EffectsStyleView> {
    match style {
        Some(s) => Some(s@),
        None => None,
    }
}

/// `value` where the element set one, the default otherwise.
pub open spec fn or_default<T>(value: Option<T>, default: T) -> T {
    match value {
        Some(v) => v,
        None => default,
    }
}

/// The effective line style: the default where there is no override, else
/// field by field the override's value where it has one and the default's
/// where it has none.
pub open spec fn merged_stroke(style: Option<StrokeStyleView>, default: StrokeView) -> StrokeView {
    match style {
        None => default,
        Some(s) => StrokeView {
            width: or_default(s.width, default.width),
            linetype: or_default(s.linetype, default.linetype),
            color: or_default(s.color, default.color),
        },
    }
}

/// The effective text style: the default where there is no override, else
/// field by field the override's value where it has one and the default's
/// where it has none.
pub open spec fn merged_effects(style: Option<EffectsStyleView>, default: EffectsView) -> EffectsView {
    match style {
        None => default,
        Some(s) => EffectsView {
            font: or_default(s.font, default.font),
            color: or_default(s.color, default.color),
            font_size: or_default(s.font_size, default.font_size),
            justify: or_default(s.justify, default.justify),
            hide: or_default(s.hide, default.hide),
        },
    }
}

/// Merges line-style overrides onto theme defaults.
pub struct Themer;

impl Themer {
    /// The effective line style of an element with the override `style`.
    pub fn stroke(style: &Option<StrokeStyle>, default: &Stroke) -> (res: Stroke)
        ensures
            res@ == merged_stroke(stroke_style_view(*style), default@),
    {
        match style {
            None => default.clone(),
            Some(s) => Stroke {
                width: match s.width {
                    Some(w) => w,
                    None => default.width,
                },
                linetype: match &s.linetype {
                    Some(l) => l.clone(),
                    None => default.linetype.clone(),
                },
                color: match s.color {
                    Some(c) => c,
                    None => default.color,
                },
            },
        }
    }

    /// The effective text style of an element with the override `style`.
    pub fn effects(style: &Option<EffectsStyle>, default: &Effects) -> (res: Effects)
        ensures
            res@ == merged_effects(effects_style_view(*style), default@),
    {
        match style {
            None => default.clone(),
            Some(s) => Effects {
                font: match &s.font {
                    Some(f) => f.clone(),
                    None => default.font.clone(),
                },
                color: match s.color {
                    Some(c) => c,
                    None => default.color,
                },
                font_size: match s.font_size {
                    Some(v) => v,
                    None => default.font_size,
                },
                justify: match s.justify {
                    Some(j) => j,
                    None => default.justify,
                },
                hide: match s.hide {
                    Some(h) => h,
                    None => default.hide,
                },
            },
        }
    }
}

/// Without an override the effective styles are the defaults, field for
/// field.
pub proof fn lemma_merge_without_override(stroke: StrokeView, effects: EffectsView)
    ensures
        merged_stroke(None, stroke) == stroke,
        merged_effects(None, effects) == effects,
{
}

/// An override that sets every field decides every field: nothing of the
/// default is left.
pub proof fn lemma_merge_full_override(
    stroke_style: StrokeStyleView,
    stroke: StrokeView,
    effects_style: EffectsStyleView,
    effects: EffectsView,
)
    requires
        stroke_style.width is Some,
        stroke_style.linetype is Some,
        stroke_style.color is Some,
        effects_style.font is Some,
        effects_style.color is Some,
        effects_style.font_size is Some,
        effects_style.justify is Some,
        effects_style.hide is Some,
    ensures
        merged_stroke(Some(stroke_style), stroke) == (StrokeView {
            width: stroke_style.width->0,
            linetype: stroke_style.linetype->0,
            color: stroke_style.color->0,
        }),
        merged_effects(Some(effects_style), effects) == (EffectsView {
            font: effects_style.font->0,
            color: effects_style.color->0,
            font_size: effects_style.font_size->0,
            justify: effects_style.justify->0,
            hide: effects_style.hide->0,
        }),
{
}

/// A field the override leaves unset keeps the default's value, whatever the
/// override's other fields are.
pub proof fn lemma_merge_inherits_unset(
    stroke_style: StrokeStyleView,
    stroke: StrokeView,
    effects_style: EffectsStyleView,
    effects: EffectsView,
)
    ensures
        stroke_style.width is None ==> merged_stroke(Some(stroke_style), stroke).width == stroke.width,
        stroke_style.linetype is None ==> merged_stroke(Some(stroke_style), stroke).linetype
            == stroke.linetype,
        stroke_style.color is None ==> merged_stroke(Some(stroke_style), stroke).color == stroke.color,
        effects_style.font is None ==> merged_effects(Some(effects_style), effects).font == effects.font,
        effects_style.color is None ==> merged_effects(Some(effects_style), effects).color
            == effects.color,
        effects_style.font_size is None ==> merged_effects(Some(effects_style), effects).font_size
            == effects.font_size,
        effects_style.justify is None ==> merged_effects(Some(effects_style), effects).justify
            == effects.justify,
        effects_style.hide is None ==> merged_effects(Some(effects_style), effects).hide
            == effects.hide,
{
}

/// The line style a theme holds for one role.
#[derive(Debug, PartialEq, Eq)]
pub struct StrokePreset {
    pub role: String,
    pub stroke: Stroke,
}

/// The text style a theme holds for one role.
#[derive(Debug, PartialEq, Eq)]
pub struct EffectsPreset {
    pub role: String,
    pub effects: Effects,
}

/// The colour a theme fills shapes of one fill type with.
#[derive(Debug, PartialEq, Eq)]
pub struct FillPreset {
    pub fill_type: String,
    pub color: Color,
}

/// Style presets by role. Where a role occurs twice, the first preset counts.
#[derive(Debug, PartialEq, Eq)]
pub struct Theme {
    pub strokes: Vec<StrokePreset>,
    pub effects: Vec<EffectsPreset>,
    pub fills: Vec<FillPreset>,
}

/// The mathematical content of a [`Theme`]: its presets by role, in their
/// order.
pub struct ThemeView {
    pub strokes: Seq<(Seq<char>, StrokeView)>,
    pub effects: Seq<(Seq<char>, EffectsView)>,
    pub fills: Seq<(Seq<char>, Color)>,
}

/// The value of the first entry of `table` whose key is `key`.
pub open spec fn lookup<T>(table: Seq<(Seq<char>, T)>, key: Seq<char>) -> Option<T>
    decreases table.len(),
{
    if table.len() == 0 {
        None
    } else if table[0].0 == key {
        Some(table[0].1)
    } else {
        lookup(table.drop_first(), key)
    }
}

impl ThemeView {
    /// The line style of `role`, if the theme has one.
    pub open spec fn stroke(self, role: Seq<char>) -> Option<StrokeView> {
        lookup(self.strokes, role)
    }

    /// The text style of `role`, if the theme has one.
    pub open spec fn effects(self, role: Seq<char>) -> Option<EffectsView> {
        lookup(self.effects, role)
    }

    /// The colour shapes of `fill_type` are filled with, if any.
    pub open spec fn color(self, fill_type: Seq<char>) -> Option<Color> {
        lookup(self.fills, fill_type)
    }
}

impl View for Theme {
    type V = ThemeView;

    open spec fn view(&self) -> ThemeView {
        ThemeView {
            strokes: self.strokes@.map_values(|p: StrokePreset| (p.role@, p.stroke@)),
            effects: self.effects@.map_values(|p: EffectsPreset| (p.role@, p.effects@)),
            fills: self.fills@.map_values(|p: FillPreset| (p.fill_type@, p.color)),
        }
    }
}

/// What a failed lookup of the preset `kind` for `role` reports.
pub open spec fn theme_error(kind: Seq<char>, role: Seq<char>) -> ErrorView {
    ErrorView::Theme(kind, role)
}

/// The answer to a lookup that found `found`.
pub open spec fn found_or_error<T>(found: Option<T>, kind: Seq<char>, role: Seq<char>) -> Result<
    T,
    ErrorView,
> {
    match found {
        Some(v) => Ok(v),
        None => Err(theme_error(kind, role)),
    }
}

/// Skipping an entry with another key does not change what a lookup finds.
proof fn lemma_lookup_skip<T>(table: Seq<(Seq<char>, T)>, key: Seq<char>, i: int)
    requires
        0 <= i < table.len(),
        table[i].0 != key,
    ensures
        lookup(table.skip(i), key) == lookup(table.skip(i + 1), key),
{
    assert(table.skip(i).drop_first() =~= table.skip(i + 1));
}

impl Theme {
    /// The line style of `role`, or [`Error::Theme`] naming `stroke` and the
    /// role where the theme has none.
    pub fn stroke(&self, role: &str) -> (res: Result<Stroke, Error>)
        ensures
            match res {
                Ok(s) => Ok::<StrokeView, ErrorView>(s@),
                Err(e) => Err(e@),
            } == found_or_error(self@.stroke(role@), "stroke"@, role@),
    {
        let key = String::from_str(role);
        let ghost table = self@.strokes;
        let mut i: usize = 0;
        assert(table.skip(0) =~= table);
        while i < self.strokes.len()
            invariant
                i <= self.strokes@.len(),
                table == self@.strokes,
                key@ == role@,
                lookup(table, role@) == lookup(table.skip(i as int), role@),
            decreases self.strokes@.len() - i,
        {
            if self.strokes[i].role == key {
                return Ok(self.strokes[i].stroke.clone());
            }
            proof {
                lemma_lookup_skip(table, role@, i as int);
            }
            i += 1;
        }
        Err(Error::Theme(String::from_str("stroke"), key))
    }

    /// The text style of `role`, or [`Error::Theme`] naming `effects` and the
    /// role where the theme has none.
    pub fn effects(&self, role: &str) -> (res: Result<Effects, Error>)
        ensures
            match res {
                Ok(s) => Ok::<EffectsView, ErrorView>(s@),
                Err(e) => Err(e@),
            } == found_or_error(self@.effects(role@), "effects"@, role@),
    {
        let key = String::from_str(role);
        let ghost table = self@.effects;
        let mut i: usize = 0;
        assert(table.skip(0) =~= table);
        while i < self.effects.len()
            invariant
                i <= self.effects@.len(),
                table == self@.effects,
                key@ == role@,
                lookup(table, role@) == lookup(table.skip(i as int), role@),
            decreases self.effects@.len() - i,
        {
            if self.effects[i].role == key {
                return Ok(self.effects[i].effects.clone());
            }
            proof {
                lemma_lookup_skip(table, role@, i as int);
            }
            i += 1;
        }
        Err(Error::Theme(String::from_str("effects"), key))
    }

    /// The colour shapes of `fill_type` are filled with; `None` where the
    /// theme leaves them unfilled.
    pub fn color(&self, fill_type: &str) -> (res: Option<Color>)
        ensures
            res == self@.color(fill_type@),
    {
        let key = String::from_str(fill_type);
        let ghost table = self@.fills;
        let mut i: usize = 0;
        assert(table.skip(0) =~= table);
        while i < self.fills.len()
            invariant
                i <= self.fills@.len(),
                table == self@.fills,
                key@ == fill_type@,
                lookup(table, fill_type@) == lookup(table.skip(i as int), fill_type@),
            decreases self.fills@.len() - i,
        {
            if self.fills[i].fill_type == key {
                return Some(self.fills[i].color);
            }
            proof {
                lemma_lookup_skip(table, fill_type@, i as int);
            }
            i += 1;
        }
        None
    }
}

/// Width of every line but a bus.
pub const LINE_WIDTH: i64 = 1_524;

/// Width of a bus.
pub const BUS_WIDTH: i64 = 3_048;

/// Height of every text.
pub const FONT_SIZE: i64 = 12_700;

/// The colours that make a built-in theme.
#[derive(Clone, Copy, Debug, PartialEq, Eq, Structural)]
pub struct Palette {
    pub wire: Color,
    pub bus: Color,
    pub pin: Color,
    pub symbol: Color,
    pub no_connect: Color,
    pub junction: Color,
    pub text: Color,
    pub label: Color,
    pub global_label: Color,
    pub pin_name: Color,
    pub pin_number: Color,
    pub property: Color,
    pub background: Color,
}

/// The preset of a line of the given width and colour.
pub open spec fn line_preset(width: i64, color: Color) -> StrokeView {
    StrokeView { width, linetype: "default"@, color }
}

/// The preset of a text of the given colour.
pub open spec fn text_preset(color: Color) -> EffectsView {
    EffectsView {
        font: "osifont"@,
        color,
        font_size: FONT_SIZE,
        justify: Align { left: false, right: false, top: false, bottom: false, center: false },
        hide: false,
    }
}

/// The theme with the colours of `p`: a line style for each of the roles
/// wire, bus, pin, symbol, no_connect and junction, a text style for each of
/// text, label, global_label, pin_name, pin_number, property and symbol, and
/// the fill types background and outline.
pub open spec fn palette_theme(p: Palette) -> ThemeView {
    ThemeView {
        strokes: seq![
            ("wire"@, line_preset(LINE_WIDTH, p.wire)),
            ("bus"@, line_preset(BUS_WIDTH, p.bus)),
            ("pin"@, line_preset(LINE_WIDTH, p.pin)),
            ("symbol"@, line_preset(LINE_WIDTH, p.symbol)),
            ("no_connect"@, line_preset(LINE_WIDTH, p.no_connect)),
            ("junction"@, line_preset(LINE_WIDTH, p.junction)),
        ],
        effects: seq![
            ("text"@, text_preset(p.text)),
            ("label"@, text_preset(p.label)),
            ("global_label"@, text_preset(p.global_label)),
            ("pin_name"@, text_preset(p.pin_name)),
            ("pin_number"@, text_preset(p.pin_number)),
            ("property"@, text_preset(p.property)),
            ("symbol"@, text_preset(p.symbol)),
        ],
        fills: seq![("background"@, p.background), ("outline"@, p.symbol)],
    }
}

/// The colours of the theme `kicad_2000`.
pub open spec fn kicad_2000_palette() -> Palette {
    Palette {
        wire: Color { r: 0, g: 5_882, b: 0, a: 10_000 },
        bus: Color { r: 0, g: 0, b: 5_176, a: 10_000 },
        pin: Color { r: 5_176, g: 0, b: 0, a: 10_000 },
        symbol: Color { r: 5_176, g: 0, b: 0, a: 10_000 },
        no_connect: Color { r: 0, g: 0, b: 5_176, a: 10_000 },
        junction: Color { r: 0, g: 5_882, b: 0, a: 10_000 },
        text: Color { r: 0, g: 0, b: 7_608, a: 10_000 },
        label: Color { r: 0, g: 0, b: 0, a: 10_000 },
        global_label: Color { r: 5_176, g: 0, b: 0, a: 10_000 },
        pin_name: Color { r: 0, g: 3_922, b: 3_922, a: 10_000 },
        pin_number: Color { r: 6_627, g: 0, b: 0, a: 10_000 },
        property: Color { r: 0, g: 5_176, b: 5_176, a: 10_000 },
        background: Color { r: 10_000, g: 10_000, b: 7_608, a: 10_000 },
    }
}

/// The palette with `ink` for every line and text and `paper` for filled
/// backgrounds.
pub open spec fn uniform_palette(ink: Color, paper: Color) -> Palette {
    Palette {
        wire: ink,
        bus: ink,
        pin: ink,
        symbol: ink,
        no_connect: ink,
        junction: ink,
        text: ink,
        label: ink,
        global_label: ink,
        pin_name: ink,
        pin_number: ink,
        property: ink,
        background: paper,
    }
}

/// The colours of the theme `mono`: black on white.
pub open spec fn mono_palette() -> Palette {
    uniform_palette(
        Color { r: 0, g: 0, b: 0, a: 10_000 },
        Color { r: 10_000, g: 10_000, b: 10_000, a: 10_000 },
    )
}

/// The line preset of `role`.
fn line(role: &str, width: i64, color: Color) -> (p: StrokePreset)
    ensures
        p.role@ == role@,
        p.stroke@ == line_preset(width, color),
{
    StrokePreset {
        role: String::from_str(role),
        stroke: Stroke { width, linetype: String::from_str("default"), color },
    }
}

/// The text preset of `role`.
fn text(role: &str, color: Color) -> (p: EffectsPreset)
    ensures
        p.role@ == role@,
        p.effects@ == text_preset(color),
{
    EffectsPreset {
        role: String::from_str(role),
        effects: Effects {
            font: String::from_str("osifont"),
            color,
            font_size: FONT_SIZE,
            justify: Align::none(),
            hide: false,
        },
    }
}

/// The fill preset of `fill_type`.
fn fill(fill_type: &str, color: Color) -> (p: FillPreset)
    ensures
        p.fill_type@ == fill_type@,
        p.color == color,
{
    FillPreset { fill_type: String::from_str(fill_type), color }
}

impl Theme {
    /// The built-in theme with the colours of `p`.
    pub fn from_palette(p: Palette) -> (theme: Theme)
        ensures
            theme@ == palette_theme(p),
    {
        let mut strokes: Vec<StrokePreset> = Vec::new();
        strokes.push(line("wire", LINE_WIDTH, p.wire));
        strokes.push(line("bus", BUS_WIDTH, p.bus));
        strokes.push(line("pin", LINE_WIDTH, p.pin));
        strokes.push(line("symbol", LINE_WIDTH, p.symbol));
        strokes.push(line("no_connect", LINE_WIDTH, p.no_connect));
        strokes.push(line("junction", LINE_WIDTH, p.junction));
        let mut effects: Vec<EffectsPreset> = Vec::new();
        effects.push(text("text", p.text));
        effects.push(text("label", p.label));
        effects.push(text("global_label", p.global_label));
        effects.push(text("pin_name", p.pin_name));
        effects.push(text("pin_number", p.pin_number));
        effects.push(text("property", p.property));
        effects.push(text("symbol", p.symbol));
        let mut fills: Vec<FillPreset> = Vec::new();
        fills.push(fill("background", p.background));
        fills.push(fill("outline", p.symbol));
        let theme = Theme { strokes, effects, fills };
        assert(theme@.strokes =~= palette_theme(p).strokes);
        assert(theme@.effects =~= palette_theme(p).effects);
        assert(theme@.fills =~= palette_theme(p).fills);
        theme
    }

    /// The full-colour theme.
    pub fn kicad_2000() -> (theme: Theme)
        ensures
            theme@ == palette_theme(kicad_2000_palette()),
    {
        Theme::from_palette(
            Palette {
                wire: Color { r: 0, g: 5_882, b: 0, a: 10_000 },
                bus: Color { r: 0, g: 0, b: 5_176, a: 10_000 },
                pin: Color { r: 5_176, g: 0, b: 0, a: 10_000 },
                symbol: Color { r: 5_176, g: 0, b: 0, a: 10_000 },
                no_connect: Color { r: 0, g: 0, b: 5_176, a: 10_000 },
                junction: Color { r: 0, g: 5_882, b: 0, a: 10_000 },
                text: Color { r: 0, g: 0, b: 7_608, a: 10_000 },
                label: Color { r: 0, g: 0, b: 0, a: 10_000 },
                global_label: Color { r: 5_176, g: 0, b: 0, a: 10_000 },
                pin_name: Color { r: 0, g: 3_922, b: 3_922, a: 10_000 },
                pin_number: Color { r: 6_627, g: 0, b: 0, a: 10_000 },
                property: Color { r: 0, g: 5_176, b: 5_176, a: 10_000 },
                background: Color { r: 10_000, g: 10_000, b: 7_608, a: 10_000 },
            },
        )
    }

    /// The black-on-white theme.
    pub fn mono() -> (theme: Theme)
        ensures
            theme@ == palette_theme(mono_palette()),
    {
        let ink = Color { r: 0, g: 0, b: 0, a: 10_000 };
        let paper = Color { r: 10_000, g: 10_000, b: 10_000, a: 10_000 };
        Theme::from_palette(
            Palette {
                wire: ink,
                bus: ink,
                pin: ink,
                symbol: ink,
                no_connect: ink,
                junction: ink,
                text: ink,
                label: ink,
                global_label: ink,
                pin_name: ink,
                pin_number: ink,
                property: ink,
                background: paper,
            },
        )
    }

    /// The built-in theme of the given name: `kicad_2000` or `mono`. Any
    /// other name is an [`Error::Theme`] that names `theme` and the name.
    pub fn by_name(name: &str) -> (res: Result<Theme, Error>)
        ensures
            match res {
                Ok(theme) => Ok::<ThemeView, ErrorView>(theme@),
                Err(e) => Err(e@),
            } == theme_named(name@),
    {
        let wanted = String::from_str(name);
        if wanted == String::from_str("mono") {
            Ok(Theme::mono())
        } else if wanted == String::from_str("kicad_2000") {
            Ok(Theme::kicad_2000())
        } else {
            Err(Error::Theme(String::from_str("theme"), wanted))
        }
    }
}

/// The built-in theme that `name` names, or the error that there is none:
/// it names `theme` and the name.
pub open spec fn theme_named(name: Seq<char>) -> Result<ThemeView, ErrorView> {
    if name == "mono"@ {
        Ok(palette_theme(mono_palette()))
    } else if name == "kicad_2000"@ {
        Ok(palette_theme(kicad_2000_palette()))
    } else {
        Err(theme_error("theme"@, name))
    }
}

/// A built-in theme knows every role: each resolves to the preset with the
/// palette's colour for it.
pub proof fn lemma_palette_theme_complete(p: Palette)
    ensures
        palette_theme(p).stroke("wire"@) == Some(line_preset(LINE_WIDTH, p.wire)),
        palette_theme(p).stroke("bus"@) == Some(line_preset(BUS_WIDTH, p.bus)),
        palette_theme(p).stroke("pin"@) == Some(line_preset(LINE_WIDTH, p.pin)),
        palette_theme(p).stroke("symbol"@) == Some(line_preset(LINE_WIDTH, p.symbol)),
        palette_theme(p).stroke("no_connect"@) == Some(line_preset(LINE_WIDTH, p.no_connect)),
        palette_theme(p).stroke("junction"@) == Some(line_preset(LINE_WIDTH, p.junction)),
        palette_theme(p).effects("text"@) == Some(text_preset(p.text)),
        palette_theme(p).effects("label"@) == Some(text_preset(p.label)),
        palette_theme(p).effects("global_label"@) == Some(text_preset(p.global_label)),
        palette_theme(p).effects("pin_name"@) == Some(text_preset(p.pin_name)),
        palette_theme(p).effects("pin_number"@) == Some(text_preset(p.pin_number)),
        palette_theme(p).effects("property"@) == Some(text_preset(p.property)),
        palette_theme(p).effects("symbol"@) == Some(text_preset(p.symbol)),
        palette_theme(p).color("background"@) == Some(p.background),
        palette_theme(p).color("outline"@) == Some(p.symbol),
        palette_theme(p).color("none"@) == None::<Color>,
{
    reveal_strlit("wire");
    reveal_strlit("bus");
    reveal_strlit("pin");
    reveal_strlit("symbol");
    reveal_strlit("no_connect");
    reveal_strlit("junction");
    reveal_strlit("text");
    reveal_strlit("label");
    reveal_strlit("global_label");
    reveal_strlit("pin_name");
    reveal_strlit("pin_number");
    reveal_strlit("property");
    reveal_strlit("background");
    reveal_strlit("outline");
    reveal_strlit("none");
    let t = palette_theme(p);
    assert("wire"@.len() == 4 && "bus"@.len() == 3 && "pin"@.len() == 3 && "symbol"@.len() == 6);
    assert("no_connect"@.len() == 10 && "junction"@.len() == 8 && "text"@.len() == 4);
    assert("label"@.len() == 5 && "global_label"@.len() == 12 && "pin_name"@.len() == 8);
    assert("pin_number"@.len() == 10 && "property"@.len() == 8 && "background"@.len() == 10);
    assert("outline"@.len() == 7 && "none"@.len() == 4);
    assert("bus"@[0] == 'b' && "pin"@[0] == 'p');
    assert("pin_name"@[1] == 'i' && "property"@[1] == 'r');
    assert(t.strokes.len() == 6 && t.effects.len() == 7 && t.fills.len() == 2);
    lemma_lookup_at(t.strokes, 0);
    lemma_lookup_at(t.strokes, 1);
    lemma_lookup_at(t.strokes, 2);
    lemma_lookup_at(t.strokes, 3);
    lemma_lookup_at(t.strokes, 4);
    lemma_lookup_at(t.strokes, 5);
    lemma_lookup_at(t.effects, 0);
    lemma_lookup_at(t.effects, 1);
    lemma_lookup_at(t.effects, 2);
    lemma_lookup_at(t.effects, 3);
    lemma_lookup_at(t.effects, 4);
    lemma_lookup_at(t.effects, 5);
    lemma_lookup_at(t.effects, 6);
    lemma_lookup_at(t.fills, 0);
    lemma_lookup_at(t.fills, 1);
    lemma_lookup_absent(t.fills, "none"@);
}

/// An entry that no earlier entry shares its key with is what a lookup of
/// its key finds.
pub proof fn lemma_lookup_at<T>(table: Seq<(Seq<char>, T)>, i: int)
    requires
        0 <= i < table.len(),
        forall|k: int| 0 <= k < i ==> (#[trigger] table[k]).0 != table[i].0,
    ensures
        lookup(table, table[i].0) == Some(table[i].1),
    decreases i,
{
    if i > 0 {
        let rest = table.drop_first();
        assert(rest[i - 1] == table[i]);
        assert forall|k: int| 0 <= k < i - 1 implies (#[trigger] rest[k]).0 != rest[i - 1].0 by {
            assert(rest[k] == table[k + 1]);
        }
        lemma_lookup_at(rest, i - 1);
        assert(table[0].0 != table[i].0);
    }
}

/// A key that no entry has is not found.
pub proof fn lemma_lookup_absent<T>(table: Seq<(Seq<char>, T)>, key: Seq<char>)
    requires
        forall|k: int| 0 <= k < table.len() ==> (#[trigger] table[k]).0 != key,
    ensures
        lookup(table, key) == None::<T>,
    decreases table.len(),
{
    if table.len() > 0 {
        let rest = table.drop_first();
        assert forall|k: int| 0 <= k < rest.len() implies (#[trigger] rest[k]).0 != key by {
            assert(rest[k] == table[k + 1]);
        }
        lemma_lookup_absent(rest, key);
        assert(table[0].0 != key);
    }
}

} // verus!
