//! The frame around a page of fixed size and the texts of its title block.

use vstd::prelude::*;
use vstd::string::*;
use crate::document::TitleBlock;
use crate::drawable::made_wf;
use crate::error::Error;
use crate::items::{item_views, PlotItem, PlotItemView, Rectangle, RectangleView, Text};
use crate::parts::{
    effects_for, extend, no_items, pair, result_view, single, stroke_for, text_item, then,
    two_points, Items, Z_PAGE,
};
use crate::theme::{Effects, Theme, ThemeView};
use crate::transform::pt;
use crate::units::{item_range, ITEM_LIMIT, Point};

verus! {

/// Distance of the frame from the edge of the paper.
pub const BORDER_MARGIN: i64 = 50_000;

/// Distance of the title block's texts from the right side of the frame.
pub const TITLE_BLOCK_WIDTH: i64 = 1_000_000;

/// Distance between the base lines of the title block's texts.
pub const TITLE_BLOCK_LINE: i64 = 50_000;

/// The frame: an unfilled rectangle one margin inside the paper, in the line
/// style of the role `symbol`.
pub open spec fn frame_item(paper: (i64, i64), theme: ThemeView) -> Items {
    match stroke_for(theme, "symbol"@) {
        Err(e) => Err(e),
        Ok(s) => Ok(
            seq![
                PlotItemView::Rectangle(
                    Z_PAGE,
                    RectangleView {
                        pts: seq![
                            pt(BORDER_MARGIN as int, BORDER_MARGIN as int),
                            pt(paper.0 - BORDER_MARGIN, paper.1 - BORDER_MARGIN),
                        ],
                        color: s.color,
                        linewidth: s.width,
                        linetype: s.linetype,
                        fill: None,
                    },
                ),
            ],
        ),
    }
}

/// Where line `line` of the title block starts, counted up from the bottom
/// of the frame.
pub open spec fn title_block_pos(paper: (i64, i64), line: int) -> Point {
    pt(
        paper.0 - BORDER_MARGIN - TITLE_BLOCK_WIDTH,
        paper.1 - BORDER_MARGIN - line * TITLE_BLOCK_LINE,
    )
}

/// The texts of a title block in the text style of the role `text`: from
/// top to bottom title, company, revision and date. No title block, no text.
pub open spec fn title_block_items(title_block: Option<TitleBlock>, paper: (i64, i64), theme: ThemeView) -> Items {
    match title_block {
        None => Ok(Seq::empty()),
        Some(tb) => match effects_for(theme, "text"@) {
            Err(e) => Err(e),
            Ok(e) => Ok(
                seq![
                    text_item(Z_PAGE, title_block_pos(paper, 4), 0, tb.title@, e, false),
                    text_item(Z_PAGE, title_block_pos(paper, 3), 0, tb.company@, e, false),
                    text_item(Z_PAGE, title_block_pos(paper, 2), 0, tb.rev@, e, false),
                    text_item(Z_PAGE, title_block_pos(paper, 1), 0, tb.date@, e, false),
                ],
            ),
        },
    }
}

/// The border of a page: the frame, then the texts of the title block.
pub open spec fn border_items(title_block: Option<TitleBlock>, paper: (i64, i64), theme: ThemeView) -> Items {
    then(frame_item(paper, theme), title_block_items(title_block, paper, theme))
}

/// The text of line `line` of the title block.
fn title_text(paper: (i64, i64), line: i64, text: &String, effects: &Effects) -> (item: PlotItem)
    requires
        item_range(paper.0 as int),
        item_range(paper.1 as int),
        1 <= line <= 4,
    ensures
        item@ == text_item(Z_PAGE, title_block_pos(paper, line as int), 0, text@, effects@, false),
{
    PlotItem::Text(
        Z_PAGE,
        Text::new(
            Point {
                x: paper.0 - BORDER_MARGIN - TITLE_BLOCK_WIDTH,
                y: paper.1 - BORDER_MARGIN - line * TITLE_BLOCK_LINE,
            },
            0,
            text.clone(),
            effects.color,
            effects.font_size,
            effects.font.as_str(),
            effects.justify,
            false,
        ),
    )
}

/// The primitives of the border of a page of size `paper_size`.
pub fn draw_border(title_block: &Option<TitleBlock>, paper_size: (i64, i64), theme: &Theme) -> (res: Result<
    Vec<PlotItem>,
    Error,
>)
    requires
        item_range(paper_size.0 as int),
        item_range(paper_size.1 as int),
    ensures
        result_view(res) == border_items(*title_block, paper_size, theme@),
{
    let stroke = match theme.stroke("symbol") {
        Ok(s) => s,
        Err(e) => {
            return Err(e);
        },
    };
    let corners = two_points(
        Point { x: BORDER_MARGIN, y: BORDER_MARGIN },
        Point { x: paper_size.0 - BORDER_MARGIN, y: paper_size.1 - BORDER_MARGIN },
    );
    let mut items = single(
        PlotItem::Rectangle(Z_PAGE, Rectangle::new(corners, stroke.color, stroke.width, stroke.linetype, None)),
    );
    match title_block {
        None => extend(&mut items, no_items()),
        Some(tb) => {
            let effects = match theme.effects("text") {
                Ok(e) => e,
                Err(e) => {
                    return Err(e);
                },
            };
            let title = title_text(paper_size, 4, &tb.title, &effects);
            let company = title_text(paper_size, 3, &tb.company, &effects);
            let rev = title_text(paper_size, 2, &tb.rev, &effects);
            let date = title_text(paper_size, 1, &tb.date, &effects);
            let mut texts = pair(title, company);
            extend(&mut texts, pair(rev, date));
            assert(item_views(texts@) =~= seq![title@, company@, rev@, date@]);
            extend(&mut items, texts);
        },
    }
    Ok(items)
}

/// The border of a paper that is small enough is well formed: it can be
/// measured and drawn.
pub proof fn lemma_border_items_wf(title_block: Option<TitleBlock>, paper: (i64, i64), theme: ThemeView)
    requires
        0 <= paper.0 <= ITEM_LIMIT,
        0 <= paper.1 <= ITEM_LIMIT,
    ensures
        made_wf(border_items(title_block, paper, theme)),
{
    if let Ok(frame) = frame_item(paper, theme) {
        assert(frame[0].wf());
    }
    if let Ok(texts) = title_block_items(title_block, paper, theme) {
        if texts.len() > 0 {
            assert(texts[0].wf() && texts[1].wf() && texts[2].wf() && texts[3].wf());
        }
    }
}

} // verus!
