//! The panel geometry: where the list, the side panel and the input box go
//! on a terminal of a given size.
//!
//! A margin of [`MARGIN`] cells is kept free on every side for the outer
//! frame. What is left, the interior, is cut into a top and a bottom region,
//! and the top region into a left and a right one. A panel that is switched
//! off gives its share to its neighbour and keeps a region without extent.

use vstd::prelude::*;
use crate::config::UiConfig;

verus! {

/// The cells kept free on every side of the terminal.
pub const MARGIN: u16 = 3;

/// A rectangle of terminal cells: the column and row of its top left cell,
/// and its extent.
#[derive(Clone, Copy, Debug, PartialEq, Eq, Structural)]
pub struct LayoutRegion {
    pub x: u16,
    pub y: u16,
    pub width: u16,
    pub height: u16,
}

/// The regions of one frame.
#[derive(Clone, Copy, Debug, PartialEq, Eq, Structural)]
pub struct Regions {
    /// The upper part of the interior: `left` and `right` side by side.
    pub top: LayoutRegion,
    /// The lower part of the interior, for the input box.
    pub bottom: LayoutRegion,
    /// The left part of `top`, for the list.
    pub left: LayoutRegion,
    /// The right part of `top`, for the side panel.
    pub right: LayoutRegion,
}

/// The region without extent at the origin.
pub open spec fn empty_region() -> LayoutRegion {
    LayoutRegion { x: 0, y: 0, width: 0, height: 0 }
}

/// What is left of a `width` by `height` terminal inside the margin. A
/// terminal too small to hold the margin on both sides, in either direction,
/// has the empty region as its interior.
pub open spec fn interior(width: u16, height: u16) -> LayoutRegion {
    if width < 2 * MARGIN || height < 2 * MARGIN {
        empty_region()
    } else {
        LayoutRegion {
            x: MARGIN,
            y: MARGIN,
            width: (width - 2 * MARGIN) as u16,
            height: (height - 2 * MARGIN) as u16,
        }
    }
}

/// The rows of the top region in an interior of `height` rows: 90 percent
/// of them, rounded down, while the input box is shown, and all of them
/// while it is hidden.
pub open spec fn top_rows(height: u16, config: UiConfig) -> int {
    if config.typebox {
        height * 90 / 100
    } else {
        height as int
    }
}

/// The columns of the left region in a top region of `width` columns: 80
/// percent of them, rounded down, while the side panel is shown, and all of
/// them while it is hidden.
pub open spec fn left_columns(width: u16, config: UiConfig) -> int {
    if config.projects {
        width * 80 / 100
    } else {
        width as int
    }
}

/// The upper `rows` rows of `area`.
pub open spec fn upper_part(area: LayoutRegion, rows: int) -> LayoutRegion {
    LayoutRegion { x: area.x, y: area.y, width: area.width, height: rows as u16 }
}

/// What is left of `area` below its upper `rows` rows.
pub open spec fn lower_part(area: LayoutRegion, rows: int) -> LayoutRegion {
    LayoutRegion {
        x: area.x,
        y: (area.y + rows) as u16,
        width: area.width,
        height: (area.height - rows) as u16,
    }
}

/// The leftmost `columns` columns of `area`.
pub open spec fn left_part(area: LayoutRegion, columns: int) -> LayoutRegion {
    LayoutRegion { x: area.x, y: area.y, width: columns as u16, height: area.height }
}

/// What is left of `area` to the right of its leftmost `columns` columns.
pub open spec fn right_part(area: LayoutRegion, columns: int) -> LayoutRegion {
    LayoutRegion {
        x: (area.x + columns) as u16,
        y: area.y,
        width: (area.width - columns) as u16,
        height: area.height,
    }
}

/// The regions of a frame on a `width` by `height` terminal.
pub open spec fn layout(width: u16, height: u16, config: UiConfig) -> Regions {
    let inner = interior(width, height);
    let rows = top_rows(inner.height, config);
    let top = upper_part(inner, rows);
    let columns = left_columns(top.width, config);
    Regions {
        top,
        bottom: lower_part(inner, rows),
        left: left_part(top, columns),
        right: right_part(top, columns),
    }
}

/// The rows of the top region in an interior of `height` rows.
fn top_rows_of(height: u16, config: UiConfig) -> (rows: u16)
    ensures
        rows == top_rows(height, config),
        rows <= height,
{
    if config.typebox {
        ((height as u32) * 90 / 100) as u16
    } else {
        height
    }
}

/// The columns of the left region in a top region of `width` columns.
fn left_columns_of(width: u16, config: UiConfig) -> (columns: u16)
    ensures
        columns == left_columns(width, config),
        columns <= width,
{
    if config.projects {
        ((width as u32) * 80 / 100) as u16
    } else {
        width
    }
}

/// What is left of a `width` by `height` terminal inside the margin.
fn interior_of(width: u16, height: u16) -> (inner: LayoutRegion)
    ensures
        inner == interior(width, height),
{
    if width < 2 * MARGIN || height < 2 * MARGIN {
        LayoutRegion { x: 0, y: 0, width: 0, height: 0 }
    } else {
        LayoutRegion {
            x: MARGIN,
            y: MARGIN,
            width: width - 2 * MARGIN,
            height: height - 2 * MARGIN,
        }
    }
}

/// Computes the regions of a frame on a `width` by `height` terminal.
pub fn compute(width: u16, height: u16, config: UiConfig) -> (regions: Regions)
    ensures
        regions == layout(width, height, config),
{
    let inner: LayoutRegion = interior_of(width, height);
    let rows: u16 = top_rows_of(inner.height, config);
    let columns: u16 = left_columns_of(inner.width, config);
    Regions {
        top: LayoutRegion { x: inner.x, y: inner.y, width: inner.width, height: rows },
        bottom: LayoutRegion {
            x: inner.x,
            y: inner.y + rows,
            width: inner.width,
            height: inner.height - rows,
        },
        left: LayoutRegion { x: inner.x, y: inner.y, width: columns, height: rows },
        right: LayoutRegion {
            x: inner.x + columns,
            y: inner.y,
            width: inner.width - columns,
            height: rows,
        },
    }
}

/// With both panels hidden the top region is the whole interior, and so is
/// the left region; the bottom region has no height and the right region no
/// width.
pub proof fn lemma_layout_all_hidden(width: u16, height: u16)
    ensures
        ({
            let regions = layout(width, height, UiConfig { projects: false, typebox: false });
            let inner = interior(width, height);
            &&& regions.top == inner
            &&& regions.left == inner
            &&& regions.bottom.height == 0
            &&& regions.right.width == 0
        }),
{
}

/// With both panels shown the top region takes 90 percent of the interior's
/// height, and the left region 80 percent of the top region's width; the
/// bottom and the right region take what is left.
pub proof fn lemma_layout_all_shown(width: u16, height: u16)
    ensures
        ({
            let regions = layout(width, height, UiConfig { projects: true, typebox: true });
            let inner = interior(width, height);
            &&& regions.top.width == inner.width
            &&& regions.top.height == inner.height * 90 / 100
            &&& regions.left.width == regions.top.width * 80 / 100
            &&& regions.left.height == regions.top.height
            &&& regions.bottom.height == inner.height - regions.top.height
            &&& regions.right.width == regions.top.width - regions.left.width
        }),
{
}

/// Whatever the toggles, the regions tile the interior: the bottom region
/// lies under the top region and both span the interior's width; the right
/// region lies beside the left region and both span the top region's height.
/// The interior, and so every region, lies inside the terminal.
pub proof fn lemma_layout_tiles_interior(width: u16, height: u16, config: UiConfig)
    ensures
        ({
            let regions = layout(width, height, config);
            let inner = interior(width, height);
            &&& regions.top.x == inner.x && regions.top.y == inner.y
            &&& regions.top.width == inner.width && regions.bottom.width == inner.width
            &&& regions.bottom.x == inner.x
            &&& regions.bottom.y == inner.y + regions.top.height
            &&& regions.top.height + regions.bottom.height == inner.height
            &&& regions.left.x == regions.top.x && regions.left.y == regions.top.y
            &&& regions.left.height == regions.top.height
            &&& regions.right.height == regions.top.height
            &&& regions.right.y == regions.top.y
            &&& regions.right.x == regions.top.x + regions.left.width
            &&& regions.left.width + regions.right.width == regions.top.width
            &&& inner.x + inner.width <= width
            &&& inner.y + inner.height <= height
        }),
{
}

} // verus!
