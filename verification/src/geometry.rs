//! From a touch position to a cell of the grid or a hit of a hot-zone.
//!
//! Everything here is integer arithmetic with rounding toward zero. It is
//! carried out in 64 bits, so that every formula holds for every 32-bit
//! coordinate and every calibration, however degenerate.

use vstd::prelude::*;
use crate::arith::{
    lemma_trunc_div_bounds, lemma_trunc_div_monotone, lemma_trunc_div_quotient, max_span,
    non_neg_sub, trunc_div,
};
use crate::keys::{cell_key, key_in_cell, Key, COLS, ROWS};
use crate::percent::{percent_of, portion, Percent};

verus! {

/// The coordinate range that the touchpad reports.
#[derive(Clone, Copy, Debug, PartialEq, Eq, Structural)]
pub struct Bounds {
    pub min_x: i32,
    pub max_x: i32,
    pub min_y: i32,
    pub max_y: i32,
}

/// The margins between the edges of the pad and the grid, in percent of the
/// pad's width (left, right) and height (top, bottom).
#[derive(Clone, Copy, Debug, PartialEq, Eq, Structural)]
pub struct Offsets {
    pub left: u8,
    pub right: u8,
    pub top: u8,
    pub bottom: u8,
}

/// Horizontal limit of the toggle zone: percent from the right edge.
pub const TOGGLE_ZONE_X: i32 = 5;

/// Vertical limit of the toggle zone: percent from the top edge.
pub const TOGGLE_ZONE_Y: i32 = 9;

/// Horizontal limit of the shortcut zone: percent from the left edge.
pub const SHORTCUT_ZONE_X: i32 = 6;

/// Vertical limit of the shortcut zone: percent from the top edge.
pub const SHORTCUT_ZONE_Y: i32 = 7;

impl Offsets {
    /// Margins that leave part of every pad with a positive extent to the
    /// grid.
    pub open spec fn wf(self) -> bool {
        self.left + self.right < 100 && self.top + self.bottom < 100
    }

    /// The margins, where they leave room for a grid.
    pub fn new(left: u8, right: u8, top: u8, bottom: u8) -> (o: Option<Offsets>)
        ensures
            o == (if left + right < 100 && top + bottom < 100 {
                Some(Offsets { left, right, top, bottom })
            } else {
                None::<Offsets>
            }),
    {
        if (left as u16) + (right as u16) < 100 && (top as u16) + (bottom as u16) < 100 {
            Some(Offsets { left, right, top, bottom })
        } else {
            None
        }
    }

    /// The margins of the keypad: 7 percent left and right, 10 percent at the
    /// top, 4 percent at the bottom.
    pub fn standard() -> (o: Offsets)
        ensures
            o == (Offsets { left: 7, right: 7, top: 10, bottom: 4 }),
            o.wf(),
    {
        Offsets { left: 7, right: 7, top: 10, bottom: 4 }
    }
}

/// The cell, out of `cells` equal ones, that holds `pos` on an axis whose
/// grid starts at `origin` and is `extent` long.
///
/// There is none left of the origin, none where the biased extent
/// `extent + 1` is zero, and none where the quotient falls outside
/// `0..cells`.
pub open spec fn cell_index(pos: int, origin: int, extent: int, cells: int) -> Option<int> {
    if pos < origin || extent + 1 == 0 {
        None
    } else {
        let q = trunc_div((pos - origin) * cells, extent + 1);
        if 0 <= q < cells {
            Some(q)
        } else {
            None
        }
    }
}

/// Whether a position whose distances from two edges are `horizontal` and
/// `vertical` percent lies in the zone below both thresholds.
pub open spec fn in_zone(horizontal: int, vertical: int, threshold_x: int, threshold_y: int) -> bool {
    horizontal < threshold_x && vertical < threshold_y
}

/// Whether a position at the given percentages from two edges lies below
/// both thresholds.
pub fn is_in_zone(
    horizontal: Percent,
    vertical: Percent,
    threshold_x: Percent,
    threshold_y: Percent,
) -> (hit: bool)
    ensures
        hit == in_zone(horizontal@, vertical@, threshold_x@, threshold_y@),
{
    horizontal.below(threshold_x) && vertical.below(threshold_y)
}

/// The pad's calibration together with the margins of the grid.
#[derive(Clone, Copy, Debug, PartialEq, Eq, Structural)]
pub struct Geometry {
    pub bounds: Bounds,
    pub offsets: Offsets,
}

impl Geometry {
    /// Width of the pad.
    pub open spec fn pad_width(self) -> int {
        self.bounds.max_x - self.bounds.min_x
    }

    /// Height of the pad.
    pub open spec fn pad_height(self) -> int {
        self.bounds.max_y - self.bounds.min_y
    }

    /// Left edge of the grid.
    pub open spec fn grid_left(self) -> int {
        self.bounds.min_x + portion(self.offsets.left as int, self.pad_width())
    }

    /// Right edge of the grid.
    pub open spec fn grid_right(self) -> int {
        self.bounds.max_x - portion(self.offsets.right as int, self.pad_width())
    }

    /// Top edge of the grid.
    pub open spec fn grid_top(self) -> int {
        self.bounds.min_y + portion(self.offsets.top as int, self.pad_height())
    }

    /// Bottom edge of the grid.
    pub open spec fn grid_bottom(self) -> int {
        self.bounds.max_y - portion(self.offsets.bottom as int, self.pad_height())
    }

    /// Width of the grid.
    pub open spec fn grid_width(self) -> int {
        self.grid_right() - self.grid_left()
    }

    /// Height of the grid.
    pub open spec fn grid_height(self) -> int {
        self.grid_bottom() - self.grid_top()
    }

    /// The column of the grid that holds `x`.
    pub open spec fn column_of(self, x: int) -> Option<int> {
        cell_index(x, self.grid_left(), self.grid_width(), COLS as int)
    }

    /// The row of the grid that holds `y`.
    pub open spec fn row_of(self, y: int) -> Option<int> {
        cell_index(y, self.grid_top(), self.grid_height(), ROWS as int)
    }

    /// The key under a position: that of its row and column, where it has
    /// both.
    pub open spec fn key_of(self, x: int, y: int) -> Option<Key> {
        match (self.row_of(y), self.column_of(x)) {
            (Some(row), Some(col)) => cell_key(row, col),
            _ => None,
        }
    }

    /// Whether the position lies within the grid, its edges included.
    pub open spec fn inside_grid(self, x: int, y: int) -> bool {
        self.grid_left() <= x <= self.grid_right() && self.grid_top() <= y <= self.grid_bottom()
    }

    /// Distance from the left edge in percent of the width.
    pub open spec fn percent_from_left(self, x: int) -> int {
        percent_of(x - self.bounds.min_x, self.pad_width())
    }

    /// Distance from the right edge in percent of the width.
    pub open spec fn percent_from_right(self, x: int) -> int {
        percent_of(self.bounds.max_x - x, self.pad_width())
    }

    /// Distance from the top edge in percent of the height.
    pub open spec fn percent_from_top(self, y: int) -> int {
        percent_of(y - self.bounds.min_y, self.pad_height())
    }

    /// Distance from the bottom edge in percent of the height.
    pub open spec fn percent_from_bottom(self, y: int) -> int {
        percent_of(self.bounds.max_y - y, self.pad_height())
    }

    /// The zone in the top right corner that toggles the numpad.
    pub open spec fn in_toggle_zone(self, x: int, y: int) -> bool {
        in_zone(
            self.percent_from_right(x),
            self.percent_from_top(y),
            TOGGLE_ZONE_X as int,
            TOGGLE_ZONE_Y as int,
        )
    }

    /// The zone in the top left corner that fires the shortcut.
    pub open spec fn in_shortcut_zone(self, x: int, y: int) -> bool {
        in_zone(
            self.percent_from_left(x),
            self.percent_from_top(y),
            SHORTCUT_ZONE_X as int,
            SHORTCUT_ZONE_Y as int,
        )
    }

    /// The calibration with the given margins.
    pub fn new(bounds: Bounds, offsets: Offsets) -> (g: Geometry)
        ensures
            g == (Geometry { bounds, offsets }),
    {
        Geometry { bounds, offsets }
    }

    /// Width of the pad.
    pub fn width(&self) -> (w: i64)
        ensures
            w == self.pad_width(),
    {
        self.bounds.max_x as i64 - self.bounds.min_x as i64
    }

    /// Height of the pad.
    pub fn height(&self) -> (h: i64)
        ensures
            h == self.pad_height(),
    {
        self.bounds.max_y as i64 - self.bounds.min_y as i64
    }

    /// Distance of `x` from the left edge, in percent of the width.
    pub fn left_percent(&self, x: i32) -> (p: Percent)
        ensures
            p@ == self.percent_from_left(x as int),
    {
        Percent::ratio(x as i64 - self.bounds.min_x as i64, self.width())
    }

    /// Distance of `x` from the right edge, in percent of the width.
    pub fn right_percent(&self, x: i32) -> (p: Percent)
        ensures
            p@ == self.percent_from_right(x as int),
    {
        Percent::ratio(self.bounds.max_x as i64 - x as i64, self.width())
    }

    /// Distance of `y` from the top edge, in percent of the height.
    pub fn top_percent(&self, y: i32) -> (p: Percent)
        ensures
            p@ == self.percent_from_top(y as int),
    {
        Percent::ratio(y as i64 - self.bounds.min_y as i64, self.height())
    }

    /// Distance of `y` from the bottom edge, in percent of the height.
    pub fn bottom_percent(&self, y: i32) -> (p: Percent)
        ensures
            p@ == self.percent_from_bottom(y as int),
    {
        Percent::ratio(self.bounds.max_y as i64 - y as i64, self.height())
    }

    /// Whether the position lies in the zone that toggles the numpad: less
    /// than 5 percent from the right edge and less than 9 from the top.
    pub fn numlock_hit(&self, x: i32, y: i32) -> (hit: bool)
        ensures
            hit == self.in_toggle_zone(x as int, y as int),
    {
        is_in_zone(
            self.right_percent(x),
            self.top_percent(y),
            Percent::new(TOGGLE_ZONE_X),
            Percent::new(TOGGLE_ZONE_Y),
        )
    }

    /// Whether the position lies in the zone that fires the shortcut: less
    /// than 6 percent from the left edge and less than 7 from the top.
    pub fn calculator_hit(&self, x: i32, y: i32) -> (hit: bool)
        ensures
            hit == self.in_shortcut_zone(x as int, y as int),
    {
        is_in_zone(
            self.left_percent(x),
            self.top_percent(y),
            Percent::new(SHORTCUT_ZONE_X),
            Percent::new(SHORTCUT_ZONE_Y),
        )
    }

    /// Left edge of the grid.
    pub fn left_np(&self) -> (e: i64)
        ensures
            e == self.grid_left(),
    {
        self.bounds.min_x as i64 + margin(self.offsets.left, self.width())
    }

    /// Right edge of the grid.
    pub fn right_np(&self) -> (e: i64)
        ensures
            e == self.grid_right(),
    {
        self.bounds.max_x as i64 - margin(self.offsets.right, self.width())
    }

    /// Top edge of the grid.
    pub fn top_np(&self) -> (e: i64)
        ensures
            e == self.grid_top(),
    {
        self.bounds.min_y as i64 + margin(self.offsets.top, self.height())
    }

    /// Bottom edge of the grid.
    pub fn bottom_np(&self) -> (e: i64)
        ensures
            e == self.grid_bottom(),
    {
        self.bounds.max_y as i64 - margin(self.offsets.bottom, self.height())
    }

    /// Width of the grid.
    pub fn width_np(&self) -> (w: i64)
        ensures
            w == self.grid_width(),
    {
        proof {
            lemma_margin_bounds(self.offsets.left, self.pad_width());
            lemma_margin_bounds(self.offsets.right, self.pad_width());
        }
        self.right_np() - self.left_np()
    }

    /// Height of the grid.
    pub fn height_np(&self) -> (h: i64)
        ensures
            h == self.grid_height(),
    {
        proof {
            lemma_margin_bounds(self.offsets.top, self.pad_height());
            lemma_margin_bounds(self.offsets.bottom, self.pad_height());
        }
        self.bottom_np() - self.top_np()
    }

    /// The column of the grid that holds `x`.
    pub fn column_raw(&self, x: i32) -> (col: Option<usize>)
        ensures
            col matches Some(c) ==> self.column_of(x as int) == Some(c as int),
            col is None ==> self.column_of(x as int) is None,
    {
        proof {
            lemma_margin_bounds(self.offsets.left, self.pad_width());
            lemma_margin_bounds(self.offsets.right, self.pad_width());
        }
        locate(x, self.left_np(), self.width_np(), COLS)
    }

    /// The row of the grid that holds `y`.
    pub fn row_raw(&self, y: i32) -> (row: Option<usize>)
        ensures
            row matches Some(r) ==> self.row_of(y as int) == Some(r as int),
            row is None ==> self.row_of(y as int) is None,
    {
        proof {
            lemma_margin_bounds(self.offsets.top, self.pad_height());
            lemma_margin_bounds(self.offsets.bottom, self.pad_height());
        }
        locate(y, self.top_np(), self.height_np(), ROWS)
    }

    /// The key under the position, if it lies in a cell of the grid.
    ///
    /// There is no key left of the grid or above it, and there is one
    /// everywhere within the grid.
    pub fn key_at(&self, x: i32, y: i32) -> (key: Option<Key>)
        ensures
            key == self.key_of(x as int, y as int),
            x < self.grid_left() || y < self.grid_top() ==> key is None,
            self.inside_grid(x as int, y as int) ==> key is Some,
    {
        proof {
            if self.inside_grid(x as int, y as int) {
                lemma_key_inside_grid(*self, x as int, y as int);
            }
        }
        match self.row_raw(y) {
            Some(row) => match self.column_raw(x) {
                Some(col) => key_in_cell(row, col),
                None => None,
            },
            None => None,
        }
    }
}

/// The largest magnitude of a margin.
pub open spec fn margin_limit() -> int {
    255 * max_span()
}

/// A margin is at most 255 hundredths of the span, in magnitude.
pub proof fn lemma_margin_bounds(percent: u8, span: int)
    requires
        -max_span() <= span <= max_span(),
    ensures
        -margin_limit() <= portion(percent as int, span) <= margin_limit(),
{
    let p = percent as int;
    assert(-255 * max_span() <= span * p <= 255 * max_span()) by (nonlinear_arith)
        requires
            -max_span() <= span <= max_span(),
            0 <= p <= 255,
    ;
    lemma_trunc_div_bounds(span * p, 100);
}

/// `percent` hundredths of `span`, rounded toward zero.
fn margin(percent: u8, span: i64) -> (m: i64)
    requires
        -max_span() <= span <= max_span(),
    ensures
        m == portion(percent as int, span as int),
        -margin_limit() <= m <= margin_limit(),
{
    proof {
        lemma_margin_bounds(percent, span as int);
    }
    let p = Percent::new(percent as i32);
    p.mul(span)
}

/// The cell out of `cells` that holds `pos` on an axis whose grid starts at
/// `origin` and is `extent` long.
fn locate(pos: i32, origin: i64, extent: i64, cells: usize) -> (index: Option<usize>)
    requires
        -2 * margin_limit() <= origin <= 2 * margin_limit(),
        -4 * margin_limit() <= extent <= 4 * margin_limit(),
        0 < cells <= 16,
    ensures
        index matches Some(i) ==> cell_index(pos as int, origin as int, extent as int, cells as int)
            == Some(i as int),
        index is None ==> cell_index(pos as int, origin as int, extent as int, cells as int)
            is None,
{
    let offset: i64 = match non_neg_sub(pos as i64, origin) {
        Some(d) => d,
        None => {
            return None;
        },
    };
    assert(0 <= offset * cells <= 16 * (0x8000_0000 + 2 * margin_limit())) by (nonlinear_arith)
        requires
            0 <= offset <= 0x8000_0000 + 2 * margin_limit(),
            0 < cells <= 16,
    ;
    let scaled: i64 = offset * (cells as i64);
    match scaled.checked_div(extent + 1) {
        Some(q) => {
            if 0 <= q && q < cells as i64 {
                Some(q as usize)
            } else {
                None
            }
        },
        None => None,
    }
}

/// On one axis, every position from the origin of the grid to its far edge
/// lies in a cell.
pub proof fn lemma_cell_index_inside(pos: int, origin: int, extent: int, cells: int)
    requires
        origin <= pos <= origin + extent,
        cells > 0,
    ensures
        cell_index(pos, origin, extent, cells) is Some,
{
    let d = pos - origin;
    let n = d * cells;
    let m = extent + 1;
    assert(0 <= n < cells * m) by (nonlinear_arith)
        requires
            0 <= d < m,
            cells > 0,
            n == d * cells,
    ;
    lemma_trunc_div_quotient(n, m);
    let q = trunc_div(n, m);
    assert(q < cells) by (nonlinear_arith)
        requires
            q * m <= n,
            n < cells * m,
            m > 0,
    ;
}

/// On one axis, the cell never decreases as the position moves away from the
/// origin of the grid.
pub proof fn lemma_cell_index_monotone(a: int, b: int, origin: int, extent: int, cells: int)
    requires
        origin <= a <= b <= origin + extent,
        cells > 0,
    ensures
        cell_index(a, origin, extent, cells) is Some,
        cell_index(b, origin, extent, cells) is Some,
        cell_index(a, origin, extent, cells)->0 <= cell_index(b, origin, extent, cells)->0,
{
    lemma_cell_index_inside(a, origin, extent, cells);
    lemma_cell_index_inside(b, origin, extent, cells);
    let na = (a - origin) * cells;
    let nb = (b - origin) * cells;
    assert(0 <= na <= nb) by (nonlinear_arith)
        requires
            0 <= a - origin <= b - origin,
            cells > 0,
            na == (a - origin) * cells,
            nb == (b - origin) * cells,
    ;
    lemma_trunc_div_monotone(na, nb, extent + 1);
}

/// On one axis, a position between two positions of one cell lies in that
/// cell too.
pub proof fn lemma_cell_index_between(
    a: int,
    b: int,
    pos: int,
    origin: int,
    extent: int,
    cells: int,
)
    requires
        origin <= a <= origin + extent,
        origin <= b <= origin + extent,
        a <= pos <= b || b <= pos <= a,
        cell_index(a, origin, extent, cells) == cell_index(b, origin, extent, cells),
        cells > 0,
    ensures
        cell_index(pos, origin, extent, cells) == cell_index(a, origin, extent, cells),
        cell_index(pos, origin, extent, cells) is Some,
{
    if a <= pos <= b {
        lemma_cell_index_monotone(a, pos, origin, extent, cells);
        lemma_cell_index_monotone(pos, b, origin, extent, cells);
    } else {
        lemma_cell_index_monotone(b, pos, origin, extent, cells);
        lemma_cell_index_monotone(pos, a, origin, extent, cells);
    }
}

/// Every position within the grid, its edges included, resolves to a key.
pub proof fn lemma_key_inside_grid(g: Geometry, x: int, y: int)
    requires
        g.inside_grid(x, y),
    ensures
        g.row_of(y) is Some,
        g.column_of(x) is Some,
        g.key_of(x, y) is Some,
{
    lemma_cell_index_inside(x, g.grid_left(), g.grid_width(), COLS as int);
    lemma_cell_index_inside(y, g.grid_top(), g.grid_height(), ROWS as int);
}

/// The key is stable under jitter that stays within a cell: where two
/// positions within the grid share their row and their column, every
/// position between them, on each axis, lies in that cell and resolves to
/// the same key.
pub proof fn lemma_key_stable_within_cell(
    g: Geometry,
    x1: int,
    y1: int,
    x2: int,
    y2: int,
    x: int,
    y: int,
)
    requires
        g.inside_grid(x1, y1),
        g.inside_grid(x2, y2),
        g.column_of(x1) == g.column_of(x2),
        g.row_of(y1) == g.row_of(y2),
        x1 <= x <= x2 || x2 <= x <= x1,
        y1 <= y <= y2 || y2 <= y <= y1,
    ensures
        g.column_of(x) == g.column_of(x1),
        g.row_of(y) == g.row_of(y1),
        g.key_of(x, y) == g.key_of(x1, y1),
        g.key_of(x, y) is Some,
{
    lemma_cell_index_between(x1, x2, x, g.grid_left(), g.grid_width(), COLS as int);
    lemma_cell_index_between(y1, y2, y, g.grid_top(), g.grid_height(), ROWS as int);
    lemma_key_inside_grid(g, x1, y1);
}

/// No position left of the grid or above it resolves to a key.
pub proof fn lemma_no_key_before_origin(g: Geometry, x: int, y: int)
    requires
        x < g.grid_left() || y < g.grid_top(),
    ensures
        g.key_of(x, y) is None,
{
}

/// With well-formed margins the grid of a pad whose width and height are
/// positive has a positive width and height too.
pub proof fn lemma_grid_extent_positive(g: Geometry)
    requires
        g.offsets.wf(),
        g.pad_width() > 0,
        g.pad_height() > 0,
    ensures
        g.grid_width() > 0,
        g.grid_height() > 0,
{
    lemma_margins_leave_room(g.offsets.left as int, g.offsets.right as int, g.pad_width());
    lemma_margins_leave_room(g.offsets.top as int, g.offsets.bottom as int, g.pad_height());
}

/// Two margins that sum to less than a hundred percent leave part of a
/// positive span between them.
pub proof fn lemma_margins_leave_room(near: int, far: int, span: int)
    requires
        0 <= near,
        0 <= far,
        near + far < 100,
        span > 0,
    ensures
        portion(near, span) + portion(far, span) < span,
{
    let a = span * near;
    let b = span * far;
    assert(0 <= a && 0 <= b && a + b < span * 100) by (nonlinear_arith)
        requires
            0 <= near,
            0 <= far,
            near + far < 100,
            span > 0,
            a == span * near,
            b == span * far,
    ;
}

} // verus!
