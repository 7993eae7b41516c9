//! The outcome of one layout pass: which rows and columns a viewport shows,
//! where the separator lines between them run, and the rectangle of every
//! visible cell.

use vstd::prelude::*;
use crate::arith::lemma_quotient_bounds;
use crate::axis::ColumnWidths;
use crate::model::{AxisLayout, GridMetadata};

verus! {

/// An axis-aligned rectangle in the coordinate space of the grid, given by
/// its smallest and largest coordinate along each axis.
#[derive(Clone, Copy, Debug, PartialEq, Eq)]
pub struct Viewport {
    pub min_x: u128,
    pub min_y: u128,
    pub max_x: u128,
    pub max_y: u128,
}

/// One visible index of an axis with the coordinate at which it starts and
/// its size.
#[derive(Clone, Copy, Debug, PartialEq, Eq)]
pub struct AxisSpan {
    pub index: usize,
    pub offset: u128,
    pub size: u32,
}

/// The rectangle of a cell: the offset of its corner from the origin of the
/// grid, its column's width and its row's height.
#[derive(Clone, Copy, Debug, PartialEq, Eq)]
pub struct CellRect {
    pub x: u128,
    pub y: u128,
    pub width: u32,
    pub height: u32,
}

/// A visible cell: its coordinate and its rectangle.
#[derive(Clone, Copy, Debug, PartialEq, Eq)]
pub struct VisibleCell {
    pub col: usize,
    pub row: usize,
    pub rect: CellRect,
}

/// The cell at which `column` and `row` cross.
pub open spec fn cell_of(column: AxisSpan, row: AxisSpan) -> VisibleCell {
    VisibleCell {
        col: column.index,
        row: row.index,
        rect: CellRect { x: column.offset, y: row.offset, width: column.size, height: row.size },
    }
}

/// The cells of one row, one per column, in column order.
pub open spec fn row_cells(row: AxisSpan, columns: Seq<AxisSpan>) -> Seq<VisibleCell> {
    Seq::new(columns.len(), |c: int| cell_of(columns[c], row))
}

/// The cells of every row, row after row.
pub open spec fn grid_cells(rows: Seq<AxisSpan>, columns: Seq<AxisSpan>) -> Seq<VisibleCell>
    decreases rows.len(),
{
    if rows.len() == 0 {
        Seq::empty()
    } else {
        grid_cells(rows.drop_last(), columns) + row_cells(rows.last(), columns)
    }
}

/// There is one cell for every pair of a row and a column.
pub proof fn lemma_grid_cells_len(rows: Seq<AxisSpan>, columns: Seq<AxisSpan>)
    ensures
        grid_cells(rows, columns).len() == rows.len() * columns.len(),
    decreases rows.len(),
{
    if rows.len() == 0 {
        assert(rows.len() * columns.len() == 0) by (nonlinear_arith)
            requires
                rows.len() == 0,
        ;
    } else {
        lemma_grid_cells_len(rows.drop_last(), columns);
        assert((rows.len() - 1) * columns.len() + columns.len() == rows.len() * columns.len())
            by (nonlinear_arith);
    }
}

/// Row-major order: the cell of row `r` and column `c` stands at position
/// `r * columns.len() + c`.
pub proof fn lemma_grid_cells_index(rows: Seq<AxisSpan>, columns: Seq<AxisSpan>, r: int, c: int)
    requires
        0 <= r < rows.len(),
        0 <= c < columns.len(),
    ensures
        0 <= r * columns.len() + c < grid_cells(rows, columns).len(),
        grid_cells(rows, columns)[r * columns.len() + c] == cell_of(columns[c], rows[r]),
    decreases rows.len(),
{
    let before = rows.drop_last();
    lemma_grid_cells_len(rows, columns);
    lemma_grid_cells_len(before, columns);
    assert(0 <= r * columns.len() && r * columns.len() + columns.len() <= rows.len()
        * columns.len()) by (nonlinear_arith)
        requires
            0 <= r < rows.len(),
    ;
    if r == rows.len() - 1 {
        assert(grid_cells(rows, columns)[r * columns.len() + c] == row_cells(
            rows.last(),
            columns,
        )[c]);
    } else {
        lemma_grid_cells_index(before, columns, r, c);
        assert(r * columns.len() + columns.len() <= (rows.len() - 1) * columns.len())
            by (nonlinear_arith)
            requires
                0 <= r < rows.len() - 1,
        ;
    }
}

/// Every position of the enumeration holds the cell of one row and one
/// column: the pair that is returned.
pub proof fn lemma_grid_cells_position(rows: Seq<AxisSpan>, columns: Seq<AxisSpan>, i: int) -> (at:
    (int, int))
    requires
        0 <= i < grid_cells(rows, columns).len(),
    ensures
        0 <= at.0 < rows.len(),
        0 <= at.1 < columns.len(),
        i == at.0 * columns.len() + at.1,
        grid_cells(rows, columns)[i] == cell_of(columns[at.1], rows[at.0]),
    decreases rows.len(),
{
    let before = rows.drop_last();
    lemma_grid_cells_len(before, columns);
    if i < grid_cells(before, columns).len() {
        lemma_grid_cells_position(before, columns, i)
    } else {
        let c = i - grid_cells(before, columns).len();
        assert(grid_cells(rows, columns)[i] == row_cells(rows.last(), columns)[c]);
        (rows.len() - 1, c)
    }
}

/// Index `i` of `axis` with its offset and size.
pub open spec fn span_at(axis: AxisLayout, i: int) -> AxisSpan {
    AxisSpan {
        index: i as usize,
        offset: axis.offset_at(i as usize).unwrap(),
        size: axis.size_at(i as usize).unwrap(),
    }
}

/// The spans of the indices from `visible.0` up to but not including
/// `visible.1`: the indices whose cells are enumerated.
pub open spec fn visible_spans(axis: AxisLayout, visible: (usize, usize)) -> Seq<AxisSpan> {
    Seq::new(
        (if visible.0 < visible.1 {
            visible.1 - visible.0
        } else {
            0
        }) as nat,
        |k: int| span_at(axis, visible.0 + k),
    )
}

/// The coordinates of the separator lines of the indices from `visible.0` up
/// to and including `visible.1`: the line at index `k` is where cell `k`
/// starts and where cell `k - 1` ends.
pub open spec fn separator_lines(axis: AxisLayout, visible: (usize, usize)) -> Seq<u128> {
    Seq::new(
        (if visible.0 <= visible.1 {
            visible.1 - visible.0 + 1
        } else {
            0
        }) as nat,
        |k: int| axis.offset_at((visible.0 + k) as usize).unwrap(),
    )
}

/// What a layout plan holds, as plain mathematics.
pub struct PlanModel {
    pub total_extent: (u128, u128),
    pub visible_columns: (usize, usize),
    pub visible_rows: (usize, usize),
    pub separator_lines_x: Seq<u128>,
    pub separator_lines_y: Seq<u128>,
    pub columns: Seq<AxisSpan>,
    pub rows: Seq<AxisSpan>,
}

impl PlanModel {
    /// The visible cells in row-major order.
    pub open spec fn visible_cells(self) -> Seq<VisibleCell> {
        grid_cells(self.rows, self.columns)
    }
}

/// The plan for a grid without rows or without columns: nothing is visible
/// and the extent is zero.
pub open spec fn empty_plan() -> PlanModel {
    PlanModel {
        total_extent: (0, 0),
        visible_columns: (0, 0),
        visible_rows: (0, 0),
        separator_lines_x: Seq::empty(),
        separator_lines_y: Seq::empty(),
        columns: Seq::empty(),
        rows: Seq::empty(),
    }
}

/// The extent to reserve for a grid in state `meta`: nothing for a grid
/// without rows or without columns, else the extent of the whole content.
pub open spec fn content_extent(meta: GridMetadata) -> (u128, u128) {
    if meta.column_axis.len() == 0 || meta.row_axis.len() == 0 {
        (0, 0)
    } else {
        meta.total_extent()
    }
}

/// The plan that `viewport` resolves to on a grid in state `meta`.
///
/// Each axis resolves its side of the viewport to an index range.
/// Separator lines are drawn for every index of the range, both ends
/// included; cells are enumerated for every index but the last.
pub open spec fn layout_plan(meta: GridMetadata, viewport: Viewport) -> PlanModel {
    if meta.column_axis.len() == 0 || meta.row_axis.len() == 0 {
        empty_plan()
    } else {
        let visible_columns = meta.column_axis.range(viewport.min_x, viewport.max_x);
        let visible_rows = meta.row_axis.range(viewport.min_y, viewport.max_y);
        PlanModel {
            total_extent: content_extent(meta),
            visible_columns,
            visible_rows,
            separator_lines_x: separator_lines(meta.column_axis, visible_columns),
            separator_lines_y: separator_lines(meta.row_axis, visible_rows),
            columns: visible_spans(meta.column_axis, visible_columns),
            rows: visible_spans(meta.row_axis, visible_rows),
        }
    }
}

/// The result of a layout pass.
#[derive(Debug, PartialEq, Eq)]
pub struct LayoutPlan {
    /// The extent of the whole content, for sizing the scrollable region.
    pub total_extent: (u128, u128),
    /// The first and last visible column index.
    pub visible_columns: (usize, usize),
    /// The first and last visible row index.
    pub visible_rows: (usize, usize),
    /// The x coordinates of the vertical separator lines.
    pub separator_lines_x: Vec<u128>,
    /// The y coordinates of the horizontal separator lines.
    pub separator_lines_y: Vec<u128>,
    /// The columns whose cells are visible, in order.
    pub columns: Vec<AxisSpan>,
    /// The rows whose cells are visible, in order.
    pub rows: Vec<AxisSpan>,
}

impl View for LayoutPlan {
    type V = PlanModel;

    open spec fn view(&self) -> PlanModel {
        PlanModel {
            total_extent: self.total_extent,
            visible_columns: self.visible_columns,
            visible_rows: self.visible_rows,
            separator_lines_x: self.separator_lines_x@,
            separator_lines_y: self.separator_lines_y@,
            columns: self.columns@,
            rows: self.rows@,
        }
    }
}

impl LayoutPlan {
    /// The plan in which nothing is visible.
    pub fn empty() -> (plan: Self)
        ensures
            plan@ == empty_plan(),
    {
        LayoutPlan {
            total_extent: (0, 0),
            visible_columns: (0, 0),
            visible_rows: (0, 0),
            separator_lines_x: Vec::new(),
            separator_lines_y: Vec::new(),
            columns: Vec::new(),
            rows: Vec::new(),
        }
    }

    /// The cell at position `k` of the row-major enumeration, absent when
    /// there are `k` visible cells or fewer. Walking `k` up from 0 until the
    /// answer is absent visits every visible cell once, without building
    /// the whole enumeration.
    pub fn cell_at(&self, k: usize) -> (cell: Option<VisibleCell>)
        ensures
            cell == (if k < self@.visible_cells().len() {
                Some(self@.visible_cells()[k as int])
            } else {
                None
            }),
    {
        let width: usize = self.columns.len();
        proof {
            lemma_grid_cells_len(self.rows@, self.columns@);
            if width == 0 {
                assert(self.rows@.len() * self.columns@.len() == 0) by (nonlinear_arith)
                    requires
                        self.columns@.len() == 0,
                ;
            } else {
                lemma_quotient_bounds(k as int, width as int, self.rows@.len() - 1);
                vstd::arithmetic::div_mod::lemma_fundamental_div_mod(k as int, width as int);
                assert(width * (self.rows@.len() - 1 + 1) == self.rows@.len() * width)
                    by (nonlinear_arith);
            }
        }
        if width == 0 {
            return None;
        }
        let r: usize = k / width;
        let c: usize = k % width;
        if r >= self.rows.len() {
            return None;
        }
        proof {
            lemma_grid_cells_index(self.rows@, self.columns@, r as int, c as int);
            assert(width * r == r * width) by (nonlinear_arith);
        }
        let row: AxisSpan = self.rows[r];
        let column: AxisSpan = self.columns[c];
        Some(
            VisibleCell {
                col: column.index,
                row: row.index,
                rect: CellRect {
                    x: column.offset,
                    y: row.offset,
                    width: column.size,
                    height: row.size,
                },
            },
        )
    }

    /// The visible cells with their rectangles, in row-major order: every
    /// visible row in turn, and within it every visible column in turn.
    pub fn visible_cells(&self) -> (cells: Vec<VisibleCell>)
        ensures
            cells@ == self@.visible_cells(),
    {
        let mut cells: Vec<VisibleCell> = Vec::new();
        let mut r: usize = 0;
        while r < self.rows.len()
            invariant
                r <= self.rows@.len(),
                cells@ == grid_cells(self.rows@.subrange(0, r as int), self.columns@),
            decreases self.rows@.len() - r,
        {
            let row: AxisSpan = self.rows[r];
            let ghost done = cells@;
            let mut c: usize = 0;
            while c < self.columns.len()
                invariant
                    c <= self.columns@.len(),
                    cells@ =~= done + row_cells(row, self.columns@).subrange(0, c as int),
                decreases self.columns@.len() - c,
            {
                let column: AxisSpan = self.columns[c];
                cells.push(
                    VisibleCell {
                        col: column.index,
                        row: row.index,
                        rect: CellRect {
                            x: column.offset,
                            y: row.offset,
                            width: column.size,
                            height: row.size,
                        },
                    },
                );
                c = c + 1;
            }
            proof {
                let next = self.rows@.subrange(0, r + 1);
                assert(next.drop_last() =~= self.rows@.subrange(0, r as int));
                assert(next.last() == row);
                assert(row_cells(row, self.columns@).subrange(0, c as int) =~= row_cells(
                    row,
                    self.columns@,
                ));
            }
            r = r + 1;
        }
        assert(self.rows@.subrange(0, r as int) =~= self.rows@);
        cells
    }
}

/// The spans of the indices of `axis` from `visible.0` up to but not
/// including `visible.1`.
pub(crate) fn spans_of(axis: &ColumnWidths, visible: (usize, usize)) -> (spans: Vec<AxisSpan>)
    requires
        visible.1 <= axis@.len(),
    ensures
        spans@ == visible_spans(axis@, visible),
{
    let mut spans: Vec<AxisSpan> = Vec::new();
    let mut i: usize = visible.0;
    while i < visible.1
        invariant
            visible.1 <= axis@.len(),
            visible.0 <= i,
            i <= visible.1 || spans@.len() == 0,
            spans@.len() == (if visible.0 < visible.1 {
                i - visible.0
            } else {
                0
            }),
            forall|k: int| 0 <= k < spans@.len() ==> spans@[k] == span_at(axis@, visible.0 + k),
        decreases visible.1 - i,
    {
        let offset: Option<u128> = axis.get_accum(i);
        let size: Option<u32> = axis.get_width(i);
        spans.push(AxisSpan { index: i, offset: offset.unwrap(), size: size.unwrap() });
        i = i + 1;
    }
    assert(spans@ =~= visible_spans(axis@, visible));
    spans
}

/// The coordinates of the separator lines of the indices of `axis` from
/// `visible.0` up to and including `visible.1`.
pub(crate) fn lines_of(axis: &ColumnWidths, visible: (usize, usize)) -> (lines: Vec<u128>)
    requires
        visible.1 < axis@.len(),
    ensures
        lines@ == separator_lines(axis@, visible),
{
    let mut lines: Vec<u128> = Vec::new();
    let mut i: usize = visible.0;
    proof {
        axis.lemma_view_valid();
    }
    while i <= visible.1
        invariant
            visible.1 < axis@.len(),
            axis@.len() <= usize::MAX,
            visible.0 <= i,
            i <= visible.1 + 1 || lines@.len() == 0,
            lines@.len() == (if visible.0 <= visible.1 {
                i - visible.0
            } else {
                0
            }),
            forall|k: int|
                0 <= k < lines@.len() ==> lines@[k] == axis@.offset_at(
                    (visible.0 + k) as usize,
                ).unwrap(),
        decreases visible.1 + 1 - i,
    {
        let offset: Option<u128> = axis.get_accum(i);
        lines.push(offset.unwrap());
        i = i + 1;
    }
    assert(lines@ =~= separator_lines(axis@, visible));
    lines
}

} // verus!
