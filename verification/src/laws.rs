//! What holds of every axis and of every layout pass.

use vstd::prelude::*;
use crate::arith::lemma_quotient_bounds;
use crate::axis::{lemma_uniform_offset_fits, WidthPreferences};
use crate::grid::SpreadSheetWidget;
use crate::model::{
    cumulative_of, lemma_cumulative_sorted, lemma_prefix_sum_fits, lemma_prefix_sum_monotonic,
    lemma_prefix_sum_of_common_prefix, lemma_range_in_bounds, lemma_synced_axis_len, prefix_sum,
    AxisLayout, GridMetadata, VariableLayout,
};
use crate::plan::{
    cell_of, content_extent, layout_plan, lemma_grid_cells_index, lemma_grid_cells_position,
    separator_lines, span_at, visible_spans, Viewport, VisibleCell,
};
use crate::search::lemma_count_below_splits;

verus! {

/// The offsets of a uniform axis of `count` cells of `size` are the offsets
/// of the variable axis of the same sizes.
pub proof fn lemma_prefix_sum_uniform(size: u32, count: nat, k: int)
    requires
        0 <= k <= count,
    ensures
        prefix_sum(Seq::new(count, |i: int| size), k) == size * k,
    decreases k,
{
    if k > 0 {
        lemma_prefix_sum_uniform(size, count, k - 1);
        assert(size * (k - 1) + size == size * k) by (nonlinear_arith);
    }
}

/// Offsets never decrease: where index `j` has an offset, every index
/// `i <= j` has one too, and it is no larger. This holds in both modes and
/// of every state that an axis can be in.
pub proof fn law_offsets_monotonic(axis: AxisLayout, i: usize, j: usize)
    requires
        axis.valid(),
        i <= j,
        axis.offset_at(j) is Some,
    ensures
        axis.offset_at(i) is Some,
        axis.offset_at(i).unwrap() <= axis.offset_at(j).unwrap(),
{
    match axis {
        AxisLayout::Uniform { size, count } => {
            lemma_uniform_offset_fits(size, i);
            lemma_uniform_offset_fits(size, j);
            assert(size * i <= size * j) by (nonlinear_arith)
                requires
                    0 <= size,
                    0 <= i <= j,
            ;
        },
        AxisLayout::Variable(v) => {
            lemma_prefix_sum_fits(v.sizes, i as int);
            lemma_prefix_sum_fits(v.sizes, j as int);
            lemma_prefix_sum_monotonic(v.sizes, i as int, j as int);
        },
    }
}

/// A cell ends where the next one starts: the offset of an index plus its
/// size is the offset of the index after it.
pub proof fn law_cell_end_is_next_start(axis: AxisLayout, k: usize)
    requires
        axis.valid(),
        k < axis.len(),
    ensures
        axis.offset_at(k) is Some,
        axis.size_at(k) is Some,
        axis.offset_at((k + 1) as usize) is Some,
        axis.cell_end(k) == axis.offset_at((k + 1) as usize).unwrap(),
{
    match axis {
        AxisLayout::Uniform { size, count } => {
            lemma_uniform_offset_fits(size, k);
            lemma_uniform_offset_fits(size, (k + 1) as usize);
            assert(size * k + size == size * (k + 1)) by (nonlinear_arith);
        },
        AxisLayout::Variable(v) => {
            lemma_prefix_sum_fits(v.sizes, k as int);
            lemma_prefix_sum_fits(v.sizes, k + 1);
        },
    }
}

/// The total extent is the offset of the end of the axis.
pub proof fn law_total_extent_is_last_offset(axis: AxisLayout)
    requires
        axis.valid(),
    ensures
        axis.offset_at(axis.len() as usize) == Some(axis.total_extent()),
{
}

/// In both modes the offset of an index is the sum of the sizes of the
/// indices before it, and that sum fits in `u128`.
pub proof fn law_offset_is_sum_of_sizes_before(axis: AxisLayout, i: usize)
    requires
        axis.valid(),
        i <= axis.len(),
    ensures
        0 <= prefix_sum(axis.sizes(), i as int) <= u128::MAX,
        axis.offset_at(i) == Some(prefix_sum(axis.sizes(), i as int) as u128),
{
    match axis {
        AxisLayout::Uniform { size, count } => {
            lemma_uniform_offset_fits(size, i);
            lemma_prefix_sum_uniform(size, count as nat, i as int);
        },
        AxisLayout::Variable(v) => {
            lemma_prefix_sum_fits(v.sizes, i as int);
        },
    }
}

/// Resizing keeps the size of every index that survives, in both modes.
pub proof fn law_resize_keeps_surviving_sizes(axis: AxisLayout, n: usize, i: usize)
    requires
        i < n,
        i < axis.len(),
    ensures
        axis.with_len(n).size_at(i) == axis.size_at(i),
        axis.with_len(n).offset_at(i) == axis.offset_at(i),
{
    match axis {
        AxisLayout::Uniform { .. } => {},
        AxisLayout::Variable(v) => {
            lemma_prefix_sum_of_common_prefix(v.sizes, v.with_len(n).sizes, i as int);
        },
    }
}

/// An index that appears when a variable axis grows has the default size;
/// one that appears when a uniform axis grows has the shared size.
pub proof fn law_resize_gives_new_indices_the_default(axis: AxisLayout, n: usize, i: usize)
    requires
        axis.len() <= i < n,
    ensures
        axis.with_len(n).size_at(i) == Some(
            match axis {
                AxisLayout::Uniform { size, .. } => size,
                AxisLayout::Variable(v) => v.default_size,
            },
        ),
{
}

/// Setting the size of an index changes that size and no other, leaves the
/// offsets up to that index as they were, and moves every later offset by
/// the difference between the new size and the old one.
pub proof fn law_set_size_moves_later_offsets(v: VariableLayout, i: usize, size: u32, j: usize)
    requires
        i < v.len(),
        j <= v.len(),
    ensures
        v.with_size(i, size).len() == v.len(),
        v.with_size(i, size).default_size == v.default_size,
        j < v.len() ==> v.with_size(i, size).sizes[j as int] == (if j == i {
            size
        } else {
            v.sizes[j as int]
        }),
        prefix_sum(v.with_size(i, size).sizes, j as int) == prefix_sum(v.sizes, j as int) + (if j
            > i {
            size - v.sizes[i as int]
        } else {
            0
        }),
    decreases j,
{
    if j > 0 {
        law_set_size_moves_later_offsets(v, i, size, (j - 1) as usize);
    }
}

/// Switching the mode twice with the same preference is switching it once.
pub proof fn law_mode_switch_idempotent(axis: AxisLayout, pref: WidthPreferences)
    ensures
        axis.with_mode(pref).with_mode(pref) == axis.with_mode(pref),
{
}

/// Switching a uniform axis to variable and back keeps its total extent, and
/// so does the switch to variable alone.
pub proof fn law_mode_round_trip_keeps_extent(
    axis: AxisLayout,
    to_variable: WidthPreferences,
    to_uniform: WidthPreferences,
)
    requires
        axis is Uniform,
        !to_variable.resizeable,
        to_uniform.resizeable,
    ensures
        axis.with_mode(to_variable) is Variable,
        axis.with_mode(to_variable).total_extent() == axis.total_extent(),
        axis.with_mode(to_variable).with_mode(to_uniform) is Uniform,
        axis.with_mode(to_variable).with_mode(to_uniform).total_extent() == axis.total_extent(),
        axis.len() > 0 ==> axis.with_mode(to_variable).with_mode(to_uniform) == axis,
{
    match axis {
        AxisLayout::Uniform { size, count } => {
            lemma_prefix_sum_uniform(size, count as nat, count as int);
            if count == 0 {
                assert(to_uniform.default * 0 == 0) by (nonlinear_arith);
                assert(size * 0 == 0) by (nonlinear_arith);
            }
        },
        AxisLayout::Variable(_) => {},
    }
}

/// Along one axis, a cell other than the last one that overlaps the
/// coordinate interval lies inside the resolved range, so that it is
/// enumerated.
///
/// The last index of an axis is left out: the resolved range is clamped to
/// it and enumeration stops before the end of the range.
pub proof fn law_overlapping_cell_is_in_range(axis: AxisLayout, lower: u128, upper: u128, k: usize)
    requires
        axis.valid(),
        k + 1 < axis.len(),
        axis.cell_overlaps(k, lower, upper),
    ensures
        axis.range(lower, upper).0 <= k < axis.range(lower, upper).1,
{
    match axis {
        AxisLayout::Uniform { size, count } => {
            lemma_uniform_offset_fits(size, k);
            if size > 0 {
                lemma_quotient_bounds(lower as int, size as int, k as int);
                lemma_quotient_bounds(upper as int, size as int, k as int);
                assert(size * k + size == size * (k + 1)) by (nonlinear_arith);
            } else {
                assert(size * k == 0) by (nonlinear_arith)
                    requires
                        size == 0,
                ;
            }
        },
        AxisLayout::Variable(v) => {
            let ends = cumulative_of(v.sizes);
            lemma_cumulative_sorted(v.sizes);
            lemma_count_below_splits(ends, lower as int);
            lemma_count_below_splits(ends, upper as int);
            lemma_prefix_sum_fits(v.sizes, k as int);
            lemma_prefix_sum_fits(v.sizes, k + 1);
            assert(ends[k as int] == prefix_sum(v.sizes, k + 1));
            if k > 0 {
                assert(ends[k - 1] == prefix_sum(v.sizes, k as int));
            }
        },
    }
}

/// Along one axis, a cell inside the resolved range, other than the leading
/// margin of a variable axis, is not entirely outside the coordinate
/// interval.
pub proof fn law_cell_in_range_touches(axis: AxisLayout, lower: u128, upper: u128, k: usize)
    requires
        axis.valid(),
        axis.range(lower, upper).0 <= k < axis.range(lower, upper).1,
        !axis.is_leading_margin(k, lower),
    ensures
        axis.cell_touches(k, lower, upper),
{
    match axis {
        AxisLayout::Uniform { size, count } => {
            lemma_uniform_offset_fits(size, k);
            if size > 0 {
                lemma_quotient_bounds(lower as int, size as int, k as int);
                lemma_quotient_bounds(upper as int, size as int, k as int);
                assert(size * k + size == size * (k + 1)) by (nonlinear_arith);
            } else {
                assert(size * k == 0) by (nonlinear_arith)
                    requires
                        size == 0,
                ;
            }
        },
        AxisLayout::Variable(v) => {
            let ends = cumulative_of(v.sizes);
            lemma_cumulative_sorted(v.sizes);
            lemma_count_below_splits(ends, lower as int);
            lemma_count_below_splits(ends, upper as int);
            lemma_prefix_sum_fits(v.sizes, k as int);
            lemma_prefix_sum_fits(v.sizes, k + 1);
            assert(ends[k as int] == prefix_sum(v.sizes, k + 1));
            if k > 0 {
                assert(ends[k - 1] == prefix_sum(v.sizes, k as int));
            }
        },
    }
}

/// The leading margin of a variable axis is the one cell of the resolved
/// range that lies entirely before the coordinate interval.
pub proof fn law_leading_margin_is_outside(axis: AxisLayout, lower: u128, upper: u128, k: usize)
    requires
        axis.valid(),
        axis.is_leading_margin(k, lower),
    ensures
        k == axis.range(lower, upper).0,
        k < axis.len(),
        axis.cell_end(k) < lower,
{
    match axis {
        AxisLayout::Uniform { .. } => {},
        AxisLayout::Variable(v) => {
            let ends = cumulative_of(v.sizes);
            lemma_cumulative_sorted(v.sizes);
            lemma_count_below_splits(ends, lower as int);
            lemma_prefix_sum_fits(v.sizes, k as int);
            lemma_prefix_sum_fits(v.sizes, k + 1);
            assert(ends[k as int] == prefix_sum(v.sizes, k + 1));
        },
    }
}

/// Two coordinate intervals that meet at `boundary` resolve to ranges whose
/// enumerated cells have at most one index in common.
///
/// The ranges depend only on the shared boundary: the first interval ends
/// at it and the second starts at it. On a variable axis the statement holds
/// where the boundary falls inside the first cell or past the start of the
/// last one; elsewhere see `law_adjacent_ranges_share_at_most_two`.
pub proof fn law_adjacent_ranges_share_at_most_one(
    axis: AxisLayout,
    start: u128,
    boundary: u128,
    end: u128,
)
    requires
        axis.valid(),
        axis.splits_cleanly_at(boundary),
    ensures
        axis.range(start, boundary).1 - axis.range(boundary, end).0 <= 1,
{
    match axis {
        AxisLayout::Uniform { .. } => {},
        AxisLayout::Variable(v) => {
            lemma_cumulative_sorted(v.sizes);
            lemma_count_below_splits(cumulative_of(v.sizes), boundary as int);
        },
    }
}

/// Two coordinate intervals that meet at `boundary` resolve to ranges whose
/// enumerated cells have at most two indices in common, in either mode.
pub proof fn law_adjacent_ranges_share_at_most_two(
    axis: AxisLayout,
    start: u128,
    boundary: u128,
    end: u128,
)
    requires
        axis.valid(),
    ensures
        axis.range(start, boundary).1 - axis.range(boundary, end).0 <= 2,
{
    match axis {
        AxisLayout::Uniform { .. } => {},
        AxisLayout::Variable(v) => {
            lemma_cumulative_sorted(v.sizes);
            lemma_count_below_splits(cumulative_of(v.sizes), boundary as int);
        },
    }
}

/// Every enumerated index lies between two consecutive separator lines:
/// there is one line more than there are enumerated indices, the line at
/// the position of an index is where its cell starts, and the next line is
/// where its cell ends.
pub proof fn law_separator_lines_bound_the_cells(
    axis: AxisLayout,
    lower: u128,
    upper: u128,
    k: int,
)
    requires
        axis.valid(),
        0 <= k < visible_spans(axis, axis.range(lower, upper)).len(),
    ensures
        ({
            let visible = axis.range(lower, upper);
            let lines = separator_lines(axis, visible);
            let spans = visible_spans(axis, visible);
            &&& lines.len() == spans.len() + 1
            &&& spans[k].index == visible.0 + k
            &&& lines[k] == spans[k].offset
            &&& lines[k + 1] == spans[k].offset + spans[k].size
        }),
{
    let visible = axis.range(lower, upper);
    lemma_range_in_bounds(axis, lower, upper);
    law_cell_end_is_next_start(axis, (visible.0 + k) as usize);
}

/// The cell at which column `c` and row `r` of the grid cross, with its
/// rectangle.
pub open spec fn cell_at(meta: GridMetadata, c: usize, r: usize) -> VisibleCell {
    cell_of(span_at(meta.column_axis, c as int), span_at(meta.row_axis, r as int))
}

/// No invisible cell is visited: every enumerated cell has its column and
/// its row inside the resolved ranges and carries the rectangle that the two
/// axes give it. Its position in the enumeration is the row-major position
/// of its coordinate, so no coordinate is enumerated twice.
pub proof fn law_visible_cell_is_in_range(meta: GridMetadata, viewport: Viewport, i: int)
    requires
        meta.valid(),
        0 <= i < layout_plan(meta, viewport).visible_cells().len(),
    ensures
        ({
            let plan = layout_plan(meta, viewport);
            let cell = plan.visible_cells()[i];
            &&& plan.visible_columns.0 <= cell.col < plan.visible_columns.1
            &&& plan.visible_rows.0 <= cell.row < plan.visible_rows.1
            &&& cell == cell_at(meta, cell.col, cell.row)
            &&& i == (cell.row - plan.visible_rows.0) * (plan.visible_columns.1
                - plan.visible_columns.0) + (cell.col - plan.visible_columns.0)
        }),
{
    let plan = layout_plan(meta, viewport);
    let at = lemma_grid_cells_position(plan.rows, plan.columns, i);
    lemma_range_in_bounds(meta.column_axis, viewport.min_x, viewport.max_x);
    lemma_range_in_bounds(meta.row_axis, viewport.min_y, viewport.max_y);
}

/// No cell is visited twice: two positions of the enumeration that hold the
/// same coordinate are the same position.
pub proof fn law_no_cell_is_visited_twice(meta: GridMetadata, viewport: Viewport, i: int, j: int)
    requires
        meta.valid(),
        0 <= i < layout_plan(meta, viewport).visible_cells().len(),
        0 <= j < layout_plan(meta, viewport).visible_cells().len(),
        layout_plan(meta, viewport).visible_cells()[i].col == layout_plan(
            meta,
            viewport,
        ).visible_cells()[j].col,
        layout_plan(meta, viewport).visible_cells()[i].row == layout_plan(
            meta,
            viewport,
        ).visible_cells()[j].row,
    ensures
        i == j,
{
    law_visible_cell_is_in_range(meta, viewport, i);
    law_visible_cell_is_in_range(meta, viewport, j);
}

/// Every visible cell is visited: a coordinate inside the resolved ranges is
/// enumerated, at its row-major position.
pub proof fn law_cell_in_range_is_visible(meta: GridMetadata, viewport: Viewport, c: usize, r: usize)
    requires
        meta.valid(),
        layout_plan(meta, viewport).visible_columns.0 <= c < layout_plan(
            meta,
            viewport,
        ).visible_columns.1,
        layout_plan(meta, viewport).visible_rows.0 <= r < layout_plan(meta, viewport).visible_rows.1,
    ensures
        ({
            let plan = layout_plan(meta, viewport);
            let i = (r - plan.visible_rows.0) * (plan.visible_columns.1 - plan.visible_columns.0)
                + (c - plan.visible_columns.0);
            &&& 0 <= i < plan.visible_cells().len()
            &&& plan.visible_cells()[i] == cell_at(meta, c, r)
        }),
{
    let plan = layout_plan(meta, viewport);
    lemma_grid_cells_index(
        plan.rows,
        plan.columns,
        r - plan.visible_rows.0,
        c - plan.visible_columns.0,
    );
}

/// A cell that overlaps the viewport, and lies neither in the last column
/// nor in the last row of the grid, is among the visible cells.
pub proof fn law_overlapping_cell_is_visible(
    meta: GridMetadata,
    viewport: Viewport,
    c: usize,
    r: usize,
)
    requires
        meta.valid(),
        c + 1 < meta.column_axis.len(),
        r + 1 < meta.row_axis.len(),
        meta.column_axis.cell_overlaps(c, viewport.min_x, viewport.max_x),
        meta.row_axis.cell_overlaps(r, viewport.min_y, viewport.max_y),
    ensures
        layout_plan(meta, viewport).visible_cells().contains(cell_at(meta, c, r)),
{
    law_overlapping_cell_is_in_range(meta.column_axis, viewport.min_x, viewport.max_x, c);
    law_overlapping_cell_is_in_range(meta.row_axis, viewport.min_y, viewport.max_y, r);
    law_cell_in_range_is_visible(meta, viewport, c, r);
}

/// A visible cell that lies neither in the leading margin column nor in the
/// leading margin row is not entirely outside the viewport.
pub proof fn law_visible_cell_touches_viewport(meta: GridMetadata, viewport: Viewport, i: int)
    requires
        meta.valid(),
        0 <= i < layout_plan(meta, viewport).visible_cells().len(),
        !meta.column_axis.is_leading_margin(
            layout_plan(meta, viewport).visible_cells()[i].col,
            viewport.min_x,
        ),
        !meta.row_axis.is_leading_margin(
            layout_plan(meta, viewport).visible_cells()[i].row,
            viewport.min_y,
        ),
    ensures
        ({
            let cell = layout_plan(meta, viewport).visible_cells()[i];
            &&& meta.column_axis.cell_touches(cell.col, viewport.min_x, viewport.max_x)
            &&& meta.row_axis.cell_touches(cell.row, viewport.min_y, viewport.max_y)
        }),
{
    let cell = layout_plan(meta, viewport).visible_cells()[i];
    law_visible_cell_is_in_range(meta, viewport, i);
    law_cell_in_range_touches(meta.column_axis, viewport.min_x, viewport.max_x, cell.col);
    law_cell_in_range_touches(meta.row_axis, viewport.min_y, viewport.max_y, cell.row);
}

/// Two viewports side by side, the right one starting at the x coordinate
/// at which the left one ends, show at most one column in common: a column
/// of which both show a cell is the first visible column of the right one.
///
/// On a variable column axis this holds where the shared boundary falls
/// inside the first column or past the start of the last one.
pub proof fn law_side_by_side_viewports_share_one_column(
    meta: GridMetadata,
    left: Viewport,
    right: Viewport,
    i: int,
    j: int,
)
    requires
        meta.valid(),
        left.max_x == right.min_x,
        meta.column_axis.splits_cleanly_at(left.max_x),
        0 <= i < layout_plan(meta, left).visible_cells().len(),
        0 <= j < layout_plan(meta, right).visible_cells().len(),
        layout_plan(meta, left).visible_cells()[i].col == layout_plan(
            meta,
            right,
        ).visible_cells()[j].col,
    ensures
        layout_plan(meta, left).visible_cells()[i].col == layout_plan(
            meta,
            right,
        ).visible_columns.0,
{
    law_visible_cell_is_in_range(meta, left, i);
    law_visible_cell_is_in_range(meta, right, j);
    law_adjacent_ranges_share_at_most_one(meta.column_axis, left.min_x, left.max_x, right.max_x);
}

/// Two viewports one above the other, the lower one starting at the y
/// coordinate at which the upper one ends, show at most one row in common: a
/// row of which both show a cell is the first visible row of the lower one.
///
/// On a variable row axis this holds where the shared boundary falls inside
/// the first row or past the start of the last one.
pub proof fn law_stacked_viewports_share_one_row(
    meta: GridMetadata,
    upper: Viewport,
    lower: Viewport,
    i: int,
    j: int,
)
    requires
        meta.valid(),
        upper.max_y == lower.min_y,
        meta.row_axis.splits_cleanly_at(upper.max_y),
        0 <= i < layout_plan(meta, upper).visible_cells().len(),
        0 <= j < layout_plan(meta, lower).visible_cells().len(),
        layout_plan(meta, upper).visible_cells()[i].row == layout_plan(
            meta,
            lower,
        ).visible_cells()[j].row,
    ensures
        layout_plan(meta, upper).visible_cells()[i].row == layout_plan(meta, lower).visible_rows.0,
{
    law_visible_cell_is_in_range(meta, upper, i);
    law_visible_cell_is_in_range(meta, lower, j);
    law_adjacent_ranges_share_at_most_one(meta.row_axis, upper.min_y, upper.max_y, lower.max_y);
}

/// After a layout pass both axes have the length that the widget's dimension
/// gives them, in whichever mode they are.
pub proof fn law_synced_state_has_grid_dimension(widget: SpreadSheetWidget, meta: GridMetadata)
    ensures
        widget.synced(meta).column_axis.len() == widget.dimension_of().0,
        widget.synced(meta).row_axis.len() == widget.dimension_of().1,
        widget.synced(meta).cursor == meta.cursor,
        widget.synced(meta).valid(),
{
    lemma_synced_axis_len(meta.column_axis, widget.dimension_of().0, widget.column_width_of());
    lemma_synced_axis_len(meta.row_axis, widget.dimension_of().1, widget.row_height_of());
}

/// The extent that a plan reports does not depend on the viewport.
pub proof fn law_extent_is_independent_of_viewport(meta: GridMetadata, a: Viewport, b: Viewport)
    ensures
        layout_plan(meta, a).total_extent == content_extent(meta),
        layout_plan(meta, a).total_extent == layout_plan(meta, b).total_extent,
{
}

/// Bringing an axis to a length and a mode that it already has changes
/// nothing.
pub proof fn law_axis_sync_idempotent(axis: AxisLayout, n: usize, pref: WidthPreferences)
    ensures
        axis.with_len(n).with_mode(pref).with_len(n).with_mode(pref) == axis.with_len(n).with_mode(
            pref,
        ),
{
    let once = axis.with_len(n).with_mode(pref);
    let twice = once.with_len(n).with_mode(pref);
    assert(once.sizes() =~= twice.sizes());
}

/// A second layout pass with the same widget, the same reserved extent and
/// no change in between leaves the state as the first pass left it and
/// yields the same extent and the same plan.
pub proof fn law_layout_pass_idempotent(
    widget: SpreadSheetWidget,
    meta: GridMetadata,
    allocated: (u128, u128),
)
    ensures
        widget.synced(widget.synced(meta)) == widget.synced(meta),
        content_extent(widget.synced(widget.synced(meta))) == content_extent(widget.synced(meta)),
        layout_plan(widget.synced(widget.synced(meta)), widget.view_rect(allocated)) == layout_plan(
            widget.synced(meta),
            widget.view_rect(allocated),
        ),
{
    law_axis_sync_idempotent(
        meta.column_axis,
        widget.dimension_of().0,
        widget.column_width_of(),
    );
    law_axis_sync_idempotent(meta.row_axis, widget.dimension_of().1, widget.row_height_of());
}

} // verus!
