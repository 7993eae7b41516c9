//! The grid itself: the persisted state of both axes, the settings of the
//! widget, and the layout pass that resolves a viewport into a plan.

use vstd::prelude::*;
use crate::axis::{sync_column_and_width, ColumnWidths, WidthPreferences};
use crate::model::{lemma_range_in_bounds, lemma_synced_axis_len, GridMetadata};
use crate::plan::{content_extent, layout_plan, lines_of, spans_of, LayoutPlan, Viewport};

verus! {

/// The state that a grid keeps from one layout pass to the next.
pub struct SpreadsheetMetadata {
    /// The selected cell, as `(column, row)`.
    pub cursor: Option<(usize, usize)>,
    pub column_widths: ColumnWidths,
    pub row_heights: ColumnWidths,
}

impl View for SpreadsheetMetadata {
    type V = GridMetadata;

    open spec fn view(&self) -> GridMetadata {
        GridMetadata {
            cursor: self.cursor,
            column_axis: self.column_widths@,
            row_axis: self.row_heights@,
        }
    }
}

impl Clone for SpreadsheetMetadata {
    /// A copy with the same cursor and the same axes.
    fn clone(&self) -> (copy: Self)
        ensures
            copy@ == self@,
    {
        SpreadsheetMetadata {
            cursor: self.cursor,
            column_widths: self.column_widths.clone(),
            row_heights: self.row_heights.clone(),
        }
    }
}

impl Default for SpreadsheetMetadata {
    /// A grid without cells and without a cursor, whose columns are 200 wide
    /// and whose rows are 25 high once it has any.
    fn default() -> (meta: Self)
        ensures
            meta.cursor is None,
            meta.column_widths == (ColumnWidths::Constant { width: 200, n: 0 }),
            meta.row_heights == (ColumnWidths::Constant { width: 25, n: 0 }),
    {
        Self {
            cursor: None,
            column_widths: ColumnWidths::Constant { width: 200, n: 0 },
            row_heights: ColumnWidths::Constant { width: 25, n: 0 },
        }
    }
}

impl SpreadsheetMetadata {
    /// The lengths of both axes fit in `usize`.
    pub proof fn lemma_view_valid(&self)
        ensures
            self@.valid(),
    {
        self.column_widths.lemma_view_valid();
        self.row_heights.lemma_view_valid();
    }

    /// The extent of the whole content: the total width of the columns and
    /// the total height of the rows.
    pub fn total_internal_size(&self) -> (size: (u128, u128))
        ensures
            size == self@.total_extent(),
    {
        (self.column_widths.total_width(), self.row_heights.total_width())
    }
}

/// A grid of a given number of columns and rows, the part of it to show,
/// and how its columns and rows are to be sized.
pub struct SpreadSheetWidget {
    dimension: (usize, usize),
    show_area: Option<Viewport>,
    column_width: WidthPreferences,
    row_height: WidthPreferences,
}

impl Clone for SpreadSheetWidget {
    /// A copy with the same settings.
    fn clone(&self) -> (copy: Self)
        ensures
            copy == *self,
    {
        Self {
            dimension: self.dimension,
            show_area: self.show_area,
            column_width: self.column_width,
            row_height: self.row_height,
        }
    }
}

impl SpreadSheetWidget {
    /// The number of columns and the number of rows.
    pub closed spec fn dimension_of(&self) -> (usize, usize) {
        self.dimension
    }

    /// The part of the grid to show, when one was set.
    pub closed spec fn show_area_of(&self) -> Option<Viewport> {
        self.show_area
    }

    /// How the columns are to be sized.
    pub closed spec fn column_width_of(&self) -> WidthPreferences {
        self.column_width
    }

    /// How the rows are to be sized.
    pub closed spec fn row_height_of(&self) -> WidthPreferences {
        self.row_height
    }

    /// The viewport of a layout pass: the show area when one was set, else
    /// the whole of what the host reserved, from the origin on.
    pub open spec fn view_rect(&self, allocated: (u128, u128)) -> Viewport {
        match self.show_area_of() {
            Some(area) => area,
            None => Viewport { min_x: 0, min_y: 0, max_x: allocated.0, max_y: allocated.1 },
        }
    }

    /// The state `meta` brought in step with this widget's dimension and
    /// sizing preferences.
    pub open spec fn synced(&self, meta: GridMetadata) -> GridMetadata {
        meta.synced(
            self.dimension_of().0,
            self.dimension_of().1,
            self.column_width_of(),
            self.row_height_of(),
        )
    }

    /// A grid of `cols` columns and `rows` rows that shows all it is given
    /// room for. Both preferences are resizeable, with a default width of
    /// 200 and a default height of 25.
    pub fn new(cols: usize, rows: usize) -> (widget: Self)
        ensures
            widget.dimension_of() == (cols, rows),
            widget.show_area_of() is None,
            widget.column_width_of() == (WidthPreferences { resizeable: true, default: 200 }),
            widget.row_height_of() == (WidthPreferences { resizeable: true, default: 25 }),
    {
        Self {
            dimension: (cols, rows),
            show_area: None,
            column_width: WidthPreferences { resizeable: true, default: 200 },
            row_height: WidthPreferences { resizeable: true, default: 25 },
        }
    }

    /// The same grid, showing only `area`.
    pub fn show_area(self, area: Viewport) -> (widget: Self)
        ensures
            widget.show_area_of() == Some(area),
            widget.dimension_of() == self.dimension_of(),
            widget.column_width_of() == self.column_width_of(),
            widget.row_height_of() == self.row_height_of(),
    {
        let mut widget = self;
        widget.show_area = Some(area);
        widget
    }

    /// The same grid, with its columns sized as `cfg` says.
    pub fn column_width(self, cfg: WidthPreferences) -> (widget: Self)
        ensures
            widget.column_width_of() == cfg,
            widget.dimension_of() == self.dimension_of(),
            widget.show_area_of() == self.show_area_of(),
            widget.row_height_of() == self.row_height_of(),
    {
        let mut widget = self;
        widget.column_width = cfg;
        widget
    }

    /// The same grid, with its rows sized as `cfg` says.
    pub fn row_height(self, cfg: WidthPreferences) -> (widget: Self)
        ensures
            widget.row_height_of() == cfg,
            widget.dimension_of() == self.dimension_of(),
            widget.show_area_of() == self.show_area_of(),
            widget.column_width_of() == self.column_width_of(),
    {
        let mut widget = self;
        widget.row_height = cfg;
        widget
    }

    /// Brings `meta` in step with the grid: both axes get the current
    /// length and then the mode that their preference asks for. Returns the
    /// extent that the host should reserve for the grid.
    pub fn synchronize(&self, meta: &mut SpreadsheetMetadata) -> (extent: (u128, u128))
        ensures
            final(meta)@ == self.synced(old(meta)@),
            extent == content_extent(final(meta)@),
    {
        let (cols, rows) = self.dimension;
        meta.row_heights.set_len(rows);
        meta.column_widths.set_len(cols);
        sync_column_and_width(&self.column_width, &mut meta.column_widths);
        sync_column_and_width(&self.row_height, &mut meta.row_heights);
        proof {
            lemma_synced_axis_len(old(meta)@.column_axis, cols, self.column_width);
            lemma_synced_axis_len(old(meta)@.row_axis, rows, self.row_height);
        }
        if cols == 0 || rows == 0 {
            (0, 0)
        } else {
            meta.total_internal_size()
        }
    }

    /// Runs one layout pass: brings `meta` in step with the grid, resolves
    /// the viewport to the visible rows and columns, and lays out the
    /// separator lines and the visible cells.
    ///
    /// `allocated` is the width and height that the host reserved for the
    /// grid; it is the viewport when no show area was set. A grid without
    /// rows or without columns yields the empty plan. The widget itself is
    /// left as it is.
    pub fn show(&mut self, meta: &mut SpreadsheetMetadata, allocated: (u128, u128)) -> (plan:
        LayoutPlan)
        ensures
            *final(self) == *old(self),
            final(meta)@ == old(self).synced(old(meta)@),
            plan@ == layout_plan(final(meta)@, old(self).view_rect(allocated)),
    {
        let total_extent = self.synchronize(meta);
        let (cols, rows) = self.dimension;
        proof {
            lemma_synced_axis_len(old(meta)@.column_axis, cols, self.column_width);
            lemma_synced_axis_len(old(meta)@.row_axis, rows, self.row_height);
        }
        if cols == 0 || rows == 0 {
            return LayoutPlan::empty();
        }
        let view_rect: Viewport = match self.show_area {
            Some(area) => area,
            None => Viewport { min_x: 0, min_y: 0, max_x: allocated.0, max_y: allocated.1 },
        };
        proof {
            lemma_range_in_bounds(meta@.row_axis, view_rect.min_y, view_rect.max_y);
            lemma_range_in_bounds(meta@.column_axis, view_rect.min_x, view_rect.max_x);
        }
        let visible_rows = meta.row_heights.range(view_rect.min_y, view_rect.max_y);
        let visible_columns = meta.column_widths.range(view_rect.min_x, view_rect.max_x);
        let separator_lines_y = lines_of(&meta.row_heights, visible_rows);
        let separator_lines_x = lines_of(&meta.column_widths, visible_columns);
        let rows = spans_of(&meta.row_heights, visible_rows);
        let columns = spans_of(&meta.column_widths, visible_columns);
        LayoutPlan {
            total_extent,
            visible_columns,
            visible_rows,
            separator_lines_x,
            separator_lines_y,
            columns,
            rows,
        }
    }
}

} // verus!
