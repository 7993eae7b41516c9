//! Virtualized layout for a spreadsheet-like grid.
//!
//! A grid may have millions of rows and columns, of which a viewport shows a
//! few. This crate keeps the size of every row and column without storing
//! any per-cell geometry, and resolves a viewport to the rows and columns
//! that it shows, the separator lines between them, and the rectangle of
//! every visible cell.
//!
//! * [`ColumnWidths`] is one axis. It is either uniform, one size shared by
//!   all indices, or variable, a size per index held by
//!   [`VariableColumnWidths`] together with running totals that are searched
//!   by [`binary_search_sorted`].
//! * [`SpreadsheetMetadata`] is the state of one grid: its two axes and a
//!   cursor.
//! * [`SpreadSheetWidget`] is the grid as it is to be shown. A layout pass,
//!   [`SpreadSheetWidget::show`], brings the state in step with the grid and
//!   returns a [`LayoutPlan`].
//!
//! Sizes are whole layout units in `u32`; offsets and coordinates are `u128`,
//! so that no axis whose length fits in `usize` can overflow them. Drawing,
//! input and the persistence of the state are left to the host.
//!
//! The module `model` states what every operation computes, over sequences
//! of sizes; the module `laws` proves what follows for every axis and every
//! layout pass.

pub mod arith;
pub mod axis;
pub mod grid;
pub mod laws;
pub mod model;
pub mod plan;
pub mod search;
pub mod variable;

pub use axis::{sync_column_and_width, ColumnWidths, WidthPreferences};
pub use grid::{SpreadSheetWidget, SpreadsheetMetadata};
pub use plan::{AxisSpan, CellRect, LayoutPlan, Viewport, VisibleCell};
pub use search::binary_search_sorted;
pub use variable::{IndexOutOfRange, VariableColumnWidths};
