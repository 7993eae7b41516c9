//! One axis of the grid in either of its two modes, and the rule that moves
//! it from one mode to the other.

use vstd::prelude::*;
use crate::model::{uniform_range, AxisLayout};
use crate::variable::VariableColumnWidths;

verus! {

/// How the cells of one axis are to be sized.
#[derive(Clone, Copy)]
pub struct WidthPreferences {
    /// Selects the mode of the axis: uniform when set, variable when clear.
    pub resizeable: bool,
    /// The size that an axis falls back to when it has no size of its own to
    /// carry over, and by which a variable axis grows.
    pub default: u32,
}

/// The sizes along one axis: either one size shared by `n` indices, or a
/// size per index.
pub enum ColumnWidths {
    Constant { width: u32, n: usize },
    Variable(VariableColumnWidths),
}

impl Clone for ColumnWidths {
    /// A copy in the same mode with the same sizes.
    fn clone(&self) -> (copy: Self)
        ensures
            copy@ == self@,
    {
        match self {
            ColumnWidths::Constant { width, n } => ColumnWidths::Constant { width: *width, n: *n },
            ColumnWidths::Variable(var) => ColumnWidths::Variable(var.clone()),
        }
    }
}

impl View for ColumnWidths {
    type V = AxisLayout;

    open spec fn view(&self) -> AxisLayout {
        match self {
            ColumnWidths::Constant { width, n } => AxisLayout::Uniform { size: *width, count: *n },
            ColumnWidths::Variable(var) => AxisLayout::Variable(var@),
        }
    }
}

/// A size times an index fits in `u128`.
pub proof fn lemma_uniform_offset_fits(size: u32, i: usize)
    ensures
        0 <= size * i <= u128::MAX,
{
    assert(0 <= size * i <= u128::MAX) by (nonlinear_arith)
        requires
            0 <= size <= u32::MAX,
            0 <= i <= u64::MAX,
    ;
}

impl ColumnWidths {
    /// The length of any axis fits in `usize`.
    pub proof fn lemma_view_valid(&self)
        ensures
            self@.valid(),
    {
        match self {
            ColumnWidths::Constant { .. } => {},
            ColumnWidths::Variable(var) => {
                var.lemma_view_valid();
            },
        }
    }

    /// The size of index `idx`, absent when the axis has no such index.
    pub fn get_width(&self, idx: usize) -> (width: Option<u32>)
        ensures
            width == self@.size_at(idx),
    {
        match self {
            ColumnWidths::Constant { width, n } => if idx < *n {
                Some(*width)
            } else {
                None
            },
            ColumnWidths::Variable(var) => var.get_width(idx),
        }
    }

    /// Resizes the axis to `len` indices. A variable axis keeps the sizes of
    /// the surviving indices and gives new ones its default size.
    pub fn set_len(&mut self, len: usize)
        ensures
            final(self)@ == old(self)@.with_len(len),
    {
        match self {
            ColumnWidths::Variable(var) => var.set_len(len),
            ColumnWidths::Constant { n, .. } => {
                *n = len;
            },
        }
    }

    /// The coordinate at which index `idx` starts.
    pub fn get_accum(&self, idx: usize) -> (offset: Option<u128>)
        ensures
            offset == self@.offset_at(idx),
    {
        match self {
            ColumnWidths::Variable(var) => var.get_accum(idx),
            ColumnWidths::Constant { width, .. } => {
                proof {
                    lemma_uniform_offset_fits(*width, idx);
                }
                Some(*width as u128 * idx as u128)
            },
        }
    }

    /// The sum of all sizes.
    pub fn total_width(&self) -> (total: u128)
        ensures
            total == self@.total_extent(),
    {
        match self {
            ColumnWidths::Variable(var) => var.total_width(),
            ColumnWidths::Constant { width, n } => {
                proof {
                    lemma_uniform_offset_fits(*width, *n);
                }
                *width as u128 * *n as u128
            },
        }
    }

    /// The index range that the coordinate interval `[min, max]` resolves to.
    /// The axis itself is left as it is.
    pub fn range(&mut self, min: u128, max: u128) -> (visible: (usize, usize))
        ensures
            visible == old(self)@.range(min, max),
            final(self)@ == old(self)@,
    {
        match self {
            ColumnWidths::Variable(var) => var.range(min, max),
            ColumnWidths::Constant { width, n } => constant_range(*width, *n, min, max),
        }
    }

    /// The number of indices.
    pub fn len(&self) -> (n: usize)
        ensures
            n == self@.len(),
    {
        match self {
            ColumnWidths::Variable(var) => var.len(),
            ColumnWidths::Constant { n, .. } => *n,
        }
    }
}

/// The index range of a uniform axis, by division.
fn constant_range(width: u32, n: usize, min: u128, max: u128) -> (visible: (usize, usize))
    ensures
        visible == uniform_range(width, n, min, max),
{
    let top: usize = if n == 0 {
        0
    } else {
        n - 1
    };
    if width > 0 {
        let low: u128 = min / (width as u128);
        let high: u128 = max / (width as u128);
        let first: usize = if low < top as u128 {
            low as usize
        } else {
            top
        };
        let last: usize = if high < top as u128 {
            high as usize + 1
        } else {
            top
        };
        (first, last)
    } else {
        let first: usize = if min == 0 {
            0
        } else {
            top
        };
        let last: usize = if max > 0 || top == 0 {
            top
        } else {
            1
        };
        (first, last)
    }
}

/// Brings `column` into the mode that `pref` asks for.
///
/// With `resizeable` set, a variable axis becomes a uniform one of the same
/// length that shares the size of its index 0 (the preferred default when it
/// is empty). With `resizeable` clear, a uniform axis becomes a variable one
/// of the same length in which every index has the former shared size, and
/// which grows by the preferred default. An axis that is already in the
/// requested mode is not touched.
pub fn sync_column_and_width(pref: &WidthPreferences, column: &mut ColumnWidths)
    ensures
        final(column)@ == old(column)@.with_mode(*pref),
{
    if pref.resizeable {
        if let ColumnWidths::Variable(var) = column {
            let width: u32 = match var.get_width(0) {
                Some(first) => first,
                None => pref.default,
            };
            let n: usize = var.len();
            *column = ColumnWidths::Constant { width, n };
        }
    } else {
        if let ColumnWidths::Constant { width, n } = column {
            let seeded = VariableColumnWidths::filled(pref.default, *width, *n);
            *column = ColumnWidths::Variable(seeded);
        }
    }
}

} // verus!
