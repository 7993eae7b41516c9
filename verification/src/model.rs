//! The mathematical model of an axis: a sequence of cell sizes, the offsets
//! that follow from it, and the index range that a coordinate interval
//! resolves to.
//!
//! Sizes are whole layout units held in `u32`; offsets and coordinates are
//! held in `u128`, which is wide enough for the total extent of any axis whose
//! length fits in `usize`.

use vstd::prelude::*;
use vstd::math::min;
use crate::axis::WidthPreferences;
use crate::search::{count_below, is_sorted, lemma_count_below_bound};

verus! {

/// The sum of the first `k` entries of `sizes`: the coordinate at which
/// cell `k` starts.
pub open spec fn prefix_sum(sizes: Seq<u32>, k: int) -> int
    decreases k,
{
    if k <= 0 {
        0
    } else {
        prefix_sum(sizes, k - 1) + sizes[k - 1]
    }
}

/// The running totals of `sizes`: entry `k` is the coordinate at which cell
/// `k` ends.
pub open spec fn cumulative_of(sizes: Seq<u32>) -> Seq<u128> {
    Seq::new(sizes.len(), |k: int| prefix_sum(sizes, k + 1) as u128)
}

/// The first `k` sizes sum to at most `k` times the largest size.
pub proof fn lemma_prefix_sum_bound(sizes: Seq<u32>, k: int)
    requires
        0 <= k <= sizes.len(),
    ensures
        0 <= prefix_sum(sizes, k) <= k * u32::MAX,
    decreases k,
{
    if k > 0 {
        lemma_prefix_sum_bound(sizes, k - 1);
        assert((k - 1) * u32::MAX + u32::MAX == k * u32::MAX) by (nonlinear_arith);
    }
}

/// On an axis whose length fits in `usize`, every offset fits in `u128`.
pub proof fn lemma_prefix_sum_fits(sizes: Seq<u32>, k: int)
    requires
        0 <= k <= sizes.len() <= usize::MAX,
    ensures
        0 <= prefix_sum(sizes, k) <= u128::MAX,
{
    lemma_prefix_sum_bound(sizes, k);
    assert(k * u32::MAX <= u128::MAX) by (nonlinear_arith)
        requires
            0 <= k <= u64::MAX,
    ;
}

/// Offsets never decrease as the index grows.
pub proof fn lemma_prefix_sum_monotonic(sizes: Seq<u32>, i: int, j: int)
    requires
        0 <= i <= j <= sizes.len(),
    ensures
        prefix_sum(sizes, i) <= prefix_sum(sizes, j),
    decreases j - i,
{
    if i < j {
        lemma_prefix_sum_monotonic(sizes, i, j - 1);
    }
}

/// An offset depends only on the sizes before it.
pub proof fn lemma_prefix_sum_of_common_prefix(a: Seq<u32>, b: Seq<u32>, k: int)
    requires
        0 <= k <= a.len(),
        k <= b.len(),
        forall|i: int| 0 <= i < k ==> a[i] == b[i],
    ensures
        prefix_sum(a, k) == prefix_sum(b, k),
    decreases k,
{
    if k > 0 {
        lemma_prefix_sum_of_common_prefix(a, b, k - 1);
    }
}

/// The running totals of an axis whose length fits in `usize` are sorted.
pub proof fn lemma_cumulative_sorted(sizes: Seq<u32>)
    requires
        sizes.len() <= usize::MAX,
    ensures
        is_sorted(cumulative_of(sizes)),
{
    let c = cumulative_of(sizes);
    assert forall|i: int, j: int| 0 <= i <= j < c.len() implies c[i] <= c[j] by {
        lemma_prefix_sum_fits(sizes, i + 1);
        lemma_prefix_sum_fits(sizes, j + 1);
        lemma_prefix_sum_monotonic(sizes, i + 1, j + 1);
    }
}

/// The largest valid index of an axis with `len` cells, or 0 when the axis is
/// empty.
pub open spec fn last_index(len: nat) -> int {
    if len == 0 {
        0
    } else {
        len - 1
    }
}

/// The index range of a uniform axis for the coordinate interval
/// `[lower, upper]`.
///
/// The first index is the cell that contains `lower`, the last is one past
/// the cell that contains `upper`, and both are clamped to the last valid
/// index. When the shared size is zero every cell sits at coordinate 0: a
/// coordinate of 0 is before all cells and any other coordinate is past all
/// of them.
pub open spec fn uniform_range(size: u32, count: usize, lower: u128, upper: u128) -> (
    usize,
    usize,
) {
    let top = last_index(count as nat);
    if size > 0 {
        (min(lower as int / size as int, top) as usize, min(upper as int / size as int + 1, top) as usize)
    } else {
        (
            (if lower == 0 {
                0
            } else {
                top
            }) as usize,
            (if upper == 0 {
                min(1, top)
            } else {
                top
            }) as usize,
        )
    }
}

/// An axis on which every index has its own size.
pub struct VariableLayout {
    /// The size given to indices that appear when the axis grows.
    pub default_size: u32,
    /// The size of each index, in order.
    pub sizes: Seq<u32>,
}

impl VariableLayout {
    /// The number of indices.
    pub open spec fn len(self) -> nat {
        self.sizes.len()
    }

    /// Whether the length is one that a machine can hold.
    pub open spec fn valid(self) -> bool {
        self.sizes.len() <= usize::MAX
    }

    /// The size of index `i`, absent when `i` is not a current index.
    pub open spec fn size_at(self, i: usize) -> Option<u32> {
        if i < self.sizes.len() {
            Some(self.sizes[i as int])
        } else {
            None
        }
    }

    /// The coordinate at which index `i` starts: the sum of the sizes before
    /// it. Index `len` stands for the end of the axis; past it the offset is
    /// absent.
    pub open spec fn offset_at(self, i: usize) -> Option<u128> {
        if i <= self.sizes.len() {
            Some(prefix_sum(self.sizes, i as int) as u128)
        } else {
            None
        }
    }

    /// The sum of all sizes.
    pub open spec fn total_extent(self) -> u128 {
        prefix_sum(self.sizes, self.sizes.len() as int) as u128
    }

    /// The number of cells that end strictly before coordinate `x`: the
    /// position that a search for `x` among the running totals yields.
    pub open spec fn search(self, x: u128) -> nat {
        count_below(cumulative_of(self.sizes), x as int)
    }

    /// The index range for the coordinate interval `[lower, upper]`: one
    /// before the search position of `lower`, clamped to 0, and one after the
    /// search position of `upper`, clamped to the last valid index.
    pub open spec fn range(self, lower: u128, upper: u128) -> (usize, usize) {
        let low = self.search(lower);
        let high = self.search(upper);
        (
            (if low == 0 {
                0
            } else {
                low - 1
            }) as usize,
            min(high as int + 1, last_index(self.len())) as usize,
        )
    }

    /// The axis resized to `n` indices: surviving indices keep their sizes
    /// and new ones get the default.
    pub open spec fn with_len(self, n: usize) -> Self {
        VariableLayout {
            default_size: self.default_size,
            sizes: Seq::new(
                n as nat,
                |i: int|
                    if i < self.sizes.len() {
                        self.sizes[i]
                    } else {
                        self.default_size
                    },
            ),
        }
    }

    /// The axis with the size of index `i` replaced.
    pub open spec fn with_size(self, i: usize, size: u32) -> Self {
        VariableLayout { default_size: self.default_size, sizes: self.sizes.update(i as int, size) }
    }
}

/// The sizing of one dimension of the grid.
pub enum AxisLayout {
    /// Every index has the same size.
    Uniform { size: u32, count: usize },
    /// Every index has its own size.
    Variable(VariableLayout),
}

impl AxisLayout {
    /// The number of indices.
    pub open spec fn len(self) -> nat {
        match self {
            AxisLayout::Uniform { count, .. } => count as nat,
            AxisLayout::Variable(v) => v.len(),
        }
    }

    /// Whether the length is one that a machine can hold.
    pub open spec fn valid(self) -> bool {
        match self {
            AxisLayout::Uniform { .. } => true,
            AxisLayout::Variable(v) => v.valid(),
        }
    }

    /// The size of every index, in order.
    pub open spec fn sizes(self) -> Seq<u32> {
        match self {
            AxisLayout::Uniform { size, count } => Seq::new(count as nat, |i: int| size),
            AxisLayout::Variable(v) => v.sizes,
        }
    }

    /// The size of index `i`, absent when `i` is not a current index.
    pub open spec fn size_at(self, i: usize) -> Option<u32> {
        match self {
            AxisLayout::Uniform { size, count } => if i < count {
                Some(size)
            } else {
                None
            },
            AxisLayout::Variable(v) => v.size_at(i),
        }
    }

    /// The coordinate at which index `i` starts. A uniform axis answers for
    /// every `i` with `size * i`; a variable axis answers up to its length.
    pub open spec fn offset_at(self, i: usize) -> Option<u128> {
        match self {
            AxisLayout::Uniform { size, .. } => Some((size * i) as u128),
            AxisLayout::Variable(v) => v.offset_at(i),
        }
    }

    /// The sum of all sizes.
    pub open spec fn total_extent(self) -> u128 {
        match self {
            AxisLayout::Uniform { size, count } => (size * count) as u128,
            AxisLayout::Variable(v) => v.total_extent(),
        }
    }

    /// The coordinate at which cell `k` starts.
    pub open spec fn cell_start(self, k: usize) -> int {
        self.offset_at(k).unwrap() as int
    }

    /// The coordinate at which cell `k` ends.
    pub open spec fn cell_end(self, k: usize) -> int {
        self.offset_at(k).unwrap() + self.size_at(k).unwrap()
    }

    /// Whether cell `k` exists and shares more than a boundary point with
    /// the coordinate interval `[lower, upper]`.
    pub open spec fn cell_overlaps(self, k: usize, lower: u128, upper: u128) -> bool {
        k < self.len() && self.cell_start(k) < upper && lower < self.cell_end(k)
    }

    /// Whether cell `k` exists and shares at least a boundary point with the
    /// coordinate interval `[lower, upper]`: it is not entirely outside.
    pub open spec fn cell_touches(self, k: usize, lower: u128, upper: u128) -> bool {
        k < self.len() && self.cell_start(k) <= upper && lower <= self.cell_end(k)
    }

    /// Whether `k` is the one index that a variable axis includes ahead of
    /// the cell in which `lower` falls. A uniform axis has no such index.
    pub open spec fn is_leading_margin(self, k: usize, lower: u128) -> bool {
        match self {
            AxisLayout::Uniform { .. } => false,
            AxisLayout::Variable(v) => k + 1 == v.search(lower),
        }
    }

    /// Whether `boundary` is a coordinate at which the axis can be cut into
    /// two intervals whose enumerated cells have at most one index in
    /// common. A uniform axis can be cut anywhere. A variable axis includes
    /// one index more on either side of the cut, so it can be cut only
    /// where one of the two is clamped away: inside the first cell, or past
    /// the start of the last one.
    pub open spec fn splits_cleanly_at(self, boundary: u128) -> bool {
        match self {
            AxisLayout::Uniform { .. } => true,
            AxisLayout::Variable(v) => v.search(boundary) == 0 || v.search(boundary) + 2 > v.len(),
        }
    }

    /// The index range that the coordinate interval `[lower, upper]` resolves
    /// to.
    pub open spec fn range(self, lower: u128, upper: u128) -> (usize, usize) {
        match self {
            AxisLayout::Uniform { size, count } => uniform_range(size, count, lower, upper),
            AxisLayout::Variable(v) => v.range(lower, upper),
        }
    }

    /// The axis resized to `n` indices.
    pub open spec fn with_len(self, n: usize) -> Self {
        match self {
            AxisLayout::Uniform { size, .. } => AxisLayout::Uniform { size, count: n },
            AxisLayout::Variable(v) => AxisLayout::Variable(v.with_len(n)),
        }
    }

    /// The axis brought into the mode that `pref` asks for.
    ///
    /// A preference with `resizeable` set keeps the axis uniform: a variable
    /// axis becomes a uniform one of the same length whose shared size is the
    /// size of index 0, or the preferred default when the axis is empty.
    /// A preference with `resizeable` clear keeps the axis variable: a uniform
    /// axis becomes a variable one of the same length in which every index
    /// has the former shared size, and which grows by the preferred default.
    /// An axis that is already in the requested mode is left as it is.
    pub open spec fn with_mode(self, pref: WidthPreferences) -> Self {
        match self {
            AxisLayout::Uniform { size, count } => if pref.resizeable {
                self
            } else {
                AxisLayout::Variable(
                    VariableLayout {
                        default_size: pref.default,
                        sizes: Seq::new(count as nat, |i: int| size),
                    },
                )
            },
            AxisLayout::Variable(v) => if pref.resizeable {
                AxisLayout::Uniform {
                    size: match v.size_at(0) {
                        Some(first) => first,
                        None => pref.default,
                    },
                    count: v.len() as usize,
                }
            } else {
                self
            },
        }
    }
}

/// Both ends of a resolved range are indices of the axis, or 0 when the axis
/// is empty.
pub proof fn lemma_range_in_bounds(axis: AxisLayout, lower: u128, upper: u128)
    requires
        axis.valid(),
    ensures
        axis.range(lower, upper).0 <= last_index(axis.len()),
        axis.range(lower, upper).1 <= last_index(axis.len()),
{
    match axis {
        AxisLayout::Uniform { .. } => {},
        AxisLayout::Variable(v) => {
            lemma_count_below_bound(cumulative_of(v.sizes), lower as int);
            lemma_count_below_bound(cumulative_of(v.sizes), upper as int);
        },
    }
}

/// Resizing and switching the mode of an axis yields an axis of the
/// requested length, whatever its mode was and becomes.
pub proof fn lemma_synced_axis_len(axis: AxisLayout, n: usize, pref: WidthPreferences)
    ensures
        axis.with_len(n).with_mode(pref).len() == n,
        axis.with_len(n).with_mode(pref).valid(),
{
}

/// The persisted state of one grid: the sizing of both axes and an optional
/// cursor, as `(column, row)`.
pub struct GridMetadata {
    pub cursor: Option<(usize, usize)>,
    pub column_axis: AxisLayout,
    pub row_axis: AxisLayout,
}

impl GridMetadata {
    /// The extent of the whole content: the total of the column axis and the
    /// total of the row axis.
    pub open spec fn total_extent(self) -> (u128, u128) {
        (self.column_axis.total_extent(), self.row_axis.total_extent())
    }

    /// Whether the lengths of both axes are ones that a machine can hold.
    pub open spec fn valid(self) -> bool {
        self.column_axis.valid() && self.row_axis.valid()
    }

    /// The state brought in step with a grid of `columns` by `rows` cells:
    /// each axis is first resized and then put into the mode that its
    /// preference asks for. The cursor stays.
    pub open spec fn synced(
        self,
        columns: usize,
        rows: usize,
        column_pref: WidthPreferences,
        row_pref: WidthPreferences,
    ) -> Self {
        GridMetadata {
            cursor: self.cursor,
            column_axis: self.column_axis.with_len(columns).with_mode(column_pref),
            row_axis: self.row_axis.with_len(rows).with_mode(row_pref),
        }
    }
}

} // verus!
