//! An axis on which every index has its own size, with a cache of running
//! totals that is kept in step with the sizes.

use vstd::prelude::*;
use crate::model::{
    cumulative_of, lemma_cumulative_sorted, lemma_prefix_sum_fits,
    lemma_prefix_sum_of_common_prefix, prefix_sum, VariableLayout,
};
use crate::search::binary_search_sorted;

verus! {

/// The failure of an attempt to address an index that the axis does not have.
#[derive(Clone, Copy, Debug, PartialEq, Eq)]
pub struct IndexOutOfRange {
    /// The index that was asked for.
    pub index: usize,
    /// The length of the axis at that moment.
    pub len: usize,
}

/// Recomputes the running totals of `widths` from index `start` on, given
/// that the entries of `accum` before `start` are already right.
fn fill_accum_from(widths: &Vec<u32>, accum: &mut Vec<u128>, start: usize)
    requires
        start <= widths@.len(),
        start <= old(accum)@.len(),
        forall|j: int| 0 <= j < start ==> old(accum)@[j] == cumulative_of(widths@)[j],
    ensures
        final(accum)@ == cumulative_of(widths@),
{
    let n: usize = widths.len();
    accum.truncate(start);
    let mut run: u128 = if start == 0 {
        0
    } else {
        accum[start - 1]
    };
    proof {
        lemma_prefix_sum_fits(widths@, start as int);
    }
    let mut i: usize = start;
    while i < n
        invariant
            n == widths@.len(),
            i <= n,
            run == prefix_sum(widths@, i as int),
            accum@ =~= cumulative_of(widths@).subrange(0, i as int),
        decreases n - i,
    {
        proof {
            lemma_prefix_sum_fits(widths@, i + 1);
        }
        run = run + widths[i] as u128;
        accum.push(run);
        i = i + 1;
    }
}

/// The sizes of an axis on which every index can be sized on its own, with
/// the running totals that the offset and range queries read.
///
/// The running totals are recomputed inside every operation that changes a
/// size or the length, so no query ever reads a stale total.
pub struct VariableColumnWidths {
    default_width: u32,
    widths: Vec<u32>,
    accum: Vec<u128>,
}

impl View for VariableColumnWidths {
    type V = VariableLayout;

    closed spec fn view(&self) -> VariableLayout {
        VariableLayout { default_size: self.default_width, sizes: self.widths@ }
    }
}

impl Clone for VariableColumnWidths {
    /// A copy with the same default and the same sizes.
    fn clone(&self) -> (copy: Self)
        ensures
            copy@ == self@,
    {
        let n: usize = self.widths.len();
        let mut widths: Vec<u32> = Vec::with_capacity(n);
        let mut i: usize = 0;
        while i < n
            invariant
                n == self.widths@.len(),
                i <= n,
                widths@ =~= self.widths@.subrange(0, i as int),
            decreases n - i,
        {
            widths.push(self.widths[i]);
            i = i + 1;
        }
        let mut accum: Vec<u128> = Vec::with_capacity(n);
        fill_accum_from(&widths, &mut accum, 0);
        assert(widths@ =~= self.widths@);
        Self { default_width: self.default_width, widths, accum }
    }
}

impl VariableColumnWidths {
    #[verifier::type_invariant]
    spec fn cache_is_fresh(&self) -> bool {
        self.accum@ =~= cumulative_of(self.widths@)
    }

    /// The length of any axis fits in `usize`.
    pub proof fn lemma_view_valid(&self)
        ensures
            self@.valid(),
    {
        assert(self.widths.len() == self.widths@.len());
    }

    /// The running totals as the axis holds them: entry `k` is the
    /// coordinate at which cell `k` ends, as it was last computed.
    pub closed spec fn running_totals(&self) -> Seq<u128> {
        self.accum@
    }

    /// An empty axis whose future indices get `default_width`.
    pub fn new(default_width: u32) -> (axis: Self)
        ensures
            axis@ == (VariableLayout { default_size: default_width, sizes: Seq::empty() }),
    {
        Self { default_width, widths: Vec::new(), accum: Vec::new() }
    }

    /// An axis of `n` indices that all have `size`, whose future indices get
    /// `default_width`.
    pub(crate) fn filled(default_width: u32, size: u32, n: usize) -> (axis: Self)
        ensures
            axis@ == (VariableLayout {
                default_size: default_width,
                sizes: Seq::new(n as nat, |i: int| size),
            }),
    {
        let mut widths: Vec<u32> = Vec::new();
        let mut i: usize = 0;
        while i < n
            invariant
                i <= n,
                widths@ =~= Seq::new(i as nat, |k: int| size),
            decreases n - i,
        {
            widths.push(size);
            i = i + 1;
        }
        let mut accum: Vec<u128> = Vec::new();
        fill_accum_from(&widths, &mut accum, 0);
        Self { default_width, widths, accum }
    }

    /// Moves the parts out, leaving an empty axis behind.
    fn take_parts(&mut self) -> (parts: (u32, Vec<u32>, Vec<u128>))
        ensures
            parts.0 == old(self)@.default_size,
            parts.1@ == old(self)@.sizes,
            parts.2@ == cumulative_of(old(self)@.sizes),
    {
        proof {
            use_type_invariant(&*self);
        }
        let mut taken = Self::new(self.default_width);
        std::mem::swap(self, &mut taken);
        let VariableColumnWidths { default_width, widths, accum } = taken;
        (default_width, widths, accum)
    }

    /// The number of indices.
    pub fn len(&self) -> (n: usize)
        ensures
            n == self@.len(),
    {
        self.widths.len()
    }

    /// Resizes the axis to `len` indices. Surviving indices keep their sizes;
    /// new ones get the default size.
    pub fn set_len(&mut self, len: usize)
        ensures
            final(self)@ == old(self)@.with_len(len),
    {
        let (default_width, mut widths, mut accum) = self.take_parts();
        let ghost before = widths@;
        let kept: usize = if widths.len() < len {
            widths.len()
        } else {
            len
        };
        widths.truncate(len);
        while widths.len() < len
            invariant
                kept <= widths@.len() <= len,
                kept <= before.len(),
                before.len() <= len ==> kept == before.len(),
                forall|i: int| 0 <= i < kept ==> widths@[i] == before[i],
                forall|i: int| kept <= i < widths@.len() ==> widths@[i] == default_width,
            decreases len - widths@.len(),
        {
            widths.push(default_width);
        }
        proof {
            assert forall|j: int| 0 <= j < kept implies accum@[j] == cumulative_of(widths@)[j] by {
                lemma_prefix_sum_of_common_prefix(before, widths@, j + 1);
            }
            assert(widths@ =~= (VariableLayout {
                default_size: default_width,
                sizes: before,
            }).with_len(len).sizes);
        }
        fill_accum_from(&widths, &mut accum, kept);
        *self = VariableColumnWidths { default_width, widths, accum };
    }

    /// The coordinate at which index `idx` starts. Index `len` stands for the
    /// end of the axis; past it there is no offset.
    pub fn get_accum(&self, idx: usize) -> (offset: Option<u128>)
        ensures
            offset == self@.offset_at(idx),
    {
        proof {
            use_type_invariant(self);
        }
        if idx == 0 {
            Some(0)
        } else if idx - 1 < self.accum.len() {
            Some(self.accum[idx - 1])
        } else {
            None
        }
    }

    /// The size of index `idx`, absent when the axis has no such index.
    pub fn get_width(&self, idx: usize) -> (width: Option<u32>)
        ensures
            width == self@.size_at(idx),
    {
        if idx < self.widths.len() {
            Some(self.widths[idx])
        } else {
            None
        }
    }

    /// Sets the size of index `idx` and brings the running totals up to
    /// date. An index that the axis does not have is refused and nothing
    /// changes.
    pub fn set_width(&mut self, idx: usize, width: u32) -> (outcome: Result<(), IndexOutOfRange>)
        ensures
            outcome == (if idx < old(self)@.len() {
                Ok::<(), IndexOutOfRange>(())
            } else {
                Err(IndexOutOfRange { index: idx, len: old(self)@.len() as usize })
            }),
            final(self)@ == (if idx < old(self)@.len() {
                old(self)@.with_size(idx, width)
            } else {
                old(self)@
            }),
    {
        let n: usize = self.widths.len();
        if idx >= n {
            return Err(IndexOutOfRange { index: idx, len: n });
        }
        let (default_width, mut widths, mut accum) = self.take_parts();
        let ghost before = widths@;
        widths.set(idx, width);
        proof {
            assert forall|j: int| 0 <= j < idx implies accum@[j] == cumulative_of(widths@)[j] by {
                lemma_prefix_sum_of_common_prefix(before, widths@, j + 1);
            }
        }
        fill_accum_from(&widths, &mut accum, idx);
        *self = VariableColumnWidths { default_width, widths, accum };
        Ok(())
    }

    /// Recomputes every running total from the sizes: afterwards the axis
    /// holds, for every index, the sum of the sizes up to and including it.
    /// The sizes and the default stay as they are.
    pub fn rebuild_accum(&mut self)
        ensures
            final(self)@ == old(self)@,
            final(self).running_totals() == cumulative_of(old(self)@.sizes),
    {
        let (default_width, widths, mut accum) = self.take_parts();
        fill_accum_from(&widths, &mut accum, 0);
        *self = VariableColumnWidths { default_width, widths, accum };
    }

    /// The sum of all sizes.
    pub fn total_width(&self) -> (total: u128)
        ensures
            total == self@.total_extent(),
    {
        proof {
            use_type_invariant(self);
        }
        let n: usize = self.accum.len();
        if n == 0 {
            0
        } else {
            self.accum[n - 1]
        }
    }

    /// The index range that the coordinate interval `[min, max]` resolves to:
    /// one index more than the interval touches on either side, clamped to
    /// the indices that exist. The axis itself is left as it is.
    pub fn range(&mut self, min: u128, max: u128) -> (visible: (usize, usize))
        ensures
            visible == old(self)@.range(min, max),
            final(self)@ == old(self)@,
    {
        proof {
            use_type_invariant(&*self);
            self.lemma_view_valid();
            lemma_cumulative_sorted(self.widths@);
        }
        let low: usize = binary_search_sorted(self.accum.as_slice(), min);
        let high: usize = binary_search_sorted(self.accum.as_slice(), max);
        let n: usize = self.accum.len();
        let top: usize = if n == 0 {
            0
        } else {
            n - 1
        };
        let first: usize = if low == 0 {
            0
        } else {
            low - 1
        };
        let last: usize = if high < top {
            high + 1
        } else {
            top
        };
        (first, last)
    }
}

} // verus!
