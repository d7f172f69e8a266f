use vstd::prelude::*;

verus! {

/// Number of items materialized beyond each edge of the viewport.
pub const EXTRA_BUFFER: usize = 5;

/// Sum of the heights `h[lo..hi)`.
pub open spec fn span_sum(h: Seq<u64>, lo: int, hi: int) -> int
    decreases hi - lo,
{
    if hi <= lo {
        0
    } else {
        span_sum(h, lo, hi - 1) + h[hi - 1]
    }
}

/// The first index `i` in `[from, len)` whose items `[0, i]` together reach
/// `target`, or `len` where none does.
pub open spec fn first_reaching(h: Seq<u64>, from: int, target: int) -> int
    decreases h.len() - from,
{
    if from >= h.len() {
        h.len() as int
    } else if span_sum(h, 0, from + 1) >= target {
        from
    } else {
        first_reaching(h, from + 1, target)
    }
}

/// The item at which the viewport starts: the first one that reaches the
/// scroll offset.
pub open spec fn boundary_index(h: Seq<u64>, scroll_offset: int) -> int {
    first_reaching(h, 0, scroll_offset)
}

/// First materialized item: the boundary moved up by the overscan.
pub open spec fn first_index_of(h: Seq<u64>, scroll_offset: int) -> int {
    let b = boundary_index(h, scroll_offset);
    if b >= EXTRA_BUFFER as int {
        b - EXTRA_BUFFER as int
    } else {
        0
    }
}

/// The item at which the viewport ends, searched from the first materialized
/// item.
pub open spec fn end_boundary_of(h: Seq<u64>, scroll_offset: int, viewport_extent: int) -> int {
    first_reaching(h, first_index_of(h, scroll_offset), scroll_offset + viewport_extent)
}

/// One past the last materialized item: the end boundary moved down by the
/// overscan, capped at the item count.
pub open spec fn past_last_index_of(h: Seq<u64>, scroll_offset: int, viewport_extent: int) -> int {
    let e = end_boundary_of(h, scroll_offset, viewport_extent) + 1 + EXTRA_BUFFER as int;
    if e <= h.len() {
        e
    } else {
        h.len() as int
    }
}

/// The range of items to materialize and the heights of the items on
/// either side of it.
#[derive(Clone, Copy, Debug, PartialEq, Eq, Structural)]
pub struct Window {
    pub first_index: usize,
    pub past_last_index: usize,
    pub hidden_before: u128,
    pub hidden_after: u128,
}

impl Window {
    /// The window of `heights` seen from `scroll_offset` over a viewport of
    /// `viewport_extent`.
    pub open spec fn is_window_of(self, h: Seq<u64>, scroll_offset: int, viewport_extent: int) -> bool {
        &&& self.first_index == first_index_of(h, scroll_offset)
        &&& self.past_last_index == past_last_index_of(h, scroll_offset, viewport_extent)
        &&& self.hidden_before == span_sum(h, 0, self.first_index as int)
        &&& self.hidden_after == span_sum(h, self.past_last_index as int, h.len() as int)
    }
}

proof fn lemma_span_sum_bound(h: Seq<u64>, lo: int, hi: int)
    requires
        0 <= lo <= hi <= h.len(),
    ensures
        0 <= span_sum(h, lo, hi) <= (hi - lo) * (u64::MAX as int),
    decreases hi - lo,
{
    if lo < hi {
        lemma_span_sum_bound(h, lo, hi - 1);
        assert((hi - 1 - lo) * (u64::MAX as int) + u64::MAX == (hi - lo) * (u64::MAX as int))
            by (nonlinear_arith);
    }
}

proof fn lemma_span_sum_fits(h: Seq<u64>, lo: int, hi: int)
    requires
        0 <= lo <= hi <= h.len(),
        h.len() <= usize::MAX,
    ensures
        0 <= span_sum(h, lo, hi) < u128::MAX,
{
    lemma_span_sum_bound(h, lo, hi);
    assert((hi - lo) * (u64::MAX as int) <= (usize::MAX as int) * (u64::MAX as int))
        by (nonlinear_arith)
        requires
            0 <= hi - lo <= usize::MAX,
    ;
    assert((usize::MAX as int) * (u64::MAX as int) < u128::MAX) by (nonlinear_arith)
        requires
            usize::MAX <= u64::MAX,
    ;
}

proof fn lemma_first_reaching(h: Seq<u64>, from: int, target: int)
    requires
        0 <= from <= h.len(),
    ensures
        from <= first_reaching(h, from, target) <= h.len(),
        forall|k: int|
            from < k <= first_reaching(h, from, target) ==> #[trigger] span_sum(h, 0, k) < target,
        first_reaching(h, from, target) < h.len() ==> span_sum(
            h,
            0,
            first_reaching(h, from, target) + 1,
        ) >= target,
    decreases h.len() - from,
{
    if from < h.len() && span_sum(h, 0, from + 1) < target {
        lemma_first_reaching(h, from + 1, target);
    }
}

/// Two windows computed from the same heights, scroll offset and viewport
/// extent are equal: the window depends on nothing else.
pub proof fn lemma_window_deterministic(
    w1: Window,
    w2: Window,
    h: Seq<u64>,
    scroll_offset: int,
    viewport_extent: int,
)
    requires
        w1.is_window_of(h, scroll_offset, viewport_extent),
        w2.is_window_of(h, scroll_offset, viewport_extent),
    ensures
        w1 == w2,
{
}

/// Scrolling further down never moves the first materialized item up.
pub proof fn lemma_first_index_monotone(h: Seq<u64>, offset1: int, offset2: int)
    requires
        offset1 <= offset2,
    ensures
        first_index_of(h, offset1) <= first_index_of(h, offset2),
{
    lemma_first_reaching(h, 0, offset1);
    lemma_first_reaching(h, 0, offset2);
    let b1 = boundary_index(h, offset1);
    let b2 = boundary_index(h, offset2);
    if b2 < b1 {
        assert(span_sum(h, 0, b2 + 1) >= offset2);
        assert(span_sum(h, 0, b2 + 1) < offset1);
    }
}

/// Where at least `EXTRA_BUFFER` items precede the viewport's first item,
/// exactly `EXTRA_BUFFER` of them are materialized above it; where at least
/// `EXTRA_BUFFER` items follow the viewport's last item, exactly
/// `EXTRA_BUFFER` of them are materialized below it.
pub proof fn lemma_overscan(h: Seq<u64>, scroll_offset: int, viewport_extent: int)
    ensures
        boundary_index(h, scroll_offset) >= EXTRA_BUFFER ==> boundary_index(h, scroll_offset)
            - first_index_of(h, scroll_offset) == EXTRA_BUFFER,
        end_boundary_of(h, scroll_offset, viewport_extent) + 1 + EXTRA_BUFFER <= h.len()
            ==> past_last_index_of(h, scroll_offset, viewport_extent) - (end_boundary_of(
            h,
            scroll_offset,
            viewport_extent,
        ) + 1) == EXTRA_BUFFER,
{
}

/// Computes which items to materialize for a list whose item heights are
/// `heights`, scrolled to `scroll_offset`, shown in a viewport of
/// `viewport_extent`.
///
/// The scan keeps the heights that precede the last `EXTRA_BUFFER` items in a
/// ring, so that the height before the first materialized item is at hand
/// once the viewport's start is found.
pub fn compute_window(heights: &[u64], scroll_offset: u64, viewport_extent: u64) -> (w: Window)
    ensures
        w.is_window_of(heights@, scroll_offset as int, viewport_extent as int),
        0 <= w.first_index <= w.past_last_index <= heights@.len(),
{
    let n = heights.len();
    let ghost h = heights@;
    proof {
        lemma_first_reaching(h, 0, scroll_offset as int);
    }
    let mut ring: [u128; 5] = [0u128; 5];
    let mut ring_pos: usize = 0;
    let mut boundary: usize = n;
    let mut passed: u128 = 0;
    let mut i: usize = 0;
    while i < n
        invariant_except_break
            passed == span_sum(h, 0, i as int),
            boundary == n,
        invariant
            n == h.len(),
            h == heights@,
            i <= n,
            ring_pos == i % EXTRA_BUFFER,
            forall|j: int|
                0 <= j < i && i <= j + (EXTRA_BUFFER as int) ==> ring[j % (EXTRA_BUFFER as int)]
                    == span_sum(h, 0, j),
            forall|k: int| i <= k < EXTRA_BUFFER as int ==> ring[k] == 0,
            forall|k: int| 0 < k <= i ==> #[trigger] span_sum(h, 0, k) < scroll_offset,
        ensures
            boundary == i,
            i < n ==> span_sum(h, 0, i + 1) >= scroll_offset,
    decreases n - i,
    {
        let before = passed;
        proof {
            lemma_span_sum_fits(h, 0, i + 1);
        }
        passed = passed + heights[i] as u128;
        if passed >= scroll_offset as u128 {
            boundary = i;
            break;
        }
        ring[ring_pos] = before;
        ring_pos = if ring_pos + 1 == EXTRA_BUFFER {
            0
        } else {
            ring_pos + 1
        };
        i = i + 1;
    }
    proof {
        assert(boundary == boundary_index(h, scroll_offset as int));
    }
    let first: usize = if boundary >= EXTRA_BUFFER {
        boundary - EXTRA_BUFFER
    } else {
        0
    };
    let hidden_before = ring[first % EXTRA_BUFFER];
    assert(hidden_before == span_sum(h, 0, first as int));

    proof {
        lemma_first_reaching(h, first as int, scroll_offset + viewport_extent);
    }
    let target: u128 = scroll_offset as u128 + viewport_extent as u128;
    let mut past_last: usize = n;
    let mut passed: u128 = hidden_before;
    let mut j: usize = first;
    while j < n
        invariant_except_break
            passed == span_sum(h, 0, j as int),
            past_last == n,
        invariant
            n == h.len(),
            h == heights@,
            first <= j <= n,
            forall|k: int| first < k <= j ==> #[trigger] span_sum(h, 0, k) < target,
        ensures
            j < n ==> span_sum(h, 0, j + 1) >= target,
            j < n ==> past_last == if n - j >= 1 + EXTRA_BUFFER {
                j + 1 + EXTRA_BUFFER
            } else {
                n as int
            },
            j == n ==> past_last == n,
    decreases n - j,
    {
        proof {
            lemma_span_sum_fits(h, 0, j + 1);
        }
        passed = passed + heights[j] as u128;
        if passed >= target {
            past_last = if n - j >= 1 + EXTRA_BUFFER {
                j + 1 + EXTRA_BUFFER
            } else {
                n
            };
            break;
        }
        j = j + 1;
    }
    proof {
        assert(past_last == past_last_index_of(h, scroll_offset as int, viewport_extent as int));
    }

    let mut hidden_after: u128 = 0;
    let mut k: usize = past_last;
    while k < n
        invariant
            n == h.len(),
            h == heights@,
            past_last <= k <= n,
            hidden_after == span_sum(h, past_last as int, k as int),
        decreases n - k,
    {
        proof {
            lemma_span_sum_fits(h, past_last as int, k + 1);
        }
        hidden_after = hidden_after + heights[k] as u128;
        k = k + 1;
    }
    Window { first_index: first, past_last_index: past_last, hidden_before, hidden_after }
}

} // verus!
