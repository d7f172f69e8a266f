use vstd::prelude::*;
use crate::size_table::{ItemSize, SizeTable};
use crate::window::{compute_window, Window};

verus! {

/// Where a list stands in its lifecycle.
#[derive(Clone, Copy, Debug, PartialEq, Eq, Structural)]
pub enum Phase {
    /// Created, its host element not attached yet.
    Unmounted,
    /// Attached: notifications are taken.
    Mounted,
    /// Taken down: every notification is ignored from now on.
    TornDown,
}

/// The heights after a batch of resize notifications, taken in order; a
/// notification for a position the table does not hold changes nothing.
pub open spec fn apply_resizes(h: Seq<u64>, changes: Seq<(usize, u64)>) -> Seq<u64>
    decreases changes.len(),
{
    if changes.len() == 0 {
        h
    } else {
        let before = apply_resizes(h, changes.drop_last());
        let (pos, height) = changes.last();
        if pos < before.len() {
            before.update(pos as int, height)
        } else {
            before
        }
    }
}

proof fn lemma_apply_resizes_len(h: Seq<u64>, changes: Seq<(usize, u64)>)
    ensures
        apply_resizes(h, changes).len() == h.len(),
    decreases changes.len(),
{
    if changes.len() > 0 {
        lemma_apply_resizes_len(h, changes.drop_last());
    }
}

/// The state of one virtualized list: the height of each item, the scroll
/// position, the viewport, and the window last computed from them.
#[derive(Debug)]
pub struct ListController {
    phase: Phase,
    table: SizeTable,
    height_prior: u64,
    scroll_offset: u64,
    viewport_extent: u64,
    window: Option<Window>,
}

impl ListController {
    /// Where the list stands in its lifecycle.
    pub closed spec fn phase_spec(&self) -> Phase {
        self.phase
    }

    /// The height of each item, by index.
    pub closed spec fn heights_spec(&self) -> Seq<u64> {
        self.table@
    }

    /// The estimate given to items not measured yet.
    pub closed spec fn prior_spec(&self) -> u64 {
        self.height_prior
    }

    /// The scroll offset last recorded.
    pub closed spec fn scroll_spec(&self) -> u64 {
        self.scroll_offset
    }

    /// The viewport extent recorded at mount.
    pub closed spec fn viewport_spec(&self) -> u64 {
        self.viewport_extent
    }

    /// The window last computed, if any.
    pub closed spec fn window_spec(&self) -> Option<Window> {
        self.window
    }

    /// A window, once computed, is the window of the current heights, scroll
    /// offset and viewport.
    pub open spec fn wf(&self) -> bool {
        self.window_spec() matches Some(w) ==> w.is_window_of(
            self.heights_spec(),
            self.scroll_spec() as int,
            self.viewport_spec() as int,
        )
    }

    fn recompute(&mut self)
        ensures
            final(self).wf(),
            final(self).window_spec() is Some,
            final(self).phase_spec() == old(self).phase_spec(),
            final(self).heights_spec() == old(self).heights_spec(),
            final(self).prior_spec() == old(self).prior_spec(),
            final(self).scroll_spec() == old(self).scroll_spec(),
            final(self).viewport_spec() == old(self).viewport_spec(),
    {
        let w = compute_window(self.table.heights(), self.scroll_offset, self.viewport_extent);
        self.window = Some(w);
    }

    /// A list of `item_count` items, each estimated at `height_prior`, not
    /// mounted yet and not scrolled.
    pub fn new(item_count: usize, height_prior: ItemSize) -> (c: ListController)
        ensures
            c.wf(),
            c.phase_spec() == Phase::Unmounted,
            c.heights_spec() == Seq::new(item_count as nat, |i: int| height_prior.pixels_spec() as u64),
            c.prior_spec() == height_prior.pixels_spec(),
            c.scroll_spec() == 0,
            c.viewport_spec() == 0,
            c.window_spec() is None,
    {
        let prior = height_prior.as_scroll_size();
        let mut table = SizeTable::new();
        table.resize(item_count, prior);
        let c = ListController {
            phase: Phase::Unmounted,
            table,
            height_prior: prior,
            scroll_offset: 0,
            viewport_extent: 0,
            window: None,
        };
        assert(c.table@ =~= Seq::new(item_count as nat, |i: int| prior));
        c
    }

    /// The host element was attached with a client extent of
    /// `viewport_extent`: records it and computes the window. Returns whether
    /// a render is requested; only an unmounted list is mounted.
    pub fn mounted(&mut self, viewport_extent: u64) -> (r: bool)
        requires
            old(self).wf(),
        ensures
            final(self).wf(),
            r == (old(self).phase_spec() == Phase::Unmounted),
            final(self).heights_spec() == old(self).heights_spec(),
            final(self).prior_spec() == old(self).prior_spec(),
            final(self).scroll_spec() == old(self).scroll_spec(),
            r ==> final(self).phase_spec() == Phase::Mounted,
            r ==> final(self).viewport_spec() == viewport_extent,
            r ==> final(self).window_spec() is Some,
            !r ==> *final(self) == *old(self),
    {
        if self.phase != Phase::Unmounted {
            return false;
        }
        self.phase = Phase::Mounted;
        self.viewport_extent = viewport_extent;
        self.recompute();
        true
    }

    /// The list's properties changed: the table is resized to `item_count`
    /// items, new ones estimated at `height_prior`, and the window is
    /// computed again, whether or not anything moved. Returns whether a
    /// render is requested; a list taken down ignores it.
    pub fn props_changed(&mut self, item_count: usize, height_prior: ItemSize) -> (r: bool)
        requires
            old(self).wf(),
        ensures
            final(self).wf(),
            r == (old(self).phase_spec() != Phase::TornDown),
            final(self).phase_spec() == old(self).phase_spec(),
            final(self).scroll_spec() == old(self).scroll_spec(),
            final(self).viewport_spec() == old(self).viewport_spec(),
            r ==> final(self).prior_spec() == height_prior.pixels_spec(),
            r ==> final(self).heights_spec().len() == item_count,
            r ==> forall|i: int|
                0 <= i < item_count && i < old(self).heights_spec().len()
                    ==> final(self).heights_spec()[i] == old(self).heights_spec()[i],
            r ==> forall|i: int|
                old(self).heights_spec().len() <= i < item_count ==> final(self).heights_spec()[i]
                    == height_prior.pixels_spec(),
            r ==> final(self).window_spec() is Some,
            !r ==> *final(self) == *old(self),
    {
        if self.phase == Phase::TornDown {
            return false;
        }
        let prior = height_prior.as_scroll_size();
        self.height_prior = prior;
        self.table.resize(item_count, prior);
        self.recompute();
        true
    }

    /// A sampled scroll notification reports `scroll_offset`. Where it
    /// differs from the current one, it is recorded and the window is
    /// computed again. Returns whether a render is requested.
    pub fn scroll_sampled(&mut self, scroll_offset: u64) -> (r: bool)
        requires
            old(self).wf(),
        ensures
            final(self).wf(),
            r == (old(self).phase_spec() != Phase::TornDown && old(self).scroll_spec()
                != scroll_offset),
            final(self).phase_spec() == old(self).phase_spec(),
            final(self).heights_spec() == old(self).heights_spec(),
            final(self).prior_spec() == old(self).prior_spec(),
            final(self).viewport_spec() == old(self).viewport_spec(),
            r ==> final(self).scroll_spec() == scroll_offset,
            r ==> final(self).window_spec() is Some,
            !r ==> *final(self) == *old(self),
    {
        if self.phase == Phase::TornDown || self.scroll_offset == scroll_offset {
            return false;
        }
        self.scroll_offset = scroll_offset;
        self.recompute();
        true
    }

    /// A batch of resize notifications, each a position and the measured
    /// height there: records them in order, ignoring positions the table
    /// does not hold, and computes the window again. Returns whether a
    /// render is requested; a list taken down ignores the batch.
    pub fn resized(&mut self, changes: &[(usize, u64)]) -> (r: bool)
        requires
            old(self).wf(),
        ensures
            final(self).wf(),
            r == (old(self).phase_spec() != Phase::TornDown),
            final(self).phase_spec() == old(self).phase_spec(),
            final(self).prior_spec() == old(self).prior_spec(),
            final(self).scroll_spec() == old(self).scroll_spec(),
            final(self).viewport_spec() == old(self).viewport_spec(),
            r ==> final(self).heights_spec() == apply_resizes(old(self).heights_spec(), changes@),
            r ==> final(self).window_spec() is Some,
            !r ==> *final(self) == *old(self),
    {
        if self.phase == Phase::TornDown {
            return false;
        }
        let ghost h0 = self.table@;
        let mut i: usize = 0;
        while i < changes.len()
            invariant
                i <= changes@.len(),
                self.table@ == apply_resizes(h0, changes@.subrange(0, i as int)),
                self.phase == old(self).phase,
                self.height_prior == old(self).height_prior,
                self.scroll_offset == old(self).scroll_offset,
                self.viewport_extent == old(self).viewport_extent,
                h0 == old(self).table@,
            decreases changes@.len() - i,
        {
            let (pos, height) = changes[i];
            proof {
                let prefix = changes@.subrange(0, i + 1);
                assert(prefix.drop_last() =~= changes@.subrange(0, i as int));
                lemma_apply_resizes_len(h0, changes@.subrange(0, i as int));
            }
            self.table.set(pos, height);
            i = i + 1;
        }
        assert(changes@.subrange(0, changes@.len() as int) =~= changes@);
        self.recompute();
        true
    }

    /// The list is taken down: no notification is taken from now on, a
    /// timer that fires later included. Returns whether it was live.
    pub fn unmount(&mut self) -> (r: bool)
        requires
            old(self).wf(),
        ensures
            final(self).wf(),
            r == (old(self).phase_spec() != Phase::TornDown),
            final(self).phase_spec() == Phase::TornDown,
            final(self).heights_spec() == old(self).heights_spec(),
            final(self).prior_spec() == old(self).prior_spec(),
            final(self).scroll_spec() == old(self).scroll_spec(),
            final(self).viewport_spec() == old(self).viewport_spec(),
            final(self).window_spec() == old(self).window_spec(),
    {
        let r = self.phase != Phase::TornDown;
        self.phase = Phase::TornDown;
        r
    }

    /// Where the list stands in its lifecycle.
    pub fn phase(&self) -> (r: Phase)
        ensures
            r == self.phase_spec(),
    {
        self.phase
    }

    /// The window last computed, if any.
    pub fn window(&self) -> (r: Option<Window>)
        requires
            self.wf(),
        ensures
            r == self.window_spec(),
            r matches Some(w) ==> w.is_window_of(
                self.heights_spec(),
                self.scroll_spec() as int,
                self.viewport_spec() as int,
            ),
    {
        self.window
    }

    /// The height of each item, by index.
    pub fn heights(&self) -> (r: &[u64])
        ensures
            r@ == self.heights_spec(),
    {
        self.table.heights()
    }

    /// Number of items in the list.
    pub fn item_count(&self) -> (r: usize)
        ensures
            r == self.heights_spec().len(),
    {
        self.table.len()
    }

    /// The scroll offset last recorded.
    pub fn scroll_offset(&self) -> (r: u64)
        ensures
            r == self.scroll_spec(),
    {
        self.scroll_offset
    }

    /// The viewport extent recorded at mount.
    pub fn viewport_extent(&self) -> (r: u64)
        ensures
            r == self.viewport_spec(),
    {
        self.viewport_extent
    }
}

} // verus!
