use vstd::prelude::*;

verus! {

/// The height given to items that have not been measured yet.
#[derive(Clone, Copy, Debug, PartialEq, Eq, Structural)]
#[non_exhaustive]
pub enum ItemSize {
    /// A height in pixels.
    Pixels(usize),
}

impl ItemSize {
    /// The height in pixels.
    pub open spec fn pixels_spec(self) -> int {
        match self {
            ItemSize::Pixels(p) => p as int,
        }
    }

    /// The height in pixels.
    pub fn pixels(&self) -> (r: usize)
        ensures
            r == self.pixels_spec(),
    {
        match self {
            ItemSize::Pixels(p) => *p,
        }
    }

    /// The height in the units of the size table.
    pub fn as_scroll_size(&self) -> (r: u64)
        ensures
            r == self.pixels_spec(),
    {
        match self {
            ItemSize::Pixels(p) => *p as u64,
        }
    }

    /// The height of `count` items of this size, or `None` where it does not
    /// fit in a `usize`.
    pub fn times(&self, count: usize) -> (r: Option<ItemSize>)
        ensures
            count * self.pixels_spec() <= usize::MAX ==> r == Some(
                ItemSize::Pixels((count * self.pixels_spec()) as usize),
            ),
            count * self.pixels_spec() > usize::MAX ==> r is None,
    {
        match self {
            ItemSize::Pixels(p) => match count.checked_mul(*p) {
                Some(q) => Some(ItemSize::Pixels(q)),
                None => None,
            },
        }
    }
}

/// The height of each item of a list, measured or estimated, by index.
#[derive(Debug)]
pub struct SizeTable {
    heights: Vec<u64>,
}

impl View for SizeTable {
    type V = Seq<u64>;

    closed spec fn view(&self) -> Seq<u64> {
        self.heights@
    }
}

impl SizeTable {
    /// An empty table.
    pub fn new() -> (t: SizeTable)
        ensures
            t@ == Seq::<u64>::empty(),
    {
        SizeTable { heights: Vec::new() }
    }

    /// Number of items in the table.
    pub fn len(&self) -> (r: usize)
        ensures
            r == self@.len(),
    {
        self.heights.len()
    }

    /// The heights, by index.
    pub fn heights(&self) -> (r: &[u64])
        ensures
            r@ == self@,
    {
        self.heights.as_slice()
    }

    /// The height of item `index`, if the table holds it.
    pub fn get(&self, index: usize) -> (r: Option<u64>)
        ensures
            index < self@.len() ==> r == Some(self@[index as int]),
            index >= self@.len() ==> r is None,
    {
        if index < self.heights.len() {
            Some(self.heights[index])
        } else {
            None
        }
    }

    /// Makes the table hold `new_count` items: items that stay keep their
    /// height and new ones get `prior`.
    pub fn resize(&mut self, new_count: usize, prior: u64)
        ensures
            final(self)@.len() == new_count,
            forall|i: int|
                0 <= i < new_count && i < old(self)@.len() ==> final(self)@[i] == old(self)@[i],
            forall|i: int| old(self)@.len() <= i < new_count ==> final(self)@[i] == prior,
    {
        if new_count <= self.heights.len() {
            self.heights.truncate(new_count);
        } else {
            let ghost before = self.heights@;
            while self.heights.len() < new_count
                invariant
                    before.len() <= self.heights@.len() <= new_count,
                    forall|i: int| 0 <= i < before.len() ==> self.heights@[i] == before[i],
                    forall|i: int|
                        before.len() <= i < self.heights@.len() ==> self.heights@[i] == prior,
                decreases new_count - self.heights@.len(),
            {
                self.heights.push(prior);
            }
        }
    }

    /// Records the height of item `index`; does nothing where the table does
    /// not hold that item.
    pub fn set(&mut self, index: usize, height: u64)
        ensures
            index < old(self)@.len() ==> final(self)@ == old(self)@.update(index as int, height),
            index >= old(self)@.len() ==> final(self)@ == old(self)@,
    {
        if index < self.heights.len() {
            self.heights.set(index, height);
        }
    }
}

} // verus!
