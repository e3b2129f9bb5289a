//! Managed cells: a strong count, a weak count and the payload, kept in a
//! block of stable slots.
use vstd::prelude::*;

verus! {

/// What one cell holds, as the contracts see it.
pub struct CellModel<T> {
    pub strong: nat,
    pub weak: nat,
    pub data: Option<T>,
}

impl<T> CellModel<T> {
    /// A new cell: one strong share, and the weak share that the strong
    /// side holds together.
    pub open spec fn fresh(v: T) -> Self {
        CellModel { strong: 1, weak: 1, data: Some(v) }
    }

    /// While a strong share exists the payload is there and the strong side
    /// holds a weak share; once none does, the payload is gone.
    pub open spec fn wf(self) -> bool {
        &&& self.strong > 0 ==> self.weak >= 1 && self.data is Some
        &&& self.strong == 0 ==> self.data is None
    }

    /// The cell's storage has been freed.
    pub open spec fn is_freed(self) -> bool {
        self.weak == 0
    }

    /// The weak count that a cell has at least while one weak handle
    /// observes it: that handle's share, and the strong side's while it lasts.
    pub open spec fn observed(self) -> bool {
        self.weak >= 1 + (if self.strong > 0 { 1nat } else { 0nat })
    }

    /// The same counts, with payload `v`.
    pub open spec fn with_data(self, v: T) -> Self {
        CellModel { data: Some(v), ..self }
    }

    /// One more strong share.
    pub open spec fn with_strong_added(self) -> Self {
        CellModel { strong: self.strong + 1, ..self }
    }

    /// One more weak share.
    pub open spec fn with_weak_added(self) -> Self {
        CellModel { weak: self.weak + 1, ..self }
    }

    /// One strong share released: the last one destroys the payload and
    /// releases the strong side's weak share.
    pub open spec fn with_strong_released(self) -> Self {
        if self.strong == 1 {
            CellModel { strong: 0, weak: (self.weak - 1) as nat, data: None }
        } else {
            CellModel { strong: (self.strong - 1) as nat, ..self }
        }
    }

    /// One weak share released: the last one frees the storage.
    pub open spec fn with_weak_released(self) -> Self {
        CellModel { weak: (self.weak - 1) as nat, ..self }
    }

    /// An upgrade succeeds exactly while a strong share exists.
    pub open spec fn upgrades(self) -> bool {
        self.strong > 0
    }

    /// The cell after `n` strong shares were added.
    pub open spec fn with_strong_added_times(self, n: nat) -> Self
        decreases n,
    {
        if n == 0 {
            self
        } else {
            self.with_strong_added().with_strong_added_times((n - 1) as nat)
        }
    }

    /// The cell after `k` strong releases.
    pub open spec fn strong_released_times(self, k: nat) -> Self
        decreases k,
    {
        if k == 0 {
            self
        } else {
            self.with_strong_released().strong_released_times((k - 1) as nat)
        }
    }
}

/// A block of cells. A slot, once given to a cell, is never given to another,
/// so a slot index names one cell for good.
pub struct CellStore<T> {
    strong: Vec<usize>,
    weak: Vec<usize>,
    data: Vec<Option<T>>,
}

impl<T> View for CellStore<T> {
    type V = Seq<CellModel<T>>;

    closed spec fn view(&self) -> Seq<CellModel<T>> {
        Seq::new(
            self.data@.len(),
            |i: int|
                CellModel {
                    strong: self.strong@[i] as nat,
                    weak: self.weak@[i] as nat,
                    data: self.data@[i],
                },
        )
    }
}

impl<T> CellStore<T> {
    /// Every cell of the store is well formed.
    pub closed spec fn wf(&self) -> bool {
        &&& self.strong@.len() == self.data@.len()
        &&& self.weak@.len() == self.data@.len()
        &&& Self::cells_wf(self@)
    }

    /// Every cell of `cells` is well formed.
    pub open spec fn cells_wf(cells: Seq<CellModel<T>>) -> bool {
        forall|i: int| 0 <= i < cells.len() ==> (#[trigger] cells[i]).wf()
    }

    /// Each cell of a well-formed store is well formed.
    pub proof fn lemma_cell_wf(&self, slot: int)
        requires
            self.wf(),
            0 <= slot < self@.len(),
        ensures
            self@[slot].wf(),
    {
    }

    /// An empty store.
    pub fn new() -> (r: Self)
        ensures
            r.wf(),
            r@ == Seq::<CellModel<T>>::empty(),
    {
        let r = CellStore { strong: Vec::new(), weak: Vec::new(), data: Vec::new() };
        assert(r@ =~= Seq::<CellModel<T>>::empty());
        r
    }

    /// The number of slots given out so far.
    pub fn len(&self) -> (r: usize)
        requires
            self.wf(),
        ensures
            r == self@.len(),
    {
        self.data.len()
    }

    /// Whether the storage of the cell in `slot` is still allocated.
    pub fn is_allocated(&self, slot: usize) -> (r: bool)
        requires
            self.wf(),
        ensures
            r == (slot < self@.len() && !self@[slot as int].is_freed()),
    {
        slot < self.data.len() && self.weak[slot] > 0
    }

    /// Puts a fresh cell holding `v` in the next slot.
    pub(crate) fn allocate(&mut self, v: T) -> (r: usize)
        requires
            old(self).wf(),
            old(self)@.len() < usize::MAX,
        ensures
            final(self).wf(),
            r == old(self)@.len(),
            final(self)@ == old(self)@.push(CellModel::fresh(v)),
    {
        let r = self.data.len();
        self.strong.push(1);
        self.weak.push(1);
        self.data.push(Some(v));
        assert(self@ =~= old(self)@.push(CellModel::fresh(v)));
        r
    }

    /// The strong count of the cell in `slot`.
    pub(crate) fn strong_of(&self, slot: usize) -> (r: usize)
        requires
            self.wf(),
            slot < self@.len(),
        ensures
            r == self@[slot as int].strong,
    {
        self.strong[slot]
    }

    /// The weak count of the cell in `slot`.
    pub(crate) fn weak_of(&self, slot: usize) -> (r: usize)
        requires
            self.wf(),
            slot < self@.len(),
        ensures
            r == self@[slot as int].weak,
    {
        self.weak[slot]
    }

    /// The payload of the cell in `slot`.
    pub(crate) fn data_of(&self, slot: usize) -> (r: &T)
        requires
            self.wf(),
            slot < self@.len(),
            self@[slot as int].strong > 0,
        ensures
            self@[slot as int].data == Some(*r),
    {
        assert(self@[slot as int].wf());
        self.data[slot].as_ref().unwrap()
    }

    /// Puts `v` in place of the payload of the cell in `slot`, and gives back
    /// the payload that was there.
    pub(crate) fn replace_data(&mut self, slot: usize, v: T) -> (r: T)
        requires
            old(self).wf(),
            slot < old(self)@.len(),
            old(self)@[slot as int].strong > 0,
        ensures
            final(self).wf(),
            old(self)@[slot as int].data == Some(r),
            final(self)@ == old(self)@.update(
                slot as int,
                old(self)@[slot as int].with_data(v),
            ),
    {
        assert(old(self)@[slot as int].wf());
        let mut held: Option<T> = Some(v);
        self.data.set_and_swap(slot, &mut held);
        assert(self@ =~= old(self)@.update(
            slot as int,
            old(self)@[slot as int].with_data(v),
        ));
        assert(self@[slot as int].wf());
        held.unwrap()
    }

    /// Adds a strong share to the cell in `slot`.
    pub(crate) fn add_strong(&mut self, slot: usize)
        requires
            old(self).wf(),
            slot < old(self)@.len(),
            old(self)@[slot as int].strong > 0,
            old(self)@[slot as int].strong <= isize::MAX,
        ensures
            final(self).wf(),
            final(self)@ == old(self)@.update(
                slot as int,
                old(self)@[slot as int].with_strong_added(),
            ),
    {
        assert(old(self)@[slot as int].wf());
        let n = self.strong[slot];
        self.strong.set(slot, n + 1);
        assert(self@ =~= old(self)@.update(
            slot as int,
            old(self)@[slot as int].with_strong_added(),
        ));
    }

    /// Adds a weak share to the cell in `slot`.
    pub(crate) fn add_weak(&mut self, slot: usize)
        requires
            old(self).wf(),
            slot < old(self)@.len(),
            old(self)@[slot as int].weak > 0,
            old(self)@[slot as int].weak <= isize::MAX,
        ensures
            final(self).wf(),
            final(self)@ == old(self)@.update(slot as int, old(self)@[slot as int].with_weak_added()),
    {
        assert(old(self)@[slot as int].wf());
        let n = self.weak[slot];
        self.weak.set(slot, n + 1);
        assert(self@ =~= old(self)@.update(slot as int, old(self)@[slot as int].with_weak_added()));
    }

    /// Releases a weak share of the cell in `slot`; the last one frees the
    /// cell's storage.
    pub(crate) fn release_weak(&mut self, slot: usize)
        requires
            old(self).wf(),
            slot < old(self)@.len(),
            old(self)@[slot as int].observed(),
        ensures
            final(self).wf(),
            final(self)@ == old(self)@.update(
                slot as int,
                old(self)@[slot as int].with_weak_released(),
            ),
    {
        let n = self.weak[slot];
        self.weak.set(slot, n - 1);
        assert(self@ =~= old(self)@.update(
            slot as int,
            old(self)@[slot as int].with_weak_released(),
        ));
        assert(self@[slot as int].wf());
    }

    /// Releases a strong share of the cell in `slot`. The last one destroys
    /// the payload in place and then releases the weak share that the strong
    /// side held, which frees the storage if no weak handle is left.
    pub(crate) fn release_strong(&mut self, slot: usize)
        requires
            old(self).wf(),
            slot < old(self)@.len(),
            old(self)@[slot as int].strong > 0,
        ensures
            final(self).wf(),
            final(self)@ == old(self)@.update(
                slot as int,
                old(self)@[slot as int].with_strong_released(),
            ),
    {
        assert(old(self)@[slot as int].wf());
        let n = self.strong[slot];
        self.strong.set(slot, n - 1);
        if n == 1 {
            self.data.set(slot, None);
            let w = self.weak[slot];
            self.weak.set(slot, w - 1);
        }
        assert(self@ =~= old(self)@.update(
            slot as int,
            old(self)@[slot as int].with_strong_released(),
        ));
        assert(self@[slot as int].wf());
    }
}

} // verus!
