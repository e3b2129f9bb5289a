//! Laws of a cell's lifecycle, over the transitions that the handles'
//! contracts state.
use vstd::prelude::*;
use crate::cell::CellModel;

verus! {

/// Reading a newly constructed handle gives the value it was constructed from:
/// `EncryptedArc::new` pushes `CellModel::fresh(v)`, and `get` reads that
/// cell's payload.
pub proof fn lemma_read_after_new<T>(cells: Seq<CellModel<T>>, v: T)
    ensures
        cells.push(CellModel::fresh(v))[cells.len() as int].data == Some(v),
        cells.push(CellModel::fresh(v))[cells.len() as int].strong > 0,
{
}

/// Of a well-formed cell with `m` strong shares, the first `k < m` releases
/// leave the payload untouched, and the `m`-th destroys it and gives up the
/// strong side's weak share.
pub proof fn lemma_strong_releases<T>(c: CellModel<T>, k: nat)
    requires
        c.wf(),
        k <= c.strong,
    ensures
        k < c.strong ==> c.strong_released_times(k) == (CellModel::<T> {
            strong: (c.strong - k) as nat,
            ..c
        }),
        k == c.strong ==> c.strong_released_times(k) == (CellModel::<T> {
            strong: 0,
            weak: (c.weak - (if c.strong > 0 { 1int } else { 0int })) as nat,
            data: None,
        }),
    decreases k,
{
    if k > 0 {
        let d = c.with_strong_released();
        if c.strong == 1 {
            assert(d.strong_released_times(0) == d);
        } else {
            lemma_strong_releases(d, (k - 1) as nat);
        }
    }
}

/// A handle cloned `n` times and all `n + 1` handles released, in any order
/// (each release is the same step on the one cell): the payload stays through
/// the first `n` releases and is destroyed by the last one, once.
pub proof fn lemma_payload_destroyed_once<T>(v: T, n: nat, k: nat)
    requires
        k <= n + 1,
    ensures
        k <= n ==> CellModel::fresh(v).with_strong_added_times(n).strong_released_times(k).data
            == Some(v),
        k == n + 1 ==> (CellModel::fresh(v).with_strong_added_times(n).strong_released_times(
            k,
        ).data is None),
{
    lemma_strong_added(CellModel::fresh(v), n);
    lemma_strong_releases(CellModel::fresh(v).with_strong_added_times(n), k);
}

/// Adding `n` strong shares to a cell with a strong share raises its strong
/// count by `n` and changes nothing else.
pub proof fn lemma_strong_added<T>(c: CellModel<T>, n: nat)
    requires
        c.wf(),
        c.strong > 0,
    ensures
        c.with_strong_added_times(n) == (CellModel::<T> { strong: c.strong + n, ..c }),
        c.with_strong_added_times(n).wf(),
    decreases n,
{
    if n > 0 {
        lemma_strong_added(c.with_strong_added(), (n - 1) as nat);
    }
}

/// A downgrade followed at once by an upgrade, while a strong handle lives,
/// gives a handle on the original payload; once every strong handle has
/// been released, the upgrade gives `None`.
pub proof fn lemma_upgrade_after_downgrade<T>(c: CellModel<T>)
    requires
        c.wf(),
        c.strong > 0,
    ensures
        c.with_weak_added().upgrades(),
        c.with_weak_added().with_strong_added().data == c.data,
        !c.with_weak_added().strong_released_times(c.strong).upgrades(),
{
    lemma_strong_releases(c.with_weak_added(), c.strong);
}

/// No resurrection: a cell whose strong count is zero does not upgrade, and
/// no step that a handle can take on it makes the count nonzero again.
pub proof fn lemma_no_resurrection<T>(c: CellModel<T>)
    requires
        c.wf(),
        c.strong == 0,
    ensures
        !c.upgrades(),
        (c.data is None),
        c.with_weak_added().strong == 0,
        c.with_weak_released().strong == 0,
{
}

/// The storage of a cell is freed only once both counts have reached zero,
/// whichever side releases last, and a freed cell has no handle that could
/// free it again.
pub proof fn lemma_freed_after_both<T>(c: CellModel<T>)
    requires
        c.wf(),
    ensures
        c.strong > 0 && c.with_strong_released().is_freed() ==> c.strong == 1 && c.weak == 1
            && (c.with_strong_released().data is None),
        c.observed() && c.with_weak_released().is_freed() ==> c.strong == 0 && (c.data is None),
        c.observed() ==> !c.is_freed(),
        c.strong > 0 ==> !c.is_freed(),
        c.is_freed() ==> c.strong == 0 && !c.observed() && (c.data is None),
{
}

} // verus!
