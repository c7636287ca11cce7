//! An owned, append-only collection of rendered pages.

use vstd::prelude::*;

verus! {

/// Rendered pages in the order they were stored.
pub struct PlotStore {
    plots: Vec<Vec<u8>>,
}

impl PlotStore {
    /// The stored pages, oldest first.
    pub closed spec fn view(&self) -> Seq<Seq<u8>> {
        Seq::new(self.plots@.len(), |i: int| self.plots@[i]@)
    }

    /// An empty store.
    pub fn new() -> (store: PlotStore)
        ensures
            store@ == Seq::<Seq<u8>>::empty(),
    {
        let store = PlotStore { plots: Vec::new() };
        assert(store@ =~= Seq::<Seq<u8>>::empty());
        store
    }
}

/// Appends `plot` to the store; earlier pages are untouched.
pub fn store_plot(store: &mut PlotStore, plot: Vec<u8>)
    ensures
        final(store)@ == old(store)@.push(plot@),
{
    store.plots.push(plot);
    assert(store@ =~= old(store)@.push(plot@));
}

/// A copy of every stored page, oldest first. The store is unchanged.
pub fn get_plots(store: &PlotStore) -> (res: Vec<Vec<u8>>)
    ensures
        res@.len() == store@.len(),
        forall|i: int| 0 <= i < res@.len() ==> (#[trigger] res@[i])@ == store@[i],
{
    let mut res: Vec<Vec<u8>> = Vec::new();
    let mut i: usize = 0;
    while i < store.plots.len()
        invariant
            i <= store.plots@.len(),
            res@.len() == i,
            forall|k: int| 0 <= k < i ==> (#[trigger] res@[k])@ == store.plots@[k]@,
        decreases store.plots@.len() - i,
    {
        let copy = store.plots[i].clone();
        assert(copy@ =~= store.plots@[i as int]@);
        res.push(copy);
        i += 1;
    }
    res
}

/// Forgets every stored page.
pub fn reset_plots(store: &mut PlotStore)
    ensures
        final(store)@ == Seq::<Seq<u8>>::empty(),
{
    store.plots.clear();
    assert(store@ =~= Seq::<Seq<u8>>::empty());
}

} // verus!
