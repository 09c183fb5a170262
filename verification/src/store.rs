//! The buffer of samples that one tracking session collects.

use vstd::prelude::*;
use crate::sample::{SampleView, TrackingData};

verus! {

/// What a list of samples says, one view for each sample, in order.
pub open spec fn samples_view(samples: Seq<TrackingData>) -> Seq<SampleView> {
    Seq::new(samples.len(), |i: int| samples[i]@)
}

/// An ordered, growable sequence of samples. Insertion order is sampling
/// order. Every operation needs the store as a whole, so none overlaps
/// another.
#[derive(Debug)]
pub struct SampleStore {
    samples: Vec<TrackingData>,
}

impl View for SampleStore {
    type V = Seq<SampleView>;

    closed spec fn view(&self) -> Seq<SampleView> {
        samples_view(self.samples@)
    }
}

impl SampleStore {
    /// An empty store.
    pub fn new() -> (store: SampleStore)
        ensures
            store@ == Seq::<SampleView>::empty(),
    {
        let store = SampleStore { samples: Vec::new() };
        assert(store@ =~= Seq::<SampleView>::empty());
        store
    }

    /// The number of samples in the store.
    pub fn len(&self) -> (n: usize)
        ensures
            n == self@.len(),
    {
        self.samples.len()
    }

    /// Adds `sample` at the end.
    pub fn append(&mut self, sample: TrackingData)
        ensures
            final(self)@ == old(self)@.push(sample@),
            final(self)@.len() == old(self)@.len() + 1,
    {
        self.samples.push(sample);
        assert(self@ =~= old(self)@.push(sample@));
    }

    /// Removes every sample.
    pub fn clear(&mut self)
        ensures
            final(self)@ == Seq::<SampleView>::empty(),
            final(self)@.len() == 0,
    {
        self.samples.clear();
        assert(self@ =~= Seq::<SampleView>::empty());
    }

    /// A copy of the whole sequence, in order, for saving.
    pub fn snapshot_for_persist(&self) -> (snapshot: Vec<TrackingData>)
        ensures
            samples_view(snapshot@) == self@,
    {
        let mut snapshot: Vec<TrackingData> = Vec::new();
        let mut i: usize = 0;
        while i < self.samples.len()
            invariant
                i <= self.samples.len(),
                snapshot.len() == i,
                forall|j: int| 0 <= j < i ==> snapshot[j]@ == self.samples[j]@,
            decreases self.samples.len() - i,
        {
            snapshot.push(self.samples[i].clone());
            i += 1;
        }
        assert(samples_view(snapshot@) =~= self@);
        snapshot
    }
}

} // verus!
