//! A single-pass cursor over a precomputed sample sequence.

use vstd::prelude::*;

verus! {

/// Yields the samples of a fixed sequence once each, in order; once
/// exhausted it yields nothing more.
pub struct SampleCursor<S> {
    samples: Vec<S>,
    index: usize,
}

impl<S> SampleCursor<S> {
    /// The whole sequence, consumed or not.
    pub closed spec fn samples_view(&self) -> Seq<S> {
        self.samples@
    }

    /// How many samples have been handed out.
    pub closed spec fn position(&self) -> nat {
        self.index as nat
    }

    pub open spec fn well_formed(&self) -> bool {
        self.position() <= self.samples_view().len()
    }

    /// A cursor at the start of `samples`.
    pub fn new(samples: Vec<S>) -> (r: Self)
        ensures
            r.well_formed(),
            r.samples_view() == samples@,
            r.position() == 0,
    {
        SampleCursor { samples, index: 0 }
    }

    /// Total number of samples, consumed or not.
    pub fn len(&self) -> (r: usize)
        ensures
            r == self.samples_view().len(),
    {
        self.samples.len()
    }

    /// Number of samples not yet handed out.
    pub fn remaining(&self) -> (r: usize)
        requires
            self.well_formed(),
        ensures
            r == self.samples_view().len() - self.position(),
    {
        self.samples.len() - self.index
    }

    /// The whole sequence, consumed or not.
    pub fn samples(&self) -> (r: &Vec<S>)
        ensures
            r@ == self.samples_view(),
    {
        &self.samples
    }
}

impl<S: Copy> SampleCursor<S> {
    /// The next sample, or `None` once every sample has been handed out.
    pub fn next(&mut self) -> (r: Option<S>)
        requires
            old(self).well_formed(),
        ensures
            final(self).well_formed(),
            final(self).samples_view() == old(self).samples_view(),
            old(self).position() < old(self).samples_view().len() ==> {
                &&& r == Some(old(self).samples_view()[old(self).position() as int])
                &&& final(self).position() == old(self).position() + 1
            },
            old(self).position() >= old(self).samples_view().len() ==> {
                &&& r.is_none()
                &&& final(self).position() == old(self).position()
            },
    {
        if self.index < self.samples.len() {
            let sample = self.samples[self.index];
            self.index = self.index + 1;
            Some(sample)
        } else {
            None
        }
    }
}

} // verus!
