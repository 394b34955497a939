//! The buffer a capture session fills: appended to while capture runs,
//! read by snapshot, cleared on request.

use vstd::prelude::*;

verus! {

/// Samples captured so far, in arrival order. Its only mutations are
/// appending a chunk and clearing.
pub struct CapturedBuffer<S> {
    samples: Vec<S>,
}

impl<S> View for CapturedBuffer<S> {
    type V = Seq<S>;

    closed spec fn view(&self) -> Seq<S> {
        self.samples@
    }
}

/// The chunks of `chunks`, one after the other.
pub open spec fn joined<S>(chunks: Seq<Seq<S>>) -> Seq<S>
    decreases chunks.len(),
{
    if chunks.len() == 0 {
        Seq::empty()
    } else {
        joined(chunks.drop_last()) + chunks.last()
    }
}

/// A buffer that is only appended to keeps every sample: when state
/// `j + 1` is state `j` followed by chunk `j`, the last state is the first
/// followed by all the chunks in order. So a snapshot taken after capture
/// stops holds every sample appended before it.
pub proof fn lemma_appended_samples_kept<S>(states: Seq<Seq<S>>, chunks: Seq<Seq<S>>)
    requires
        states.len() == chunks.len() + 1,
        forall|j: int| 0 <= j < chunks.len() ==> #[trigger] states[j + 1] == states[j] + chunks[j],
    ensures
        states.last() == states[0] + joined(chunks),
    decreases chunks.len(),
{
    if chunks.len() == 0 {
        assert(states[0] + joined(chunks) =~= states[0]);
    } else {
        let k = chunks.len() - 1;
        let earlier_states = states.drop_last();
        let earlier_chunks = chunks.drop_last();
        assert forall|j: int| 0 <= j < earlier_chunks.len() implies #[trigger] earlier_states[j + 1]
            == earlier_states[j] + earlier_chunks[j] by {
            assert(states[j + 1] == states[j] + chunks[j]);
        }
        lemma_appended_samples_kept(earlier_states, earlier_chunks);
        assert(states[k + 1] == states[k] + chunks[k]);
        assert(states.last() =~= states[0] + joined(chunks));
    }
}

impl<S> CapturedBuffer<S> {
    /// An empty buffer.
    pub fn new() -> (r: Self)
        ensures
            r@ == Seq::<S>::empty(),
    {
        CapturedBuffer { samples: Vec::new() }
    }

    /// Number of samples held.
    pub fn len(&self) -> (r: usize)
        ensures
            r == self@.len(),
    {
        self.samples.len()
    }

    /// Drops every sample.
    pub fn clear(&mut self)
        ensures
            final(self)@ == Seq::<S>::empty(),
    {
        self.samples = Vec::new();
    }
}

impl<S: Copy> CapturedBuffer<S> {
    /// Appends a chunk after the samples already held.
    pub fn append(&mut self, chunk: &[S])
        ensures
            final(self)@ == old(self)@ + chunk@,
    {
        let mut i: usize = 0;
        while i < chunk.len()
            invariant
                i <= chunk@.len(),
                self@ == old(self)@ + chunk@.subrange(0, i as int),
            decreases chunk@.len() - i,
        {
            self.samples.push(chunk[i]);
            i = i + 1;
            assert(chunk@.subrange(0, i as int) =~= chunk@.subrange(0, i - 1) + seq![chunk@[i - 1]]);
        }
        assert(chunk@.subrange(0, i as int) =~= chunk@);
    }

    /// A copy of the samples held, independent of later appends.
    pub fn snapshot(&self) -> (r: Vec<S>)
        ensures
            r@ == self@,
    {
        let mut copy: Vec<S> = Vec::new();
        let mut i: usize = 0;
        while i < self.samples.len()
            invariant
                i <= self@.len(),
                copy@ == self@.subrange(0, i as int),
            decreases self@.len() - i,
        {
            copy.push(self.samples[i]);
            i = i + 1;
            assert(copy@ =~= self@.subrange(0, i as int));
        }
        assert(copy@ =~= self@);
        copy
    }
}

} // verus!
