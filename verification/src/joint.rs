use vstd::prelude::*;
use crate::engine::{lemma_registered_by, lemma_registered_extends, registered, Call, Engine};
use crate::types::PromiseIndex;

verus! {

/// A join: the point at which two registered batches or joins have both finished. It takes no
/// actions of its own.
pub struct PromiseJoint {
    /// Index of the first of the two.
    pub promise_a: PromiseIndex,
    /// Index of the second of the two.
    pub promise_b: PromiseIndex,
    /// Index that the engine gave this join; it is asked for only once.
    pub promise_index: Option<PromiseIndex>,
}

impl PromiseJoint {
    /// Every index that the join holds was handed out in `trace`.
    pub open spec fn wf(self, trace: Seq<Call>) -> bool {
        &&& registered(trace, self.promise_a)
        &&& registered(trace, self.promise_b)
        &&& self.promise_index matches Some(index) ==> registered(trace, index)
    }

    /// Whether registering the join can yield `index`: a registered join yields the index it
    /// has, an unregistered one whatever the engine answers.
    pub open spec fn admits(self, index: PromiseIndex) -> bool {
        self.promise_index matches Some(known) ==> index == known
    }

    /// The request that registers the join as `index`.
    pub open spec fn registration(self, index: PromiseIndex) -> Seq<Call> {
        seq![Call::And { promise_a: self.promise_a, promise_b: self.promise_b, index }]
    }

    /// The requests that `construct_recursively` makes when the engine answers `index`: the
    /// registration for a join not yet registered, none for a registered one.
    pub open spec fn construct_calls(self, index: PromiseIndex) -> Seq<Call> {
        if self.promise_index is Some {
            Seq::empty()
        } else {
            self.registration(index)
        }
    }

    /// The join once it is registered as `index`.
    pub open spec fn constructed(self, index: PromiseIndex) -> PromiseJoint {
        PromiseJoint { promise_index: Some(index), ..self }
    }

    /// Registers the join with the engine unless that was done before, and returns its index.
    ///
    /// The first call asks the engine for a join of the two indices and keeps the answer. Every
    /// later call returns that index and requests nothing.
    pub fn construct_recursively<E: Engine>(&mut self, engine: &mut E) -> (index: PromiseIndex)
        requires
            old(self).wf(old(engine).trace()),
        ensures
            old(self).admits(index),
            *final(self) == old(self).constructed(index),
            final(engine).trace() == old(engine).trace() + old(self).construct_calls(index),
            final(self).wf(final(engine).trace()),
    {
        if let Some(res) = self.promise_index {
            return res;
        }
        let res = engine.promise_and(self.promise_a, self.promise_b);
        self.promise_index = Some(res);
        proof {
            let calls = old(self).registration(res);
            lemma_registered_by(old(engine).trace(), calls[0], res);
            lemma_registered_extends(old(engine).trace(), calls, self.promise_a);
            lemma_registered_extends(old(engine).trace(), calls, self.promise_b);
        }
        res
    }
}

} // verus!
