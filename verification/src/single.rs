use vstd::prelude::*;
use crate::action::PromiseAction;
use crate::engine::{
    lemma_registered_by, lemma_registered_extends, registered, ActionView, Call, Engine,
};
use crate::types::{AccountId, PromiseIndex};

verus! {

/// A batch: the actions meant for one account, in the order in which they will run.
pub struct PromiseSingle {
    /// The account on which the actions act.
    pub account_id: AccountId,
    /// The actions, oldest first.
    pub actions: Vec<PromiseAction>,
    /// The batch or join that this batch waits for, if any.
    pub after: Option<PromiseIndex>,
    /// Index that the engine gave this batch; it is asked for only once.
    pub promise_index: Option<PromiseIndex>,
}

/// A batch as a mathematical value.
pub struct SingleView {
    pub account_id: Seq<char>,
    pub actions: Seq<ActionView>,
    pub after: Option<PromiseIndex>,
    pub promise_index: Option<PromiseIndex>,
}

/// The requests that append `actions`, in order, to the batch `index`.
pub open spec fn action_calls(actions: Seq<ActionView>, index: PromiseIndex) -> Seq<Call> {
    actions.map_values(|action: ActionView| Call::Action { index, action })
}

impl SingleView {
    /// A batch for `account_id` with no action, no predecessor and no index yet.
    pub open spec fn fresh(account_id: Seq<char>) -> SingleView {
        SingleView { account_id, actions: Seq::empty(), after: None, promise_index: None }
    }

    /// Every index that the batch holds was handed out in `trace`.
    pub open spec fn wf(self, trace: Seq<Call>) -> bool {
        &&& self.after matches Some(after) ==> registered(trace, after)
        &&& self.promise_index matches Some(index) ==> registered(trace, index)
    }

    /// Whether registering the batch can yield `index`: a registered batch yields the index it
    /// has, an unregistered one whatever the engine answers.
    pub open spec fn admits(self, index: PromiseIndex) -> bool {
        self.promise_index matches Some(known) ==> index == known
    }

    /// The request that opens the batch, answered with `index`.
    pub open spec fn opening(self, index: PromiseIndex) -> Call {
        match self.after {
            Some(after) => Call::BatchThen { after, account_id: self.account_id, index },
            None => Call::BatchCreate { account_id: self.account_id, index },
        }
    }

    /// The requests that register the batch as `index`: its opening, then its actions in order.
    pub open spec fn registration(self, index: PromiseIndex) -> Seq<Call> {
        seq![self.opening(index)] + action_calls(self.actions, index)
    }

    /// The requests that `construct_recursively` makes when the engine answers `index`: the
    /// registration for a batch not yet registered, none for a registered one.
    pub open spec fn construct_calls(self, index: PromiseIndex) -> Seq<Call> {
        if self.promise_index is Some {
            Seq::empty()
        } else {
            self.registration(index)
        }
    }

    /// The batch once it is registered as `index`.
    pub open spec fn constructed(self, index: PromiseIndex) -> SingleView {
        SingleView { promise_index: Some(index), ..self }
    }
}

impl View for PromiseSingle {
    type V = SingleView;

    open spec fn view(&self) -> SingleView {
        SingleView {
            account_id: self.account_id@,
            actions: self.actions@.map_values(|action: PromiseAction| action@),
            after: self.after,
            promise_index: self.promise_index,
        }
    }
}

impl PromiseSingle {
    /// Registers the batch with the engine unless that was done before, and returns its index.
    ///
    /// The first call opens a batch (after the predecessor, where there is one), requests every
    /// action in order and keeps the index. Every later call returns that index and requests
    /// nothing.
    pub fn construct_recursively<E: Engine>(&mut self, engine: &mut E) -> (index: PromiseIndex)
        requires
            old(self)@.wf(old(engine).trace()),
        ensures
            old(self)@.admits(index),
            final(self)@ == old(self)@.constructed(index),
            final(engine).trace() == old(engine).trace() + old(self)@.construct_calls(index),
            final(self)@.wf(final(engine).trace()),
    {
        if let Some(res) = self.promise_index {
            return res;
        }
        let promise_index = if let Some(after) = self.after {
            engine.promise_batch_then(after, &self.account_id)
        } else {
            engine.promise_batch_create(&self.account_id)
        };
        proof {
            lemma_registered_by(old(engine).trace(), self@.opening(promise_index), promise_index);
        }
        let mut i: usize = 0;
        while i < self.actions.len()
            invariant
                *self == *old(self),
                i <= self.actions.len(),
                registered(engine.trace(), promise_index),
                engine.trace() == old(engine).trace() + self@.registration(promise_index).subrange(
                    0,
                    i + 1,
                ),
            decreases self.actions.len() - i,
        {
            let ghost before = engine.trace();
            self.actions[i].add(promise_index, engine);
            proof {
                let call = Call::Action { index: promise_index, action: self.actions[i as int]@ };
                lemma_registered_extends(before, seq![call], promise_index);
                assert(before.push(call) == before + seq![call]);
            }
            i += 1;
        }
        self.promise_index = Some(promise_index);
        proof {
            let calls = old(self)@.registration(promise_index);
            if let Some(after) = self.after {
                lemma_registered_extends(old(engine).trace(), calls, after);
            }
        }
        promise_index
    }
}

} // verus!
