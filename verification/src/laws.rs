use vstd::prelude::*;
use crate::engine::{conforms, lemma_registered_extends, registered, returned, ActionView, Call};
use crate::joint::PromiseJoint;
use crate::promise::{lemma_wf_extends, PromiseView, SubtypeView};
use crate::types::PromiseIndex;

verus! {

/// A promise after `times` finalizations, the engine answering `index` where it is asked.
pub open spec fn finalized(promise: PromiseView, index: PromiseIndex, times: nat) -> PromiseView
    decreases times,
{
    if times == 0 {
        promise
    } else {
        finalized(promise, index, (times - 1) as nat).constructed(index)
    }
}

/// The requests that `times` finalizations of a promise make, one after the other, the engine
/// answering `index` where it is asked.
pub open spec fn finalize_calls(promise: PromiseView, index: PromiseIndex, times: nat) -> Seq<Call>
    decreases times,
{
    if times == 0 {
        Seq::empty()
    } else {
        finalize_calls(promise, index, (times - 1) as nat) + finalized(
            promise,
            index,
            (times - 1) as nat,
        ).construct_calls(index)
    }
}

/// Finalizing a promise once more changes nothing and requests nothing.
///
/// Let a promise be finalized with the engine answering `first`, and then again, answering
/// `second`. Then `second` is `first`; the second finalization leaves the promise as the first
/// left it; and it requests nothing of the engine: the node is not opened again, no action is
/// requested again, and the return value is not named again.
pub proof fn lemma_finalize_again(promise: PromiseView, first: PromiseIndex, second: PromiseIndex)
    requires
        promise.admits(first),
        promise.constructed(first).admits(second),
    ensures
        second == first,
        promise.constructed(first).constructed(second) == promise.constructed(first),
        promise.constructed(first).construct_calls(second) == Seq::<Call>::empty(),
{
}

/// However often a promise is finalized, the engine is asked what the first finalization asks.
///
/// Let a promise be finalized `times` times, at least once, by `construct_recursively`, as the
/// first operand of `then` or as an operand of `and`. Then the promise is as the first
/// finalization left it, and all the requests together are those of the first finalization: the
/// node is opened once, each action is requested once, and the return value is named once if
/// the promise is marked, and not at all if it is not.
pub proof fn lemma_finalize_many(promise: PromiseView, index: PromiseIndex, times: nat)
    requires
        promise.admits(index),
        times >= 1,
    ensures
        finalized(promise, index, times) == promise.constructed(index),
        finalize_calls(promise, index, times) == promise.construct_calls(index),
    decreases times,
{
    if times == 1 {
        assert(finalized(promise, index, 0) == promise);
        assert(finalize_calls(promise, index, 0) == Seq::<Call>::empty());
        assert(Seq::<Call>::empty() + promise.construct_calls(index) == promise.construct_calls(
            index,
        ));
    } else {
        lemma_finalize_many(promise, index, (times - 1) as nat);
        lemma_finalize_again(promise, index, index);
        assert(promise.construct_calls(index) + Seq::<Call>::empty() == promise.construct_calls(
            index,
        ));
    }
}

/// A batch that waits for another is opened after an index that the engine knows.
///
/// Let `then` finalize `first`, the engine answering `after`, and make `next`, a batch not yet
/// registered that waited for nothing, wait for it. When `then` returns, the engine has served
/// every request that finalizes `first`, `first` is registered as `after`, and `next` waits for
/// `after`. When `next` is finalized later, whatever was requested in between, its first request
/// opens a batch after `after`; that request comes after all those that finalized `first`, and
/// `after` is registered in what the engine has seen before it.
pub proof fn lemma_predecessor_registered(
    first: PromiseView,
    next: PromiseView,
    trace: Seq<Call>,
    after: PromiseIndex,
    between: Seq<Call>,
    index: PromiseIndex,
)
    requires
        first.wf(trace),
        first.admits(after),
        next.accepts_predecessor(),
        !next.is_registered(),
    ensures
        ({
            let first_calls = first.construct_calls(after);
            let sequenced = trace + first_calls;
            let chained = next.with_predecessor(after);
            let next_calls = chained.construct_calls(index);
            let whole = sequenced + between + next_calls;
            let opening = (sequenced.len() + between.len()) as int;
            &&& first.constructed(after).subtype.promise_index() == Some(after)
            &&& registered(sequenced, after)
            &&& chained.subtype matches SubtypeView::Single(single) && single.after == Some(after)
            &&& chained.wf(sequenced) == next.wf(sequenced)
            &&& next_calls.len() > 0
            &&& whole[opening] == (Call::BatchThen {
                after,
                account_id: next.subtype->Single_0.account_id,
                index,
            })
            &&& forall|k: int|
                0 <= k < first_calls.len() ==> #[trigger] whole[trace.len() + k] == first_calls[k]
            &&& trace.len() + first_calls.len() <= opening
            &&& registered(whole.take(opening), after)
        }),
{
    let first_calls = first.construct_calls(after);
    let sequenced = trace + first_calls;
    let next_calls = next.with_predecessor(after).construct_calls(index);
    let whole = sequenced + between + next_calls;
    lemma_finalize_registers(first, trace, after);
    lemma_registered_extends(sequenced, between, after);
    assert(whole.take((sequenced.len() + between.len()) as int) == sequenced + between);
}

/// A join takes no action and no predecessor.
///
/// A promise that wraps a join, as every result of `and` does, is left out by the `requires` of
/// every function that adds an action, and of `then` as the promise to be scheduled. It holds no
/// list of actions: its operands and its index are all there is to it, nothing stands for a join
/// with an action or a predecessor added, and finalizing it requests no action.
pub proof fn lemma_join_takes_nothing(promise: PromiseView, action: ActionView, after: PromiseIndex)
    requires
        promise.is_joint(),
    ensures
        !promise.accepts_actions(),
        !promise.accepts_predecessor(),
        !promise.has_predecessor(),
        promise.with_action(action) == promise,
        promise.with_predecessor(after) == promise,
        forall|index: PromiseIndex, k: int|
            0 <= k < promise.construct_calls(index).len() ==> !(
            #[trigger] promise.construct_calls(index)[k] is Action),
{
}

/// Once a promise is finalized, its index is registered, and named as the return value if the
/// promise is marked so.
pub proof fn lemma_finalize_registers(promise: PromiseView, trace: Seq<Call>, index: PromiseIndex)
    requires
        promise.wf(trace),
        promise.admits(index),
    ensures
        registered(trace + promise.construct_calls(index), index),
        promise.should_return ==> returned(trace + promise.construct_calls(index), index),
        promise.constructed(index).wf(trace + promise.construct_calls(index)),
{
    let calls = promise.construct_calls(index);
    lemma_wf_extends(promise, trace, calls);
    if !promise.is_registered() {
        // The first request of the finalization opens the node.
        assert((trace + calls)[trace.len() as int] == calls[0]);
    }
    if promise.owes_report() {
        // Its last request names the return value.
        assert((trace + calls)[trace.len() + calls.len() - 1] == (Call::Return { index }));
    }
}

/// Finalizing a promise names nothing that the engine does not know yet.
///
/// Let every request so far name only batches and joins opened before it, and let a promise be
/// finalized, the engine answering `index`. Then the same holds of the requests so far together
/// with those of the finalization: a batch is opened before its actions are requested and before
/// its index is named as the return value, and a predecessor or an operand is never named before
/// it is registered.
pub proof fn lemma_finalize_conforms(promise: PromiseView, trace: Seq<Call>, index: PromiseIndex)
    requires
        conforms(trace),
        promise.wf(trace),
        promise.admits(index),
    ensures
        conforms(trace + promise.construct_calls(index)),
{
    let calls = promise.construct_calls(index);
    let longer = trace + calls;
    assert forall|k: int, named: PromiseIndex|
        0 <= k < longer.len() && #[trigger] longer[k].refers_to(named) implies registered(
        longer.take(k),
        named,
    ) by {
        if k < trace.len() {
            assert(longer.take(k) == trace.take(k));
        } else {
            let at = k - trace.len();
            let before = longer.take(k);
            if at == 0 {
                // The opening of a batch or join, or the return of a registered one: it names
                // what the promise held before.
                assert(before == trace);
            } else {
                // An action or the return of what this finalization opened.
                assert(before[trace.len() as int] == calls[0]);
            }
        }
    }
}

/// Both operands of a join are registered, with all their actions, before the join is.
///
/// Let `and` finalize `left` and `right`, the engine answering `promise_a` and `promise_b`, and
/// let the join be finalized later, whatever was requested in between, the engine answering
/// `index`. Then the join is requested once, as the last request; every request that finalizes
/// an operand comes earlier; and both operands are registered in what the engine has seen before
/// the join is requested.
pub proof fn lemma_operands_before_join(
    left: PromiseView,
    right: PromiseView,
    trace: Seq<Call>,
    promise_a: PromiseIndex,
    promise_b: PromiseIndex,
    between: Seq<Call>,
    index: PromiseIndex,
)
    requires
        left.wf(trace),
        right.wf(trace),
        left.admits(promise_a),
        right.admits(promise_b),
    ensures
        ({
            let left_calls = left.construct_calls(promise_a);
            let right_calls = right.construct_calls(promise_b);
            let joined = trace + left_calls + right_calls + between;
            let joint = PromiseJoint { promise_a, promise_b, promise_index: None };
            let finalized = joined + joint.construct_calls(index);
            &&& finalized.len() == joined.len() + 1
            &&& finalized.last() == (Call::And { promise_a, promise_b, index })
            &&& forall|k: int|
                0 <= k < left_calls.len() ==> #[trigger] finalized[trace.len() + k]
                    == left_calls[k]
            &&& forall|k: int|
                0 <= k < right_calls.len() ==> #[trigger] finalized[trace.len()
                    + left_calls.len() + k] == right_calls[k]
            &&& trace.len() + left_calls.len() + right_calls.len() <= joined.len()
            &&& registered(joined, promise_a)
            &&& registered(joined, promise_b)
            &&& joint.wf(joined)
        }),
{
    let left_calls = left.construct_calls(promise_a);
    let right_calls = right.construct_calls(promise_b);
    lemma_finalize_registers(left, trace, promise_a);
    lemma_wf_extends(right, trace, left_calls);
    lemma_finalize_registers(right, trace + left_calls, promise_b);
    lemma_registered_extends(trace + left_calls, right_calls, promise_a);
    lemma_registered_extends(trace + left_calls + right_calls, between, promise_a);
    lemma_registered_extends(trace + left_calls + right_calls, between, promise_b);
}

/// A promise marked as the return value reports its own index, once.
///
/// Let a promise of which the engine has not been told be marked by `as_return` and then
/// finalized, the engine answering `index`. Then the last request of the finalization names
/// `index`, the index under which the promise itself is registered from then on, as the return
/// value, and no other request of it names a return value. From then on the promise has
/// reported: however often it is marked or finalized again, the return value is not named again.
pub proof fn lemma_return_reported_once(
    promise: PromiseView,
    index: PromiseIndex,
    again: PromiseIndex,
    times: nat,
)
    requires
        promise.admits(index),
        !promise.reported,
        times >= 1,
    ensures
        ({
            let marked = promise.as_return();
            let calls = marked.construct_calls(index);
            let done = marked.constructed(index);
            &&& calls.len() > 0
            &&& calls.last() == (Call::Return { index })
            &&& forall|k: int| 0 <= k < calls.len() - 1 ==> !(#[trigger] calls[k] is Return)
            &&& done.subtype.promise_index() == Some(index)
            &&& done.reported
            &&& done.as_return() == done
            &&& done.construct_calls(again) == Seq::<Call>::empty()
            &&& finalize_calls(marked, index, times) == calls
        }),
{
    lemma_finalize_many(promise.as_return(), index, times);
}

/// A promise of which the engine has been told names no return value again.
///
/// Whatever is done with it, marking it again or making it wait for another promise, its
/// finalization requests no return value.
pub proof fn lemma_reported_stays_reported(
    promise: PromiseView,
    index: PromiseIndex,
    after: PromiseIndex,
)
    requires
        promise.reported,
    ensures
        promise.as_return().reported,
        promise.with_predecessor(after).reported,
        promise.constructed(index).reported,
        forall|k: int|
            0 <= k < promise.construct_calls(index).len() ==> !(
            #[trigger] promise.construct_calls(index)[k] is Return),
        forall|k: int|
            0 <= k < promise.as_return().construct_calls(index).len() ==> !(
            #[trigger] promise.as_return().construct_calls(index)[k] is Return),
{
}

/// Registration is final.
///
/// A registered promise keeps its index when it is marked as the return value, made to wait for
/// another promise, or finalized again; it takes no more actions; and finalizing it asks the
/// engine to register nothing.
pub proof fn lemma_registration_is_final(
    promise: PromiseView,
    index: PromiseIndex,
    after: PromiseIndex,
    again: PromiseIndex,
)
    requires
        promise.subtype.promise_index() == Some(index),
    ensures
        !promise.accepts_actions(),
        promise.as_return().subtype.promise_index() == Some(index),
        promise.with_predecessor(after).subtype.promise_index() == Some(index),
        promise.admits(again) ==> again == index && promise.constructed(again).subtype
            == promise.subtype,
        promise.subtype.construct_calls(again) == Seq::<Call>::empty(),
        promise.as_return().subtype.construct_calls(again) == Seq::<Call>::empty(),
        promise.with_predecessor(after).subtype.construct_calls(again) == Seq::<Call>::empty(),
{
}

/// A predecessor is set once.
///
/// A batch that waits for another cannot be made to wait again, and keeps its predecessor when
/// an action is added, when it is marked as the return value and when it is finalized.
pub proof fn lemma_predecessor_is_kept(
    promise: PromiseView,
    after: PromiseIndex,
    action: ActionView,
    index: PromiseIndex,
)
    requires
        promise.subtype matches SubtypeView::Single(single) && single.after == Some(after),
    ensures
        !promise.accepts_predecessor(),
        promise.with_action(action).subtype->Single_0.after == Some(after),
        promise.as_return().subtype->Single_0.after == Some(after),
        promise.constructed(index).subtype->Single_0.after == Some(after),
{
}

} // verus!
